//! The device's native text encoding.
//!
//! Display hardware knows nothing of ASCII: label text is translated
//! byte by byte into glyph indexes, with a small set of `{NAME}` escape
//! sequences for control codes, and terminated by a sentinel byte. An
//! encoded string is a [`Pkstr`]; a fixed-capacity one built on the stack
//! is an [`ArrayPkstr`].

use vstd::prelude::*;
use vstd::string::StringSliceAdditionalSpecFns;

verus! {

/// The sentinel byte that terminates every encoded string.
pub const PKSTR_END: u8 = 0xFF;

/// The capacity of a fixed-capacity encoded string.
pub const ARRAY_PKSTR_CAP: usize = 16;

#[verifier::external_type_specification]
#[verifier::external_body]
#[verifier::reject_recursive_types(T)]
pub struct ExArrayVec<T, const CAP: usize>(arrayvec::ArrayVec<T, CAP>);

/// The bytes a fixed-capacity byte vector holds, in order.
pub uninterp spec fn stored_bytes(v: &arrayvec::ArrayVec<u8, 16>) -> Seq<u8>;

/// Relies on arrayvec::ArrayVec::new: a fresh vector holds no elements.
#[verifier::external_body]
fn av_new() -> (r: arrayvec::ArrayVec<u8, 16>)
    ensures
        stored_bytes(&r) == Seq::<u8>::empty(),
{
    arrayvec::ArrayVec::new()
}

/// Relies on arrayvec::ArrayVec::push: appends the element at the end;
/// push on a full vector panics, which the bound on the length excludes.
#[verifier::external_body]
fn av_push(v: &mut arrayvec::ArrayVec<u8, 16>, b: u8)
    requires
        stored_bytes(old(v)).len() < 16,
    ensures
        stored_bytes(final(v)) == stored_bytes(old(v)).push(b),
{
    v.push(b)
}

/// Relies on arrayvec::ArrayVec::len: the number of elements held.
#[verifier::external_body]
fn av_len(v: &arrayvec::ArrayVec<u8, 16>) -> (r: usize)
    ensures
        r == stored_bytes(v).len(),
{
    v.len()
}

/// Relies on arrayvec::ArrayVec::as_slice: a view of all elements in order.
#[verifier::external_body]
fn av_as_slice(v: &arrayvec::ArrayVec<u8, 16>) -> (r: &[u8])
    ensures
        r@ == stored_bytes(v),
{
    v.as_slice()
}

/// The glyph index for one ASCII byte. Bytes without a glyph of their own
/// render as the dash glyph; NUL maps to the end sentinel.
pub open spec fn spec_map(c: u8) -> u8 {
    if 97 <= c && c <= 122 {
        (c - 97 + 0xd5) as u8
    } else if 65 <= c && c <= 90 {
        (c - 65 + 0xbb) as u8
    } else if 48 <= c && c <= 57 {
        (c - 48 + 0xa1) as u8
    } else if c == 32 {
        0x00
    } else if c == 33 {
        0xAB
    } else if c == 63 {
        0xAC
    } else if c == 46 {
        0xAD
    } else if c == 45 {
        0xAE
    } else if c == 95 {
        0xAE
    } else if c == 58 {
        0xF0
    } else if c == 62 {
        0x86
    } else if c == 60 {
        0x85
    } else if c == 41 {
        0x5D
    } else if c == 40 {
        0x5C
    } else if c == 44 {
        0x35
    } else if c == 43 {
        0x2E
    } else if c == 38 {
        0x2D
    } else if c == 47 {
        0xBA
    } else if c == 0 {
        0xFF
    } else {
        0xAE
    }
}

/// The glyph index for one ASCII byte.
pub fn map(c: u8) -> (r: u8)
    ensures
        r == spec_map(c),
{
    if 97 <= c && c <= 122 {
        c - 97 + 0xd5
    } else if 65 <= c && c <= 90 {
        c - 65 + 0xbb
    } else if 48 <= c && c <= 57 {
        c - 48 + 0xa1
    } else if c == 32 {
        0x00
    } else if c == 33 {
        0xAB
    } else if c == 63 {
        0xAC
    } else if c == 46 {
        0xAD
    } else if c == 45 {
        0xAE
    } else if c == 95 {
        0xAE
    } else if c == 58 {
        0xF0
    } else if c == 62 {
        0x86
    } else if c == 60 {
        0x85
    } else if c == 41 {
        0x5D
    } else if c == 40 {
        0x5C
    } else if c == 44 {
        0x35
    } else if c == 43 {
        0x2E
    } else if c == 38 {
        0x2D
    } else if c == 47 {
        0xBA
    } else if c == 0 {
        0xFF
    } else {
        0xAE
    }
}

/// The name of the pause escape.
pub open spec fn pause_label() -> Seq<u8> {
    seq![80, 65, 85, 83, 69]
}

/// The name of the paragraph escape.
pub open spec fn paragraph_label() -> Seq<u8> {
    seq![80, 65, 82, 65, 71, 82, 65, 80, 72]
}

/// The control bytes an escape name stands for; `None` for an unknown name.
pub open spec fn spec_map_special(s: Seq<u8>) -> Option<Seq<u8>> {
    if s == pause_label() {
        Some(seq![0xFC, 0x09])
    } else if s == paragraph_label() || s == seq![80u8] {
        Some(seq![0xFB])
    } else {
        None
    }
}

fn is_pause(s: &Vec<u8>) -> (r: bool)
    ensures
        r == (s@ == pause_label()),
{
    if s.len() == 5 && s[0] == 80 && s[1] == 65 && s[2] == 85 && s[3] == 83 && s[4]
        == 69 {
        proof {
            assert(s@ =~= pause_label());
        }
        true
    } else {
        proof {
            if s@.len() == 5 {
                assert(pause_label()[0] == 80 && pause_label()[1] == 65 && pause_label()[2]
                    == 85 && pause_label()[3] == 83 && pause_label()[4] == 69);
            }
        }
        false
    }
}

fn is_paragraph(s: &Vec<u8>) -> (r: bool)
    ensures
        r == (s@ == paragraph_label()),
{
    if s.len() == 9 && s[0] == 80 && s[1] == 65 && s[2] == 82 && s[3] == 65 && s[4] == 71
        && s[5] == 82 && s[6] == 65 && s[7] == 80 && s[8] == 72 {
        proof {
            assert(s@ =~= paragraph_label());
        }
        true
    } else {
        proof {
            if s@.len() == 9 {
                let p = paragraph_label();
                assert(p[0] == 80 && p[1] == 65 && p[2] == 82 && p[3] == 65 && p[4] == 71
                    && p[5] == 82 && p[6] == 65 && p[7] == 80 && p[8] == 72);
            }
        }
        false
    }
}

/// The control bytes an escape name stands for; `None` for an unknown name.
pub fn map_special(s: &Vec<u8>) -> (r: Option<Vec<u8>>)
    ensures
        match r {
            Some(v) => spec_map_special(s@) == Some(v@),
            None => spec_map_special(s@).is_none(),
        },
{
    if is_pause(s) {
        let mut v: Vec<u8> = Vec::new();
        v.push(0xFC);
        v.push(0x09);
        proof {
            assert(v@ =~= seq![0xFCu8, 0x09u8]);
        }
        Some(v)
    } else if is_paragraph(s) || (s.len() == 1 && s[0] == 80) {
        let mut v: Vec<u8> = Vec::new();
        v.push(0xFB);
        proof {
            assert(v@ =~= seq![0xFBu8]);
            if s@.len() == 1 && s@[0] == 80 {
                assert(s@ =~= seq![80u8]);
            }
        }
        Some(v)
    } else {
        proof {
            assert(seq![80u8].len() == 1 && seq![80u8][0] == 80);
        }
        None
    }
}

/// The position of the first occurrence of `c` in `s`, if any.
pub open spec fn spec_index_of(s: Seq<u8>, c: u8) -> Option<nat>
    decreases s.len(),
{
    if s.len() == 0 {
        None
    } else if s[0] == c {
        Some(0)
    } else {
        match spec_index_of(s.skip(1), c) {
            None => None,
            Some(j) => Some(j + 1),
        }
    }
}

/// What a found index means: it is in bounds, it hits `c`, and nothing
/// before it does.
pub proof fn lemma_index_of_props(s: Seq<u8>, c: u8)
    ensures
        match spec_index_of(s, c) {
            Some(j) => j < s.len() && s[j as int] == c && forall|k: int|
                0 <= k < j ==> s[k] != c,
            None => forall|k: int| 0 <= k < s.len() ==> s[k] != c,
        },
    decreases s.len(),
{
    if s.len() > 0 && s[0] != c {
        lemma_index_of_props(s.skip(1), c);
        match spec_index_of(s.skip(1), c) {
            Some(j) => {
                assert(s[j as int + 1] == s.skip(1)[j as int]);
                assert forall|k: int| 0 <= k < j + 1 implies s[k] != c by {
                    if k > 0 {
                        assert(s[k] == s.skip(1)[k - 1]);
                    }
                }
            },
            None => {
                assert forall|k: int| 0 <= k < s.len() implies s[k] != c by {
                    if k > 0 {
                        assert(s[k] == s.skip(1)[k - 1]);
                    }
                }
            },
        }
    }
}

proof fn lemma_index_of_fixed(s: Seq<u8>, c: u8, j: nat)
    requires
        j < s.len(),
        s[j as int] == c,
        forall|k: int| 0 <= k < j ==> s[k] != c,
    ensures
        spec_index_of(s, c) == Some(j),
    decreases j,
{
    if j > 0 {
        assert(s.skip(1)[j - 1] == s[j as int]);
        assert forall|k: int| 0 <= k < j - 1 implies s.skip(1)[k] != c by {
            assert(s.skip(1)[k] == s[k + 1]);
        }
        lemma_index_of_fixed(s.skip(1), c, (j - 1) as nat);
    }
}

proof fn lemma_index_of_none(s: Seq<u8>, c: u8)
    requires
        forall|k: int| 0 <= k < s.len() ==> s[k] != c,
    ensures
        spec_index_of(s, c) == None::<nat>,
    decreases s.len(),
{
    if s.len() > 0 {
        assert forall|k: int| 0 <= k < s.skip(1).len() implies s.skip(1)[k] != c by {
            assert(s.skip(1)[k] == s[k + 1]);
        }
        lemma_index_of_none(s.skip(1), c);
    }
}

/// The position of the first occurrence of `check` in `input`, if any.
pub fn index_of(input: &Vec<u8>, check: u8) -> (r: Option<usize>)
    ensures
        match r {
            Some(j) => spec_index_of(input@, check) == Some(j as nat),
            None => spec_index_of(input@, check).is_none(),
        },
{
    let mut i: usize = 0;
    let len = input.len();
    while i < len
        invariant
            i <= len,
            len == input@.len(),
            forall|k: int| 0 <= k < i ==> input@[k] != check,
        decreases len - i,
    {
        if input[i] == check {
            proof {
                lemma_index_of_fixed(input@, check, i as nat);
            }
            return Some(i);
        }
        i = i + 1;
    }
    proof {
        lemma_index_of_none(input@, check);
    }
    None
}

/// The encoded body of `s` (without the end sentinel): each byte becomes
/// its glyph index, and each `{NAME}` escape becomes its control bytes.
/// `None` when an escape is unterminated or names no control code.
pub open spec fn spec_pkstr_body(s: Seq<u8>) -> Option<Seq<u8>>
    decreases s.len(),
    via spec_pkstr_body_decreases
{
    if s.len() == 0 {
        Some(Seq::empty())
    } else if s[0] == 123 {
        match spec_index_of(s.skip(1), 125) {
            None => None,
            Some(j) => match spec_map_special(s.skip(1).take(j as int)) {
                None => None,
                Some(esc) => match spec_pkstr_body(s.skip(j as int + 2)) {
                    None => None,
                    Some(rest) => Some(esc + rest),
                },
            },
        }
    } else {
        match spec_pkstr_body(s.skip(1)) {
            None => None,
            Some(rest) => Some(seq![spec_map(s[0])] + rest),
        }
    }
}

#[via_fn]
proof fn spec_pkstr_body_decreases(s: Seq<u8>) {
    if s.len() > 0 && s[0] == 123 {
        lemma_index_of_props(s.skip(1), 125);
    }
}

/// The whole encoding of `s`: its body followed by the end sentinel.
pub open spec fn spec_pkstr(s: Seq<u8>) -> Option<Seq<u8>> {
    match spec_pkstr_body(s) {
        None => None,
        Some(body) => Some(body.push(PKSTR_END)),
    }
}

/// Encode `input`, end sentinel included. `None` exactly when `input`
/// holds a malformed or unknown escape.
pub fn pkstr_build(input: &Vec<u8>) -> (r: Option<Vec<u8>>)
    ensures
        match r {
            Some(v) => spec_pkstr(input@) == Some(v@),
            None => spec_pkstr(input@).is_none(),
        },
{
    let mut out: Vec<u8> = Vec::new();
    let mut i: usize = 0;
    let len = input.len();
    proof {
        assert(input@.skip(0) =~= input@);
        if spec_pkstr_body(input@).is_some() {
            assert(Seq::<u8>::empty() + spec_pkstr_body(input@).unwrap() =~= spec_pkstr_body(
                input@,
            ).unwrap());
        }
    }
    while i < len
        invariant
            i <= len,
            len == input@.len(),
            spec_pkstr_body(input@) == match spec_pkstr_body(input@.skip(i as int)) {
                None => None::<Seq<u8>>,
                Some(t) => Some(out@ + t),
            },
        decreases len - i,
    {
        let c = input[i];
        if c == 123 {
            let mut j: usize = i + 1;
            while j < len && input[j] != 125
                invariant
                    i + 1 <= j <= len,
                    len == input@.len(),
                    forall|k: int| i + 1 <= k < j ==> input@[k] != 125,
                decreases len - j,
            {
                j = j + 1;
            }
            let ghost suffix = input@.skip(i as int);
            proof {
                assert(suffix[0] == 123);
                assert(suffix.skip(1) =~= input@.skip(i + 1));
            }
            if j == len {
                proof {
                    assert forall|k: int| 0 <= k < input@.skip(i + 1).len() implies #[trigger] input@.skip(i + 1)[k] != 125 by {
                        assert(input@.skip(i + 1)[k] == input@[k + i + 1]);
                    }
                    lemma_index_of_none(input@.skip(i + 1), 125);
                }
                return None;
            }
            proof {
                assert(input@.skip(i + 1)[(j - i - 1) as int] == input@[j as int]);
                assert forall|k: int| 0 <= k < j - i - 1 implies #[trigger] input@.skip(i + 1)[k] != 125 by {
                    assert(input@.skip(i + 1)[k] == input@[k + i + 1]);
                }
                lemma_index_of_fixed(input@.skip(i + 1), 125, (j - i - 1) as nat);
            }
            let mut content: Vec<u8> = Vec::new();
            let mut k: usize = i + 1;
            while k < j
                invariant
                    i + 1 <= k <= j <= len,
                    len == input@.len(),
                    content@ =~= input@.subrange(i + 1, k as int),
                decreases j - k,
            {
                content.push(input[k]);
                k = k + 1;
            }
            proof {
                assert(content@ =~= input@.skip(i + 1).take((j - i - 1) as int));
            }
            match map_special(&content) {
                None => {
                    return None;
                },
                Some(esc) => {
                    let ghost out0 = out@;
                    let mut m: usize = 0;
                    while m < esc.len()
                        invariant
                            m <= esc@.len(),
                            out@ =~= out0 + esc@.take(m as int),
                        decreases esc@.len() - m,
                    {
                        out.push(esc[m]);
                        m = m + 1;
                    }
                    proof {
                        assert(out@ =~= out0 + esc@);
                        assert(suffix.skip((j - i - 1) + 2) =~= input@.skip(j + 1));
                        if spec_pkstr_body(input@.skip(j + 1)).is_some() {
                            assert(out0 + (esc@ + spec_pkstr_body(input@.skip(j + 1)).unwrap())
                                =~= out@ + spec_pkstr_body(input@.skip(j + 1)).unwrap());
                        }
                    }
                    i = j + 1;
                },
            }
        } else {
            let ghost suffix = input@.skip(i as int);
            proof {
                assert(suffix[0] == c);
                assert(suffix.skip(1) =~= input@.skip(i + 1));
            }
            out.push(map(c));
            proof {
                if spec_pkstr_body(input@.skip(i + 1)).is_some() {
                    let rest = spec_pkstr_body(input@.skip(i + 1)).unwrap();
                    assert(out@.drop_last() + (seq![spec_map(c)] + rest) =~= out@ + rest);
                }
            }
            i = i + 1;
        }
    }
    proof {
        assert(input@.skip(len as int) =~= Seq::<u8>::empty());
        assert(out@ + Seq::<u8>::empty() =~= out@);
    }
    out.push(PKSTR_END);
    Some(out)
}

/// The encoded length of `input`, end sentinel included; `None` exactly
/// when `input` holds a malformed or unknown escape.
pub fn pkstr_bytes_len(input: &Vec<u8>) -> (r: Option<usize>)
    ensures
        match r {
            Some(n) => spec_pkstr(input@).is_some() && spec_pkstr(input@).unwrap().len() == n,
            None => spec_pkstr(input@).is_none(),
        },
{
    match pkstr_build(input) {
        None => None,
        Some(v) => Some(v.len()),
    }
}

/// Append the encoding of `input` to `buf`; nothing is written when the
/// input is malformed, and the result says which happened.
pub fn pkstr_write(buf: &mut Vec<u8>, input: &Vec<u8>) -> (r: bool)
    ensures
        r == spec_pkstr(input@).is_some(),
        r ==> final(buf)@ == old(buf)@ + spec_pkstr(input@).unwrap(),
        !r ==> final(buf)@ == old(buf)@,
{
    match pkstr_build(input) {
        None => false,
        Some(v) => {
            let ghost buf0 = buf@;
            let mut m: usize = 0;
            while m < v.len()
                invariant
                    m <= v@.len(),
                    buf@ =~= buf0 + v@.take(m as int),
                decreases v@.len() - m,
            {
                buf.push(v[m]);
                m = m + 1;
            }
            proof {
                assert(buf@ =~= buf0 + v@);
            }
            true
        },
    }
}

/// Encode plain label bytes with no escapes: every byte becomes its glyph
/// index, and the end sentinel follows.
pub fn encode_plain(input: &Vec<u8>) -> (r: Vec<u8>)
    ensures
        r@ == input@.map_values(|b: u8| spec_map(b)).push(PKSTR_END),
{
    let mut out: Vec<u8> = Vec::new();
    let mut i: usize = 0;
    let len = input.len();
    while i < len
        invariant
            i <= len,
            len == input@.len(),
            out@ =~= input@.take(i as int).map_values(|b: u8| spec_map(b)),
        decreases len - i,
    {
        out.push(map(input[i]));
        proof {
            assert(input@.take(i + 1).map_values(|b: u8| spec_map(b)) =~= input@.take(
                i as int,
            ).map_values(|b: u8| spec_map(b)).push(spec_map(input@[i as int])));
        }
        i = i + 1;
    }
    proof {
        assert(input@.take(len as int) =~= input@);
    }
    out.push(PKSTR_END);
    out
}

/// The decimal digits of `n`, most significant first, as ASCII bytes.
pub open spec fn spec_decimal(n: nat) -> Seq<u8>
    decreases n,
{
    if n < 10 {
        seq![(48 + n) as u8]
    } else {
        spec_decimal(n / 10).push((48 + n % 10) as u8)
    }
}

/// Append the decimal digits of `n`, in ASCII, to `out`.
pub fn push_decimal(out: &mut Vec<u8>, n: u16)
    ensures
        final(out)@ == old(out)@ + spec_decimal(n as nat),
    decreases n,
{
    if n < 10 {
        out.push(48 + n as u8);
        proof {
            assert(old(out)@ + spec_decimal(n as nat) =~= out@);
        }
    } else {
        push_decimal(out, n / 10);
        out.push(48 + (n % 10) as u8);
        proof {
            assert(old(out)@ + spec_decimal(n as nat) =~= out@);
        }
    }
}

/// An owned string in the device's text encoding.
#[derive(Clone, PartialEq, Eq, Debug)]
pub struct Pkstr {
    bytes: Vec<u8>,
}

impl Pkstr {
    /// The encoded bytes, in order.
    pub closed spec fn view(&self) -> Seq<u8> {
        self.bytes@
    }

    /// Wrap already-encoded bytes.
    pub fn from_bytes(bytes: Vec<u8>) -> (r: Pkstr)
        ensures
            r@ == bytes@,
    {
        Pkstr { bytes }
    }

    /// The encoded length in bytes.
    pub fn len(&self) -> (r: usize)
        ensures
            r == self@.len(),
    {
        self.bytes.len()
    }

    /// The encoded byte at position `i`.
    pub fn byte_at(&self, i: usize) -> (r: u8)
        requires
            i < self@.len(),
        ensures
            r == self@[i as int],
    {
        self.bytes[i]
    }

    /// The encoded bytes as an owned vector.
    pub fn to_bytes(&self) -> (r: Vec<u8>)
        ensures
            r@ == self@,
    {
        let mut out: Vec<u8> = Vec::new();
        let mut i: usize = 0;
        let len = self.bytes.len();
        while i < len
            invariant
                i <= len,
                len == self.bytes@.len(),
                out@ =~= self.bytes@.take(i as int),
            decreases len - i,
        {
            out.push(self.bytes[i]);
            i = i + 1;
        }
        proof {
            assert(self.bytes@.take(len as int) =~= self.bytes@);
        }
        out
    }
}

/// A fixed-capacity string in the device's text encoding, built on the
/// stack without allocation.
pub struct ArrayPkstr {
    buf: arrayvec::ArrayVec<u8, 16>,
}

impl ArrayPkstr {
    /// The encoded bytes, in order.
    pub closed spec fn view(&self) -> Seq<u8> {
        stored_bytes(&self.buf)
    }

    /// Wrap already-encoded bytes; the capacity bounds the length.
    pub fn from_slice(slice: &Vec<u8>) -> (r: ArrayPkstr)
        requires
            slice@.len() <= ARRAY_PKSTR_CAP,
        ensures
            r@ == slice@,
    {
        let mut buf = av_new();
        let mut i: usize = 0;
        let len = slice.len();
        while i < len
            invariant
                i <= len,
                len == slice@.len() <= ARRAY_PKSTR_CAP,
                stored_bytes(&buf) =~= slice@.take(i as int),
            decreases len - i,
        {
            av_push(&mut buf, slice[i]);
            i = i + 1;
        }
        proof {
            assert(slice@.take(len as int) =~= slice@);
        }
        ArrayPkstr { buf }
    }

    /// Encode an ASCII label, one glyph per byte plus the end sentinel.
    /// The label must leave room for the sentinel.
    pub fn from_str(s: &str) -> (r: ArrayPkstr)
        requires
            s@.len() + 1 <= ARRAY_PKSTR_CAP,
            vstd::string::is_ascii(s),
        ensures
            r@ == s.spec_bytes().map_values(|b: u8| spec_map(b)).push(PKSTR_END),
    {
        let bytes = s.as_bytes();
        let mut buf = av_new();
        let mut i: usize = 0;
        let len = bytes.len();
        proof {
            vstd::string::is_ascii_spec_bytes(s);
        }
        while i < len
            invariant
                i <= len,
                len == s.spec_bytes().len(),
                len + 1 <= ARRAY_PKSTR_CAP,
                bytes@ == s.spec_bytes(),
                stored_bytes(&buf) =~= s.spec_bytes().take(i as int).map_values(
                    |b: u8| spec_map(b),
                ),
            decreases len - i,
        {
            av_push(&mut buf, map(bytes[i]));
            proof {
                assert(s.spec_bytes().take(i + 1).map_values(|b: u8| spec_map(b))
                    =~= s.spec_bytes().take(i as int).map_values(|b: u8| spec_map(b)).push(
                    spec_map(s.spec_bytes()[i as int]),
                ));
            }
            i = i + 1;
        }
        proof {
            assert(s.spec_bytes().take(len as int) =~= s.spec_bytes());
        }
        av_push(&mut buf, PKSTR_END);
        ArrayPkstr { buf }
    }

    /// The encoded length in bytes.
    pub fn len(&self) -> (r: usize)
        ensures
            r == self@.len(),
    {
        av_len(&self.buf)
    }

    /// The encoded bytes as an owned string.
    pub fn to_pkstr(&self) -> (r: Pkstr)
        ensures
            r@ == self@,
    {
        let slice = av_as_slice(&self.buf);
        let mut out: Vec<u8> = Vec::new();
        let mut i: usize = 0;
        let len = slice.len();
        while i < len
            invariant
                i <= len,
                len == slice@.len(),
                slice@ == stored_bytes(&self.buf),
                out@ =~= slice@.take(i as int),
            decreases len - i,
        {
            out.push(slice[i]);
            i = i + 1;
        }
        proof {
            assert(slice@.take(len as int) =~= slice@);
        }
        Pkstr::from_bytes(out)
    }
}

} // verus!
