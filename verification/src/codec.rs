//! Compressed asset blobs and the buffers they decompress into.
//!
//! Assets are stored in a byte-run encoding: a payload is a sequence of
//! `(count, byte)` pairs, each standing for `count` repetitions of `byte`,
//! with `1 <= count <= 255`. A [`CompressedResource`] couples a payload
//! with the length the decompressed data must have and the size of the
//! elements the caller will read from it; that the declared length is a
//! whole multiple of the element size is checked when the resource is
//! built, never at use time.

use vstd::prelude::*;

verus! {

/// How many bytes beyond position `k` continue the run starting at `s[0]`,
/// stopping before the run exceeds 255 bytes.
pub open spec fn run_ext(s: Seq<u8>, k: nat) -> nat
    decreases s.len() - k,
    when k <= s.len()
{
    if k < s.len() && s[k as int] == s[0] && k < 255 {
        1 + run_ext(s, k + 1)
    } else {
        0
    }
}

/// The length of the leading run of equal bytes in `s`, capped at 255.
pub open spec fn run_len(s: Seq<u8>) -> nat {
    1 + run_ext(s, 1)
}

/// The byte-run encoding of `s`.
pub open spec fn rle_encode(s: Seq<u8>) -> Seq<u8>
    decreases s.len(),
    via rle_encode_decreases
{
    if s.len() == 0 {
        Seq::empty()
    } else {
        seq![run_len(s) as u8, s[0]] + rle_encode(s.skip(run_len(s) as int))
    }
}

#[via_fn]
proof fn rle_encode_decreases(s: Seq<u8>) {
    if s.len() > 0 {
        lemma_run_len_props(s);
    }
}

/// The decoding of a byte-run payload; `None` when the payload is
/// malformed (a trailing half pair, or a zero count).
pub open spec fn rle_decode(s: Seq<u8>) -> Option<Seq<u8>>
    decreases s.len(),
{
    if s.len() == 0 {
        Some(Seq::empty())
    } else if s.len() == 1 {
        None
    } else if s[0] == 0 {
        None
    } else {
        match rle_decode(s.skip(2)) {
            None => None,
            Some(rest) => Some(Seq::new(s[0] as nat, |i: int| s[1]) + rest),
        }
    }
}

proof fn lemma_run_ext_props(s: Seq<u8>, k: nat)
    requires
        1 <= k <= s.len(),
        k <= 255,
    ensures
        k + run_ext(s, k) <= s.len(),
        k + run_ext(s, k) <= 255,
        forall|i: int| k <= i < k + run_ext(s, k) ==> #[trigger] s[i] == s[0],
        k + run_ext(s, k) == s.len() || k + run_ext(s, k) == 255 || s[(k + run_ext(s, k)) as int]
            != s[0],
    decreases s.len() - k,
{
    if k < s.len() && s[k as int] == s[0] && k < 255 {
        lemma_run_ext_props(s, k + 1);
    }
}

/// The facts that make `run_len` a run: it is between 1 and 255, it never
/// passes the end of `s`, every byte in it equals the first, and it stops
/// only at the end, at 255 bytes, or at a differing byte.
pub proof fn lemma_run_len_props(s: Seq<u8>)
    requires
        s.len() > 0,
    ensures
        1 <= run_len(s) <= 255,
        run_len(s) <= s.len(),
        forall|i: int| 0 <= i < run_len(s) ==> #[trigger] s[i] == s[0],
        run_len(s) == s.len() || run_len(s) == 255 || s[run_len(s) as int] != s[0],
{
    lemma_run_ext_props(s, 1);
}

proof fn lemma_run_ext_fixed(s: Seq<u8>, k: nat, n: nat)
    requires
        1 <= k <= n,
        n <= s.len(),
        n <= 255,
        forall|i: int| 0 <= i < n ==> #[trigger] s[i] == s[0],
        n == s.len() || n == 255 || s[n as int] != s[0],
    ensures
        k + run_ext(s, k) == n,
    decreases n - k,
{
    if k < n {
        lemma_run_ext_fixed(s, k + 1, n);
    }
}

/// A leading run of exactly `n` equal bytes makes `run_len` equal `n`.
pub proof fn lemma_run_len_fixed(s: Seq<u8>, n: nat)
    requires
        1 <= n <= s.len(),
        n <= 255,
        forall|i: int| 0 <= i < n ==> #[trigger] s[i] == s[0],
        n == s.len() || n == 255 || s[n as int] != s[0],
    ensures
        run_len(s) == n,
{
    lemma_run_ext_fixed(s, 1, n);
}

/// Decoding inverts encoding: every byte sequence survives the round trip.
pub proof fn lemma_rle_round_trip(s: Seq<u8>)
    ensures
        rle_decode(rle_encode(s)) == Some(s),
    decreases s.len(),
{
    if s.len() == 0 {
        assert(rle_encode(s) =~= Seq::<u8>::empty());
        assert(Seq::<u8>::empty() =~= s);
    } else {
        let n = run_len(s);
        lemma_run_len_props(s);
        let tail = s.skip(n as int);
        lemma_rle_round_trip(tail);
        let e = rle_encode(s);
        assert(e =~= seq![n as u8, s[0]] + rle_encode(tail));
        assert(e.skip(2) =~= rle_encode(tail));
        assert(e[0] == n as u8 && n as u8 != 0);
        assert(Seq::new(e[0] as nat, |i: int| e[1]) + tail =~= s);
    }
}

/// Encode `data` in the byte-run format.
pub fn compress(data: &Vec<u8>) -> (out: Vec<u8>)
    ensures
        out@ == rle_encode(data@),
{
    let mut out: Vec<u8> = Vec::new();
    let mut i: usize = 0;
    let len = data.len();
    proof {
        assert(data@.skip(0) =~= data@);
        assert(Seq::<u8>::empty() + rle_encode(data@) =~= rle_encode(data@));
    }
    while i < len
        invariant
            i <= len,
            len == data@.len(),
            rle_encode(data@) =~= out@ + rle_encode(data@.skip(i as int)),
        decreases len - i,
    {
        let b = data[i];
        let mut j: usize = i + 1;
        while j < len && j - i < 255 && data[j] == b
            invariant
                i < j <= len,
                j - i <= 255,
                len == data@.len(),
                b == data@[i as int],
                forall|m: int| i <= m < j ==> data@[m] == b,
            decreases len - j,
        {
            j = j + 1;
        }
        proof {
            let suffix = data@.skip(i as int);
            assert(forall|m: int| 0 <= m < j - i ==> suffix[m] == data@[i + m]);
            assert(suffix[0] == b);
            lemma_run_len_fixed(suffix, (j - i) as nat);
            assert(suffix.skip((j - i) as int) =~= data@.skip(j as int));
        }
        out.push((j - i) as u8);
        out.push(b);
        i = j;
    }
    proof {
        assert(data@.skip(len as int) =~= Seq::<u8>::empty());
        assert(out@ + Seq::<u8>::empty() =~= out@);
    }
    out
}

/// Decode a byte-run payload; `None` exactly when the payload is malformed.
pub fn decompress(data: &Vec<u8>) -> (r: Option<Vec<u8>>)
    ensures
        r.is_some() <==> rle_decode(data@).is_some(),
        r.is_some() ==> r.unwrap()@ == rle_decode(data@).unwrap(),
{
    let mut out: Vec<u8> = Vec::new();
    let mut i: usize = 0;
    let len = data.len();
    proof {
        assert(data@.skip(0) =~= data@);
        if rle_decode(data@).is_some() {
            assert(Seq::<u8>::empty() + rle_decode(data@).unwrap() =~= rle_decode(data@).unwrap());
        }
    }
    while i < len
        invariant
            i <= len,
            len == data@.len(),
            rle_decode(data@) == match rle_decode(data@.skip(i as int)) {
                None => None::<Seq<u8>>,
                Some(t) => Some(out@ + t),
            },
        decreases len - i,
    {
        if i + 1 == len {
            return None;
        }
        let count = data[i];
        let b = data[i + 1];
        if count == 0 {
            return None;
        }
        let ghost prev = out@;
        let mut k: usize = 0;
        while k < count as usize
            invariant
                k <= count as usize,
                out@ =~= prev + Seq::new(k as nat, |m: int| b),
            decreases count as usize - k,
        {
            out.push(b);
            k = k + 1;
        }
        proof {
            let suffix = data@.skip(i as int);
            assert(suffix[0] == count && suffix[1] == b);
            assert(suffix.skip(2) =~= data@.skip(i + 2));
            assert(Seq::new(count as nat, |m: int| b) =~= Seq::new(suffix[0] as nat, |m: int| suffix[1]));
            if rle_decode(data@.skip(i + 2)).is_some() {
                assert(prev + (Seq::new(suffix[0] as nat, |m: int| suffix[1]) + rle_decode(
                    data@.skip(i + 2),
                ).unwrap()) =~= out@ + rle_decode(data@.skip(i + 2)).unwrap());
            }
        }
        i = i + 2;
    }
    proof {
        assert(data@.skip(len as int) =~= Seq::<u8>::empty());
        assert(out@ + Seq::<u8>::empty() =~= out@);
    }
    Some(out)
}

/// An owned buffer of decompressed or freshly allocated bytes, read as
/// elements of a fixed size.
pub struct AllocBuf {
    bytes: Vec<u8>,
    elem_size: usize,
}

impl AllocBuf {
    /// The buffer's bytes.
    pub closed spec fn bytes(&self) -> Seq<u8> {
        self.bytes@
    }

    /// The size of the elements the buffer is read as.
    pub closed spec fn elem_size(&self) -> nat {
        self.elem_size as nat
    }

    /// A buffer holds a whole number of elements.
    pub open spec fn wf(&self) -> bool {
        &&& self.elem_size() >= 1
        &&& self.bytes().len() % self.elem_size() == 0
    }

    /// Take ownership of `bytes`, read as elements of `elem_size` bytes.
    pub fn new(bytes: Vec<u8>, elem_size: usize) -> (b: AllocBuf)
        requires
            elem_size >= 1,
            bytes@.len() % (elem_size as nat) == 0,
        ensures
            b.wf(),
            b.bytes() == bytes@,
            b.elem_size() == elem_size,
    {
        AllocBuf { bytes, elem_size }
    }

    /// The buffer's size in bytes.
    pub fn size_bytes(&self) -> (r: usize)
        ensures
            r == self.bytes().len(),
    {
        self.bytes.len()
    }

    /// The byte at offset `i`.
    pub fn byte_at(&self, i: usize) -> (r: u8)
        requires
            i < self.bytes().len(),
        ensures
            r == self.bytes()[i as int],
    {
        self.bytes[i]
    }
}

/// A static descriptor of one compressed asset: its payload, the byte
/// length the decompressed data must have, and the element size it will
/// be read as. The declared length is a whole multiple of the element
/// size by construction.
pub struct CompressedResource {
    payload: Vec<u8>,
    declared_len: usize,
    elem_size: usize,
}

impl CompressedResource {
    pub closed spec fn payload(&self) -> Seq<u8> {
        self.payload@
    }

    pub closed spec fn declared_len(&self) -> nat {
        self.declared_len as nat
    }

    pub closed spec fn elem_size(&self) -> nat {
        self.elem_size as nat
    }

    pub open spec fn wf(&self) -> bool {
        &&& self.elem_size() >= 1
        &&& self.declared_len() % self.elem_size() == 0
    }

    /// Build a descriptor over an existing payload. The declared length
    /// must be a whole multiple of the element size; a descriptor that is
    /// not is rejected here, at construction, never at load time.
    pub fn from_ref(payload: Vec<u8>, declared_len: usize, elem_size: usize) -> (r: Option<
        CompressedResource,
    >)
        ensures
            r.is_some() <==> (elem_size >= 1 && declared_len as nat % (elem_size as nat) == 0),
            r.is_some() ==> {
                &&& r.unwrap().wf()
                &&& r.unwrap().payload() == payload@
                &&& r.unwrap().declared_len() == declared_len
                &&& r.unwrap().elem_size() == elem_size
            },
    {
        if elem_size == 0 {
            return None;
        }
        if declared_len % elem_size != 0 {
            return None;
        }
        Some(CompressedResource { payload, declared_len, elem_size })
    }

    /// The declared decompressed length, as a machine integer.
    pub fn declared_len_usize(&self) -> (r: usize)
        ensures
            r == self.declared_len(),
    {
        self.declared_len
    }

    /// The element size, as a machine integer.
    pub fn elem_size_usize(&self) -> (r: usize)
        ensures
            r == self.elem_size(),
    {
        self.elem_size
    }

    /// Decompress the payload into a fresh buffer of exactly the declared
    /// length. `None` when the payload is malformed or does not expand to
    /// the declared length.
    pub fn load(&self) -> (r: Option<AllocBuf>)
        requires
            self.wf(),
        ensures
            r.is_some() <==> (rle_decode(self.payload()).is_some() && rle_decode(
                self.payload(),
            ).unwrap().len() == self.declared_len()),
            r.is_some() ==> {
                &&& r.unwrap().wf()
                &&& r.unwrap().bytes() == rle_decode(self.payload()).unwrap()
                &&& r.unwrap().elem_size() == self.elem_size()
            },
    {
        match decompress(&self.payload) {
            None => None,
            Some(bytes) => {
                if bytes.len() != self.declared_len {
                    return None;
                }
                Some(AllocBuf::new(bytes, self.elem_size))
            },
        }
    }
}

/// Build a compressed-resource descriptor, as `CompressedResource::from_ref` does.
pub fn lz_ptr_res(payload: Vec<u8>, declared_len: usize, elem_size: usize) -> (r: Option<
    CompressedResource,
>)
    ensures
        r.is_some() <==> (elem_size >= 1 && declared_len as nat % (elem_size as nat) == 0),
        r.is_some() ==> {
            &&& r.unwrap().wf()
            &&& r.unwrap().payload() == payload@
            &&& r.unwrap().declared_len() == declared_len
            &&& r.unwrap().elem_size() == elem_size
        },
{
    CompressedResource::from_ref(payload, declared_len, elem_size)
}

} // verus!
