//! The roster items shown by the screen.
//!
//! The host's roster records live in its own memory; the screen works on a
//! plain in-memory copy per entry and hands the mutated records back when
//! the session ends. A record carries exactly the fields the screen
//! reads: identity, level, health, held item, status ailment and display
//! name (already in the device's text encoding).

use vstd::prelude::*;

verus! {

/// The status code a fainted roster item reports, whatever its stored ailment.
pub const AILMENT_FAINTED: u8 = 7;

/// One roster item's record.
#[derive(Clone, PartialEq, Eq, Debug)]
pub struct Pokemon {
    species: u16,
    is_egg: bool,
    level: u8,
    hp: u16,
    max_hp: u16,
    held_item: u16,
    ailment: u8,
    shiny: bool,
    personality: u32,
    tera_type: u16,
    name: Vec<u8>,
}

impl Pokemon {
    /// A record is well formed when it can faint and recover sensibly:
    /// maximum health is positive and current health never exceeds it.
    pub open spec fn wf(&self) -> bool {
        &&& self.spec_max_hp() >= 1
        &&& self.spec_hp() <= self.spec_max_hp()
    }

    pub closed spec fn spec_species(&self) -> u16 {
        self.species
    }

    pub closed spec fn spec_is_egg(&self) -> bool {
        self.is_egg
    }

    pub closed spec fn spec_level(&self) -> u8 {
        self.level
    }

    pub closed spec fn spec_hp(&self) -> u16 {
        self.hp
    }

    pub closed spec fn spec_max_hp(&self) -> u16 {
        self.max_hp
    }

    pub closed spec fn spec_held_item(&self) -> u16 {
        self.held_item
    }

    pub closed spec fn spec_ailment(&self) -> u8 {
        self.ailment
    }

    pub closed spec fn spec_shiny(&self) -> bool {
        self.shiny
    }

    pub closed spec fn spec_personality(&self) -> u32 {
        self.personality
    }

    pub closed spec fn spec_tera_type(&self) -> u16 {
        self.tera_type
    }

    pub closed spec fn spec_name(&self) -> Seq<u8> {
        self.name@
    }

    /// The record with all the given fields.
    pub fn new(
        species: u16,
        is_egg: bool,
        level: u8,
        hp: u16,
        max_hp: u16,
        held_item: u16,
        ailment: u8,
        shiny: bool,
        personality: u32,
        tera_type: u16,
        name: Vec<u8>,
    ) -> (p: Pokemon)
        requires
            max_hp >= 1,
            hp <= max_hp,
        ensures
            p.wf(),
            p.spec_species() == species,
            p.spec_is_egg() == is_egg,
            p.spec_level() == level,
            p.spec_hp() == hp,
            p.spec_max_hp() == max_hp,
            p.spec_held_item() == held_item,
            p.spec_ailment() == ailment,
            p.spec_shiny() == shiny,
            p.spec_personality() == personality,
            p.spec_tera_type() == tera_type,
            p.spec_name() == name@,
    {
        Pokemon {
            species,
            is_egg,
            level,
            hp,
            max_hp,
            held_item,
            ailment,
            shiny,
            personality,
            tera_type,
            name,
        }
    }

    pub fn species(&self) -> (r: u16)
        ensures
            r == self.spec_species(),
    {
        self.species
    }

    pub fn is_egg(&self) -> (r: bool)
        ensures
            r == self.spec_is_egg(),
    {
        self.is_egg
    }

    pub fn level(&self) -> (r: u8)
        ensures
            r == self.spec_level(),
    {
        self.level
    }

    pub fn hp(&self) -> (r: u16)
        ensures
            r == self.spec_hp(),
    {
        self.hp
    }

    pub fn max_hp(&self) -> (r: u16)
        ensures
            r == self.spec_max_hp(),
    {
        self.max_hp
    }

    pub fn shiny(&self) -> (r: bool)
        ensures
            r == self.spec_shiny(),
    {
        self.shiny
    }

    pub fn personality(&self) -> (r: u32)
        ensures
            r == self.spec_personality(),
    {
        self.personality
    }

    pub fn tera_type(&self) -> (r: u16)
        ensures
            r == self.spec_tera_type(),
    {
        self.tera_type
    }

    /// The display name, in the device's text encoding.
    pub fn name(&self) -> (r: Vec<u8>)
        ensures
            r@ == self.spec_name(),
    {
        self.name.clone()
    }

    /// The held item, if any; item id 0 means no held item.
    pub fn item(&self) -> (r: Option<usize>)
        ensures
            r == self.spec_item(),
    {
        if self.held_item == 0 {
            None
        } else {
            Some(self.held_item as usize)
        }
    }

    pub open spec fn spec_item(&self) -> Option<usize> {
        if self.spec_held_item() == 0 {
            None
        } else {
            Some(self.spec_held_item() as usize)
        }
    }

    /// The record equal to `self` except for the held item.
    pub closed spec fn spec_with_item(self, item: u16) -> Pokemon {
        Pokemon { held_item: item, ..self }
    }

    /// Replace the held item; item id 0 takes it away.
    pub fn set_item(&mut self, item: u16)
        ensures
            *final(self) == old(self).spec_with_item(item),
            final(self).spec_held_item() == item,
            final(self).wf() == old(self).wf(),
    {
        self.held_item = item;
    }

    /// The status ailment the screen displays: a fainted record always
    /// reports the fainted code, whatever ailment is stored.
    pub fn status(&self) -> (r: u8)
        ensures
            r == self.spec_status(),
    {
        if self.hp == 0 {
            AILMENT_FAINTED
        } else {
            self.ailment
        }
    }

    pub open spec fn spec_status(&self) -> u8 {
        if self.spec_hp() == 0 {
            AILMENT_FAINTED
        } else {
            self.spec_ailment()
        }
    }

    /// Exchange two records in place.
    pub fn swap(this: &mut Pokemon, other: &mut Pokemon)
        ensures
            *final(this) == *old(other),
            *final(other) == *old(this),
    {
        core::mem::swap(this, other);
    }
}

} // verus!
