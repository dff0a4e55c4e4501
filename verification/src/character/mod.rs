use vstd::prelude::*;

pub mod dice_pool;
pub mod modifier;
pub mod traits;

use self::modifier::{
    character_modifiers, cond_entries, context_of, last_cond_skill, last_skill, modifiers_fit,
    modifiers_sum, sum_under, last_skill_under, uncond_entries, Condition, ModifierTarget, Modifiers,
};
use self::traits::{Attribute, Skill, Trait};
use crate::dice_pool::{flat_pool_ok, flat_pool_value, trait_free, DicePool};
use crate::splat::ability::Ability;
use crate::splat::werewolf::WerewolfData;
use vstd::std_specs::ops::{AddSpec, SubSpec};
use crate::splat::{Merit, Splat};

verus! {

/// `a + b` held between the bounds of a rating: nothing below zero, and anything from
/// 255 up counts as the largest rating there is.
pub open spec fn clamp_add(a: int, b: int) -> int {
    if a + b >= 255 {
        u16::MAX as int
    } else if a + b <= 0 {
        0
    } else {
        a + b
    }
}

pub open spec fn in_i16(x: int) -> bool {
    i16::MIN <= x <= i16::MAX
}

/// Adds a signed modifier to a rating, as `clamp_add` says.
pub fn add(a: u16, b: i16) -> (r: u16)
    ensures
        r == clamp_add(a as int, b as int),
{
    let res: i32 = a as i32 + b as i32;

    if res >= 255 {
        u16::MAX
    } else if res <= 0 {
        u16::MIN
    } else {
        res as u16
    }
}

/// The kind of damage in one box of a health track, from none to the worst.
#[derive(Clone, Copy, Debug, PartialEq, Eq, Structural)]
pub enum Wound {
    Healthy,
    Bashing,
    Lethal,
    Aggravated,
}

impl Default for Wound {
    fn default() -> (r: Self)
        ensures
            r is Healthy,
    {
        Wound::Healthy
    }
}

/// The rank of a wound, from 0 for none to 3 for aggravated.
pub open spec fn wound_rank(w: Wound) -> int {
    match w {
        Wound::Healthy => 0,
        Wound::Bashing => 1,
        Wound::Lethal => 2,
        Wound::Aggravated => 3,
    }
}

/// The wound a box holds after it is clicked: none, bashing, lethal, aggravated, none.
pub open spec fn poked(w: Wound) -> Wound {
    match w {
        Wound::Healthy => Wound::Bashing,
        Wound::Bashing => Wound::Lethal,
        Wound::Lethal => Wound::Aggravated,
        Wound::Aggravated => Wound::Healthy,
    }
}

/// Clicking a box four times brings it back to the wound it held.
pub proof fn lemma_poke_cycle(w: Wound)
    ensures
        poked(poked(poked(poked(w)))) == w,
        poked(w) != w,
{
}

impl Wound {
    /// The next worse wound; aggravated stays aggravated.
    pub fn inc(&self) -> (r: Wound)
        ensures
            wound_rank(r) == if wound_rank(*self) < 3 { wound_rank(*self) + 1 } else { 3 },
    {
        match self {
            Wound::Healthy => Wound::Bashing,
            Wound::Bashing => Wound::Lethal,
            Wound::Lethal => Wound::Aggravated,
            Wound::Aggravated => Wound::Aggravated,
        }
    }

    /// The next wound in the cycle none, bashing, lethal, aggravated, none.
    pub fn poke(&self) -> (r: Wound)
        ensures
            r == poked(*self),
            wound_rank(r) == (wound_rank(*self) + 1) % 4,
    {
        if let Wound::Aggravated = self {
            Wound::Healthy
        } else {
            self.inc()
        }
    }

    pub fn poke_mut(&mut self)
        ensures
            *final(self) == poked(*old(self)),
    {
        *self = self.poke();
    }
}

/// Damage taken: how many boxes of each kind are filled.
#[derive(Debug, PartialEq, Eq, Structural)]
pub struct Damage {
    aggravated: u16,
    lethal: u16,
    bashing: u16,
}

impl Default for Damage {
    fn default() -> (r: Self)
        ensures
            r.aggravated_spec() == 0,
            r.lethal_spec() == 0,
            r.bashing_spec() == 0,
    {
        Damage { aggravated: 0, lethal: 0, bashing: 0 }
    }
}

impl Clone for Damage {
    fn clone(&self) -> (r: Self)
        ensures
            r == *self,
    {
        Damage { aggravated: self.aggravated, lethal: self.lethal, bashing: self.bashing }
    }
}

impl Damage {
    pub closed spec fn aggravated_spec(self) -> u16 {
        self.aggravated
    }

    pub closed spec fn lethal_spec(self) -> u16 {
        self.lethal
    }

    pub closed spec fn bashing_spec(self) -> u16 {
        self.bashing
    }

    /// The number of boxes of one kind of wound; none for `Wound::Healthy`.
    pub open spec fn count(self, wound: Wound) -> int {
        match wound {
            Wound::Healthy => 0,
            Wound::Bashing => self.bashing_spec() as int,
            Wound::Lethal => self.lethal_spec() as int,
            Wound::Aggravated => self.aggravated_spec() as int,
        }
    }

    pub open spec fn sum_spec(self) -> int {
        self.bashing_spec() + self.lethal_spec() + self.aggravated_spec()
    }

    /// Damage with the given counts of each kind.
    pub open spec fn with_counts(self, bashing: int, lethal: int, aggravated: int) -> bool {
        self.bashing_spec() == bashing && self.lethal_spec() == lethal && self.aggravated_spec() == aggravated
    }

    pub fn new(bashing: u16, lethal: u16, aggravated: u16) -> (r: Self)
        ensures
            r.with_counts(bashing as int, lethal as int, aggravated as int),
    {
        Self { aggravated, lethal, bashing }
    }

    pub fn get(&self, wound: &Wound) -> (r: u16)
        ensures
            r == self.count(*wound),
    {
        match wound {
            Wound::Healthy => 0,
            Wound::Bashing => self.bashing,
            Wound::Lethal => self.lethal,
            Wound::Aggravated => self.aggravated,
        }
    }

    /// The wound in box `i` of a track filled worst first: aggravated boxes, then lethal,
    /// then bashing, then empty ones.
    pub open spec fn wound_at(self, i: int) -> Wound {
        let a = self.aggravated_spec() as int;
        let l = self.lethal_spec() as int;
        let b = self.bashing_spec() as int;
        if i < a {
            Wound::Aggravated
        } else if i < a + l {
            Wound::Lethal
        } else if i < a + l + b {
            Wound::Bashing
        } else {
            Wound::Healthy
        }
    }

    pub fn get_i(&self, i: usize) -> (r: Wound)
        requires
            i < self.aggravated_spec() || (self.aggravated_spec() + self.lethal_spec() <= u16::MAX && (i
                < self.aggravated_spec() + self.lethal_spec() || self.sum_spec() <= u16::MAX)),
        ensures
            r == self.wound_at(i as int),
    {
        if i < self.aggravated as usize {
            Wound::Aggravated
        } else if i >= self.aggravated as usize && i < (self.aggravated + self.lethal) as usize {
            Wound::Lethal
        } else if i >= (self.aggravated + self.lethal) as usize && i < (self.aggravated + self.lethal
            + self.bashing) as usize {
            Wound::Bashing
        } else {
            Wound::Healthy
        }
    }

    pub fn sum(&self) -> (r: u16)
        requires
            self.sum_spec() <= u16::MAX,
        ensures
            r == self.sum_spec(),
    {
        self.bashing + self.lethal + self.aggravated
    }

    /// `after` is `self` healed by one box of `wound`, where there is one.
    pub open spec fn healed(self, after: Damage, wound: Wound) -> bool {
        forall|w: Wound|
            #![trigger after.count(w)]
            after.count(w) == if w == wound && self.count(w) > 0 {
                self.count(w) - 1
            } else {
                self.count(w)
            }
    }

    /// `after` is `self` with one more box of `wound`.
    pub open spec fn hurt(self, after: Damage, wound: Wound) -> bool {
        forall|w: Wound|
            #![trigger after.count(w)]
            after.count(w) == if w == wound && w != Wound::Healthy {
                self.count(w) + 1
            } else {
                self.count(w)
            }
    }

    /// Heals one box of the given kind, where there is one.
    pub fn dec(&mut self, wound: &Wound)
        ensures
            old(self).healed(*final(self), *wound),
    {
        match wound {
            Wound::Healthy => {},
            Wound::Bashing => {
                if self.bashing > 0 {
                    self.bashing -= 1;
                }
            },
            Wound::Lethal => {
                if self.lethal > 0 {
                    self.lethal -= 1;
                }
            },
            Wound::Aggravated => {
                if self.aggravated > 0 {
                    self.aggravated -= 1;
                }
            },
        }
    }

    /// Takes one box of the given kind.
    pub fn inc(&mut self, wound: &Wound)
        requires
            old(self).count(*wound) < u16::MAX,
        ensures
            old(self).hurt(*final(self), *wound),
    {
        match wound {
            Wound::Healthy => {},
            Wound::Bashing => self.bashing += 1,
            Wound::Lethal => self.lethal += 1,
            Wound::Aggravated => self.aggravated += 1,
        }
    }

    /// Whether a box that holds `wound` can be clicked: the kind of damage it turns into
    /// is not at the largest count there is.
    pub open spec fn poke_ok(self, wound: Wound) -> bool {
        match wound {
            Wound::Healthy => self.bashing_spec() < u16::MAX,
            Wound::Bashing => self.lethal_spec() < u16::MAX,
            Wound::Lethal => self.aggravated_spec() < u16::MAX,
            Wound::Aggravated => true,
        }
    }

    /// `next` is this track after a box that holds `wound` is clicked.
    pub open spec fn poked(self, wound: Wound, next: Damage) -> bool {
        match wound {
            Wound::Healthy => next.with_counts(
                self.bashing_spec() + 1,
                self.lethal_spec() as int,
                self.aggravated_spec() as int,
            ),
            Wound::Bashing => next.with_counts(
                if self.bashing_spec() > 0 { self.bashing_spec() - 1 } else { 0 },
                self.lethal_spec() + 1,
                self.aggravated_spec() as int,
            ),
            Wound::Lethal => next.with_counts(
                self.bashing_spec() as int,
                if self.lethal_spec() > 0 { self.lethal_spec() - 1 } else { 0 },
                self.aggravated_spec() + 1,
            ),
            Wound::Aggravated => next.with_counts(
                self.bashing_spec() as int,
                self.lethal_spec() as int,
                if self.aggravated_spec() > 0 { self.aggravated_spec() - 1 } else { 0 },
            ),
        }
    }

    /// Clicking a box of the track that holds `wound`: an empty box takes bashing damage,
    /// a bashing box turns lethal, a lethal box aggravated, and an aggravated box heals.
    pub fn poke(&mut self, wound: &Wound)
        requires
            old(self).poke_ok(*wound),
        ensures
            old(self).poked(*wound, *final(self)),
    {
        match wound {
            Wound::Healthy => self.bashing += 1,
            Wound::Bashing => {
                if self.bashing > 0 {
                    self.bashing -= 1;
                }
                self.lethal += 1;
            },
            Wound::Lethal => {
                if self.lethal > 0 {
                    self.lethal -= 1;
                }
                self.aggravated += 1;
            },
            Wound::Aggravated => {
                if self.aggravated > 0 {
                    self.aggravated -= 1;
                }
            },
        }
    }
}

/// Taking a box of damage and then healing a box of the same kind leaves every count
/// as it was.
pub proof fn lemma_hurt_then_healed(a: Damage, b: Damage, c: Damage, wound: Wound)
    requires
        a.hurt(b, wound),
        b.healed(c, wound),
    ensures
        forall|w: Wound| #[trigger] c.count(w) == a.count(w),
{
    assert forall|w: Wound| #[trigger] c.count(w) == a.count(w) by {
        assert(b.count(w) == b.count(w));
        assert(c.count(w) == c.count(w));
    }
}

/// Two damage values with the same count of every kind of wound are the same.
pub proof fn lemma_damage_counts_equal(a: Damage, b: Damage)
    requires
        forall|w: Wound| #[trigger] a.count(w) == b.count(w),
    ensures
        a == b,
{
    assert(a.count(Wound::Bashing) == b.count(Wound::Bashing));
    assert(a.count(Wound::Lethal) == b.count(Wound::Lethal));
    assert(a.count(Wound::Aggravated) == b.count(Wound::Aggravated));
}

pub fn is_empty_vec(vec: &Vec<String>) -> (r: bool)
    ensures
        r == (vec@.len() == 0),
{
    vec.len() == 0
}

/// Puts `val` at index `i` of a list that a sheet editor grows on demand: where the list is
/// too short, it is first filled up with default values.
pub fn vec_changed<T: Default + Clone>(i: usize, val: T, vec: &mut Vec<T>)
    requires
        i < old(vec)@.len() || i < usize::MAX,
    ensures
        final(vec)@.len() == if i < old(vec)@.len() {
            old(vec)@.len()
        } else {
            (i + 1) as nat
        },
        final(vec)@[i as int] == val,
        forall|j: int| 0 <= j < old(vec)@.len() && j != i ==> final(vec)@[j] == old(vec)@[j],
        forall|j: int|
            old(vec)@.len() <= j < i ==> call_ensures(T::default, (), #[trigger] final(vec)@[j]),
{
    if i < vec.len() {
        vec.set(i, val);
    } else {
        let ghost start = vec@;
        while vec.len() < i
            invariant
                start.len() <= vec@.len() <= i,
                forall|j: int| 0 <= j < start.len() ==> vec@[j] == start[j],
                forall|j: int|
                    start.len() <= j < vec@.len() ==> call_ensures(T::default, (), #[trigger] vec@[j]),
            decreases i - vec@.len(),
        {
            let make = T::default;
            let fill = make();
            vec.push(fill);
        }
        vec.push(val);
    }
}

pub fn is_five(n: &u16) -> (r: bool)
    ensures
        r == (*n == 5),
{
    *n == 5
}

fn is_zero(n: &u16) -> (r: bool)
    ensures
        r == (*n == 0),
{
    *n == 0
}

fn is_one(num: &u16) -> (r: bool)
    ensures
        r == (*num == 1),
{
    *num == 1
}

fn is_empty(str: &String) -> (r: bool)
    ensures
        r == (str@.len() == 0),
{
    str.as_str().is_empty()
}

/// The nine attributes of a character.
#[derive(Debug, PartialEq, Eq, Structural)]
pub struct Attributes {
    pub intelligence: u16,
    pub wits: u16,
    pub resolve: u16,
    pub strength: u16,
    pub dexterity: u16,
    pub stamina: u16,
    pub presence: u16,
    pub manipulation: u16,
    pub composure: u16,
}

impl Clone for Attributes {
    fn clone(&self) -> (r: Self)
        ensures
            r == *self,
    {
        Attributes { ..*self }
    }
}

impl Default for Attributes {
    /// Every attribute starts at one dot.
    fn default() -> (r: Self)
        ensures
            forall|a: Attribute| #[trigger] r.get_spec(a) == 1,
    {
        Self {
            intelligence: 1,
            wits: 1,
            resolve: 1,
            strength: 1,
            dexterity: 1,
            stamina: 1,
            presence: 1,
            manipulation: 1,
            composure: 1,
        }
    }
}

impl Attributes {
    pub open spec fn get_spec(self, attr: Attribute) -> u16 {
        match attr {
            Attribute::Intelligence => self.intelligence,
            Attribute::Wits => self.wits,
            Attribute::Resolve => self.resolve,
            Attribute::Strength => self.strength,
            Attribute::Dexterity => self.dexterity,
            Attribute::Stamina => self.stamina,
            Attribute::Presence => self.presence,
            Attribute::Manipulation => self.manipulation,
            Attribute::Composure => self.composure,
        }
    }

    /// The attributes with one of them set to `v`.
    pub open spec fn with_attr(self, attr: Attribute, v: u16) -> Attributes {
        match attr {
            Attribute::Intelligence => Attributes { intelligence: v, ..self },
            Attribute::Wits => Attributes { wits: v, ..self },
            Attribute::Resolve => Attributes { resolve: v, ..self },
            Attribute::Strength => Attributes { strength: v, ..self },
            Attribute::Dexterity => Attributes { dexterity: v, ..self },
            Attribute::Stamina => Attributes { stamina: v, ..self },
            Attribute::Presence => Attributes { presence: v, ..self },
            Attribute::Manipulation => Attributes { manipulation: v, ..self },
            Attribute::Composure => Attributes { composure: v, ..self },
        }
    }

    pub fn get(&self, attr: &Attribute) -> (r: &u16)
        ensures
            *r == self.get_spec(*attr),
    {
        match attr {
            Attribute::Intelligence => &self.intelligence,
            Attribute::Wits => &self.wits,
            Attribute::Resolve => &self.resolve,
            Attribute::Strength => &self.strength,
            Attribute::Dexterity => &self.dexterity,
            Attribute::Stamina => &self.stamina,
            Attribute::Presence => &self.presence,
            Attribute::Manipulation => &self.manipulation,
            Attribute::Composure => &self.composure,
        }
    }

    pub fn get_mut(&mut self, attr: &Attribute) -> (r: &mut u16)
        ensures
            *r == old(self).get_spec(*attr),
            *final(self) == old(self).with_attr(*attr, *final(r)),
    {
        match attr {
            Attribute::Intelligence => &mut self.intelligence,
            Attribute::Wits => &mut self.wits,
            Attribute::Resolve => &mut self.resolve,
            Attribute::Strength => &mut self.strength,
            Attribute::Dexterity => &mut self.dexterity,
            Attribute::Stamina => &mut self.stamina,
            Attribute::Presence => &mut self.presence,
            Attribute::Manipulation => &mut self.manipulation,
            Attribute::Composure => &mut self.composure,
        }
    }
}

impl std::ops::Sub for Attributes {
    type Output = Self;

    fn sub(self, rhs: Attributes) -> (r: Self::Output) {
        Self {
            intelligence: self.intelligence - rhs.intelligence,
            wits: self.wits - rhs.wits,
            resolve: self.resolve - rhs.resolve,
            strength: self.strength - rhs.strength,
            dexterity: self.dexterity - rhs.dexterity,
            stamina: self.stamina - rhs.stamina,
            presence: self.presence - rhs.presence,
            manipulation: self.manipulation - rhs.manipulation,
            composure: self.composure - rhs.composure,
        }
    }
}

impl vstd::std_specs::ops::SubSpecImpl for Attributes {
    open spec fn obeys_sub_spec() -> bool {
        true
    }

    /// Every attribute of the subtrahend is at most the same attribute of the minuend.
    open spec fn sub_req(self, rhs: Attributes) -> bool {
        &&& rhs.intelligence <= self.intelligence
        &&& rhs.wits <= self.wits
        &&& rhs.resolve <= self.resolve
        &&& rhs.strength <= self.strength
        &&& rhs.dexterity <= self.dexterity
        &&& rhs.stamina <= self.stamina
        &&& rhs.presence <= self.presence
        &&& rhs.manipulation <= self.manipulation
        &&& rhs.composure <= self.composure
    }

    open spec fn sub_spec(self, rhs: Attributes) -> Attributes {
        Attributes {
            intelligence: (self.intelligence - rhs.intelligence) as u16,
            wits: (self.wits - rhs.wits) as u16,
            resolve: (self.resolve - rhs.resolve) as u16,
            strength: (self.strength - rhs.strength) as u16,
            dexterity: (self.dexterity - rhs.dexterity) as u16,
            stamina: (self.stamina - rhs.stamina) as u16,
            presence: (self.presence - rhs.presence) as u16,
            manipulation: (self.manipulation - rhs.manipulation) as u16,
            composure: (self.composure - rhs.composure) as u16,
        }
    }
}

impl std::ops::Add for Attributes {
    type Output = Self;

    fn add(self, rhs: Self) -> (r: Self::Output) {
        Self {
            intelligence: self.intelligence + rhs.intelligence,
            wits: self.wits + rhs.wits,
            resolve: self.resolve + rhs.resolve,
            strength: self.strength + rhs.strength,
            dexterity: self.dexterity + rhs.dexterity,
            stamina: self.stamina + rhs.stamina,
            presence: self.presence + rhs.presence,
            manipulation: self.manipulation + rhs.manipulation,
            composure: self.composure + rhs.composure,
        }
    }
}

impl vstd::std_specs::ops::AddSpecImpl for Attributes {
    open spec fn obeys_add_spec() -> bool {
        true
    }

    /// No attribute of the sum goes past the largest rating.
    open spec fn add_req(self, rhs: Attributes) -> bool {
        &&& self.intelligence + rhs.intelligence <= u16::MAX
        &&& self.wits + rhs.wits <= u16::MAX
        &&& self.resolve + rhs.resolve <= u16::MAX
        &&& self.strength + rhs.strength <= u16::MAX
        &&& self.dexterity + rhs.dexterity <= u16::MAX
        &&& self.stamina + rhs.stamina <= u16::MAX
        &&& self.presence + rhs.presence <= u16::MAX
        &&& self.manipulation + rhs.manipulation <= u16::MAX
        &&& self.composure + rhs.composure <= u16::MAX
    }

    open spec fn add_spec(self, rhs: Attributes) -> Attributes {
        Attributes {
            intelligence: (self.intelligence + rhs.intelligence) as u16,
            wits: (self.wits + rhs.wits) as u16,
            resolve: (self.resolve + rhs.resolve) as u16,
            strength: (self.strength + rhs.strength) as u16,
            dexterity: (self.dexterity + rhs.dexterity) as u16,
            stamina: (self.stamina + rhs.stamina) as u16,
            presence: (self.presence + rhs.presence) as u16,
            manipulation: (self.manipulation + rhs.manipulation) as u16,
            composure: (self.composure + rhs.composure) as u16,
        }
    }
}

/// Adding attributes and then taking the same attributes away gives back what one started with.
pub proof fn lemma_attributes_add_sub(a: Attributes, b: Attributes)
    requires
        a.add_req(b),
    ensures
        a.add_spec(b).sub_req(b),
        a.add_spec(b).sub_spec(b) == a,
{
}

/// Setting one attribute and reading any attribute back gives the new value for that one
/// and the old value for every other.
pub proof fn lemma_attribute_set_get(a: Attributes, x: Attribute, v: u16, y: Attribute)
    ensures
        a.with_attr(x, v).get_spec(y) == if x == y {
            v
        } else {
            a.get_spec(y)
        },
{
}

/// The twenty-four skills of a character.
#[derive(Debug, PartialEq, Eq, Structural)]
pub struct Skills {
    pub academics: u16,
    pub computer: u16,
    pub crafts: u16,
    pub investigation: u16,
    pub medicine: u16,
    pub occult: u16,
    pub politics: u16,
    pub science: u16,
    pub athletics: u16,
    pub brawl: u16,
    pub drive: u16,
    pub firearms: u16,
    pub larceny: u16,
    pub stealth: u16,
    pub survival: u16,
    pub weaponry: u16,
    pub animal_ken: u16,
    pub empathy: u16,
    pub expression: u16,
    pub intimidation: u16,
    pub persuasion: u16,
    pub socialize: u16,
    pub streetwise: u16,
    pub subterfuge: u16,
}

impl Clone for Skills {
    fn clone(&self) -> (r: Self)
        ensures
            r == *self,
    {
        Skills { ..*self }
    }
}

impl Default for Skills {
    /// Every skill starts without dots.
    fn default() -> (r: Self)
        ensures
            forall|s: Skill| #[trigger] r.get_spec(s) == 0,
    {
        Skills {
            academics: 0,
            computer: 0,
            crafts: 0,
            investigation: 0,
            medicine: 0,
            occult: 0,
            politics: 0,
            science: 0,
            athletics: 0,
            brawl: 0,
            drive: 0,
            firearms: 0,
            larceny: 0,
            stealth: 0,
            survival: 0,
            weaponry: 0,
            animal_ken: 0,
            empathy: 0,
            expression: 0,
            intimidation: 0,
            persuasion: 0,
            socialize: 0,
            streetwise: 0,
            subterfuge: 0,
        }
    }
}

impl Skills {
    pub open spec fn get_spec(self, skill: Skill) -> u16 {
        match skill {
            Skill::Academics => self.academics,
            Skill::Computer => self.computer,
            Skill::Crafts => self.crafts,
            Skill::Investigation => self.investigation,
            Skill::Medicine => self.medicine,
            Skill::Occult => self.occult,
            Skill::Politics => self.politics,
            Skill::Science => self.science,
            Skill::Athletics => self.athletics,
            Skill::Brawl => self.brawl,
            Skill::Drive => self.drive,
            Skill::Firearms => self.firearms,
            Skill::Larceny => self.larceny,
            Skill::Stealth => self.stealth,
            Skill::Survival => self.survival,
            Skill::Weaponry => self.weaponry,
            Skill::AnimalKen => self.animal_ken,
            Skill::Empathy => self.empathy,
            Skill::Expression => self.expression,
            Skill::Intimidation => self.intimidation,
            Skill::Persuasion => self.persuasion,
            Skill::Socialize => self.socialize,
            Skill::Streetwise => self.streetwise,
            Skill::Subterfuge => self.subterfuge,
        }
    }

    /// The skills with one of them set to `v`.
    pub open spec fn with_skill(self, skill: Skill, v: u16) -> Skills {
        match skill {
            Skill::Academics => Skills { academics: v, ..self },
            Skill::Computer => Skills { computer: v, ..self },
            Skill::Crafts => Skills { crafts: v, ..self },
            Skill::Investigation => Skills { investigation: v, ..self },
            Skill::Medicine => Skills { medicine: v, ..self },
            Skill::Occult => Skills { occult: v, ..self },
            Skill::Politics => Skills { politics: v, ..self },
            Skill::Science => Skills { science: v, ..self },
            Skill::Athletics => Skills { athletics: v, ..self },
            Skill::Brawl => Skills { brawl: v, ..self },
            Skill::Drive => Skills { drive: v, ..self },
            Skill::Firearms => Skills { firearms: v, ..self },
            Skill::Larceny => Skills { larceny: v, ..self },
            Skill::Stealth => Skills { stealth: v, ..self },
            Skill::Survival => Skills { survival: v, ..self },
            Skill::Weaponry => Skills { weaponry: v, ..self },
            Skill::AnimalKen => Skills { animal_ken: v, ..self },
            Skill::Empathy => Skills { empathy: v, ..self },
            Skill::Expression => Skills { expression: v, ..self },
            Skill::Intimidation => Skills { intimidation: v, ..self },
            Skill::Persuasion => Skills { persuasion: v, ..self },
            Skill::Socialize => Skills { socialize: v, ..self },
            Skill::Streetwise => Skills { streetwise: v, ..self },
            Skill::Subterfuge => Skills { subterfuge: v, ..self },
        }
    }

    pub fn get(&self, skill: Skill) -> (r: u16)
        ensures
            r == self.get_spec(skill),
    {
        match skill {
            Skill::Academics => self.academics,
            Skill::Computer => self.computer,
            Skill::Crafts => self.crafts,
            Skill::Investigation => self.investigation,
            Skill::Medicine => self.medicine,
            Skill::Occult => self.occult,
            Skill::Politics => self.politics,
            Skill::Science => self.science,
            Skill::Athletics => self.athletics,
            Skill::Brawl => self.brawl,
            Skill::Drive => self.drive,
            Skill::Firearms => self.firearms,
            Skill::Larceny => self.larceny,
            Skill::Stealth => self.stealth,
            Skill::Survival => self.survival,
            Skill::Weaponry => self.weaponry,
            Skill::AnimalKen => self.animal_ken,
            Skill::Empathy => self.empathy,
            Skill::Expression => self.expression,
            Skill::Intimidation => self.intimidation,
            Skill::Persuasion => self.persuasion,
            Skill::Socialize => self.socialize,
            Skill::Streetwise => self.streetwise,
            Skill::Subterfuge => self.subterfuge,
        }
    }

    pub fn get_mut(&mut self, skill: Skill) -> (r: &mut u16)
        ensures
            *r == old(self).get_spec(skill),
            *final(self) == old(self).with_skill(skill, *final(r)),
    {
        match skill {
            Skill::Academics => &mut self.academics,
            Skill::Computer => &mut self.computer,
            Skill::Crafts => &mut self.crafts,
            Skill::Investigation => &mut self.investigation,
            Skill::Medicine => &mut self.medicine,
            Skill::Occult => &mut self.occult,
            Skill::Politics => &mut self.politics,
            Skill::Science => &mut self.science,
            Skill::Athletics => &mut self.athletics,
            Skill::Brawl => &mut self.brawl,
            Skill::Drive => &mut self.drive,
            Skill::Firearms => &mut self.firearms,
            Skill::Larceny => &mut self.larceny,
            Skill::Stealth => &mut self.stealth,
            Skill::Survival => &mut self.survival,
            Skill::Weaponry => &mut self.weaponry,
            Skill::AnimalKen => &mut self.animal_ken,
            Skill::Empathy => &mut self.empathy,
            Skill::Expression => &mut self.expression,
            Skill::Intimidation => &mut self.intimidation,
            Skill::Persuasion => &mut self.persuasion,
            Skill::Socialize => &mut self.socialize,
            Skill::Streetwise => &mut self.streetwise,
            Skill::Subterfuge => &mut self.subterfuge,
        }
    }
}

/// Setting one skill and reading any skill back gives the new value for that one and the
/// old value for every other.
pub proof fn lemma_skill_set_get(s: Skills, x: Skill, v: u16, y: Skill)
    ensures
        s.with_skill(x, v).get_spec(y) == if x == y {
            v
        } else {
            s.get_spec(y)
        },
{
}

/// The descriptive entries of a sheet.
#[derive(Debug)]
pub struct CharacterInfo {
    pub name: String,
    pub player: String,
    pub virtue_anchor: String,
    pub vice_anchor: String,
    pub faction: String,
    pub group_name: String,
    pub concept: String,
    pub chronicle: String,
    pub age: String,
    pub date_of_birth: String,
    pub hair: String,
    pub eyes: String,
    pub race: String,
    pub nationality: String,
    pub height: String,
    pub weight: String,
    pub sex: String,
    pub other: String,
}

impl Default for CharacterInfo {
    /// Every entry starts empty.
    fn default() -> (r: Self)
        ensures
            forall|t: InfoTrait| (#[trigger] r.get_spec(t))@.len() == 0,
            r.other@.len() == 0,
    {
        CharacterInfo {
            name: String::new(),
            player: String::new(),
            virtue_anchor: String::new(),
            vice_anchor: String::new(),
            faction: String::new(),
            group_name: String::new(),
            concept: String::new(),
            chronicle: String::new(),
            age: String::new(),
            date_of_birth: String::new(),
            hair: String::new(),
            eyes: String::new(),
            race: String::new(),
            nationality: String::new(),
            height: String::new(),
            weight: String::new(),
            sex: String::new(),
            other: String::new(),
        }
    }
}

impl Clone for CharacterInfo {
    fn clone(&self) -> (r: Self)
        ensures
            r == *self,
    {
        CharacterInfo {
            name: self.name.clone(),
            player: self.player.clone(),
            virtue_anchor: self.virtue_anchor.clone(),
            vice_anchor: self.vice_anchor.clone(),
            faction: self.faction.clone(),
            group_name: self.group_name.clone(),
            concept: self.concept.clone(),
            chronicle: self.chronicle.clone(),
            age: self.age.clone(),
            date_of_birth: self.date_of_birth.clone(),
            hair: self.hair.clone(),
            eyes: self.eyes.clone(),
            race: self.race.clone(),
            nationality: self.nationality.clone(),
            height: self.height.clone(),
            weight: self.weight.clone(),
            sex: self.sex.clone(),
            other: self.other.clone(),
        }
    }
}

/// The entries of `CharacterInfo` that have a label of their own.
#[derive(Clone, Copy, Debug, PartialEq, Eq, Structural)]
pub enum InfoTrait {
    Name,
    Age,
    Player,
    VirtueAnchor,
    ViceAnchor,
    Concept,
    Chronicle,
    Faction,
    GroupName,
    DateOfBirth,
    Hair,
    Eyes,
    Race,
    Nationality,
    Height,
    Weight,
    Sex,
}

impl InfoTrait {
    pub fn name(&self) -> (r: &'static str)
        ensures
            r@ == (match self {
                InfoTrait::Name => "name"@,
                InfoTrait::Age => "age"@,
                InfoTrait::Player => "player"@,
                InfoTrait::VirtueAnchor => "virtue_anchor"@,
                InfoTrait::ViceAnchor => "vice_anchor"@,
                InfoTrait::Concept => "concept"@,
                InfoTrait::Chronicle => "chronicle"@,
                InfoTrait::Faction => "faction"@,
                InfoTrait::GroupName => "group_name"@,
                InfoTrait::DateOfBirth => "date_of_birth"@,
                InfoTrait::Hair => "hair"@,
                InfoTrait::Eyes => "eyes"@,
                InfoTrait::Race => "race"@,
                InfoTrait::Nationality => "nationality"@,
                InfoTrait::Height => "height"@,
                InfoTrait::Weight => "weight"@,
                InfoTrait::Sex => "sex"@,
            }),
    {
        match self {
            InfoTrait::Name => "name",
            InfoTrait::Age => "age",
            InfoTrait::Player => "player",
            InfoTrait::VirtueAnchor => "virtue_anchor",
            InfoTrait::ViceAnchor => "vice_anchor",
            InfoTrait::Concept => "concept",
            InfoTrait::Chronicle => "chronicle",
            InfoTrait::Faction => "faction",
            InfoTrait::GroupName => "group_name",
            InfoTrait::DateOfBirth => "date_of_birth",
            InfoTrait::Hair => "hair",
            InfoTrait::Eyes => "eyes",
            InfoTrait::Race => "race",
            InfoTrait::Nationality => "nationality",
            InfoTrait::Height => "height",
            InfoTrait::Weight => "weight",
            InfoTrait::Sex => "sex",
        }
    }
}

impl CharacterInfo {
    pub open spec fn get_spec(self, info: InfoTrait) -> String {
        match info {
            InfoTrait::Name => self.name,
            InfoTrait::Age => self.age,
            InfoTrait::Player => self.player,
            InfoTrait::VirtueAnchor => self.virtue_anchor,
            InfoTrait::ViceAnchor => self.vice_anchor,
            InfoTrait::Concept => self.concept,
            InfoTrait::Chronicle => self.chronicle,
            InfoTrait::Faction => self.faction,
            InfoTrait::GroupName => self.group_name,
            InfoTrait::DateOfBirth => self.date_of_birth,
            InfoTrait::Hair => self.hair,
            InfoTrait::Eyes => self.eyes,
            InfoTrait::Race => self.race,
            InfoTrait::Nationality => self.nationality,
            InfoTrait::Height => self.height,
            InfoTrait::Weight => self.weight,
            InfoTrait::Sex => self.sex,
        }
    }

    /// The entries with one of them set to `v`.
    pub open spec fn with_info(self, info: InfoTrait, v: String) -> CharacterInfo {
        match info {
            InfoTrait::Name => CharacterInfo { name: v, ..self },
            InfoTrait::Age => CharacterInfo { age: v, ..self },
            InfoTrait::Player => CharacterInfo { player: v, ..self },
            InfoTrait::VirtueAnchor => CharacterInfo { virtue_anchor: v, ..self },
            InfoTrait::ViceAnchor => CharacterInfo { vice_anchor: v, ..self },
            InfoTrait::Concept => CharacterInfo { concept: v, ..self },
            InfoTrait::Chronicle => CharacterInfo { chronicle: v, ..self },
            InfoTrait::Faction => CharacterInfo { faction: v, ..self },
            InfoTrait::GroupName => CharacterInfo { group_name: v, ..self },
            InfoTrait::DateOfBirth => CharacterInfo { date_of_birth: v, ..self },
            InfoTrait::Hair => CharacterInfo { hair: v, ..self },
            InfoTrait::Eyes => CharacterInfo { eyes: v, ..self },
            InfoTrait::Race => CharacterInfo { race: v, ..self },
            InfoTrait::Nationality => CharacterInfo { nationality: v, ..self },
            InfoTrait::Height => CharacterInfo { height: v, ..self },
            InfoTrait::Weight => CharacterInfo { weight: v, ..self },
            InfoTrait::Sex => CharacterInfo { sex: v, ..self },
        }
    }

    pub fn get(&self, info: InfoTrait) -> (r: &String)
        ensures
            *r == self.get_spec(info),
    {
        match info {
            InfoTrait::Name => &self.name,
            InfoTrait::Age => &self.age,
            InfoTrait::Player => &self.player,
            InfoTrait::VirtueAnchor => &self.virtue_anchor,
            InfoTrait::ViceAnchor => &self.vice_anchor,
            InfoTrait::Concept => &self.concept,
            InfoTrait::Chronicle => &self.chronicle,
            InfoTrait::Faction => &self.faction,
            InfoTrait::GroupName => &self.group_name,
            InfoTrait::DateOfBirth => &self.date_of_birth,
            InfoTrait::Hair => &self.hair,
            InfoTrait::Eyes => &self.eyes,
            InfoTrait::Race => &self.race,
            InfoTrait::Nationality => &self.nationality,
            InfoTrait::Height => &self.height,
            InfoTrait::Weight => &self.weight,
            InfoTrait::Sex => &self.sex,
        }
    }

    pub fn get_mut(&mut self, info: InfoTrait) -> (r: &mut String)
        ensures
            *r == old(self).get_spec(info),
            *final(self) == old(self).with_info(info, *final(r)),
    {
        match info {
            InfoTrait::Name => &mut self.name,
            InfoTrait::Age => &mut self.age,
            InfoTrait::Player => &mut self.player,
            InfoTrait::VirtueAnchor => &mut self.virtue_anchor,
            InfoTrait::ViceAnchor => &mut self.vice_anchor,
            InfoTrait::Concept => &mut self.concept,
            InfoTrait::Chronicle => &mut self.chronicle,
            InfoTrait::Faction => &mut self.faction,
            InfoTrait::GroupName => &mut self.group_name,
            InfoTrait::DateOfBirth => &mut self.date_of_birth,
            InfoTrait::Hair => &mut self.hair,
            InfoTrait::Eyes => &mut self.eyes,
            InfoTrait::Race => &mut self.race,
            InfoTrait::Nationality => &mut self.nationality,
            InfoTrait::Height => &mut self.height,
            InfoTrait::Weight => &mut self.weight,
            InfoTrait::Sex => &mut self.sex,
        }
    }
}

/// Setting one entry of a description and reading any entry back gives the new text for
/// that one and the old text for every other.
pub proof fn lemma_info_set_get(i: CharacterInfo, x: InfoTrait, v: String, y: InfoTrait)
    ensures
        i.with_info(x, v).get_spec(y) == if x == y {
            v
        } else {
            i.get_spec(y)
        },
        i.with_info(x, v).other == i.other,
{
}

/// Armor ratings.
#[derive(Debug, PartialEq, Eq, Structural)]
pub struct ArmorStruct {
    pub general: u16,
    pub ballistic: u16,
}

impl Default for ArmorStruct {
    fn default() -> (r: Self)
        ensures
            r.general == 0 && r.ballistic == 0,
    {
        ArmorStruct { general: 0, ballistic: 0 }
    }
}

impl Clone for ArmorStruct {
    fn clone(&self) -> (r: Self)
        ensures
            r == *self,
    {
        ArmorStruct { general: self.general, ballistic: self.ballistic }
    }
}

#[derive(Clone, Copy, Hash, Debug, PartialEq, Eq, Structural)]
pub enum Armor {
    General,
    Ballistic,
}

/// A weapon as written on a sheet.
#[derive(Debug, Clone)]
pub struct Weapon {
    pub name: String,
    pub dice_pool: String,
    pub damage: String,
    pub range: String,
    pub initative: i16,
    pub size: u16,
}

impl Default for Weapon {
    /// A weapon with no entries: empty texts, no initiative modifier, size zero.
    fn default() -> (r: Self)
        ensures
            r.name@.len() == 0,
            r.dice_pool@.len() == 0,
            r.damage@.len() == 0,
            r.range@.len() == 0,
            r.initative == 0,
            r.size == 0,
    {
        Weapon {
            name: String::new(),
            dice_pool: String::new(),
            damage: String::new(),
            range: String::new(),
            initative: 0,
            size: 0,
        }
    }
}

/// Whether `i` is the first entry of `s` whose ability is the same as `a`.
pub open spec fn first_ability_index(s: Seq<(Ability, u16)>, a: Ability, i: int) -> bool {
    &&& 0 <= i < s.len()
    &&& s[i].0.same(a)
    &&& forall|j: int| 0 <= j < i ==> !(#[trigger] s[j].0.same(a))
}

/// Whether some entry of `s` holds the ability `a`.
pub open spec fn has_ability_spec(s: Seq<(Ability, u16)>, a: Ability) -> bool {
    exists|i: int| 0 <= i < s.len() && #[trigger] s[i].0.same(a)
}

/// The dots of the first entry of `s` that holds `a`, if any does.
pub open spec fn ability_value(s: Seq<(Ability, u16)>, a: Ability) -> Option<u16> {
    if exists|i: int| first_ability_index(s, a, i) {
        Some(s[choose|i: int| first_ability_index(s, a, i)].1)
    } else {
        None
    }
}

/// The index of the first entry of `s` that holds `a`, or `None`.
fn find_ability(s: &Vec<(Ability, u16)>, a: &Ability) -> (r: Option<usize>)
    ensures
        r matches Some(i) ==> first_ability_index(s@, *a, i as int),
        r is None ==> !has_ability_spec(s@, *a),
{
    let mut i: usize = 0;
    while i < s.len()
        invariant
            i <= s@.len(),
            forall|j: int| 0 <= j < i ==> !(#[trigger] s@[j].0.same(*a)),
        decreases s@.len() - i,
    {
        if s[i].0 == *a {
            return Some(i);
        }
        i += 1;
    }
    None
}

pub(crate) proof fn lemma_first_index_unique(s: Seq<(Ability, u16)>, a: Ability, i: int)
    requires
        first_ability_index(s, a, i),
    ensures
        ability_value(s, a) == Some(s[i].1),
        has_ability_spec(s, a),
{
    let k = choose|k: int| first_ability_index(s, a, k);
    assert(first_ability_index(s, a, k));
    if k < i {
        assert(!s[k].0.same(a));
    }
    if i < k {
        assert(!s[i].0.same(a));
    }
    assert(k == i);
}

proof fn lemma_no_index(s: Seq<(Ability, u16)>, a: Ability)
    requires
        !has_ability_spec(s, a),
    ensures
        ability_value(s, a) is None,
{
    if exists|i: int| first_ability_index(s, a, i) {
        let k = choose|k: int| first_ability_index(s, a, k);
        assert(s[k].0.same(a));
    }
}

/// The unmodified target that a modifier target rests on.
pub open spec fn base_target(t: ModifierTarget) -> ModifierTarget {
    match t {
        ModifierTarget::Attribute(a) => ModifierTarget::BaseAttribute(a),
        ModifierTarget::Skill(s) => ModifierTarget::BaseSkill(s),
        _ => t,
    }
}

/// Whether a target names the dots themselves.
pub open spec fn is_base(t: ModifierTarget) -> bool {
    t is BaseAttribute || t is BaseSkill
}

/// The pool that Defense is rolled with: the lower of Wits and Dexterity, plus a skill.
pub open spec fn defense_pool_of(skill: Skill) -> DicePool {
    DicePool::Add(
        Box::new(
            DicePool::Min(
                Box::new(DicePool::Attribute(Attribute::Wits)),
                Box::new(DicePool::Attribute(Attribute::Dexterity)),
            ),
        ),
        Box::new(DicePool::Skill(skill)),
    )
}

/// A character sheet.
///
/// Abilities and specialties are lists of entries; the library's own operations keep at
/// most one entry per ability and per skill, as a map would. The attributes and skills
/// held here are the unmodified dots; `attributes()` and `skills()` give the modified ones.
#[derive(Debug)]
pub struct Character {
    pub splat: Splat,
    pub info: CharacterInfo,
    pub _attributes: Attributes,
    pub skills: Skills,
    pub specialties: Vec<(Skill, Vec<String>)>,
    pub health: Damage,
    pub willpower: u16,
    pub power: u16,
    pub fuel: u16,
    pub integrity: u16,
    pub touchstones: Vec<String>,
    pub abilities: Vec<(Ability, u16)>,
    pub merits: Vec<(Merit, u16)>,
    pub weapons: Vec<Weapon>,
    pub base_size: u16,
    pub base_armor: ArmorStruct,
    pub beats: u16,
    pub alternate_beats: u16,
    pub conditions: Vec<String>,
    pub aspirations: Vec<String>,
    pub modifiers: Modifiers,
}

impl Character {
    pub open spec fn base_attributes_view(self) -> Attributes {
        self._attributes
    }

    pub open spec fn base_skills_view(self) -> Skills {
        self.skills
    }

    pub open spec fn health_view(self) -> Damage {
        self.health
    }

    pub open spec fn base_armor_view(self) -> ArmorStruct {
        self.base_armor
    }

    /// The tables of modifiers last computed for the sheet.
    pub open spec fn modifiers_view(self) -> Modifiers {
        self.modifiers
    }

    /// Two sheets that differ in their modifier tables at most.
    pub open spec fn same_except_modifiers(self, other: Character) -> bool {
        &&& self.splat == other.splat
        &&& self.info == other.info
        &&& self.base_attributes_view() == other.base_attributes_view()
        &&& self.base_skills_view() == other.base_skills_view()
        &&& self.specialties == other.specialties
        &&& self.health_view() == other.health_view()
        &&& self.willpower == other.willpower
        &&& self.power == other.power
        &&& self.fuel == other.fuel
        &&& self.integrity == other.integrity
        &&& self.touchstones == other.touchstones
        &&& self.abilities == other.abilities
        &&& self.merits == other.merits
        &&& self.weapons == other.weapons
        &&& self.base_size == other.base_size
        &&& self.base_armor_view() == other.base_armor_view()
        &&& self.beats == other.beats
        &&& self.alternate_beats == other.alternate_beats
        &&& self.conditions == other.conditions
        &&& self.aspirations == other.aspirations
    }

    /// The sum of the modifiers on a target that apply to this sheet.
    pub open spec fn mod_sum(self, t: ModifierTarget) -> int {
        modifiers_sum(context_of(self), self.modifiers_view(), t)
    }

    /// Summing the modifiers on `t` stays within `i16`.
    pub open spec fn mod_fits(self, t: ModifierTarget) -> bool {
        modifiers_fit(context_of(self), self.modifiers_view(), t)
    }

    /// The unmodified rating behind a target: dots for attributes and skills, nothing else.
    pub open spec fn base_value(self, t: ModifierTarget) -> int {
        match t {
            ModifierTarget::BaseAttribute(a) => self.base_attributes_view().get_spec(a) as int,
            ModifierTarget::Attribute(a) => self.base_attributes_view().get_spec(a) as int,
            ModifierTarget::BaseSkill(s) => self.base_skills_view().get_spec(s) as int,
            ModifierTarget::Skill(s) => self.base_skills_view().get_spec(s) as int,
            _ => 0,
        }
    }

    /// A modified rating. Modifiers on the dots themselves count while the dots stay at
    /// five or below; past five only the modifiers on the rating count.
    pub open spec fn modified_spec(self, t: ModifierTarget) -> int {
        let base = self.base_value(t);
        let m = if is_base(t) { 0 } else { self.mod_sum(t) };
        let bm = self.mod_sum(base_target(t));
        if clamp_add(base, bm) > 5 {
            clamp_add(base, m)
        } else {
            clamp_add(base, bm + m)
        }
    }

    /// Computing `modified_spec(t)` stays within `i16`.
    pub open spec fn modified_ok(self, t: ModifierTarget) -> bool {
        let base = self.base_value(t);
        let m = if is_base(t) { 0 } else { self.mod_sum(t) };
        let bm = self.mod_sum(base_target(t));
        &&& (!is_base(t) ==> self.mod_fits(t))
        &&& self.mod_fits(base_target(t))
        &&& (clamp_add(base, bm) > 5 || in_i16(bm + m))
    }

    /// The modified attributes.
    pub open spec fn attributes_spec(self) -> Attributes {
        Attributes {
            intelligence: self.modified_spec(ModifierTarget::Attribute(Attribute::Intelligence)) as u16,
            wits: self.modified_spec(ModifierTarget::Attribute(Attribute::Wits)) as u16,
            resolve: self.modified_spec(ModifierTarget::Attribute(Attribute::Resolve)) as u16,
            strength: self.modified_spec(ModifierTarget::Attribute(Attribute::Strength)) as u16,
            dexterity: self.modified_spec(ModifierTarget::Attribute(Attribute::Dexterity)) as u16,
            stamina: self.modified_spec(ModifierTarget::Attribute(Attribute::Stamina)) as u16,
            presence: self.modified_spec(ModifierTarget::Attribute(Attribute::Presence)) as u16,
            manipulation: self.modified_spec(ModifierTarget::Attribute(Attribute::Manipulation)) as u16,
            composure: self.modified_spec(ModifierTarget::Attribute(Attribute::Composure)) as u16,
        }
    }

    pub open spec fn attributes_in_range(self) -> bool {
        forall|a: Attribute| #[trigger] self.modified_ok(ModifierTarget::Attribute(a))
    }

    /// The modified skills.
    pub open spec fn skills_spec(self) -> Skills {
        Skills {
            academics: self.modified_spec(ModifierTarget::Skill(Skill::Academics)) as u16,
            computer: self.modified_spec(ModifierTarget::Skill(Skill::Computer)) as u16,
            crafts: self.modified_spec(ModifierTarget::Skill(Skill::Crafts)) as u16,
            investigation: self.modified_spec(ModifierTarget::Skill(Skill::Investigation)) as u16,
            medicine: self.modified_spec(ModifierTarget::Skill(Skill::Medicine)) as u16,
            occult: self.modified_spec(ModifierTarget::Skill(Skill::Occult)) as u16,
            politics: self.modified_spec(ModifierTarget::Skill(Skill::Politics)) as u16,
            science: self.modified_spec(ModifierTarget::Skill(Skill::Science)) as u16,
            athletics: self.modified_spec(ModifierTarget::Skill(Skill::Athletics)) as u16,
            brawl: self.modified_spec(ModifierTarget::Skill(Skill::Brawl)) as u16,
            drive: self.modified_spec(ModifierTarget::Skill(Skill::Drive)) as u16,
            firearms: self.modified_spec(ModifierTarget::Skill(Skill::Firearms)) as u16,
            larceny: self.modified_spec(ModifierTarget::Skill(Skill::Larceny)) as u16,
            stealth: self.modified_spec(ModifierTarget::Skill(Skill::Stealth)) as u16,
            survival: self.modified_spec(ModifierTarget::Skill(Skill::Survival)) as u16,
            weaponry: self.modified_spec(ModifierTarget::Skill(Skill::Weaponry)) as u16,
            animal_ken: self.modified_spec(ModifierTarget::Skill(Skill::AnimalKen)) as u16,
            empathy: self.modified_spec(ModifierTarget::Skill(Skill::Empathy)) as u16,
            expression: self.modified_spec(ModifierTarget::Skill(Skill::Expression)) as u16,
            intimidation: self.modified_spec(ModifierTarget::Skill(Skill::Intimidation)) as u16,
            persuasion: self.modified_spec(ModifierTarget::Skill(Skill::Persuasion)) as u16,
            socialize: self.modified_spec(ModifierTarget::Skill(Skill::Socialize)) as u16,
            streetwise: self.modified_spec(ModifierTarget::Skill(Skill::Streetwise)) as u16,
            subterfuge: self.modified_spec(ModifierTarget::Skill(Skill::Subterfuge)) as u16,
        }
    }

    pub open spec fn skills_in_range(self) -> bool {
        forall|s: Skill| #[trigger] self.modified_ok(ModifierTarget::Skill(s))
    }

    pub open spec fn size_spec(self) -> int {
        clamp_add(self.base_size as int, self.mod_sum(ModifierTarget::Trait(Trait::Size)))
    }

    pub open spec fn size_ok(self) -> bool {
        self.mod_fits(ModifierTarget::Trait(Trait::Size))
    }

    /// Maximum health: Size plus Stamina, and the health modifiers.
    pub open spec fn max_health_spec(self) -> int {
        clamp_add(
            self.size_spec() + self.attributes_spec().stamina,
            self.mod_sum(ModifierTarget::Trait(Trait::Health)),
        )
    }

    pub open spec fn max_health_ok(self) -> bool {
        &&& self.attributes_in_range()
        &&& self.size_ok()
        &&& self.size_spec() + self.attributes_spec().stamina <= u16::MAX
        &&& self.mod_fits(ModifierTarget::Trait(Trait::Health))
    }

    /// Maximum willpower: Resolve plus Composure.
    pub open spec fn max_willpower_spec(self) -> int {
        self.attributes_spec().resolve + self.attributes_spec().composure
    }

    pub open spec fn max_willpower_ok(self) -> bool {
        self.attributes_in_range() && self.max_willpower_spec() <= u16::MAX
    }

    /// Speed: five plus Dexterity plus Strength, and the speed modifiers.
    pub open spec fn speed_spec(self) -> int {
        clamp_add(
            5 + self.attributes_spec().dexterity + self.attributes_spec().strength,
            self.mod_sum(ModifierTarget::Trait(Trait::Speed)),
        )
    }

    pub open spec fn speed_ok(self) -> bool {
        &&& self.attributes_in_range()
        &&& 5 + self.attributes_spec().dexterity + self.attributes_spec().strength <= u16::MAX
        &&& self.mod_fits(ModifierTarget::Trait(Trait::Speed))
    }

    /// Initiative: Dexterity plus Composure, and the initiative modifiers.
    pub open spec fn initative_spec(self) -> int {
        clamp_add(
            self.attributes_spec().dexterity + self.attributes_spec().composure,
            self.mod_sum(ModifierTarget::Trait(Trait::Initative)),
        )
    }

    pub open spec fn initative_ok(self) -> bool {
        &&& self.attributes_in_range()
        &&& self.attributes_spec().dexterity + self.attributes_spec().composure <= u16::MAX
        &&& self.mod_fits(ModifierTarget::Trait(Trait::Initative))
    }

    /// Perception: Wits plus Composure, and the perception modifiers.
    pub open spec fn perception_spec(self) -> int {
        clamp_add(
            self.attributes_spec().wits + self.attributes_spec().composure,
            self.mod_sum(ModifierTarget::Trait(Trait::Perception)),
        )
    }

    pub open spec fn perception_ok(self) -> bool {
        &&& self.attributes_in_range()
        &&& self.attributes_spec().wits + self.attributes_spec().composure <= u16::MAX
        &&& self.mod_fits(ModifierTarget::Trait(Trait::Perception))
    }

    /// The skill that Defense is rolled with: Athletics unless a modifier on Defense puts
    /// another in its place; the last such modifier that applies wins.
    pub open spec fn defense_skill(self) -> Skill {
        let m = self.modifiers_view();
        let t = ModifierTarget::Trait(Trait::Defense);
        last_cond_skill(context_of(self), m.conditional_entries(), t, last_skill(m.entries(), t, Skill::Athletics))
    }

    /// Defense: the value of the defense pool, and never below zero.
    pub open spec fn defense_spec(self) -> int {
        let v = flat_pool_value(self, defense_pool_of(self.defense_skill()));
        if v > 0 {
            v
        } else {
            0
        }
    }

    pub open spec fn defense_ok(self) -> bool {
        flat_pool_ok(self, defense_pool_of(self.defense_skill()))
    }

    /// Maximum fuel by supernatural tolerance; a mortal's is their Stamina.
    pub open spec fn max_fuel_spec(self) -> int {
        let p = self.power as int;
        if p == 0 {
            self.attributes_spec().stamina as int
        } else if 1 <= p <= 4 {
            10 + p - 1
        } else if 5 <= p <= 8 {
            10 + (p - 4) * 5
        } else if p == 9 {
            50
        } else if p == 10 {
            75
        } else {
            0
        }
    }

    pub open spec fn max_fuel_ok(self) -> bool {
        self.power == 0 ==> self.attributes_in_range()
    }

    /// The dice lost to wounds: one, two or three as the last three boxes of health fill.
    pub open spec fn wound_penalty_spec(self) -> int {
        let mh = self.max_health_spec();
        let taken = if self.health_view().sum_spec() < mh { self.health_view().sum_spec() } else { mh };
        let left = mh - taken;
        if left == 2 {
            1
        } else if left == 1 {
            2
        } else if left == 0 {
            3
        } else {
            0
        }
    }

    pub open spec fn wound_penalty_ok(self) -> bool {
        self.max_health_ok() && self.health_view().sum_spec() <= u16::MAX
    }

    /// The value of a trait on this sheet.
    pub open spec fn trait_value(self, t: Trait) -> int {
        match t {
            Trait::Speed => self.speed_spec(),
            Trait::Defense => self.defense_spec(),
            Trait::Initative => self.initative_spec(),
            Trait::Perception => self.perception_spec(),
            Trait::Health => self.max_health_spec(),
            Trait::Size => self.size_spec(),
            Trait::Beats => self.beats as int,
            Trait::Armor(Some(Armor::General)) => self.base_armor_view().general as int,
            Trait::Armor(Some(Armor::Ballistic)) => self.base_armor_view().ballistic as int,
            Trait::Willpower => self.max_willpower_spec(),
            Trait::Power => self.power as int,
            Trait::Fuel => self.fuel as int,
            Trait::Integrity => self.integrity as int,
            _ => 0,
        }
    }

    /// Computing the value of a trait stays within bounds.
    pub open spec fn trait_ok(self, t: Trait) -> bool {
        match t {
            Trait::Speed => self.speed_ok(),
            Trait::Defense => self.defense_ok(),
            Trait::Initative => self.initative_ok(),
            Trait::Perception => self.perception_ok(),
            Trait::Health => self.max_health_ok(),
            Trait::Size => self.size_ok(),
            Trait::Willpower => self.max_willpower_ok(),
            _ => true,
        }
    }
}

/// The index of the first entry of `s` that holds `a`.
pub open spec fn first_index(s: Seq<(Ability, u16)>, a: Ability) -> int {
    choose|i: int| first_ability_index(s, a, i)
}

/// `s` with ability `a` rated `v`: the first entry that holds it takes the new rating,
/// or a new entry is added at the end.
pub open spec fn ability_insert(s: Seq<(Ability, u16)>, a: Ability, v: u16) -> Seq<(Ability, u16)> {
    if has_ability_spec(s, a) {
        s.update(first_index(s, a), (s[first_index(s, a)].0, v))
    } else {
        s.push((a, v))
    }
}

/// `s` without any entry that holds `a`.
pub open spec fn ability_remove(s: Seq<(Ability, u16)>, a: Ability) -> Seq<(Ability, u16)>
    decreases s.len(),
{
    if s.len() == 0 {
        s
    } else {
        let rest = ability_remove(s.drop_last(), a);
        if s.last().0.same(a) {
            rest
        } else {
            rest.push(s.last())
        }
    }
}

/// Abilities are compared by `same`, which is an equivalence: every ability is the same as
/// itself, and the relation is symmetric and transitive.
pub proof fn lemma_ability_same_equivalence(a: Ability, b: Ability, c: Ability)
    ensures
        a.same(a),
        a.same(b) ==> b.same(a),
        a.same(b) && b.same(c) ==> a.same(c),
{
}

/// Rating an ability and reading the ratings back: the ability has the new rating, and
/// every ability that is not the same keeps the rating it had.
pub proof fn lemma_ability_insert_value(s: Seq<(Ability, u16)>, a: Ability, v: u16, b: Ability)
    ensures
        ability_value(ability_insert(s, a, v), a) == Some(v),
        has_ability_spec(ability_insert(s, a, v), a),
        !b.same(a) ==> ability_value(ability_insert(s, a, v), b) == ability_value(s, b),
{
    let s2 = ability_insert(s, a, v);
    lemma_ability_same_equivalence(a, a, a);
    if has_ability_spec(s, a) {
        let i0 = choose|i: int| 0 <= i < s.len() && #[trigger] s[i].0.same(a);
        lemma_first_index_exists(s, a, i0);
        let i = first_index(s, a);
        assert(first_ability_index(s, a, i));
        assert(first_ability_index(s2, a, i));
        lemma_first_index_unique(s2, a, i);
        if !b.same(a) {
            assert forall|k: int| #![trigger s2[k]] 0 <= k < s.len() implies s2[k].0 == s[k].0 by {}
            if has_ability_spec(s, b) {
                let k0 = choose|k: int| 0 <= k < s.len() && #[trigger] s[k].0.same(b);
                lemma_first_index_exists(s, b, k0);
                let k = first_index(s, b);
                assert(first_ability_index(s, b, k));
                lemma_ability_same_equivalence(s[i].0, b, a);
                lemma_ability_same_equivalence(b, s[i].0, a);
                assert(k != i);
                assert(first_ability_index(s2, b, k));
                lemma_first_index_unique(s, b, k);
                lemma_first_index_unique(s2, b, k);
            } else {
                assert(!has_ability_spec(s2, b));
                lemma_no_index(s, b);
                lemma_no_index(s2, b);
            }
        }
    } else {
        let n = s.len() as int;
        assert(first_ability_index(s2, a, n));
        lemma_first_index_unique(s2, a, n);
        if !b.same(a) {
            lemma_ability_same_equivalence(a, b, a);
            if has_ability_spec(s, b) {
                let k0 = choose|k: int| 0 <= k < s.len() && #[trigger] s[k].0.same(b);
                lemma_first_index_exists(s, b, k0);
                let k = first_index(s, b);
                assert(first_ability_index(s, b, k));
                assert(first_ability_index(s2, b, k));
                lemma_first_index_unique(s, b, k);
                lemma_first_index_unique(s2, b, k);
            } else {
                assert(!has_ability_spec(s2, b));
                lemma_no_index(s, b);
                lemma_no_index(s2, b);
            }
        }
    }
}

/// Where some entry holds an ability, a first one does.
pub(crate) proof fn lemma_first_index_exists(s: Seq<(Ability, u16)>, a: Ability, i: int)
    requires
        0 <= i < s.len(),
        s[i].0.same(a),
    ensures
        first_ability_index(s, a, first_index(s, a)),
    decreases i,
{
    if exists|j: int| 0 <= j < i && #[trigger] s[j].0.same(a) {
        let j = choose|j: int| 0 <= j < i && #[trigger] s[j].0.same(a);
        lemma_first_index_exists(s, a, j);
    } else {
        assert(first_ability_index(s, a, i));
    }
}

/// After an ability is taken off, no entry holds it.
pub proof fn lemma_ability_remove_absent(s: Seq<(Ability, u16)>, a: Ability)
    ensures
        !has_ability_spec(ability_remove(s, a), a),
    decreases s.len(),
{
    if s.len() > 0 {
        lemma_ability_remove_absent(s.drop_last(), a);
        let rest = ability_remove(s.drop_last(), a);
        if !s.last().0.same(a) {
            let r = rest.push(s.last());
            assert forall|i: int| 0 <= i < r.len() implies !(#[trigger] r[i].0.same(a)) by {
                if i < rest.len() {
                    assert(r[i] == rest[i]);
                }
            }
        }
    }
}

/// Reading a rating from a list with one more entry at the end: an earlier entry that holds
/// the ability wins, else the new one if it holds it.
proof fn lemma_ability_value_push(s: Seq<(Ability, u16)>, x: (Ability, u16), b: Ability)
    ensures
        has_ability_spec(s.push(x), b) == (has_ability_spec(s, b) || x.0.same(b)),
        ability_value(s.push(x), b) == if has_ability_spec(s, b) {
            ability_value(s, b)
        } else if x.0.same(b) {
            Some(x.1)
        } else {
            None
        },
{
    let s2 = s.push(x);
    assert forall|k: int| #![trigger s2[k]] 0 <= k < s.len() implies s2[k] == s[k] by {}
    if has_ability_spec(s, b) {
        let k0 = choose|k: int| 0 <= k < s.len() && #[trigger] s[k].0.same(b);
        lemma_first_index_exists(s, b, k0);
        let k = first_index(s, b);
        assert(first_ability_index(s2, b, k));
        lemma_first_index_unique(s, b, k);
        lemma_first_index_unique(s2, b, k);
    } else if x.0.same(b) {
        assert(first_ability_index(s2, b, s.len() as int));
        lemma_first_index_unique(s2, b, s.len() as int);
    } else {
        assert forall|k: int| 0 <= k < s2.len() implies !(#[trigger] s2[k].0.same(b)) by {
            if k < s.len() {
                assert(!s[k].0.same(b));
            }
        }
        lemma_no_index(s2, b);
    }
}

/// Taking an ability off leaves every ability that is not the same as it on the sheet
/// with the rating it had.
pub proof fn lemma_ability_remove_others(s: Seq<(Ability, u16)>, a: Ability, b: Ability)
    requires
        !b.same(a),
    ensures
        has_ability_spec(ability_remove(s, a), b) == has_ability_spec(s, b),
        ability_value(ability_remove(s, a), b) == ability_value(s, b),
    decreases s.len(),
{
    if s.len() == 0 {
    } else {
        let d = s.drop_last();
        let x = s.last();
        assert(s == d.push(x));
        lemma_ability_remove_others(d, a, b);
        lemma_ability_value_push(d, x, b);
        let rest = ability_remove(d, a);
        if x.0.same(a) {
            lemma_ability_same_equivalence(x.0, b, a);
            lemma_ability_same_equivalence(b, x.0, a);
            if !has_ability_spec(d, b) {
                lemma_no_index(d, b);
            }
        } else {
            lemma_ability_value_push(rest, x, b);
        }
    }
}

/// Taking off an ability that no entry holds leaves the list as it is.
pub proof fn lemma_ability_remove_missing(s: Seq<(Ability, u16)>, a: Ability)
    requires
        !has_ability_spec(s, a),
    ensures
        ability_remove(s, a) == s,
    decreases s.len(),
{
    if s.len() > 0 {
        let d = s.drop_last();
        assert(!s.last().0.same(a));
        assert(!has_ability_spec(d, a)) by {
            if has_ability_spec(d, a) {
                let k = choose|k: int| 0 <= k < d.len() && #[trigger] d[k].0.same(a);
                assert(s[k] == d[k]);
            }
        }
        lemma_ability_remove_missing(d, a);
        assert(d.push(s.last()) =~= s);
    }
}

/// Rating an ability and then taking it off: the removal gives back the rating just set,
/// the ability is gone afterwards, a second removal finds nothing and changes nothing, and
/// every other ability keeps the rating it had before both steps.
pub proof fn lemma_add_then_remove_ability(s: Seq<(Ability, u16)>, a: Ability, v: u16, b: Ability)
    ensures
        ability_value(ability_insert(s, a, v), a) == Some(v),
        !has_ability_spec(ability_remove(ability_insert(s, a, v), a), a),
        ability_value(ability_remove(ability_insert(s, a, v), a), a) is None,
        ability_remove(ability_remove(ability_insert(s, a, v), a), a) == ability_remove(
            ability_insert(s, a, v),
            a,
        ),
        !b.same(a) ==> ability_value(ability_remove(ability_insert(s, a, v), a), b) == ability_value(s, b),
{
    let s1 = ability_insert(s, a, v);
    let s2 = ability_remove(s1, a);
    lemma_ability_insert_value(s, a, v, b);
    lemma_ability_remove_absent(s1, a);
    lemma_no_index(s2, a);
    lemma_ability_remove_missing(s2, a);
    if !b.same(a) {
        lemma_ability_remove_others(s1, a, b);
    }
}

fn insert_ability(s: &mut Vec<(Ability, u16)>, a: Ability, v: u16)
    ensures
        final(s)@ == ability_insert(old(s)@, a, v),
{
    match find_ability(s, &a) {
        Some(i) => {
            proof {
                lemma_first_index_unique(s@, a, i as int);
            }
            let key = s[i].0.clone();
            s.set(i, (key, v));
        },
        None => {
            s.push((a, v));
        },
    }
}

fn remove_all(s: &Vec<(Ability, u16)>, a: &Ability) -> (r: Vec<(Ability, u16)>)
    ensures
        r@ == ability_remove(s@, *a),
{
    let mut r: Vec<(Ability, u16)> = Vec::new();
    let mut i: usize = 0;
    while i < s.len()
        invariant
            i <= s@.len(),
            r@ == ability_remove(s@.take(i as int), *a),
        decreases s@.len() - i,
    {
        proof {
            assert(s@.take(i + 1).drop_last() =~= s@.take(i as int));
        }
        if !(s[i].0 == *a) {
            r.push((s[i].0.clone(), s[i].1));
        }
        i += 1;
    }
    assert(s@.take(s@.len() as int) =~= s@);
    r
}

impl Character {
    pub fn builder() -> (r: CharacterBuilder)
        ensures
            r.is_blank(),
    {
        CharacterBuilder::default()
    }

    /// Rates an ability, replacing the rating it had.
    pub fn add_ability(&mut self, ability: Ability, val: u16)
        ensures
            final(self).abilities@ == ability_insert(old(self).abilities@, ability, val),
            *final(self) == (Character { abilities: final(self).abilities, ..*old(self) }),
    {
        insert_ability(&mut self.abilities, ability, val);
    }

    pub fn has_ability(&self, key: &Ability) -> (r: bool)
        ensures
            r == has_ability_spec(self.abilities@, *key),
    {
        find_ability(&self.abilities, key).is_some()
    }

    /// Takes an ability off the sheet and gives back the rating it had.
    pub fn remove_ability(&mut self, key: &Ability) -> (r: Option<u16>)
        ensures
            r == ability_value(old(self).abilities@, *key),
            final(self).abilities@ == ability_remove(old(self).abilities@, *key),
            *final(self) == (Character { abilities: final(self).abilities, ..*old(self) }),
    {
        let r = match find_ability(&self.abilities, key) {
            Some(i) => {
                proof {
                    lemma_first_index_unique(self.abilities@, *key, i as int);
                }
                Some(self.abilities[i].1)
            },
            None => {
                proof {
                    lemma_no_index(self.abilities@, *key);
                }
                None
            },
        };
        self.abilities = remove_all(&self.abilities, key);
        r
    }

    pub fn get_ability_value(&self, key: &Ability) -> (r: Option<&u16>)
        ensures
            match r {
                Some(v) => ability_value(self.abilities@, *key) == Some(*v),
                None => ability_value(self.abilities@, *key) is None,
            },
    {
        match find_ability(&self.abilities, key) {
            Some(i) => {
                proof {
                    lemma_first_index_unique(self.abilities@, *key, i as int);
                }
                Some(&self.abilities[i].1)
            },
            None => {
                proof {
                    lemma_no_index(self.abilities@, *key);
                }
                None
            },
        }
    }

    /// The rating of an ability, to edit in place.
    pub fn get_ability_value_mut(&mut self, key: &Ability) -> (r: Option<&mut u16>)
        ensures
            match r {
                Some(v) => {
                    &&& ability_value(old(self).abilities@, *key) == Some(*v)
                    &&& final(self).abilities@ == old(self).abilities@.update(
                        first_index(old(self).abilities@, *key),
                        (old(self).abilities@[first_index(old(self).abilities@, *key)].0, *final(v)),
                    )
                    &&& *final(self) == (Character { abilities: final(self).abilities, ..*old(self) })
                },
                None => {
                    &&& ability_value(old(self).abilities@, *key) is None
                    &&& *final(self) == *old(self)
                },
            },
    {
        match find_ability(&self.abilities, key) {
            Some(i) => {
                proof {
                    lemma_first_index_unique(self.abilities@, *key, i as int);
                }
                Some(&mut self.abilities[i].1)
            },
            None => {
                proof {
                    lemma_no_index(self.abilities@, *key);
                }
                None
            },
        }
    }

    /// Adds a merit without dots.
    pub fn add_merit(&mut self, key: Merit)
        ensures
            final(self).merits@ == old(self).merits@.push((key, 0u16)),
            *final(self) == (Character { merits: final(self).merits, ..*old(self) }),
    {
        self.merits.push((key, 0));
    }

    pub fn remove_merit(&mut self, i: usize) -> (r: (Merit, u16))
        requires
            i < old(self).merits@.len(),
        ensures
            r == old(self).merits@[i as int],
            final(self).merits@ == old(self).merits@.remove(i as int),
            *final(self) == (Character { merits: final(self).merits, ..*old(self) }),
    {
        self.merits.remove(i)
    }

    pub fn get_merit(&self, i: usize) -> (r: Option<&(Merit, u16)>)
        ensures
            match r {
                Some(m) => i < self.merits@.len() && *m == self.merits@[i as int],
                None => i >= self.merits@.len(),
            },
    {
        if i < self.merits.len() {
            Some(&self.merits[i])
        } else {
            None
        }
    }

    pub fn get_merit_mut(&mut self, i: usize) -> (r: Option<&mut (Merit, u16)>)
        ensures
            match r {
                Some(m) => {
                    &&& i < old(self).merits@.len()
                    &&& *m == old(self).merits@[i as int]
                    &&& final(self).merits@ == old(self).merits@.update(i as int, *final(m))
                    &&& *final(self) == (Character { merits: final(self).merits, ..*old(self) })
                },
                None => i >= old(self).merits@.len() && *final(self) == *old(self),
            },
    {
        if i < self.merits.len() {
            Some(&mut self.merits[i])
        } else {
            None
        }
    }
}

/// The pool Defense is rolled with when no modifier changes it.
pub fn defense_pool() -> (r: DicePool)
    ensures
        r == defense_pool_of(Skill::Athletics),
{
    DicePool::min(DicePool::Attribute(Attribute::Wits), DicePool::Attribute(Attribute::Dexterity))
        + Skill::Athletics
}

proof fn lemma_defense_pool_trait_free(s: Skill)
    ensures
        trait_free(defense_pool_of(s)),
{
    reveal_with_fuel(trait_free, 3);
}

/// Every entry of a sheet's description is empty.
pub open spec fn info_blank(i: CharacterInfo) -> bool {
    &&& forall|t: InfoTrait| (#[trigger] i.get_spec(t))@.len() == 0
    &&& i.other@.len() == 0
}

impl Character {
    /// A sheet as it starts: a mortal with one dot in every attribute, none in any skill,
    /// Size 5, Integrity 7, and nothing else.
    pub open spec fn is_fresh(self) -> bool {
        &&& self.splat is Mortal
        &&& info_blank(self.info)
        &&& forall|a: Attribute| #[trigger] self.base_attributes_view().get_spec(a) == 1
        &&& forall|s: Skill| #[trigger] self.base_skills_view().get_spec(s) == 0
        &&& self.is_fresh_besides_ratings()
    }

    /// What a fresh sheet holds beyond its splat, description, attributes and skills.
    pub open spec fn is_fresh_besides_ratings(self) -> bool {
        &&& self.specialties@.len() == 0
        &&& self.health_view().with_counts(0, 0, 0)
        &&& self.willpower == 0
        &&& self.fuel == 0
        &&& self.integrity == 7
        &&& self.touchstones@.len() == 0
        &&& self.weapons@.len() == 0
        &&& self.base_size == 5
        &&& self.base_armor_view().general == 0
        &&& self.base_armor_view().ballistic == 0
        &&& self.beats == 0
        &&& self.alternate_beats == 0
        &&& self.conditions@.len() == 0
        &&& self.aspirations@.len() == 0
        &&& self.modifiers_view().entries().len() == 0
        &&& self.modifiers_view().conditional_entries().len() == 0
    }
}

impl Default for Character {
    fn default() -> (r: Self)
        ensures
            r.is_fresh(),
            r.power == 0,
            r.abilities@.len() == 0,
            r.merits@.len() == 0,
    {
        Self {
            splat: Splat::default(),
            info: CharacterInfo::default(),
            _attributes: Attributes::default(),
            skills: Skills::default(),
            base_size: 5,
            abilities: Vec::new(),
            merits: Vec::new(),
            health: Damage::default(),
            modifiers: Modifiers::default(),
            power: 0,
            integrity: 7,
            fuel: 0,
            willpower: 0,
            beats: 0,
            alternate_beats: 0,
            base_armor: ArmorStruct::default(),
            specialties: Vec::new(),
            touchstones: Vec::new(),
            conditions: Vec::new(),
            aspirations: Vec::new(),
            weapons: Vec::new(),
        }
    }
}

impl Character {
    /// The value of a trait.
    pub fn get_trait(&self, trait_: &Trait) -> (r: u16)
        requires
            self.trait_ok(*trait_),
        ensures
            r == self.trait_value(*trait_),
    {
        match trait_ {
            Trait::Speed => self.speed(),
            Trait::Defense => self.defense(),
            Trait::Initative => self.initative(),
            Trait::Perception => self.perception(),
            Trait::Health => self.max_health(),
            Trait::Size => self.size(),
            Trait::Beats => self.beats,
            Trait::Armor(Some(armor)) => match armor {
                Armor::General => self.armor().general,
                Armor::Ballistic => self.armor().ballistic,
            },
            Trait::Willpower => self.max_willpower(),
            Trait::Power => self.power,
            Trait::Fuel => self.fuel,
            Trait::Integrity => self.integrity,
            _ => 0,
        }
    }

    /// Recomputes the modifier tables from the sheet's abilities, merits and splat.
    pub fn calc_mod_map(&mut self)
        ensures
            final(self).same_except_modifiers(*old(self)),
            final(self).modifiers_view().entries() == uncond_entries(character_modifiers(*old(self))),
            final(self).modifiers_view().conditional_entries() == cond_entries(
                character_modifiers(*old(self)),
            ),
            final(self).modifiers_view().entries() == uncond_entries(character_modifiers(*final(self))),
            final(self).modifiers_view().conditional_entries() == cond_entries(
                character_modifiers(*final(self)),
            ),
    {
        let mut modifiers = Modifiers::default();
        modifiers.update(self);
        self.modifiers = modifiers;
    }

    /// The sum of the modifiers on a target that apply now.
    pub fn get_modifier(&self, target: ModifierTarget) -> (r: i16)
        requires
            self.mod_fits(target),
        ensures
            r == self.mod_sum(target),
    {
        self.modifiers.get_modifier(self, target)
    }

    /// The sum of the modifiers on a target that apply under a condition, whether it
    /// holds now or not; `None` when there is none.
    pub fn get_conditional_modifier(&self, target: ModifierTarget, condition: Condition) -> (r: Option<i16>)
        requires
            forall|k: int|
                0 <= k <= self.modifiers_view().conditional_entries().len() ==> in_i16(
                    #[trigger] sum_under(
                        context_of(*self),
                        self.modifiers_view().conditional_entries().take(k),
                        target,
                        condition,
                    ),
                ),
        ensures
            r is Some <==> exists|i: int|
                0 <= i < self.modifiers_view().conditional_entries().len()
                    && #[trigger] self.modifiers_view().conditional_entries()[i].0 == target
                    && self.modifiers_view().conditional_entries()[i].1 == condition,
            r matches Some(v) ==> v == sum_under(
                context_of(*self),
                self.modifiers_view().conditional_entries(),
                target,
                condition,
            ),
    {
        self.modifiers.get_conditional_modifier(self, target, condition)
    }

    /// The pool of a rolled trait: Defense has one, nothing else does.
    pub fn get_pool(&self, target: ModifierTarget) -> (r: Option<DicePool>)
        ensures
            r == (if target == ModifierTarget::Trait(Trait::Defense) {
                Some(defense_pool_of(self.defense_skill()))
            } else {
                None
            }),
    {
        self.modifiers.get_pool(self, target)
    }

    /// The pool of a rolled trait with the modifiers of one condition counted.
    pub fn get_conditional_pool(&self, target: ModifierTarget, condition: Condition) -> (r: Option<DicePool>)
        ensures
            r == (if target == ModifierTarget::Trait(Trait::Defense) {
                Some(
                    defense_pool_of(
                        last_skill_under(
                            self.modifiers_view().conditional_entries(),
                            target,
                            condition,
                            last_skill(self.modifiers_view().entries(), target, Skill::Athletics),
                        ),
                    ),
                )
            } else {
                None
            }),
    {
        self.modifiers.get_conditional_pool(target, condition)
    }

    /// The modified attributes.
    pub fn attributes(&self) -> (r: Attributes)
        requires
            self.attributes_in_range(),
        ensures
            r == self.attributes_spec(),
    {
        assert(self.modified_ok(ModifierTarget::Attribute(Attribute::Intelligence)));
        assert(self.modified_ok(ModifierTarget::Attribute(Attribute::Wits)));
        assert(self.modified_ok(ModifierTarget::Attribute(Attribute::Resolve)));
        assert(self.modified_ok(ModifierTarget::Attribute(Attribute::Strength)));
        assert(self.modified_ok(ModifierTarget::Attribute(Attribute::Dexterity)));
        assert(self.modified_ok(ModifierTarget::Attribute(Attribute::Stamina)));
        assert(self.modified_ok(ModifierTarget::Attribute(Attribute::Presence)));
        assert(self.modified_ok(ModifierTarget::Attribute(Attribute::Manipulation)));
        assert(self.modified_ok(ModifierTarget::Attribute(Attribute::Composure)));
        Attributes {
            intelligence: self._modified(ModifierTarget::Attribute(Attribute::Intelligence)),
            wits: self._modified(ModifierTarget::Attribute(Attribute::Wits)),
            resolve: self._modified(ModifierTarget::Attribute(Attribute::Resolve)),
            strength: self._modified(ModifierTarget::Attribute(Attribute::Strength)),
            dexterity: self._modified(ModifierTarget::Attribute(Attribute::Dexterity)),
            stamina: self._modified(ModifierTarget::Attribute(Attribute::Stamina)),
            presence: self._modified(ModifierTarget::Attribute(Attribute::Presence)),
            manipulation: self._modified(ModifierTarget::Attribute(Attribute::Manipulation)),
            composure: self._modified(ModifierTarget::Attribute(Attribute::Composure)),
        }
    }

    pub fn base_attributes_mut(&mut self) -> (r: &mut Attributes)
        ensures
            *r == old(self).base_attributes_view(),
            *final(self) == (Character { _attributes: *final(r), ..*old(self) }),
    {
        &mut self._attributes
    }

    pub fn base_attributes(&self) -> (r: &Attributes)
        ensures
            *r == self.base_attributes_view(),
    {
        &self._attributes
    }

    /// A modified rating, as `modified_spec` says.
    pub fn _modified(&self, target: ModifierTarget) -> (r: u16)
        requires
            self.modified_ok(target),
        ensures
            r == self.modified_spec(target),
    {
        let base: u16 = match target {
            ModifierTarget::BaseAttribute(attr) => *self._attributes.get(&attr),
            ModifierTarget::Attribute(attr) => *self._attributes.get(&attr),
            ModifierTarget::BaseSkill(skill) => self.skills.get(skill),
            ModifierTarget::Skill(skill) => self.skills.get(skill),
            _ => 0,
        };
        let modifier: i16 = match target {
            ModifierTarget::BaseAttribute(_) => 0,
            ModifierTarget::BaseSkill(_) => 0,
            _ => self.modifiers.get_modifier(self, target),
        };
        let base_target = match target {
            ModifierTarget::Attribute(attr) => ModifierTarget::BaseAttribute(attr),
            ModifierTarget::Skill(skill) => ModifierTarget::BaseSkill(skill),
            _ => target,
        };
        let base_modifier = self.modifiers.get_modifier(self, base_target);

        if self::add(base, base_modifier) > 5 {
            self::add(base, modifier)
        } else {
            self::add(base, base_modifier + modifier)
        }
    }

    /// The modified skills.
    pub fn skills(&self) -> (r: Skills)
        requires
            self.skills_in_range(),
        ensures
            r == self.skills_spec(),
    {
        assert(self.modified_ok(ModifierTarget::Skill(Skill::Academics)));
        assert(self.modified_ok(ModifierTarget::Skill(Skill::Computer)));
        assert(self.modified_ok(ModifierTarget::Skill(Skill::Crafts)));
        assert(self.modified_ok(ModifierTarget::Skill(Skill::Investigation)));
        assert(self.modified_ok(ModifierTarget::Skill(Skill::Medicine)));
        assert(self.modified_ok(ModifierTarget::Skill(Skill::Occult)));
        assert(self.modified_ok(ModifierTarget::Skill(Skill::Politics)));
        assert(self.modified_ok(ModifierTarget::Skill(Skill::Science)));
        assert(self.modified_ok(ModifierTarget::Skill(Skill::Athletics)));
        assert(self.modified_ok(ModifierTarget::Skill(Skill::Brawl)));
        assert(self.modified_ok(ModifierTarget::Skill(Skill::Drive)));
        assert(self.modified_ok(ModifierTarget::Skill(Skill::Firearms)));
        assert(self.modified_ok(ModifierTarget::Skill(Skill::Larceny)));
        assert(self.modified_ok(ModifierTarget::Skill(Skill::Stealth)));
        assert(self.modified_ok(ModifierTarget::Skill(Skill::Survival)));
        assert(self.modified_ok(ModifierTarget::Skill(Skill::Weaponry)));
        assert(self.modified_ok(ModifierTarget::Skill(Skill::AnimalKen)));
        assert(self.modified_ok(ModifierTarget::Skill(Skill::Empathy)));
        assert(self.modified_ok(ModifierTarget::Skill(Skill::Expression)));
        assert(self.modified_ok(ModifierTarget::Skill(Skill::Intimidation)));
        assert(self.modified_ok(ModifierTarget::Skill(Skill::Persuasion)));
        assert(self.modified_ok(ModifierTarget::Skill(Skill::Socialize)));
        assert(self.modified_ok(ModifierTarget::Skill(Skill::Streetwise)));
        assert(self.modified_ok(ModifierTarget::Skill(Skill::Subterfuge)));
        Skills {
            academics: self._modified(ModifierTarget::Skill(Skill::Academics)),
            computer: self._modified(ModifierTarget::Skill(Skill::Computer)),
            crafts: self._modified(ModifierTarget::Skill(Skill::Crafts)),
            investigation: self._modified(ModifierTarget::Skill(Skill::Investigation)),
            medicine: self._modified(ModifierTarget::Skill(Skill::Medicine)),
            occult: self._modified(ModifierTarget::Skill(Skill::Occult)),
            politics: self._modified(ModifierTarget::Skill(Skill::Politics)),
            science: self._modified(ModifierTarget::Skill(Skill::Science)),
            athletics: self._modified(ModifierTarget::Skill(Skill::Athletics)),
            brawl: self._modified(ModifierTarget::Skill(Skill::Brawl)),
            drive: self._modified(ModifierTarget::Skill(Skill::Drive)),
            firearms: self._modified(ModifierTarget::Skill(Skill::Firearms)),
            larceny: self._modified(ModifierTarget::Skill(Skill::Larceny)),
            stealth: self._modified(ModifierTarget::Skill(Skill::Stealth)),
            survival: self._modified(ModifierTarget::Skill(Skill::Survival)),
            weaponry: self._modified(ModifierTarget::Skill(Skill::Weaponry)),
            animal_ken: self._modified(ModifierTarget::Skill(Skill::AnimalKen)),
            empathy: self._modified(ModifierTarget::Skill(Skill::Empathy)),
            expression: self._modified(ModifierTarget::Skill(Skill::Expression)),
            intimidation: self._modified(ModifierTarget::Skill(Skill::Intimidation)),
            persuasion: self._modified(ModifierTarget::Skill(Skill::Persuasion)),
            socialize: self._modified(ModifierTarget::Skill(Skill::Socialize)),
            streetwise: self._modified(ModifierTarget::Skill(Skill::Streetwise)),
            subterfuge: self._modified(ModifierTarget::Skill(Skill::Subterfuge)),
        }
    }

    pub fn base_skills(&self) -> (r: &Skills)
        ensures
            *r == self.base_skills_view(),
    {
        &self.skills
    }

    pub fn base_skills_mut(&mut self) -> (r: &mut Skills)
        ensures
            *r == old(self).base_skills_view(),
            *final(self) == (Character { skills: *final(r), ..*old(self) }),
    {
        &mut self.skills
    }

    pub fn max_health(&self) -> (r: u16)
        requires
            self.max_health_ok(),
        ensures
            r == self.max_health_spec(),
    {
        let attributes = self.attributes();
        self::add(self.size() + attributes.stamina, self.modifiers.get_modifier(self, ModifierTarget::Trait(Trait::Health)))
    }

    pub fn health(&self) -> (r: &Damage)
        ensures
            *r == self.health_view(),
    {
        &self.health
    }

    pub fn health_mut(&mut self) -> (r: &mut Damage)
        ensures
            *r == old(self).health_view(),
            *final(self) == (Character { health: *final(r), ..*old(self) }),
    {
        &mut self.health
    }

    pub fn wound_penalty(&self) -> (r: u16)
        requires
            self.wound_penalty_ok(),
        ensures
            r == self.wound_penalty_spec(),
    {
        let mh = self.max_health();
        let hs = self.health.sum();
        let taken = if hs < mh {
            hs
        } else {
            mh
        };
        let left = mh - taken;
        if left == 2 {
            1
        } else if left == 1 {
            2
        } else if left == 0 {
            3
        } else {
            0
        }
    }

    pub fn max_willpower(&self) -> (r: u16)
        requires
            self.max_willpower_ok(),
        ensures
            r == self.max_willpower_spec(),
    {
        let attributes = self.attributes();
        attributes.resolve + attributes.composure
    }

    pub fn size(&self) -> (r: u16)
        requires
            self.size_ok(),
        ensures
            r == self.size_spec(),
    {
        self::add(self.base_size, self.modifiers.get_modifier(self, ModifierTarget::Trait(Trait::Size)))
    }

    pub fn speed(&self) -> (r: u16)
        requires
            self.speed_ok(),
        ensures
            r == self.speed_spec(),
    {
        let attributes = self.attributes();
        self::add(
            5 + attributes.dexterity + attributes.strength,
            self.modifiers.get_modifier(self, ModifierTarget::Trait(Trait::Speed)),
        )
    }

    pub fn defense(&self) -> (r: u16)
        requires
            self.defense_ok(),
        ensures
            r == self.defense_spec(),
    {
        proof {
            lemma_defense_pool_trait_free(self.defense_skill());
        }
        match self.get_pool(ModifierTarget::Trait(Trait::Defense)) {
            Some(pool) => {
                let v = pool.flat_value(self);
                if v > 0 {
                    v as u16
                } else {
                    0
                }
            },
            None => 0,
        }
    }

    pub fn armor(&self) -> (r: ArmorStruct)
        ensures
            r == self.base_armor_view(),
    {
        ArmorStruct { general: self.base_armor.general, ballistic: self.base_armor.ballistic }
    }

    pub fn base_armor_mut(&mut self) -> (r: &mut ArmorStruct)
        ensures
            *r == old(self).base_armor_view(),
            *final(self) == (Character { base_armor: *final(r), ..*old(self) }),
    {
        &mut self.base_armor
    }

    pub fn initative(&self) -> (r: u16)
        requires
            self.initative_ok(),
        ensures
            r == self.initative_spec(),
    {
        let attributes = self.attributes();
        self::add(
            attributes.dexterity + attributes.composure,
            self.modifiers.get_modifier(self, ModifierTarget::Trait(Trait::Initative)),
        )
    }

    pub fn perception(&self) -> (r: u16)
        requires
            self.perception_ok(),
        ensures
            r == self.perception_spec(),
    {
        let attributes = self.attributes();
        self::add(
            attributes.wits + attributes.composure,
            self.modifiers.get_modifier(self, ModifierTarget::Trait(Trait::Perception)),
        )
    }

    /// Experiences: one for every five beats.
    pub fn experience(&self) -> (r: u16)
        ensures
            r == self.beats / 5,
    {
        self.beats / 5
    }

    pub fn alternate_experience(&self) -> (r: u16)
        ensures
            r == self.alternate_beats / 5,
    {
        self.alternate_beats / 5
    }

    pub fn max_fuel(&self) -> (r: u16)
        requires
            self.max_fuel_ok(),
        ensures
            r == self.max_fuel_spec(),
    {
        if self.power == 0 {
            self.attributes().stamina
        } else if self.power <= 4 {
            10 + self.power - 1
        } else if self.power <= 8 {
            10 + (self.power - 4) * 5
        } else if self.power == 9 {
            50
        } else if self.power == 10 {
            75
        } else {
            0
        }
    }
}

/// Editing the dots of one attribute, with the modifier tables as they are, changes that
/// attribute's modified rating as the cap rule says, and no other attribute's.
pub proof fn lemma_edit_base_attribute(c: Character, a: Attribute, v: u16, b: Attribute)
    ensures
        ({
            let c2 = Character { _attributes: c._attributes.with_attr(a, v), ..c };
            let bm = c.mod_sum(ModifierTarget::BaseAttribute(a));
            let m = c.mod_sum(ModifierTarget::Attribute(a));
            &&& c2.modified_spec(ModifierTarget::Attribute(a)) == if clamp_add(v as int, bm) > 5 {
                clamp_add(v as int, m)
            } else {
                clamp_add(v as int, bm + m)
            }
            &&& b != a ==> c2.modified_spec(ModifierTarget::Attribute(b)) == c.modified_spec(
                ModifierTarget::Attribute(b),
            )
        }),
{
    let c2 = Character { _attributes: c._attributes.with_attr(a, v), ..c };
    assert(context_of(c2) == context_of(c));
}

/// The rule for a modified rating: the modifiers on the dots (`bm`) count while the dots
/// with them stay at five or below, the other modifiers (`m`) always count; a target that
/// names the dots themselves has no other modifiers.
pub proof fn lemma_modified_rule(c: Character, t: ModifierTarget)
    ensures
        ({
            let b = c.base_value(t);
            let bm = c.mod_sum(base_target(t));
            let m = c.mod_sum(t);
            &&& (t is Attribute || t is Skill) ==> c.modified_spec(t) == if clamp_add(b, bm) > 5 {
                clamp_add(b, m)
            } else {
                clamp_add(b, bm + m)
            }
            &&& (t is BaseAttribute || t is BaseSkill) ==> c.modified_spec(t) == if clamp_add(b, bm) > 5 {
                clamp_add(b, 0)
            } else {
                clamp_add(b, bm)
            }
        }),
{
}

/// Whether no modifier is on any skill, and every skill has fewer than 255 dots.
pub open spec fn skills_unmodified(c: Character) -> bool {
    forall|s: Skill|
        #![trigger c.base_skills_view().get_spec(s)]
        c.mod_sum(ModifierTarget::Skill(s)) == 0 && c.mod_sum(ModifierTarget::BaseSkill(s)) == 0
            && c.base_skills_view().get_spec(s) < 255
}

proof fn lemma_unmodified_skill(c: Character, s: Skill)
    requires
        c.mod_sum(ModifierTarget::Skill(s)) == 0,
        c.mod_sum(ModifierTarget::BaseSkill(s)) == 0,
        c.base_skills_view().get_spec(s) < 255,
    ensures
        c.modified_spec(ModifierTarget::Skill(s)) == c.base_skills_view().get_spec(s),
{
}

/// Each modified skill is the modified rating of that skill; where no modifier is on any
/// skill and every skill has fewer than 255 dots, the modified skills are the skills as
/// rated.
#[verifier::rlimit(50)]
pub proof fn lemma_unmodified_skills(c: Character, k: Skill)
    ensures
        c.skills_spec().get_spec(k) == c.modified_spec(ModifierTarget::Skill(k)) as u16,
        skills_unmodified(c) ==> c.skills_spec() == c.base_skills_view(),
{
    if skills_unmodified(c) {
        let b = c.base_skills_view();
        assert(b.get_spec(Skill::Academics) < 255);
        lemma_unmodified_skill(c, Skill::Academics);
        assert(b.get_spec(Skill::Computer) < 255);
        lemma_unmodified_skill(c, Skill::Computer);
        assert(b.get_spec(Skill::Crafts) < 255);
        lemma_unmodified_skill(c, Skill::Crafts);
        assert(b.get_spec(Skill::Investigation) < 255);
        lemma_unmodified_skill(c, Skill::Investigation);
        assert(b.get_spec(Skill::Medicine) < 255);
        lemma_unmodified_skill(c, Skill::Medicine);
        assert(b.get_spec(Skill::Occult) < 255);
        lemma_unmodified_skill(c, Skill::Occult);
        assert(b.get_spec(Skill::Politics) < 255);
        lemma_unmodified_skill(c, Skill::Politics);
        assert(b.get_spec(Skill::Science) < 255);
        lemma_unmodified_skill(c, Skill::Science);
        assert(b.get_spec(Skill::Athletics) < 255);
        lemma_unmodified_skill(c, Skill::Athletics);
        assert(b.get_spec(Skill::Brawl) < 255);
        lemma_unmodified_skill(c, Skill::Brawl);
        assert(b.get_spec(Skill::Drive) < 255);
        lemma_unmodified_skill(c, Skill::Drive);
        assert(b.get_spec(Skill::Firearms) < 255);
        lemma_unmodified_skill(c, Skill::Firearms);
        assert(b.get_spec(Skill::Larceny) < 255);
        lemma_unmodified_skill(c, Skill::Larceny);
        assert(b.get_spec(Skill::Stealth) < 255);
        lemma_unmodified_skill(c, Skill::Stealth);
        assert(b.get_spec(Skill::Survival) < 255);
        lemma_unmodified_skill(c, Skill::Survival);
        assert(b.get_spec(Skill::Weaponry) < 255);
        lemma_unmodified_skill(c, Skill::Weaponry);
        assert(b.get_spec(Skill::AnimalKen) < 255);
        lemma_unmodified_skill(c, Skill::AnimalKen);
        assert(b.get_spec(Skill::Empathy) < 255);
        lemma_unmodified_skill(c, Skill::Empathy);
        assert(b.get_spec(Skill::Expression) < 255);
        lemma_unmodified_skill(c, Skill::Expression);
        assert(b.get_spec(Skill::Intimidation) < 255);
        lemma_unmodified_skill(c, Skill::Intimidation);
        assert(b.get_spec(Skill::Persuasion) < 255);
        lemma_unmodified_skill(c, Skill::Persuasion);
        assert(b.get_spec(Skill::Socialize) < 255);
        lemma_unmodified_skill(c, Skill::Socialize);
        assert(b.get_spec(Skill::Streetwise) < 255);
        lemma_unmodified_skill(c, Skill::Streetwise);
        assert(b.get_spec(Skill::Subterfuge) < 255);
        lemma_unmodified_skill(c, Skill::Subterfuge);
    }
}

/// The value of each trait: the stored beats, tolerance, fuel and Integrity; the derived
/// Willpower, Health, Size, Speed, Defense, Initiative and Perception; armor from the
/// sheet's armor (which is its base armor); and nothing for any other trait.
pub proof fn lemma_trait_values(c: Character)
    ensures
        c.trait_value(Trait::Beats) == c.beats,
        c.trait_value(Trait::Power) == c.power,
        c.trait_value(Trait::Fuel) == c.fuel,
        c.trait_value(Trait::Integrity) == c.integrity,
        c.trait_value(Trait::Willpower) == c.max_willpower_spec(),
        c.trait_value(Trait::Health) == c.max_health_spec(),
        c.trait_value(Trait::Size) == c.size_spec(),
        c.trait_value(Trait::Speed) == c.speed_spec(),
        c.trait_value(Trait::Defense) == c.defense_spec(),
        c.trait_value(Trait::Initative) == c.initative_spec(),
        c.trait_value(Trait::Perception) == c.perception_spec(),
        c.trait_value(Trait::Armor(Some(Armor::Ballistic))) == c.base_armor_view().ballistic,
        c.trait_value(Trait::Armor(Some(Armor::General))) == c.base_armor_view().general,
        c.trait_value(Trait::Armor(None)) == 0,
{
}

/// Recomputing the modifier tables of a sheet that changed in nothing but its tables gives
/// the same tables.
pub proof fn lemma_modifiers_depend_on_sheet(c1: Character, c2: Character)
    requires
        c2.same_except_modifiers(c1),
    ensures
        character_modifiers(c2) == character_modifiers(c1),
{
}

/// The werewolf's hunter's aspect filled in from the auspice; other splats stay as they are.
pub open spec fn with_hunters_aspect(s: Splat) -> Splat {
    match s {
        Splat::Werewolf(Some(a), t, l, data) => Splat::Werewolf(
            Some(a),
            t,
            l,
            Box::new(WerewolfData { hunters_aspect: Some(a.hunters_aspect_spec()), ..*data }),
        ),
        _ => s,
    }
}

/// Whether `i` is the first entry of `s` for skill `k`.
pub open spec fn first_specialty_index(s: Seq<(Skill, Vec<String>)>, k: Skill, i: int) -> bool {
    &&& 0 <= i < s.len()
    &&& s[i].0 == k
    &&& forall|j: int| 0 <= j < i ==> (#[trigger] s[j].0) != k
}

/// `s` with the specialties of skill `k` set to `v`, as a map would do it: the first entry
/// for `k` takes the new list, or a new entry is added at the end.
pub open spec fn specialty_insert(s: Seq<(Skill, Vec<String>)>, k: Skill, v: Vec<String>) -> Seq<(Skill, Vec<String>)> {
    if exists|i: int| first_specialty_index(s, k, i) {
        s.update(choose|i: int| first_specialty_index(s, k, i), (k, v))
    } else {
        s.push((k, v))
    }
}

/// Where some entry is for skill `k`, a first one is.
proof fn lemma_first_specialty_exists(s: Seq<(Skill, Vec<String>)>, k: Skill, j: int)
    requires
        0 <= j < s.len(),
        s[j].0 == k,
    ensures
        exists|i: int| first_specialty_index(s, k, i),
    decreases j,
{
    if exists|m: int| 0 <= m < j && #[trigger] s[m].0 == k {
        let m = choose|m: int| 0 <= m < j && #[trigger] s[m].0 == k;
        lemma_first_specialty_exists(s, k, m);
    } else {
        assert(first_specialty_index(s, k, j));
    }
}

/// Setting the specialties of a skill and reading them back: the first entry for the skill
/// holds the new list, and the entries of other skills are untouched.
pub proof fn lemma_specialty_insert(s: Seq<(Skill, Vec<String>)>, k: Skill, v: Vec<String>, other: Skill)
    ensures
        exists|i: int| first_specialty_index(specialty_insert(s, k, v), k, i) && #[trigger] specialty_insert(s, k, v)[i].1 == v,
        other != k ==> forall|j: int|
            0 <= j < s.len() && #[trigger] s[j].0 == other ==> specialty_insert(s, k, v)[j] == s[j],
        specialty_insert(s, k, v).len() <= s.len() + 1,
{
    let r = specialty_insert(s, k, v);
    if exists|i: int| first_specialty_index(s, k, i) {
        let i = choose|i: int| first_specialty_index(s, k, i);
        assert(first_specialty_index(r, k, i));
        assert(r[i].1 == v);
    } else {
        let n = s.len() as int;
        assert forall|j: int| 0 <= j < n implies (#[trigger] r[j].0) != k by {
            if r[j].0 == k {
                assert(s[j].0 == k);
                lemma_first_specialty_exists(s, k, j);
            }
        }
        assert(first_specialty_index(r, k, n));
        assert(r[n].1 == v);
    }
}

fn insert_specialty(s: &mut Vec<(Skill, Vec<String>)>, k: Skill, v: Vec<String>)
    ensures
        final(s)@ == specialty_insert(old(s)@, k, v),
{
    let mut i: usize = 0;
    while i < s.len()
        invariant
            i <= s@.len(),
            s@ == old(s)@,
            forall|j: int| 0 <= j < i ==> (#[trigger] s@[j].0) != k,
        decreases s@.len() - i,
    {
        if s[i].0 == k {
            proof {
                assert(first_specialty_index(s@, k, i as int));
                let c = choose|c: int| first_specialty_index(s@, k, c);
                assert(first_specialty_index(s@, k, c));
                if c < i {
                    assert(s@[c].0 != k);
                }
                if i < c {
                    assert(s@[i as int].0 != k);
                }
                assert(c == i);
            }
            s.set(i, (k, v));
            return;
        }
        i += 1;
    }
    proof {
        if exists|c: int| first_specialty_index(s@, k, c) {
            let c = choose|c: int| first_specialty_index(s@, k, c);
            assert(s@[c].0 == k);
        }
    }
    s.push((k, v));
}

/// Rates the abilities of a list in order, each later entry replacing an earlier rating of
/// the same ability.
pub open spec fn abilities_from(s: Seq<(Ability, u16)>) -> Seq<(Ability, u16)>
    decreases s.len(),
{
    if s.len() == 0 {
        seq![]
    } else {
        ability_insert(abilities_from(s.drop_last()), s.last().0, s.last().1)
    }
}

/// Puts a character sheet together step by step.
#[derive(Debug)]
pub struct CharacterBuilder {
    pub splat: Splat,
    pub info: CharacterInfo,
    pub attributes: Attributes,
    pub skills: Skills,
    pub specialties: Vec<(Skill, Vec<String>)>,
    pub merits: Vec<(Merit, u16)>,
    pub abilities: Vec<(Ability, u16)>,
    pub power: u16,
    pub fuel: Option<u16>,
    pub flag: bool,
}

impl Default for CharacterBuilder {
    fn default() -> (r: Self)
        ensures
            r.is_blank(),
    {
        CharacterBuilder {
            splat: Splat::default(),
            info: CharacterInfo::default(),
            attributes: Attributes::default(),
            skills: Skills::default(),
            specialties: Vec::new(),
            merits: Vec::new(),
            abilities: Vec::new(),
            power: 0,
            fuel: None,
            flag: false,
        }
    }
}

impl CharacterBuilder {
    /// A builder that nothing has been set on: a mortal with the ratings and description
    /// of a fresh sheet.
    pub open spec fn is_blank(self) -> bool {
        &&& self.splat is Mortal
        &&& info_blank(self.info)
        &&& forall|a: Attribute| #[trigger] self.attributes.get_spec(a) == 1
        &&& forall|s: Skill| #[trigger] self.skills.get_spec(s) == 0
        &&& self.specialties@.len() == 0
        &&& self.merits@.len() == 0
        &&& self.abilities@.len() == 0
        &&& self.power == 0
        &&& self.fuel is None
        &&& !self.flag
    }

    pub fn with_splat(self, splat: Splat) -> (r: Self)
        ensures
            r == (CharacterBuilder { splat, ..self }),
    {
        CharacterBuilder { splat, ..self }
    }

    pub fn with_info(self, info: CharacterInfo) -> (r: Self)
        ensures
            r == (CharacterBuilder { info, ..self }),
    {
        CharacterBuilder { info, ..self }
    }

    pub fn with_attributes(self, attributes: Attributes) -> (r: Self)
        ensures
            r == (CharacterBuilder { attributes, ..self }),
    {
        CharacterBuilder { attributes, ..self }
    }

    pub fn with_skills(self, skills: Skills) -> (r: Self)
        ensures
            r == (CharacterBuilder { skills, ..self }),
    {
        CharacterBuilder { skills, ..self }
    }

    /// Sets the specialties of one skill, replacing those it had.
    pub fn with_specialties(self, skill: Skill, specialties: Vec<String>) -> (r: Self)
        ensures
            r.specialties@ == specialty_insert(self.specialties@, skill, specialties),
            r == (CharacterBuilder { specialties: r.specialties, ..self }),
    {
        let mut b = self;
        insert_specialty(&mut b.specialties, skill, specialties);
        b
    }

    /// Sets the rated abilities, replacing those there were; a later entry for an ability
    /// replaces an earlier one.
    pub fn with_abilities<const N: usize>(self, abilities: [(Ability, u16); N]) -> (r: Self)
        ensures
            r.abilities@ == abilities_from(abilities@),
            r == (CharacterBuilder { abilities: r.abilities, flag: true, ..self }),
    {
        let mut list: Vec<(Ability, u16)> = Vec::new();
        let mut i: usize = 0;
        while i < N
            invariant
                i <= N,
                N == abilities@.len(),
                list@ == abilities_from(abilities@.take(i as int)),
            decreases N - i,
        {
            proof {
                assert(abilities@.take(i + 1).drop_last() =~= abilities@.take(i as int));
            }
            let entry = &abilities[i];
            insert_ability(&mut list, entry.0.clone(), entry.1);
            i += 1;
        }
        assert(abilities@.take(N as int) =~= abilities@);
        CharacterBuilder { abilities: list, flag: true, ..self }
    }

    /// Sets the rated merits, in order, replacing those there were.
    pub fn with_merits<const N: usize>(self, merits: [(Merit, u16); N]) -> (r: Self)
        ensures
            r.merits@ == merits@,
            r == (CharacterBuilder { merits: r.merits, flag: true, ..self }),
    {
        let mut list: Vec<(Merit, u16)> = Vec::new();
        let mut i: usize = 0;
        while i < N
            invariant
                i <= N,
                N == merits@.len(),
                list@ == merits@.take(i as int),
            decreases N - i,
        {
            proof {
                assert(merits@.take(i + 1) =~= merits@.take(i as int).push(merits@[i as int]));
            }
            let entry = &merits[i];
            list.push((entry.0.clone(), entry.1));
            i += 1;
        }
        assert(merits@.take(N as int) =~= merits@);
        CharacterBuilder { merits: list, flag: true, ..self }
    }

    /// Sets the supernatural tolerance.
    pub fn with_st(self, st: u16) -> (r: Self)
        ensures
            r == (CharacterBuilder { power: st, ..self }),
    {
        CharacterBuilder { power: st, ..self }
    }

    pub fn with_fuel(self, fuel: u16) -> (r: Self)
        ensures
            r == (CharacterBuilder { fuel: Some(fuel), ..self }),
    {
        CharacterBuilder { fuel: Some(fuel), ..self }
    }

    /// The supernatural tolerance of the sheet that is built: none for a mortal, at
    /// least one for any other splat.
    pub open spec fn power_spec(self) -> u16 {
        if self.splat is Mortal {
            0
        } else if self.power > 0 {
            self.power
        } else {
            1
        }
    }

    /// Whether `c` is the sheet this builder puts together, whatever its fuel and
    /// willpower: the modifier tables are computed when abilities or merits were set.
    pub open spec fn assembles(self, c: Character) -> bool {
        &&& c.splat == with_hunters_aspect(self.splat)
        &&& c.info == self.info
        &&& c.base_attributes_view() == self.attributes
        &&& c.base_skills_view() == self.skills
        &&& c.specialties == self.specialties
        &&& c.abilities == self.abilities
        &&& c.merits == self.merits
        &&& c.power == self.power_spec()
        &&& c.health_view().with_counts(0, 0, 0)
        &&& c.integrity == 7
        &&& c.touchstones@.len() == 0
        &&& c.weapons@.len() == 0
        &&& c.base_size == 5
        &&& c.base_armor_view().general == 0
        &&& c.base_armor_view().ballistic == 0
        &&& c.beats == 0
        &&& c.alternate_beats == 0
        &&& c.conditions@.len() == 0
        &&& c.aspirations@.len() == 0
        &&& if self.flag {
            &&& c.modifiers_view().entries() == uncond_entries(character_modifiers(c))
            &&& c.modifiers_view().conditional_entries() == cond_entries(character_modifiers(c))
        } else {
            &&& c.modifiers_view().entries().len() == 0
            &&& c.modifiers_view().conditional_entries().len() == 0
        }
    }

    /// Every sheet the builder may put together has its maximum willpower, and its maximum
    /// fuel where no fuel was given, within bounds.
    pub open spec fn buildable(self) -> bool {
        forall|c: Character|
            #[trigger] self.assembles(c) ==> c.max_willpower_ok() && (self.fuel is None ==> c.max_fuel_ok())
    }

    /// The sheet, with fuel filled to the maximum unless it was given, and willpower full.
    pub fn build(self) -> (r: Character)
        requires
            self.buildable(),
        ensures
            self.assembles(r),
            r.fuel == (match self.fuel {
                Some(f) => f,
                None => r.max_fuel_spec() as u16,
            }),
            r.willpower == r.max_willpower_spec(),
    {
        let ghost b = self;
        let CharacterBuilder {
            splat,
            info,
            attributes,
            skills,
            specialties,
            merits,
            abilities,
            power,
            fuel,
            flag,
        } = self;
        let power = if let Splat::Mortal = &splat {
            0
        } else if power > 0 {
            power
        } else {
            1
        };
        let splat = match splat {
            Splat::Werewolf(Some(auspice), tribe, lodge, data) => {
                let aspect = auspice.get_hunters_aspect().clone();
                let mut d = *data;
                d.hunters_aspect = Some(aspect);
                Splat::Werewolf(Some(auspice), tribe, lodge, Box::new(d))
            },
            other => other,
        };
        let mut character = Character {
            splat,
            info,
            power,
            _attributes: attributes,
            skills,
            abilities,
            merits,
            specialties,
            ..Character::default()
        };
        if flag {
            character.calc_mod_map();
        }
        assert(b.assembles(character));
        let f = match fuel {
            Some(f) => f,
            None => character.max_fuel(),
        };
        character.fuel = f;
        assert(b.assembles(character));
        character.willpower = character.max_willpower();
        character
    }
}

} // verus!
