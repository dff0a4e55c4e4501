use vstd::prelude::*;

use super::traits::{Attribute, Skill, Trait};
use super::{in_i16, Character};

verus! {

/// One side of a two-part pool: a rating, the negation of a part, or a whole pool.
#[derive(Debug)]
pub enum PoolComponent {
    Attribute(Attribute),
    Skill(Skill),
    Trait(Trait),
    Neg(Box<PoolComponent>),
    Pool(Box<DicePool>),
}

/// A pool made of two parts that are added.
#[derive(Debug)]
pub struct DicePool(pub PoolComponent, pub PoolComponent);

/// The number a part stands for on a character.
pub open spec fn component_value(ch: Character, c: PoolComponent) -> int
    decreases c,
{
    match c {
        PoolComponent::Attribute(a) => ch.attributes_spec().get_spec(a) as i16 as int,
        PoolComponent::Skill(s) => ch.skills_spec().get_spec(s) as i16 as int,
        PoolComponent::Trait(t) => ch.trait_value(t) as u16 as i16 as int,
        PoolComponent::Neg(n) => -component_value(ch, *n),
        PoolComponent::Pool(p) => component_value(ch, p.0) + component_value(ch, p.1),
    }
}

/// The number a two-part pool stands for: the sum of its parts.
pub open spec fn total_value(ch: Character, p: DicePool) -> int {
    component_value(ch, p.0) + component_value(ch, p.1)
}

/// Evaluating a part stays within `i16`, and every rating it reads can be computed.
pub open spec fn component_ok(ch: Character, c: PoolComponent) -> bool
    decreases c,
{
    match c {
        PoolComponent::Attribute(_) => ch.attributes_in_range(),
        PoolComponent::Skill(_) => ch.skills_in_range(),
        PoolComponent::Trait(t) => ch.trait_ok(t),
        PoolComponent::Neg(n) => component_ok(ch, *n) && in_i16(-component_value(ch, *n)),
        PoolComponent::Pool(p) => component_ok(ch, p.0) && component_ok(ch, p.1) && in_i16(
            component_value(ch, p.0) + component_value(ch, p.1),
        ),
    }
}

/// Evaluating a two-part pool stays within `i16`.
pub open spec fn total_ok(ch: Character, p: DicePool) -> bool {
    component_ok(ch, p.0) && component_ok(ch, p.1) && in_i16(component_value(ch, p.0) + component_value(ch, p.1))
}

impl PoolComponent {
    pub fn value(&self, character: &Character) -> (r: i16)
        requires
            component_ok(*character, *self),
        ensures
            r == component_value(*character, *self),
        decreases self,
    {
        match self {
            PoolComponent::Attribute(attr) => *character.attributes().get(attr) as i16,
            PoolComponent::Skill(skill) => character.skills().get(*skill) as i16,
            PoolComponent::Trait(trait_) => character.get_trait(trait_) as i16,
            PoolComponent::Neg(n) => -n.value(character),
            PoolComponent::Pool(pool) => pool.0.value(character) + pool.1.value(character),
        }
    }
}

impl DicePool {
    pub fn total(&self, character: &Character) -> (r: i16)
        requires
            total_ok(*character, *self),
        ensures
            r == total_value(*character, *self),
    {
        self.0.value(character) + self.1.value(character)
    }
}

impl std::ops::Add for PoolComponent {
    type Output = DicePool;

    fn add(self, rhs: Self) -> (r: Self::Output) {
        DicePool(self, rhs)
    }
}

impl vstd::std_specs::ops::AddSpecImpl for PoolComponent {
    open spec fn obeys_add_spec() -> bool {
        true
    }

    open spec fn add_req(self, rhs: PoolComponent) -> bool {
        true
    }

    open spec fn add_spec(self, rhs: PoolComponent) -> DicePool {
        DicePool(self, rhs)
    }
}

impl std::ops::Sub for PoolComponent {
    type Output = DicePool;

    fn sub(self, rhs: Self) -> (r: Self::Output) {
        DicePool(self, PoolComponent::Neg(Box::new(rhs)))
    }
}

impl vstd::std_specs::ops::SubSpecImpl for PoolComponent {
    open spec fn obeys_sub_spec() -> bool {
        true
    }

    open spec fn sub_req(self, rhs: PoolComponent) -> bool {
        true
    }

    open spec fn sub_spec(self, rhs: PoolComponent) -> DicePool {
        DicePool(self, PoolComponent::Neg(Box::new(rhs)))
    }
}

impl std::ops::Add for DicePool {
    type Output = Self;

    fn add(self, rhs: Self) -> (r: Self::Output) {
        DicePool(PoolComponent::Pool(Box::new(self)), PoolComponent::Pool(Box::new(rhs)))
    }
}

impl vstd::std_specs::ops::AddSpecImpl for DicePool {
    open spec fn obeys_add_spec() -> bool {
        true
    }

    open spec fn add_req(self, rhs: DicePool) -> bool {
        true
    }

    open spec fn add_spec(self, rhs: DicePool) -> DicePool {
        DicePool(PoolComponent::Pool(Box::new(self)), PoolComponent::Pool(Box::new(rhs)))
    }
}

impl std::ops::Sub for DicePool {
    type Output = Self;

    fn sub(self, rhs: Self) -> (r: Self::Output) {
        DicePool(
            PoolComponent::Pool(Box::new(self)),
            PoolComponent::Neg(Box::new(PoolComponent::Pool(Box::new(rhs)))),
        )
    }
}

impl vstd::std_specs::ops::SubSpecImpl for DicePool {
    open spec fn obeys_sub_spec() -> bool {
        true
    }

    open spec fn sub_req(self, rhs: DicePool) -> bool {
        true
    }

    open spec fn sub_spec(self, rhs: DicePool) -> DicePool {
        DicePool(
            PoolComponent::Pool(Box::new(self)),
            PoolComponent::Neg(Box::new(PoolComponent::Pool(Box::new(rhs)))),
        )
    }
}

impl From<Attribute> for PoolComponent {
    fn from(attr: Attribute) -> (r: Self) {
        PoolComponent::Attribute(attr)
    }
}

impl vstd::std_specs::convert::FromSpecImpl<Attribute> for PoolComponent {
    open spec fn obeys_from_spec() -> bool {
        true
    }

    open spec fn from_spec(v: Attribute) -> Self {
        PoolComponent::Attribute(v)
    }
}

impl From<Skill> for PoolComponent {
    fn from(skill: Skill) -> (r: Self) {
        PoolComponent::Skill(skill)
    }
}

impl vstd::std_specs::convert::FromSpecImpl<Skill> for PoolComponent {
    open spec fn obeys_from_spec() -> bool {
        true
    }

    open spec fn from_spec(v: Skill) -> Self {
        PoolComponent::Skill(v)
    }
}

impl From<Trait> for PoolComponent {
    fn from(trait_: Trait) -> (r: Self) {
        PoolComponent::Trait(trait_)
    }
}

impl vstd::std_specs::convert::FromSpecImpl<Trait> for PoolComponent {
    open spec fn obeys_from_spec() -> bool {
        true
    }

    open spec fn from_spec(v: Trait) -> Self {
        PoolComponent::Trait(v)
    }
}

/// Puts together the pool of Resolve and Composure.
pub fn uwu() {
    let _dice_pool: DicePool = PoolComponent::Attribute(Attribute::Resolve) + PoolComponent::Attribute(
        Attribute::Composure,
    );
}

} // verus!
