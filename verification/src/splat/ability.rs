use vstd::prelude::*;

use crate::character::modifier::Modifier;

use super::geist::Haunt;
use super::mage::Arcanum;
use super::vampire::Discipline;
use super::werewolf::{MoonGift, Renown};
use super::Merit;

verus! {

/// Anything rated in dots on a sheet besides attributes and skills.
#[derive(Debug, Hash)]
pub enum Ability {
    Merit(Merit),
    Discipline(Discipline),
    Renown(Renown),
    MoonGift(MoonGift),
    Arcanum(Arcanum),
    Haunt(Haunt),
}

impl Clone for Ability {
    fn clone(&self) -> (r: Self)
        ensures
            r == *self,
    {
        match self {
            Ability::Merit(m) => Ability::Merit(m.clone()),
            Ability::Discipline(d) => Ability::Discipline(d.clone()),
            Ability::Renown(r) => Ability::Renown(*r),
            Ability::MoonGift(m) => Ability::MoonGift(m.clone()),
            Ability::Arcanum(a) => Ability::Arcanum(*a),
            Ability::Haunt(h) => Ability::Haunt(h.clone()),
        }
    }
}

impl PartialEq for Ability {
    fn eq(&self, other: &Self) -> (r: bool) {
        match self {
            Ability::Merit(a) => match other {
                Ability::Merit(b) => *a == *b,
                _ => false,
            },
            Ability::Discipline(a) => match other {
                Ability::Discipline(b) => *a == *b,
                _ => false,
            },
            Ability::Renown(a) => match other {
                Ability::Renown(b) => *a == *b,
                _ => false,
            },
            Ability::MoonGift(a) => match other {
                Ability::MoonGift(b) => *a == *b,
                _ => false,
            },
            Ability::Arcanum(a) => match other {
                Ability::Arcanum(b) => *a == *b,
                _ => false,
            },
            Ability::Haunt(a) => match other {
                Ability::Haunt(b) => *a == *b,
                _ => false,
            },
        }
    }
}

impl vstd::std_specs::cmp::PartialEqSpecImpl for Ability {
    open spec fn obeys_eq_spec() -> bool {
        true
    }

    open spec fn eq_spec(&self, other: &Ability) -> bool {
        self.same(*other)
    }
}

impl Eq for Ability {

}

impl Ability {
    /// Two abilities are the same when they are of one kind and their payloads are the
    /// same; names are compared by their text.
    pub open spec fn same(self, other: Ability) -> bool {
        match (self, other) {
            (Ability::Merit(a), Ability::Merit(b)) => a.same(b),
            (Ability::Discipline(a), Ability::Discipline(b)) => a.same(b),
            (Ability::Renown(a), Ability::Renown(b)) => a == b,
            (Ability::MoonGift(a), Ability::MoonGift(b)) => a.same(b),
            (Ability::Arcanum(a), Ability::Arcanum(b)) => a == b,
            (Ability::Haunt(a), Ability::Haunt(b)) => a.same(b),
            _ => false,
        }
    }

    pub open spec fn name_view(self) -> Seq<char> {
        match self {
            Ability::Merit(m) => m.name_view(),
            Ability::Discipline(d) => d.name_view(),
            Ability::Renown(r) => r.name_view(),
            Ability::MoonGift(m) => m.name_view(),
            Ability::Arcanum(a) => a.name_view(),
            Ability::Haunt(h) => h.name_view(),
        }
    }

    pub fn name(&self) -> (r: String)
        ensures
            r@ == self.name_view(),
    {
        match self {
            Ability::Merit(merit) => merit.name(),
            Ability::Discipline(discipline) => discipline.name().to_owned(),
            Ability::Renown(renown) => renown.name().to_owned(),
            Ability::MoonGift(moon_gift) => moon_gift.name().to_owned(),
            Ability::Arcanum(arcanum) => arcanum.name().to_owned(),
            Ability::Haunt(haunt) => haunt.name().to_owned(),
        }
    }

    /// Custom merits, disciplines and moon gifts are the abilities named by the user.
    pub open spec fn is_custom_spec(self) -> bool {
        match self {
            Ability::Merit(Merit::_Custom(_)) => true,
            Ability::Discipline(Discipline::_Custom(_)) => true,
            Ability::MoonGift(MoonGift::_Custom(_)) => true,
            _ => false,
        }
    }

    /// The name of a custom ability, to edit in place.
    pub fn name_mut(&mut self) -> (r: Option<&mut String>)
        ensures
            r is Some <==> old(self).is_custom_spec(),
            r is None ==> *final(self) == *old(self),
            r matches Some(s) ==> *s == (match *old(self) {
                Ability::Merit(Merit::_Custom(n)) => n,
                Ability::Discipline(Discipline::_Custom(n)) => n,
                Ability::MoonGift(MoonGift::_Custom(n)) => n,
                _ => *s,
            }) && *final(self) == (match *old(self) {
                Ability::Merit(_) => Ability::Merit(Merit::_Custom(*final(s))),
                Ability::Discipline(_) => Ability::Discipline(Discipline::_Custom(*final(s))),
                _ => Ability::MoonGift(MoonGift::_Custom(*final(s))),
            }),
    {
        match self {
            Ability::Merit(Merit::_Custom(name)) => Some(name),
            Ability::Discipline(Discipline::_Custom(name)) => Some(name),
            Ability::MoonGift(MoonGift::_Custom(name)) => Some(name),
            _ => None,
        }
    }

    /// The modifiers that an ability rated `value` grants.
    pub open spec fn modifiers_spec(self, value: u16) -> Seq<Modifier> {
        match self {
            Ability::Merit(merit) => merit.modifiers_spec(value),
            Ability::Discipline(discipline) => discipline.modifiers_spec(value),
            Ability::MoonGift(moon_gift) => moon_gift.modifiers_spec(value),
            _ => seq![],
        }
    }

    pub fn get_modifiers(&self, value: u16) -> (r: Vec<Modifier>)
        ensures
            r@ == self.modifiers_spec(value),
    {
        match self {
            Ability::Merit(merit) => merit.get_modifiers(value),
            Ability::Discipline(discipline) => discipline.get_modifiers(value),
            Ability::Renown(_renown) => vec![],
            Ability::MoonGift(moon_gift) => moon_gift.get_modifiers(value),
            Ability::Arcanum(_arcanum) => vec![],
            Ability::Haunt(_haunt) => vec![],
        }
    }

    pub fn is_custom(&self) -> (r: bool)
        ensures
            r == self.is_custom_spec(),
    {
        matches!(
            self,
            Ability::Merit(Merit::_Custom(_)) | Ability::Discipline(Discipline::_Custom(_))
                | Ability::MoonGift(MoonGift::_Custom(_))
        )
    }
}

} // verus!
