use vstd::prelude::*;
use vstd::string::StringExecFns;

use super::changeling::{Court, Kith, Regalia, Seeming};
use super::geist::{Archetype, Burden, Key};
use super::mage::{Arcanum, Legacy, Order, Path};
use super::vampire::{Bloodline, Clan, Covenant};
use super::werewolf::{Auspice, HuntersAspect, KuruthTriggers, Lodge, MoonGift, Rite, ShadowGift, Tribe, WolfGift};
use super::{XSplat, YSplat, ZSplat};
use crate::character::traits::Skill;

verus! {

/// The key under which a name is looked up for display: the kind of the thing, a dot, and
/// its name.
pub trait NameKey {
    fn name_key(&self) -> String;
}

impl NameKey for HuntersAspect {
    fn name_key(&self) -> (r: String)
        ensures
            r@ == "werewolf."@ + self.name_view(),
    {
        "werewolf.".to_owned().concat(self.name())
    }
}

impl NameKey for MoonGift {
    fn name_key(&self) -> (r: String)
        ensures
            r@ == "moon-gifts."@ + self.name_view(),
    {
        "moon-gifts.".to_owned().concat(self.name())
    }
}

impl NameKey for ShadowGift {
    fn name_key(&self) -> (r: String)
        ensures
            r@ == "shadow-gifts."@ + self.name_view(),
    {
        "shadow-gifts.".to_owned().concat(self.name())
    }
}

impl NameKey for WolfGift {
    fn name_key(&self) -> (r: String)
        ensures
            r@ == "wolf-gifts."@ + self.name_view(),
    {
        "wolf-gifts.".to_owned().concat(self.name())
    }
}

impl NameKey for Arcanum {
    fn name_key(&self) -> (r: String)
        ensures
            r@ == "mage."@ + self.name_view(),
    {
        "mage.".to_owned().concat(self.name())
    }
}

impl NameKey for Regalia {
    fn name_key(&self) -> (r: String)
        ensures
            r@ == "changeling."@ + self.name_view(),
    {
        "changeling.".to_owned().concat(self.name())
    }
}

impl NameKey for Skill {
    fn name_key(&self) -> (r: String)
        ensures
            r@ == "skill."@ + self.name_view(),
    {
        "skill.".to_owned().concat(self.name())
    }
}

impl NameKey for Clan {
    fn name_key(&self) -> (r: String)
        ensures
            r@ == "vampire."@ + self.name_view(),
    {
        "vampire.".to_owned().concat(self.name())
    }
}

impl NameKey for Covenant {
    fn name_key(&self) -> (r: String)
        ensures
            r@ == "vampire."@ + self.name_view(),
    {
        "vampire.".to_owned().concat(self.name())
    }
}

impl NameKey for Bloodline {
    fn name_key(&self) -> (r: String)
        ensures
            r@ == "vampire."@ + self.name_view(),
    {
        "vampire.".to_owned().concat(self.name())
    }
}

impl NameKey for Auspice {
    fn name_key(&self) -> (r: String)
        ensures
            r@ == "werewolf."@ + self.name_view(),
    {
        "werewolf.".to_owned().concat(self.name())
    }
}

impl NameKey for Tribe {
    fn name_key(&self) -> (r: String)
        ensures
            r@ == "werewolf."@ + self.name_view(),
    {
        "werewolf.".to_owned().concat(self.name())
    }
}

impl NameKey for Lodge {
    fn name_key(&self) -> (r: String)
        ensures
            r@ == "werewolf."@ + self.name_view(),
    {
        "werewolf.".to_owned().concat(self.name())
    }
}

impl NameKey for Path {
    fn name_key(&self) -> (r: String)
        ensures
            r@ == "mage."@ + self.name_view(),
    {
        "mage.".to_owned().concat(self.name())
    }
}

impl NameKey for Order {
    fn name_key(&self) -> (r: String)
        ensures
            r@ == "mage."@ + self.name_view(),
    {
        "mage.".to_owned().concat(self.name())
    }
}

impl NameKey for Legacy {
    fn name_key(&self) -> (r: String)
        ensures
            r@ == "mage."@ + self.name_view(),
    {
        "mage.".to_owned().concat(self.name())
    }
}

impl NameKey for Seeming {
    fn name_key(&self) -> (r: String)
        ensures
            r@ == "changeling."@ + self.name_view(),
    {
        "changeling.".to_owned().concat(self.name())
    }
}

impl NameKey for Court {
    fn name_key(&self) -> (r: String)
        ensures
            r@ == "changeling."@ + self.name_view(),
    {
        "changeling.".to_owned().concat(self.name())
    }
}

impl NameKey for Kith {
    fn name_key(&self) -> (r: String)
        ensures
            r@ == "changeling."@ + self.name_view(),
    {
        "changeling.".to_owned().concat(self.name())
    }
}

impl NameKey for Burden {
    fn name_key(&self) -> (r: String)
        ensures
            r@ == "bound."@ + self.name_view(),
    {
        "bound.".to_owned().concat(self.name())
    }
}

impl NameKey for Archetype {
    fn name_key(&self) -> (r: String)
        ensures
            r@ == "bound."@ + self.name_view(),
    {
        "bound.".to_owned().concat(self.name())
    }
}

impl NameKey for Rite {
    fn name_key(&self) -> (r: String)
        ensures
            r@ == "werewolf."@ + (match self {
                Rite::SacredHunt => "sacred_hunt"@,
                Rite::_Custom(s) => s@,
            }),
    {
        "werewolf.".to_owned().concat(self.name())
    }
}

impl NameKey for Key {
    fn name_key(&self) -> (r: String)
        ensures
            r@ == "geist."@ + (match self {
                Key::Beasts => "beasts"@,
                Key::Blood => "blood"@,
                Key::Chance => "chance"@,
                Key::ColdWind => "cold_wind"@,
                Key::Disease => "disease"@,
                Key::GraveDirt => "grave_dirt"@,
                Key::PyreFlame => "pyre_flame"@,
                Key::Stillness => "stillness"@,
            }),
    {
        "geist.".to_owned().concat(self.name())
    }
}

impl NameKey for KuruthTriggers {
    /// The key of a standard set of triggers; a custom set has the key "custom".
    fn name_key(&self) -> (r: String)
        ensures
            r@ == (match self {
                KuruthTriggers::Blood => "kuruth-triggers."@ + "blood"@,
                KuruthTriggers::Moon => "kuruth-triggers."@ + "moon"@,
                KuruthTriggers::TheOther => "kuruth-triggers."@ + "the_other"@,
                KuruthTriggers::Pack => "kuruth-triggers."@ + "pack"@,
                KuruthTriggers::Territory => "kuruth-triggers."@ + "territory"@,
                KuruthTriggers::Wound => "kuruth-triggers."@ + "wound"@,
                KuruthTriggers::_Custom(_) => "custom"@,
            }),
    {
        match self.name() {
            Some(name) => "kuruth-triggers.".to_owned().concat(name),
            None => "custom".to_owned(),
        }
    }
}

impl NameKey for XSplat {
    /// The key of the choice it holds.
    fn name_key(&self) -> (r: String)
        ensures
            r@ == (match self {
                XSplat::Vampire(x) => "vampire."@ + x.name_view(),
                XSplat::Werewolf(x) => "werewolf."@ + x.name_view(),
                XSplat::Mage(x) => "mage."@ + x.name_view(),
                XSplat::Changeling(x) => "changeling."@ + x.name_view(),
                XSplat::Bound(x) => "bound."@ + x.name_view(),
            }),
    {
        match self {
            XSplat::Vampire(x) => x.name_key(),
            XSplat::Werewolf(x) => x.name_key(),
            XSplat::Mage(x) => x.name_key(),
            XSplat::Changeling(x) => x.name_key(),
            XSplat::Bound(x) => x.name_key(),
        }
    }
}

impl NameKey for YSplat {
    /// The key of the choice it holds.
    fn name_key(&self) -> (r: String)
        ensures
            r@ == (match self {
                YSplat::Vampire(x) => "vampire."@ + x.name_view(),
                YSplat::Werewolf(x) => "werewolf."@ + x.name_view(),
                YSplat::Mage(x) => "mage."@ + x.name_view(),
                YSplat::Changeling(x) => "changeling."@ + x.name_view(),
                YSplat::Bound(x) => "bound."@ + x.name_view(),
            }),
    {
        match self {
            YSplat::Vampire(x) => x.name_key(),
            YSplat::Werewolf(x) => x.name_key(),
            YSplat::Mage(x) => x.name_key(),
            YSplat::Changeling(x) => x.name_key(),
            YSplat::Bound(x) => x.name_key(),
        }
    }
}

impl NameKey for ZSplat {
    /// The key of the choice it holds.
    fn name_key(&self) -> (r: String)
        ensures
            r@ == (match self {
                ZSplat::Vampire(x) => "vampire."@ + x.name_view(),
                ZSplat::Werewolf(x) => "werewolf."@ + x.name_view(),
                ZSplat::Mage(x) => "mage."@ + x.name_view(),
                ZSplat::Changeling(x) => "changeling."@ + x.name_view(),
            }),
    {
        match self {
            ZSplat::Vampire(x) => x.name_key(),
            ZSplat::Werewolf(x) => x.name_key(),
            ZSplat::Mage(x) => x.name_key(),
            ZSplat::Changeling(x) => x.name_key(),
        }
    }
}

} // verus!
