use vstd::prelude::*;

pub mod ability;
pub mod changeling;
pub mod geist;
pub mod mage;
pub mod merits;
pub mod name_key;
pub mod vampire;
pub mod werewolf;

pub use merits::Merit;

use self::ability::Ability;
use self::changeling::{ChangelingData, ChangelingMerit, Court, Kith, Regalia, Seeming};
use self::geist::{Archetype, BoundData, Burden, Haunt};
use self::mage::{Arcanum, Legacy, MageData, MageMerit, Ministry, Order, Path};
use self::vampire::{Bloodline, Clan, Covenant, Discipline, VampireData, VampireMerit};
use self::werewolf::{
    Auspice, HuntersAspect, Lodge, MoonGift, Renown, ShadowGift, Tribe, WerewolfData, WerewolfMerit,
};
use crate::character::traits::{Attribute, AttributeType, Skill};

verus! {

/// The view of an optional string slice.
pub open spec fn opt_str_view(o: Option<&str>) -> Option<Seq<char>> {
    match o {
        Some(s) => Some(s@),
        None => None,
    }
}

/// What kind of supernatural being (if any) a character is, with that kind's own choices.
#[derive(Debug)]
pub enum Splat {
    Mortal,
    Vampire(Clan, Option<Covenant>, Option<Bloodline>, Box<VampireData>),
    Werewolf(Option<Auspice>, Option<Tribe>, Option<Lodge>, Box<WerewolfData>),
    Mage(Path, Option<Order>, Option<Legacy>, Box<MageData>),
    Changeling(Seeming, Option<Court>, Option<Kith>, Box<ChangelingData>),
    Bound(Burden, Archetype, BoundData),
}

impl Default for Splat {
    fn default() -> (r: Self)
        ensures
            r is Mortal,
    {
        Splat::Mortal
    }
}

/// The first choice a splat makes: clan, auspice, path, seeming or burden.
#[derive(Debug)]
pub enum XSplat {
    Vampire(Clan),
    Werewolf(Auspice),
    Mage(Path),
    Changeling(Seeming),
    Bound(Burden),
}

/// The second choice: covenant, tribe, order, court or archetype.
#[derive(Debug)]
pub enum YSplat {
    Vampire(Covenant),
    Werewolf(Tribe),
    Mage(Order),
    Changeling(Court),
    Bound(Archetype),
}

/// The third choice: bloodline, lodge, legacy or kith.
#[derive(Debug)]
pub enum ZSplat {
    Vampire(Bloodline),
    Werewolf(Lodge),
    Mage(Legacy),
    Changeling(Kith),
}

impl Splat {
    pub open spec fn name_view(self) -> Seq<char> {
        match self {
            Splat::Mortal => "mortal"@,
            Splat::Vampire(..) => "vampire"@,
            Splat::Werewolf(..) => "werewolf"@,
            Splat::Mage(..) => "mage"@,
            Splat::Changeling(..) => "changeling"@,
            Splat::Bound(..) => "bound"@,
        }
    }

    pub fn name(&self) -> (r: &'static str)
        ensures
            r@ == self.name_view(),
    {
        match self {
            Splat::Mortal => "mortal",
            Splat::Vampire(..) => "vampire",
            Splat::Werewolf(..) => "werewolf",
            Splat::Mage(..) => "mage",
            Splat::Changeling(..) => "changeling",
            Splat::Bound(..) => "bound",
        }
    }

    /// What the splat calls its virtue.
    pub fn virtue_anchor(&self) -> (r: &'static str)
        ensures
            r@ == (match self {
                Splat::Vampire(..) => "mask"@,
                Splat::Werewolf(..) => "blood"@,
                Splat::Changeling(..) => "thread"@,
                Splat::Bound(..) => "root"@,
                _ => "virtue"@,
            }),
    {
        match self {
            Splat::Vampire(..) => "mask",
            Splat::Werewolf(..) => "blood",
            Splat::Changeling(..) => "thread",
            Splat::Bound(..) => "root",
            _ => "virtue",
        }
    }

    /// What the splat calls its vice.
    pub fn vice_anchor(&self) -> (r: &'static str)
        ensures
            r@ == (match self {
                Splat::Vampire(..) => "dirge"@,
                Splat::Werewolf(..) => "bone"@,
                Splat::Changeling(..) => "needle"@,
                Splat::Bound(..) => "bloom"@,
                _ => "vice"@,
            }),
    {
        match self {
            Splat::Vampire(..) => "dirge",
            Splat::Werewolf(..) => "bone",
            Splat::Changeling(..) => "needle",
            Splat::Bound(..) => "bloom",
            _ => "vice",
        }
    }

    pub fn xsplat_name(&self) -> (r: Option<&'static str>)
        ensures
            opt_str_view(r) == (match self {
                Splat::Vampire(..) => Some("clan"@),
                Splat::Werewolf(..) => Some("auspice"@),
                Splat::Mage(..) => Some("path"@),
                Splat::Changeling(..) => Some("seeming"@),
                Splat::Bound(..) => Some("burden"@),
                _ => None,
            }),
    {
        match self {
            Splat::Vampire(..) => Some("clan"),
            Splat::Werewolf(..) => Some("auspice"),
            Splat::Mage(..) => Some("path"),
            Splat::Changeling(..) => Some("seeming"),
            Splat::Bound(..) => Some("burden"),
            _ => None,
        }
    }

    pub fn ysplat_name(&self) -> (r: Option<&'static str>)
        ensures
            opt_str_view(r) == (match self {
                Splat::Vampire(..) => Some("covenant"@),
                Splat::Werewolf(..) => Some("tribe"@),
                Splat::Mage(..) => Some("order"@),
                Splat::Changeling(..) => Some("court"@),
                Splat::Bound(..) => Some("archetype"@),
                _ => None,
            }),
    {
        match self {
            Splat::Vampire(..) => Some("covenant"),
            Splat::Werewolf(..) => Some("tribe"),
            Splat::Mage(..) => Some("order"),
            Splat::Changeling(..) => Some("court"),
            Splat::Bound(..) => Some("archetype"),
            _ => None,
        }
    }

    pub fn zsplat_name(&self) -> (r: Option<&'static str>)
        ensures
            opt_str_view(r) == (match self {
                Splat::Vampire(..) => Some("bloodline"@),
                Splat::Werewolf(..) => Some("lodge"@),
                Splat::Mage(..) => Some("legacy"@),
                Splat::Changeling(..) => Some("kith"@),
                _ => None,
            }),
    {
        match self {
            Splat::Vampire(..) => Some("bloodline"),
            Splat::Werewolf(..) => Some("lodge"),
            Splat::Mage(..) => Some("legacy"),
            Splat::Changeling(..) => Some("kith"),
            _ => None,
        }
    }

    /// What the splat calls its abilities.
    pub fn ability_name(&self) -> (r: Option<&'static str>)
        ensures
            opt_str_view(r) == (match self {
                Splat::Vampire(..) => Some("disciplines"@),
                Splat::Werewolf(..) => Some("renown"@),
                Splat::Mage(..) => Some("arcana"@),
                Splat::Changeling(..) => Some("disciplines"@),
                Splat::Bound(..) => Some("haunts"@),
                _ => None,
            }),
    {
        match self {
            Splat::Vampire(..) => Some("disciplines"),
            Splat::Werewolf(..) => Some("renown"),
            Splat::Mage(..) => Some("arcana"),
            Splat::Changeling(..) => Some("disciplines"),
            Splat::Bound(..) => Some("haunts"),
            _ => None,
        }
    }

    /// Whether the splat's abilities form a fixed list rather than an open one.
    pub fn are_abilities_finite(&self) -> (r: bool)
        ensures
            r == !(self is Vampire || self is Changeling || self is Bound),
    {
        match self {
            Splat::Vampire(..) => false,
            Splat::Changeling(..) => false,
            Splat::Bound(..) => false,
            _ => true,
        }
    }

    /// What the splat calls its supernatural tolerance.
    pub fn supernatural_tolerance(&self) -> (r: Option<&'static str>)
        ensures
            opt_str_view(r) == (match self {
                Splat::Vampire(..) => Some("blood_potency"@),
                Splat::Werewolf(..) => Some("primal_urge"@),
                Splat::Mage(..) => Some("gnosis"@),
                Splat::Changeling(..) => Some("wyrd"@),
                Splat::Bound(..) => Some("synergy"@),
                _ => None,
            }),
    {
        match self {
            Splat::Vampire(..) => Some("blood_potency"),
            Splat::Werewolf(..) => Some("primal_urge"),
            Splat::Mage(..) => Some("gnosis"),
            Splat::Changeling(..) => Some("wyrd"),
            Splat::Bound(..) => Some("synergy"),
            _ => None,
        }
    }

    /// What the splat calls its second kind of beats, where it has one.
    pub fn alternate_beats(&self) -> (r: Option<&'static str>)
        ensures
            opt_str_view(r) == (match self {
                Splat::Vampire(..) => Some("blood"@),
                Splat::Mage(..) => Some("arcane"@),
                _ => None,
            }),
    {
        match self {
            Splat::Vampire(..) => Some("blood"),
            Splat::Mage(..) => Some("arcane"),
            _ => None,
        }
    }

    /// What the splat calls its fuel.
    pub fn fuel(&self) -> (r: Option<&'static str>)
        ensures
            opt_str_view(r) == (match self {
                Splat::Vampire(..) => Some("vitae"@),
                Splat::Werewolf(..) => Some("essence"@),
                Splat::Mage(..) => Some("mana"@),
                Splat::Changeling(..) => Some("glamour"@),
                Splat::Bound(..) => Some("plasm"@),
                _ => None,
            }),
    {
        match self {
            Splat::Vampire(..) => Some("vitae"),
            Splat::Werewolf(..) => Some("essence"),
            Splat::Mage(..) => Some("mana"),
            Splat::Changeling(..) => Some("glamour"),
            Splat::Bound(..) => Some("plasm"),
            _ => None,
        }
    }

    /// What the splat calls its integrity.
    pub fn integrity(&self) -> (r: &'static str)
        ensures
            r@ == (match self {
                Splat::Vampire(..) => "humanity"@,
                Splat::Werewolf(..) => "harmony"@,
                Splat::Mage(..) => "wisdom"@,
                Splat::Changeling(..) => "clarity"@,
                Splat::Bound(..) => "synergy"@,
                _ => "integrity"@,
            }),
    {
        match self {
            Splat::Vampire(..) => "humanity",
            Splat::Werewolf(..) => "harmony",
            Splat::Mage(..) => "wisdom",
            Splat::Changeling(..) => "clarity",
            Splat::Bound(..) => "synergy",
            _ => "integrity",
        }
    }

    pub open spec fn xsplat_spec(self) -> Option<XSplat> {
        match self {
            Splat::Vampire(c, ..) => Some(XSplat::Vampire(c)),
            Splat::Werewolf(a, ..) => match a {
                Some(a) => Some(XSplat::Werewolf(a)),
                None => None,
            },
            Splat::Mage(p, ..) => Some(XSplat::Mage(p)),
            Splat::Changeling(s, ..) => Some(XSplat::Changeling(s)),
            Splat::Bound(b, ..) => Some(XSplat::Bound(b)),
            Splat::Mortal => None,
        }
    }

    pub open spec fn ysplat_spec(self) -> Option<YSplat> {
        match self {
            Splat::Vampire(_, c, ..) => match c {
                Some(c) => Some(YSplat::Vampire(c)),
                None => None,
            },
            Splat::Werewolf(_, t, ..) => match t {
                Some(t) => Some(YSplat::Werewolf(t)),
                None => None,
            },
            Splat::Mage(_, o, ..) => match o {
                Some(o) => Some(YSplat::Mage(o)),
                None => None,
            },
            Splat::Changeling(_, c, ..) => match c {
                Some(c) => Some(YSplat::Changeling(c)),
                None => None,
            },
            Splat::Bound(_, a, _) => Some(YSplat::Bound(a)),
            Splat::Mortal => None,
        }
    }

    pub open spec fn zsplat_spec(self) -> Option<ZSplat> {
        match self {
            Splat::Vampire(_, _, b, _) => match b {
                Some(b) => Some(ZSplat::Vampire(b)),
                None => None,
            },
            Splat::Werewolf(_, _, l, _) => match l {
                Some(l) => Some(ZSplat::Werewolf(l)),
                None => None,
            },
            Splat::Mage(_, _, l, _) => match l {
                Some(l) => Some(ZSplat::Mage(l)),
                None => None,
            },
            Splat::Changeling(_, _, k, _) => match k {
                Some(k) => Some(ZSplat::Changeling(k)),
                None => None,
            },
            _ => None,
        }
    }

    /// The first choice of the splat.
    pub fn xsplat(&self) -> (r: Option<XSplat>)
        ensures
            r == self.xsplat_spec(),
    {
        match self {
            Splat::Vampire(val, ..) => Some(val.clone().into()),
            Splat::Werewolf(val, ..) => match val {
                Some(v) => Some(v.clone().into()),
                None => None,
            },
            Splat::Mage(val, ..) => Some(val.clone().into()),
            Splat::Changeling(val, ..) => Some(val.clone().into()),
            Splat::Bound(val, ..) => Some(val.clone().into()),
            _ => None,
        }
    }

    /// The second choice of the splat.
    pub fn ysplat(&self) -> (r: Option<YSplat>)
        ensures
            r == self.ysplat_spec(),
    {
        match self {
            Splat::Vampire(_, val, ..) => match val {
                Some(v) => Some(v.clone().into()),
                None => None,
            },
            Splat::Werewolf(_, val, ..) => match val {
                Some(v) => Some(v.clone().into()),
                None => None,
            },
            Splat::Mage(_, val, ..) => match val {
                Some(v) => Some(v.clone().into()),
                None => None,
            },
            Splat::Changeling(_, val, ..) => match val {
                Some(v) => Some(v.clone().into()),
                None => None,
            },
            Splat::Bound(_, val, ..) => Some(val.clone().into()),
            _ => None,
        }
    }

    /// The third choice of the splat.
    pub fn zsplat(&self) -> (r: Option<ZSplat>)
        ensures
            r == self.zsplat_spec(),
    {
        match self {
            Splat::Vampire(_, _, val, ..) => match val {
                Some(v) => Some(v.clone().into()),
                None => None,
            },
            Splat::Werewolf(_, _, val, ..) => match val {
                Some(v) => Some(v.clone().into()),
                None => None,
            },
            Splat::Mage(_, _, val, ..) => match val {
                Some(v) => Some(v.clone().into()),
                None => None,
            },
            Splat::Changeling(_, _, val, ..) => match val {
                Some(v) => Some(v.clone().into()),
                None => None,
            },
            _ => None,
        }
    }

    /// The splat with its first choice replaced by `splat`, where that choice is one of
    /// this splat's; an auspice, which may be left open, is cleared by `None`.
    pub open spec fn with_xsplat(self, splat: Option<XSplat>) -> Splat {
        match self {
            Splat::Vampire(_, y, z, d) => match splat {
                Some(XSplat::Vampire(c)) => Splat::Vampire(c, y, z, d),
                _ => self,
            },
            Splat::Werewolf(_, y, z, d) => match splat {
                Some(XSplat::Werewolf(a)) => Splat::Werewolf(Some(a), y, z, d),
                Some(_) => self,
                None => Splat::Werewolf(None, y, z, d),
            },
            Splat::Mage(_, y, z, d) => match splat {
                Some(XSplat::Mage(p)) => Splat::Mage(p, y, z, d),
                _ => self,
            },
            Splat::Changeling(_, y, z, d) => match splat {
                Some(XSplat::Changeling(s)) => Splat::Changeling(s, y, z, d),
                _ => self,
            },
            Splat::Bound(_, y, d) => match splat {
                Some(XSplat::Bound(b)) => Splat::Bound(b, y, d),
                _ => self,
            },
            Splat::Mortal => self,
        }
    }

    /// The splat with its second choice replaced by `splat`, where that choice is one of
    /// this splat's; an optional choice is cleared by `None`.
    pub open spec fn with_ysplat(self, splat: Option<YSplat>) -> Splat {
        match self {
            Splat::Vampire(x, _, z, d) => match splat {
                Some(YSplat::Vampire(c)) => Splat::Vampire(x, Some(c), z, d),
                Some(_) => self,
                None => Splat::Vampire(x, None, z, d),
            },
            Splat::Werewolf(x, _, z, d) => match splat {
                Some(YSplat::Werewolf(t)) => Splat::Werewolf(x, Some(t), z, d),
                Some(_) => self,
                None => Splat::Werewolf(x, None, z, d),
            },
            Splat::Mage(x, _, z, d) => match splat {
                Some(YSplat::Mage(o)) => Splat::Mage(x, Some(o), z, d),
                Some(_) => self,
                None => Splat::Mage(x, None, z, d),
            },
            Splat::Changeling(x, _, z, d) => match splat {
                Some(YSplat::Changeling(c)) => Splat::Changeling(x, Some(c), z, d),
                Some(_) => self,
                None => Splat::Changeling(x, None, z, d),
            },
            Splat::Bound(x, _, d) => match splat {
                Some(YSplat::Bound(a)) => Splat::Bound(x, a, d),
                _ => self,
            },
            Splat::Mortal => self,
        }
    }

    /// The splat with its third choice replaced by `splat`, where that choice is one of
    /// this splat's; `None` clears it.
    pub open spec fn with_zsplat(self, splat: Option<ZSplat>) -> Splat {
        match self {
            Splat::Vampire(x, y, _, d) => match splat {
                Some(ZSplat::Vampire(b)) => Splat::Vampire(x, y, Some(b), d),
                Some(_) => self,
                None => Splat::Vampire(x, y, None, d),
            },
            Splat::Werewolf(x, y, _, d) => match splat {
                Some(ZSplat::Werewolf(l)) => Splat::Werewolf(x, y, Some(l), d),
                Some(_) => self,
                None => Splat::Werewolf(x, y, None, d),
            },
            Splat::Mage(x, y, _, d) => match splat {
                Some(ZSplat::Mage(l)) => Splat::Mage(x, y, Some(l), d),
                Some(_) => self,
                None => Splat::Mage(x, y, None, d),
            },
            Splat::Changeling(x, y, _, d) => match splat {
                Some(ZSplat::Changeling(k)) => Splat::Changeling(x, y, Some(k), d),
                Some(_) => self,
                None => Splat::Changeling(x, y, None, d),
            },
            _ => self,
        }
    }

    pub fn set_xsplat(&mut self, splat: Option<XSplat>)
        ensures
            *final(self) == old(self).with_xsplat(splat),
    {
        match self {
            Splat::Vampire(val, ..) => {
                if let Some(XSplat::Vampire(splat)) = splat {
                    *val = splat
                }
            },
            Splat::Werewolf(val, ..) => match splat {
                Some(splat) => {
                    if let XSplat::Werewolf(splat) = splat {
                        *val = Some(splat)
                    }
                },
                None => *val = None,
            },
            Splat::Mage(val, ..) => {
                if let Some(XSplat::Mage(splat)) = splat {
                    *val = splat
                }
            },
            Splat::Changeling(val, ..) => {
                if let Some(XSplat::Changeling(splat)) = splat {
                    *val = splat
                }
            },
            Splat::Bound(val, ..) => {
                if let Some(XSplat::Bound(splat)) = splat {
                    *val = splat
                }
            },
            _ => {},
        }
    }

    pub fn set_ysplat(&mut self, splat: Option<YSplat>)
        ensures
            *final(self) == old(self).with_ysplat(splat),
    {
        match self {
            Splat::Vampire(_, val, ..) => match splat {
                Some(splat) => {
                    if let YSplat::Vampire(splat) = splat {
                        *val = Some(splat)
                    }
                },
                None => *val = None,
            },
            Splat::Werewolf(_, val, ..) => match splat {
                Some(splat) => {
                    if let YSplat::Werewolf(splat) = splat {
                        *val = Some(splat)
                    }
                },
                None => *val = None,
            },
            Splat::Mage(_, val, ..) => match splat {
                Some(splat) => {
                    if let YSplat::Mage(splat) = splat {
                        *val = Some(splat)
                    }
                },
                None => *val = None,
            },
            Splat::Changeling(_, val, ..) => match splat {
                Some(splat) => {
                    if let YSplat::Changeling(splat) = splat {
                        *val = Some(splat)
                    }
                },
                None => *val = None,
            },
            Splat::Bound(_, val, ..) => {
                if let Some(YSplat::Bound(splat)) = splat {
                    *val = splat
                }
            },
            _ => {},
        }
    }

    pub fn set_zsplat(&mut self, splat: Option<ZSplat>)
        ensures
            *final(self) == old(self).with_zsplat(splat),
    {
        match self {
            Splat::Vampire(_, _, val, ..) => match splat {
                Some(splat) => {
                    if let ZSplat::Vampire(splat) = splat {
                        *val = Some(splat)
                    }
                },
                None => *val = None,
            },
            Splat::Werewolf(_, _, val, ..) => match splat {
                Some(splat) => {
                    if let ZSplat::Werewolf(splat) = splat {
                        *val = Some(splat)
                    }
                },
                None => *val = None,
            },
            Splat::Mage(_, _, val, ..) => match splat {
                Some(splat) => {
                    if let ZSplat::Mage(splat) = splat {
                        *val = Some(splat)
                    }
                },
                None => *val = None,
            },
            Splat::Changeling(_, _, val, ..) => match splat {
                Some(splat) => {
                    if let ZSplat::Changeling(splat) = splat {
                        *val = Some(splat)
                    }
                },
                None => *val = None,
            },
            _ => {},
        }
    }
}

/// Applies `f` to every item, in order.
fn map_each<T, U, F: Fn(&T) -> U>(items: &[T], f: F) -> (r: Vec<U>)
    requires
        forall|i: int| 0 <= i < items@.len() ==> f.requires((&items@[i],)),
    ensures
        r@.len() == items@.len(),
        forall|i: int| 0 <= i < items@.len() ==> f.ensures((&items@[i],), #[trigger] r@[i]),
{
    let mut r: Vec<U> = Vec::new();
    let mut i: usize = 0;
    while i < items.len()
        invariant
            i <= items@.len(),
            r@.len() == i,
            forall|j: int| 0 <= j < items@.len() ==> f.requires((&items@[j],)),
            forall|j: int| 0 <= j < i ==> f.ensures((&items@[j],), #[trigger] r@[j]),
        decreases items@.len() - i,
    {
        let u = f(&items[i]);
        r.push(u);
        i += 1;
    }
    r
}

fn discipline_as_ability(d: &Discipline) -> (x: Ability)
    ensures
        x == Ability::Discipline(*d),
{
    Ability::Discipline(d.clone())
}

fn renown_as_ability(x: &Renown) -> (a: Ability)
    ensures
        a == Ability::Renown(*x),
{
    Ability::Renown(*x)
}

fn arcanum_as_ability(x: &Arcanum) -> (a: Ability)
    ensures
        a == Ability::Arcanum(*x),
{
    Ability::Arcanum(*x)
}

fn haunt_as_ability(h: &Haunt) -> (a: Ability)
    ensures
        a == Ability::Haunt(*h),
{
    Ability::Haunt(h.clone())
}

fn vampire_merit_as_merit(m: &VampireMerit) -> (x: Merit)
    ensures
        x == Merit::Vampire(*m),
{
    Merit::Vampire(m.clone())
}

fn werewolf_merit_as_merit(m: &WerewolfMerit) -> (x: Merit)
    ensures
        x == Merit::Werewolf(*m),
{
    Merit::Werewolf(*m)
}

fn mage_merit_as_merit(m: &MageMerit) -> (x: Merit)
    ensures
        x == Merit::Mage(*m),
{
    Merit::Mage(*m)
}

fn changeling_merit_as_merit(m: &ChangelingMerit) -> (x: Merit)
    ensures
        x == Merit::Changeling(*m),
{
    Merit::Changeling(*m)
}

fn clan_as_xsplat(c: &Clan) -> (x: XSplat)
    ensures
        x == XSplat::Vampire(*c),
{
    XSplat::Vampire(c.clone())
}

fn auspice_as_xsplat(a: &Auspice) -> (x: XSplat)
    ensures
        x == XSplat::Werewolf(*a),
{
    XSplat::Werewolf(a.clone())
}

fn path_as_xsplat(p: &Path) -> (x: XSplat)
    ensures
        x == XSplat::Mage(*p),
{
    XSplat::Mage(p.clone())
}

fn seeming_as_xsplat(s: &Seeming) -> (x: XSplat)
    ensures
        x == XSplat::Changeling(*s),
{
    XSplat::Changeling(s.clone())
}

fn burden_as_xsplat(b: &Burden) -> (x: XSplat)
    ensures
        x == XSplat::Bound(*b),
{
    XSplat::Bound(b.clone())
}

fn covenant_as_ysplat(c: &Covenant) -> (x: YSplat)
    ensures
        x == YSplat::Vampire(*c),
{
    YSplat::Vampire(c.clone())
}

fn tribe_as_ysplat(t: &Tribe) -> (x: YSplat)
    ensures
        x == YSplat::Werewolf(*t),
{
    YSplat::Werewolf(t.clone())
}

fn order_as_ysplat(o: &Order) -> (x: YSplat)
    ensures
        x == YSplat::Mage(*o),
{
    YSplat::Mage(o.clone())
}

fn court_as_ysplat(c: &Court) -> (x: YSplat)
    ensures
        x == YSplat::Changeling(*c),
{
    YSplat::Changeling(c.clone())
}

fn archetype_as_ysplat(a: &Archetype) -> (x: YSplat)
    ensures
        x == YSplat::Bound(*a),
{
    YSplat::Bound(a.clone())
}

fn kith_as_zsplat(k: &Kith) -> (x: ZSplat)
    ensures
        x == ZSplat::Changeling(*k),
{
    ZSplat::Changeling(k.clone())
}

/// The universal merits as `Merit::all` lists them: the mental, physical and social ones,
/// each that carries a name with an empty one.
pub open spec fn is_universal_merit_list(s: Seq<Merit>) -> bool {
    &&& s.len() == 13
    &&& s[0] is TrainedObserver
    &&& s[1] matches Merit::ProfessionalTraining(n, a, b) && n@.len() == 0 && a is None && b is None
    &&& s[2] matches Merit::Language(n) && n@.len() == 0
    &&& s[3] is Giant
    &&& s[4] == Merit::DefensiveCombat(false, None)
    &&& s[5] is RelentlessAssault
    &&& s[6] is SleightOfHand
    &&& s[7] matches Merit::Status(n) && n@.len() == 0
    &&& s[8] is FastTalking
    &&& s[9] matches Merit::Contacts(n) && n@.len() == 0
    &&& s[10] is Resources
    &&& s[11] matches Merit::SafePlace(n) && n@.len() == 0
    &&& s[12] matches Merit::StrikingLooks(n) && n@.len() == 0
}

impl Splat {
    /// A custom first choice named `name`, with the defaults the sheet editor starts from;
    /// a mortal has none.
    pub fn custom_xsplat(&self, name: String) -> (r: Option<XSplat>)
        ensures
            custom_xsplat_made(*self, name, r),
    {
        match self {
            Splat::Mortal => None,
            Splat::Vampire(..) => {
                let d = [Discipline::Animalism, Discipline::Auspex, Discipline::Celerity];
                let a = [Attribute::Composure, Attribute::Dexterity];
                assert(d@ =~= seq![Discipline::Animalism, Discipline::Auspex, Discipline::Celerity]);
                assert(a@ =~= seq![Attribute::Composure, Attribute::Dexterity]);
                Some(XSplat::Vampire(Clan::_Custom(name, Box::new(d), a)))
            },
            Splat::Werewolf(..) => {
                let sk = [Skill::Academics, Skill::AnimalKen, Skill::Athletics];
                let g = [ShadowGift::Death, ShadowGift::Dominance];
                assert(sk@ =~= seq![Skill::Academics, Skill::AnimalKen, Skill::Athletics]);
                assert(g@ =~= seq![ShadowGift::Death, ShadowGift::Dominance]);
                let m = "Custom".to_owned();
                Some(
                    XSplat::Werewolf(
                        Auspice::_Custom(name, sk, Renown::Cunning, MoonGift::_Custom(m), g, HuntersAspect::Monstrous),
                    ),
                )
            },
            Splat::Mage(..) => {
                let a = [Arcanum::Death, Arcanum::Fate];
                assert(a@ =~= seq![Arcanum::Death, Arcanum::Fate]);
                Some(XSplat::Mage(Path::_Custom(name, a, Arcanum::Forces)))
            },
            Splat::Changeling(..) => Some(
                XSplat::Changeling(Seeming::_Custom(name, Regalia::Crown, AttributeType::Power)),
            ),
            Splat::Bound(..) => {
                let h = [Haunt::Boneyard, Haunt::Caul, Haunt::Curse];
                assert(h@ =~= seq![Haunt::Boneyard, Haunt::Caul, Haunt::Curse]);
                Some(XSplat::Bound(Burden::_Custom(name, h)))
            },
        }
    }

    /// A custom second choice named `name`; a mortal has none.
    pub fn custom_ysplat(&self, name: String) -> (r: Option<YSplat>)
        ensures
            custom_ysplat_made(*self, name, r),
    {
        match self {
            Splat::Mortal => None,
            Splat::Vampire(..) => Some(YSplat::Vampire(Covenant::_Custom(name))),
            Splat::Werewolf(..) => {
                let g = [ShadowGift::Death, ShadowGift::Dominance, ShadowGift::Elemental];
                assert(g@ =~= seq![ShadowGift::Death, ShadowGift::Dominance, ShadowGift::Elemental]);
                Some(YSplat::Werewolf(Tribe::_Custom(name, Renown::Cunning, g)))
            },
            Splat::Mage(..) => {
                let sk = [Skill::Academics, Skill::AnimalKen, Skill::Athletics];
                assert(sk@ =~= seq![Skill::Academics, Skill::AnimalKen, Skill::Athletics]);
                Some(YSplat::Mage(Order::_Custom(name, sk)))
            },
            Splat::Changeling(..) => Some(YSplat::Changeling(Court::_Custom(name))),
            Splat::Bound(..) => Some(YSplat::Bound(Archetype::_Custom(name))),
        }
    }

    /// A custom third choice named `name`, for the splats that have one.
    pub fn custom_zsplat(&self, name: String) -> (r: Option<ZSplat>)
        ensures
            r == (match *self {
                Splat::Vampire(..) => Some(ZSplat::Vampire(Bloodline::_Custom(name, None))),
                Splat::Werewolf(..) => Some(ZSplat::Werewolf(Lodge::_Custom(name))),
                Splat::Mage(..) => Some(ZSplat::Mage(Legacy::_Custom(name, None))),
                Splat::Changeling(..) => Some(ZSplat::Changeling(Kith::_Custom(name))),
                _ => None,
            }),
    {
        match self {
            Splat::Vampire(..) => Some(ZSplat::Vampire(Bloodline::_Custom(name, None))),
            Splat::Werewolf(..) => Some(ZSplat::Werewolf(Lodge::_Custom(name))),
            Splat::Mage(..) => Some(ZSplat::Mage(Legacy::_Custom(name, None))),
            Splat::Changeling(..) => Some(ZSplat::Changeling(Kith::_Custom(name))),
            _ => None,
        }
    }

    /// Every standard ability of the splat, where the list is closed: disciplines,
    /// renown, arcana or haunts.
    pub open spec fn all_abilities_spec(self) -> Option<Seq<Ability>> {
        match self {
            Splat::Vampire(..) => Some(Discipline::all_spec().map_values(|d: Discipline| Ability::Discipline(d))),
            Splat::Werewolf(..) => Some(Renown::all_spec().map_values(|x: Renown| Ability::Renown(x))),
            Splat::Mage(..) => Some(Arcanum::all_spec().map_values(|a: Arcanum| Ability::Arcanum(a))),
            Splat::Bound(..) => Some(Haunt::all_spec().map_values(|h: Haunt| Ability::Haunt(h))),
            _ => None,
        }
    }

    pub fn all_abilities(&self) -> (r: Option<Vec<Ability>>)
        ensures
            match r {
                Some(v) => self.all_abilities_spec() == Some(v@),
                None => self.all_abilities_spec() is None,
            },
    {
        match self {
            Splat::Vampire(..) => {
                let all = Discipline::all();
                let v = map_each(
                    &all,
                    discipline_as_ability,
                );
                assert(v@ =~= Discipline::all_spec().map_values(|d: Discipline| Ability::Discipline(d)));
                Some(v)
            },
            Splat::Werewolf(..) => {
                let all = Renown::all();
                let v = map_each(
                    &all,
                    renown_as_ability,
                );
                assert(v@ =~= Renown::all_spec().map_values(|x: Renown| Ability::Renown(x)));
                Some(v)
            },
            Splat::Mage(..) => {
                let all = Arcanum::all();
                let v = map_each(
                    &all,
                    arcanum_as_ability,
                );
                assert(v@ =~= Arcanum::all_spec().map_values(|a: Arcanum| Ability::Arcanum(a)));
                Some(v)
            },
            Splat::Bound(..) => {
                let all = Haunt::all();
                let v = map_each(
                    &all,
                    haunt_as_ability,
                );
                assert(v@ =~= Haunt::all_spec().map_values(|h: Haunt| Ability::Haunt(h)));
                Some(v)
            },
            _ => None,
        }
    }

    /// A custom ability named `name`, for the splats whose abilities may be made up.
    pub fn custom_ability(&self, name: String) -> (r: Option<Ability>)
        ensures
            r == (match *self {
                Splat::Vampire(..) => Some(Ability::Discipline(Discipline::_Custom(name))),
                Splat::Werewolf(..) => Some(Ability::MoonGift(MoonGift::_Custom(name))),
                Splat::Bound(..) => Some(Ability::Haunt(Haunt::_Custom(name))),
                _ => None,
            }),
    {
        match self {
            Splat::Vampire(..) => Some(Ability::Discipline(Discipline::_Custom(name))),
            Splat::Werewolf(..) => Some(Ability::MoonGift(MoonGift::_Custom(name))),
            Splat::Bound(..) => Some(Ability::Haunt(Haunt::_Custom(name))),
            _ => None,
        }
    }

    /// Whether the splat's second kind of beats may be left off the sheet: a mage's may not.
    pub fn alternate_beats_optional(&self) -> (r: bool)
        ensures
            r == !(*self is Mage),
    {
        match self {
            Splat::Mage(..) => false,
            _ => true,
        }
    }

    /// The merits open to the splat: the universal ones for a mortal, the splat's own
    /// otherwise.
    pub fn merits(&self) -> (r: Vec<Merit>)
        ensures
            match *self {
                Splat::Mortal => is_universal_merit_list(r@),
                Splat::Vampire(..) => r@.len() == 36 && forall|i: int|
                    0 <= i < 36 ==> ((#[trigger] r@[i]) matches Merit::Vampire(m) && m.tag_spec() == i
                        && m.payload_view().len() == 0),
                Splat::Werewolf(..) => r@ == WerewolfMerit::all_spec().map_values(|m: WerewolfMerit| Merit::Werewolf(m)),
                Splat::Mage(..) => r@ == MageMerit::all_spec().map_values(|m: MageMerit| Merit::Mage(m)),
                Splat::Changeling(..) => r@ == ChangelingMerit::all_spec().map_values(
                    |m: ChangelingMerit| Merit::Changeling(m),
                ),
                Splat::Bound(..) => r@.len() == 0,
            },
    {
        match self {
            Splat::Mortal => Merit::all(),
            Splat::Vampire(..) => {
                let all = VampireMerit::all();
                let v = map_each(
                    &all,
                    vampire_merit_as_merit,
                );
                assert forall|i: int| 0 <= i < 36 implies ((#[trigger] v@[i]) matches Merit::Vampire(m)
                    && m.tag_spec() == i && m.payload_view().len() == 0) by {
                    assert(v@[i] == Merit::Vampire(all@[i]));
                }
                v
            },
            Splat::Werewolf(..) => {
                let all = WerewolfMerit::all();
                let v = map_each(
                    &all,
                    werewolf_merit_as_merit,
                );
                assert(v@ =~= WerewolfMerit::all_spec().map_values(|m: WerewolfMerit| Merit::Werewolf(m)));
                v
            },
            Splat::Mage(..) => {
                let all = MageMerit::all();
                let v = map_each(
                    all.as_slice(),
                    mage_merit_as_merit,
                );
                assert(v@ =~= MageMerit::all_spec().map_values(|m: MageMerit| Merit::Mage(m)));
                v
            },
            Splat::Changeling(..) => {
                let all = ChangelingMerit::all();
                let v = map_each(
                    &all,
                    changeling_merit_as_merit,
                );
                assert(v@ =~= ChangelingMerit::all_spec().map_values(|m: ChangelingMerit| Merit::Changeling(m)));
                v
            },
            Splat::Bound(..) => Vec::new(),
        }
    }

    /// Every standard first choice of the splat.
    pub open spec fn xsplats_spec(self) -> Seq<XSplat> {
        match self {
            Splat::Vampire(..) => Clan::all_spec().map_values(|c: Clan| XSplat::Vampire(c)),
            Splat::Werewolf(..) => Auspice::all_spec().map_values(|a: Auspice| XSplat::Werewolf(a)),
            Splat::Mage(..) => Path::all_spec().map_values(|p: Path| XSplat::Mage(p)),
            Splat::Changeling(..) => Seeming::all_spec().map_values(|s: Seeming| XSplat::Changeling(s)),
            Splat::Bound(..) => Burden::all_spec().map_values(|b: Burden| XSplat::Bound(b)),
            Splat::Mortal => seq![],
        }
    }

    pub fn xsplats(&self) -> (r: Vec<XSplat>)
        ensures
            r@ == self.xsplats_spec(),
    {
        match self {
            Splat::Vampire(..) => {
                let all = Clan::all();
                let v = map_each(
                    &all,
                    clan_as_xsplat,
                );
                assert(v@ =~= Clan::all_spec().map_values(|c: Clan| XSplat::Vampire(c)));
                v
            },
            Splat::Werewolf(..) => {
                let all = Auspice::all();
                let v = map_each(
                    &all,
                    auspice_as_xsplat,
                );
                assert(v@ =~= Auspice::all_spec().map_values(|a: Auspice| XSplat::Werewolf(a)));
                v
            },
            Splat::Mage(..) => {
                let all = Path::all();
                let v = map_each(
                    &all,
                    path_as_xsplat,
                );
                assert(v@ =~= Path::all_spec().map_values(|p: Path| XSplat::Mage(p)));
                v
            },
            Splat::Changeling(..) => {
                let all = Seeming::all();
                let v = map_each(
                    &all,
                    seeming_as_xsplat,
                );
                assert(v@ =~= Seeming::all_spec().map_values(|s: Seeming| XSplat::Changeling(s)));
                v
            },
            Splat::Bound(..) => {
                let all = Burden::all();
                let v = map_each(
                    &all,
                    burden_as_xsplat,
                );
                assert(v@ =~= Burden::all_spec().map_values(|b: Burden| XSplat::Bound(b)));
                v
            },
            Splat::Mortal => Vec::new(),
        }
    }

    /// Every standard second choice of the splat.
    pub open spec fn ysplats_spec(self) -> Seq<YSplat> {
        match self {
            Splat::Vampire(..) => Covenant::all_spec().map_values(|c: Covenant| YSplat::Vampire(c)),
            Splat::Werewolf(..) => Tribe::all_spec().map_values(|t: Tribe| YSplat::Werewolf(t)),
            Splat::Mage(..) => Order::all_spec().map_values(|o: Order| YSplat::Mage(o)),
            Splat::Changeling(..) => Court::all_spec().map_values(|c: Court| YSplat::Changeling(c)),
            Splat::Bound(..) => Archetype::all_spec().map_values(|a: Archetype| YSplat::Bound(a)),
            Splat::Mortal => seq![],
        }
    }

    pub fn ysplats(&self) -> (r: Vec<YSplat>)
        ensures
            r@ == self.ysplats_spec(),
    {
        match self {
            Splat::Vampire(..) => {
                let all = Covenant::all();
                let v = map_each(
                    &all,
                    covenant_as_ysplat,
                );
                assert(v@ =~= Covenant::all_spec().map_values(|c: Covenant| YSplat::Vampire(c)));
                v
            },
            Splat::Werewolf(..) => {
                let all = Tribe::all();
                let v = map_each(
                    all.as_slice(),
                    tribe_as_ysplat,
                );
                assert(v@ =~= Tribe::all_spec().map_values(|t: Tribe| YSplat::Werewolf(t)));
                v
            },
            Splat::Mage(..) => {
                let all = Order::all();
                let v = map_each(
                    &all,
                    order_as_ysplat,
                );
                assert(v@ =~= Order::all_spec().map_values(|o: Order| YSplat::Mage(o)));
                v
            },
            Splat::Changeling(..) => {
                let all = Court::all();
                let v = map_each(
                    &all,
                    court_as_ysplat,
                );
                assert(v@ =~= Court::all_spec().map_values(|c: Court| YSplat::Changeling(c)));
                v
            },
            Splat::Bound(..) => {
                let all = Archetype::all();
                let v = map_each(
                    &all,
                    archetype_as_ysplat,
                );
                assert(v@ =~= Archetype::all_spec().map_values(|a: Archetype| YSplat::Bound(a)));
                v
            },
            Splat::Mortal => Vec::new(),
        }
    }

    /// Every standard third choice of the splat: only kiths are listed; bloodlines,
    /// lodges and legacies are all custom.
    pub open spec fn zsplats_spec(self) -> Seq<ZSplat> {
        match self {
            Splat::Changeling(..) => Kith::all_spec().map_values(|k: Kith| ZSplat::Changeling(k)),
            _ => seq![],
        }
    }

    pub fn zsplats(&self) -> (r: Vec<ZSplat>)
        ensures
            r@ == self.zsplats_spec(),
    {
        match self {
            Splat::Changeling(..) => {
                let all = Kith::all();
                let v = map_each(
                    &all,
                    kith_as_zsplat,
                );
                assert(v@ =~= Kith::all_spec().map_values(|k: Kith| ZSplat::Changeling(k)));
                v
            },
            _ => Vec::new(),
        }
    }
}

impl XSplat {
    pub open spec fn name_view(self) -> Seq<char> {
        match self {
            XSplat::Vampire(x) => x.name_view(),
            XSplat::Werewolf(x) => x.name_view(),
            XSplat::Mage(x) => x.name_view(),
            XSplat::Changeling(x) => x.name_view(),
            XSplat::Bound(x) => x.name_view(),
        }
    }

    pub fn name(&self) -> (r: &str)
        ensures
            r@ == self.name_view(),
    {
        match self {
            XSplat::Vampire(x) => x.name(),
            XSplat::Werewolf(x) => x.name(),
            XSplat::Mage(x) => x.name(),
            XSplat::Changeling(x) => x.name(),
            XSplat::Bound(x) => x.name(),
        }
    }

    /// Whether the choice is one the user made up.
    pub open spec fn is_custom_spec(self) -> bool {
        match self {
            XSplat::Vampire(Clan::_Custom(name, d, a)) => true,
            XSplat::Werewolf(Auspice::_Custom(name, sk, re, mg, g, h)) => true,
            XSplat::Mage(Path::_Custom(name, a, b)) => true,
            XSplat::Changeling(Seeming::_Custom(name, re, t)) => true,
            XSplat::Bound(Burden::_Custom(name, h)) => true,
            _ => false,
        }
    }

    /// The name of a custom choice.
    pub open spec fn custom_name(self) -> String {
        match self {
            XSplat::Vampire(Clan::_Custom(name, d, a)) => name,
            XSplat::Werewolf(Auspice::_Custom(name, sk, re, mg, g, h)) => name,
            XSplat::Mage(Path::_Custom(name, a, b)) => name,
            XSplat::Changeling(Seeming::_Custom(name, re, t)) => name,
            XSplat::Bound(Burden::_Custom(name, h)) => name,
            _ => arbitrary(),
        }
    }

    /// A custom choice with its name replaced.
    pub open spec fn renamed(self, n: String) -> Self {
        match self {
            XSplat::Vampire(Clan::_Custom(name, d, a)) => XSplat::Vampire(Clan::_Custom(n, d, a)),
            XSplat::Werewolf(Auspice::_Custom(name, sk, re, mg, g, h)) => XSplat::Werewolf(Auspice::_Custom(n, sk, re, mg, g, h)),
            XSplat::Mage(Path::_Custom(name, a, b)) => XSplat::Mage(Path::_Custom(n, a, b)),
            XSplat::Changeling(Seeming::_Custom(name, re, t)) => XSplat::Changeling(Seeming::_Custom(n, re, t)),
            XSplat::Bound(Burden::_Custom(name, h)) => XSplat::Bound(Burden::_Custom(n, h)),
            _ => self,
        }
    }

    pub fn is_custom(&self) -> (r: bool)
        ensures
            r == self.is_custom_spec(),
    {
        match self {
            XSplat::Vampire(Clan::_Custom(name, d, a)) => true,
            XSplat::Werewolf(Auspice::_Custom(name, sk, re, mg, g, h)) => true,
            XSplat::Mage(Path::_Custom(name, a, b)) => true,
            XSplat::Changeling(Seeming::_Custom(name, re, t)) => true,
            XSplat::Bound(Burden::_Custom(name, h)) => true,
            _ => false,
        }
    }

    /// The name of a custom choice, to edit in place.
    pub fn name_mut(&mut self) -> (r: Option<&mut String>)
        ensures
            r is Some <==> old(self).is_custom_spec(),
            r is None ==> *final(self) == *old(self),
            r matches Some(s) ==> *s == old(self).custom_name() && *final(self) == old(self).renamed(*final(s)),
    {
        match self {
            XSplat::Vampire(Clan::_Custom(name, d, a)) => Some(name),
            XSplat::Werewolf(Auspice::_Custom(name, sk, re, mg, g, h)) => Some(name),
            XSplat::Mage(Path::_Custom(name, a, b)) => Some(name),
            XSplat::Changeling(Seeming::_Custom(name, re, t)) => Some(name),
            XSplat::Bound(Burden::_Custom(name, h)) => Some(name),
            _ => None,
        }
    }
}

impl YSplat {
    pub open spec fn name_view(self) -> Seq<char> {
        match self {
            YSplat::Vampire(x) => x.name_view(),
            YSplat::Werewolf(x) => x.name_view(),
            YSplat::Mage(x) => x.name_view(),
            YSplat::Changeling(x) => x.name_view(),
            YSplat::Bound(x) => x.name_view(),
        }
    }

    pub fn name(&self) -> (r: &str)
        ensures
            r@ == self.name_view(),
    {
        match self {
            YSplat::Vampire(x) => x.name(),
            YSplat::Werewolf(x) => x.name(),
            YSplat::Mage(x) => x.name(),
            YSplat::Changeling(x) => x.name(),
            YSplat::Bound(x) => x.name(),
        }
    }

    /// Whether the choice is one the user made up.
    pub open spec fn is_custom_spec(self) -> bool {
        match self {
            YSplat::Vampire(Covenant::_Custom(name)) => true,
            YSplat::Werewolf(Tribe::_Custom(name, re, g)) => true,
            YSplat::Mage(Order::_Custom(name, sk)) => true,
            YSplat::Mage(Order::SeersOfTheThrone(Some(Ministry::_Custom(name, sk)))) => true,
            YSplat::Changeling(Court::_Custom(name)) => true,
            YSplat::Bound(Archetype::_Custom(name)) => true,
            _ => false,
        }
    }

    /// The name of a custom choice.
    pub open spec fn custom_name(self) -> String {
        match self {
            YSplat::Vampire(Covenant::_Custom(name)) => name,
            YSplat::Werewolf(Tribe::_Custom(name, re, g)) => name,
            YSplat::Mage(Order::_Custom(name, sk)) => name,
            YSplat::Mage(Order::SeersOfTheThrone(Some(Ministry::_Custom(name, sk)))) => name,
            YSplat::Changeling(Court::_Custom(name)) => name,
            YSplat::Bound(Archetype::_Custom(name)) => name,
            _ => arbitrary(),
        }
    }

    /// A custom choice with its name replaced.
    pub open spec fn renamed(self, n: String) -> Self {
        match self {
            YSplat::Vampire(Covenant::_Custom(name)) => YSplat::Vampire(Covenant::_Custom(n)),
            YSplat::Werewolf(Tribe::_Custom(name, re, g)) => YSplat::Werewolf(Tribe::_Custom(n, re, g)),
            YSplat::Mage(Order::_Custom(name, sk)) => YSplat::Mage(Order::_Custom(n, sk)),
            YSplat::Mage(Order::SeersOfTheThrone(Some(Ministry::_Custom(name, sk)))) => YSplat::Mage(Order::SeersOfTheThrone(Some(Ministry::_Custom(n, sk)))),
            YSplat::Changeling(Court::_Custom(name)) => YSplat::Changeling(Court::_Custom(n)),
            YSplat::Bound(Archetype::_Custom(name)) => YSplat::Bound(Archetype::_Custom(n)),
            _ => self,
        }
    }

    pub fn is_custom(&self) -> (r: bool)
        ensures
            r == self.is_custom_spec(),
    {
        match self {
            YSplat::Vampire(Covenant::_Custom(name)) => true,
            YSplat::Werewolf(Tribe::_Custom(name, re, g)) => true,
            YSplat::Mage(Order::_Custom(name, sk)) => true,
            YSplat::Mage(Order::SeersOfTheThrone(Some(Ministry::_Custom(name, sk)))) => true,
            YSplat::Changeling(Court::_Custom(name)) => true,
            YSplat::Bound(Archetype::_Custom(name)) => true,
            _ => false,
        }
    }

    /// The name of a custom choice, to edit in place.
    pub fn name_mut(&mut self) -> (r: Option<&mut String>)
        ensures
            r is Some <==> old(self).is_custom_spec(),
            r is None ==> *final(self) == *old(self),
            r matches Some(s) ==> *s == old(self).custom_name() && *final(self) == old(self).renamed(*final(s)),
    {
        match self {
            YSplat::Vampire(Covenant::_Custom(name)) => Some(name),
            YSplat::Werewolf(Tribe::_Custom(name, re, g)) => Some(name),
            YSplat::Mage(Order::_Custom(name, sk)) => Some(name),
            YSplat::Mage(Order::SeersOfTheThrone(Some(Ministry::_Custom(name, sk)))) => Some(name),
            YSplat::Changeling(Court::_Custom(name)) => Some(name),
            YSplat::Bound(Archetype::_Custom(name)) => Some(name),
            _ => None,
        }
    }
}

impl ZSplat {
    pub open spec fn name_view(self) -> Seq<char> {
        match self {
            ZSplat::Vampire(x) => x.name_view(),
            ZSplat::Werewolf(x) => x.name_view(),
            ZSplat::Mage(x) => x.name_view(),
            ZSplat::Changeling(x) => x.name_view(),
        }
    }

    pub fn name(&self) -> (r: &str)
        ensures
            r@ == self.name_view(),
    {
        match self {
            ZSplat::Vampire(x) => x.name(),
            ZSplat::Werewolf(x) => x.name(),
            ZSplat::Mage(x) => x.name(),
            ZSplat::Changeling(x) => x.name(),
        }
    }

    /// Whether the choice is one the user made up.
    pub open spec fn is_custom_spec(self) -> bool {
        match self {
            ZSplat::Vampire(Bloodline::_Custom(name, d)) => true,
            ZSplat::Werewolf(Lodge::_Custom(name)) => true,
            ZSplat::Mage(Legacy::_Custom(name, a)) => true,
            ZSplat::Changeling(Kith::_Custom(name)) => true,
            _ => false,
        }
    }

    /// The name of a custom choice.
    pub open spec fn custom_name(self) -> String {
        match self {
            ZSplat::Vampire(Bloodline::_Custom(name, d)) => name,
            ZSplat::Werewolf(Lodge::_Custom(name)) => name,
            ZSplat::Mage(Legacy::_Custom(name, a)) => name,
            ZSplat::Changeling(Kith::_Custom(name)) => name,
            _ => arbitrary(),
        }
    }

    /// A custom choice with its name replaced.
    pub open spec fn renamed(self, n: String) -> Self {
        match self {
            ZSplat::Vampire(Bloodline::_Custom(name, d)) => ZSplat::Vampire(Bloodline::_Custom(n, d)),
            ZSplat::Werewolf(Lodge::_Custom(name)) => ZSplat::Werewolf(Lodge::_Custom(n)),
            ZSplat::Mage(Legacy::_Custom(name, a)) => ZSplat::Mage(Legacy::_Custom(n, a)),
            ZSplat::Changeling(Kith::_Custom(name)) => ZSplat::Changeling(Kith::_Custom(n)),
            _ => self,
        }
    }

    pub fn is_custom(&self) -> (r: bool)
        ensures
            r == self.is_custom_spec(),
    {
        match self {
            ZSplat::Vampire(Bloodline::_Custom(name, d)) => true,
            ZSplat::Werewolf(Lodge::_Custom(name)) => true,
            ZSplat::Mage(Legacy::_Custom(name, a)) => true,
            ZSplat::Changeling(Kith::_Custom(name)) => true,
            _ => false,
        }
    }

    /// The name of a custom choice, to edit in place.
    pub fn name_mut(&mut self) -> (r: Option<&mut String>)
        ensures
            r is Some <==> old(self).is_custom_spec(),
            r is None ==> *final(self) == *old(self),
            r matches Some(s) ==> *s == old(self).custom_name() && *final(self) == old(self).renamed(*final(s)),
    {
        match self {
            ZSplat::Vampire(Bloodline::_Custom(name, d)) => Some(name),
            ZSplat::Werewolf(Lodge::_Custom(name)) => Some(name),
            ZSplat::Mage(Legacy::_Custom(name, a)) => Some(name),
            ZSplat::Changeling(Kith::_Custom(name)) => Some(name),
            _ => None,
        }
    }
}

impl Splat {
    /// Whether a first choice is of this splat's kind.
    pub open spec fn takes_xsplat(self, x: XSplat) -> bool {
        ||| self is Vampire && x is Vampire
        ||| self is Werewolf && x is Werewolf
        ||| self is Mage && x is Mage
        ||| self is Changeling && x is Changeling
        ||| self is Bound && x is Bound
    }

    /// Whether a second choice is of this splat's kind.
    pub open spec fn takes_ysplat(self, y: YSplat) -> bool {
        ||| self is Vampire && y is Vampire
        ||| self is Werewolf && y is Werewolf
        ||| self is Mage && y is Mage
        ||| self is Changeling && y is Changeling
        ||| self is Bound && y is Bound
    }

    /// Whether a third choice is of this splat's kind.
    pub open spec fn takes_zsplat(self, z: ZSplat) -> bool {
        ||| self is Vampire && z is Vampire
        ||| self is Werewolf && z is Werewolf
        ||| self is Mage && z is Mage
        ||| self is Changeling && z is Changeling
    }
}

/// `r` is the custom first choice made for splat `s` under `name`.
pub open spec fn custom_xsplat_made(s: Splat, name: String, r: Option<XSplat>) -> bool {
    match s {
        Splat::Mortal => r is None,
        Splat::Vampire(..) => r matches Some(XSplat::Vampire(Clan::_Custom(n, d, a)))
            && n == name && d@ == seq![Discipline::Animalism, Discipline::Auspex, Discipline::Celerity]
            && a@ == seq![Attribute::Composure, Attribute::Dexterity],
        Splat::Werewolf(..) => r matches Some(XSplat::Werewolf(Auspice::_Custom(n, sk, re, mg, g, h)))
            && n == name && sk@ == seq![Skill::Academics, Skill::AnimalKen, Skill::Athletics]
            && re == Renown::Cunning && (mg matches MoonGift::_Custom(m) && m@ == "Custom"@)
            && g@ == seq![ShadowGift::Death, ShadowGift::Dominance] && h == HuntersAspect::Monstrous,
        Splat::Mage(..) => r matches Some(XSplat::Mage(Path::_Custom(n, a, b))) && n == name
            && a@ == seq![Arcanum::Death, Arcanum::Fate] && b == Arcanum::Forces,
        Splat::Changeling(..) => r == Some(
            XSplat::Changeling(Seeming::_Custom(name, Regalia::Crown, AttributeType::Power)),
        ),
        Splat::Bound(..) => r matches Some(XSplat::Bound(Burden::_Custom(n, h))) && n == name
            && h@ == seq![Haunt::Boneyard, Haunt::Caul, Haunt::Curse],
    }
}

/// `r` is the custom second choice made for splat `s` under `name`.
pub open spec fn custom_ysplat_made(s: Splat, name: String, r: Option<YSplat>) -> bool {
    match s {
        Splat::Mortal => r is None,
        Splat::Vampire(..) => r == Some(YSplat::Vampire(Covenant::_Custom(name))),
        Splat::Werewolf(..) => r matches Some(YSplat::Werewolf(Tribe::_Custom(n, re, g))) && n == name
            && re == Renown::Cunning
            && g@ == seq![ShadowGift::Death, ShadowGift::Dominance, ShadowGift::Elemental],
        Splat::Mage(..) => r matches Some(YSplat::Mage(Order::_Custom(n, sk))) && n == name
            && sk@ == seq![Skill::Academics, Skill::AnimalKen, Skill::Athletics],
        Splat::Changeling(..) => r == Some(YSplat::Changeling(Court::_Custom(name))),
        Splat::Bound(..) => r == Some(YSplat::Bound(Archetype::_Custom(name))),
    }
}

/// Setting a choice of the splat's own kind and reading it back gives that choice; setting
/// one of another kind changes nothing.
pub proof fn lemma_set_xsplat_get(s: Splat, x: XSplat)
    ensures
        s.takes_xsplat(x) ==> s.with_xsplat(Some(x)).xsplat_spec() == Some(x),
        !s.takes_xsplat(x) ==> s.with_xsplat(Some(x)) == s,
{
}

/// Setting a second choice of the splat's own kind and reading it back gives that choice;
/// one of another kind changes nothing.
pub proof fn lemma_set_ysplat_get(s: Splat, y: YSplat)
    ensures
        s.takes_ysplat(y) ==> s.with_ysplat(Some(y)).ysplat_spec() == Some(y),
        !s.takes_ysplat(y) ==> s.with_ysplat(Some(y)) == s,
{
}

/// Setting a third choice of the splat's own kind and reading it back gives that choice;
/// one of another kind changes nothing.
pub proof fn lemma_set_zsplat_get(s: Splat, z: ZSplat)
    ensures
        s.takes_zsplat(z) ==> s.with_zsplat(Some(z)).zsplat_spec() == Some(z),
        !s.takes_zsplat(z) ==> s.with_zsplat(Some(z)) == s,
{
}

/// Clearing a choice that may be left open and reading it back gives none.
pub proof fn lemma_clear_splat_choices(s: Splat)
    ensures
        s is Werewolf ==> s.with_xsplat(None).xsplat_spec() is None,
        !(s is Bound) ==> s.with_ysplat(None).ysplat_spec() is None,
        s.with_zsplat(None).zsplat_spec() is None,
{
}

/// Renaming a custom choice: it stays custom, and its name is the new one.
pub proof fn lemma_rename_custom(x: XSplat, y: YSplat, z: ZSplat, n: String)
    ensures
        x.is_custom_spec() ==> x.renamed(n).is_custom_spec() && x.renamed(n).custom_name() == n
            && x.renamed(n).name_view() == n@,
        y.is_custom_spec() ==> y.renamed(n).is_custom_spec() && y.renamed(n).custom_name() == n
            && y.renamed(n).name_view() == n@,
        z.is_custom_spec() ==> z.renamed(n).is_custom_spec() && z.renamed(n).custom_name() == n
            && z.renamed(n).name_view() == n@,
{
}

/// A custom first or second choice made for a splat: none for a mortal; for any other
/// splat, a custom choice of that splat's kind, under the name asked for.
pub proof fn lemma_custom_choices(s: Splat, n: String, x: Option<XSplat>, y: Option<YSplat>)
    requires
        custom_xsplat_made(s, n, x),
        custom_ysplat_made(s, n, y),
    ensures
        x is None <==> s is Mortal,
        x matches Some(c) ==> c.is_custom_spec() && c.custom_name() == n && s.takes_xsplat(c),
        y is None <==> s is Mortal,
        y matches Some(c) ==> c.is_custom_spec() && c.custom_name() == n && s.takes_ysplat(c),
{
}

} // verus!
