use vstd::prelude::*;

use crate::character::traits::{Attribute, Skill};
use crate::character::Character;

use super::ability::Ability;
use super::{Merit, Splat, XSplat, YSplat, ZSplat};

verus! {

/// What belongs to a mage character beyond path, order and legacy.
#[derive(Debug)]
pub struct MageData {
    pub attr_bonus: Option<Attribute>,
    pub obsessions: Vec<String>,
    pub rotes: Vec<Rote>,
}

impl Default for MageData {
    fn default() -> (r: Self)
        ensures
            r.attr_bonus is None,
            r.obsessions@.len() == 0,
            r.rotes@.len() == 0,
    {
        MageData { attr_bonus: None, obsessions: Vec::new(), rotes: Vec::new() }
    }
}

#[derive(Debug)]
pub enum Path {
    Acanthus,
    Mastigos,
    Moros,
    Obrimos,
    Thyrsus,
    _Custom(String, [Arcanum; 2], Arcanum),
}

impl Clone for Path {
    fn clone(&self) -> (r: Self)
        ensures
            r == *self,
    {
        match self {
            Path::Acanthus => Path::Acanthus,
            Path::Mastigos => Path::Mastigos,
            Path::Moros => Path::Moros,
            Path::Obrimos => Path::Obrimos,
            Path::Thyrsus => Path::Thyrsus,
            Path::_Custom(name, ruling, inferior) => Path::_Custom(name.clone(), *ruling, *inferior),
        }
    }
}

impl Path {
    /// The two ruling arcana of the path.
    pub open spec fn ruling_arcana_spec(self) -> Seq<Arcanum> {
        match self {
            Path::Acanthus => seq![Arcanum::Time, Arcanum::Fate],
            Path::Mastigos => seq![Arcanum::Space, Arcanum::Mind],
            Path::Moros => seq![Arcanum::Matter, Arcanum::Death],
            Path::Obrimos => seq![Arcanum::Forces, Arcanum::Prime],
            Path::Thyrsus => seq![Arcanum::Life, Arcanum::Spirit],
            Path::_Custom(_, ruling, _) => ruling@,
        }
    }

    /// The inferior arcanum of the path.
    pub open spec fn inferior_arcanum_spec(self) -> Arcanum {
        match self {
            Path::Acanthus => Arcanum::Forces,
            Path::Mastigos => Arcanum::Matter,
            Path::Moros => Arcanum::Spirit,
            Path::Obrimos => Arcanum::Death,
            Path::Thyrsus => Arcanum::Mind,
            Path::_Custom(_, _, inferior) => inferior,
        }
    }

    fn get_ruling_arcana(&self) -> (r: &[Arcanum; 2])
        ensures
            r@ == self.ruling_arcana_spec(),
    {
        match self {
            Path::Acanthus => &[Arcanum::Time, Arcanum::Fate],
            Path::Mastigos => &[Arcanum::Space, Arcanum::Mind],
            Path::Moros => &[Arcanum::Matter, Arcanum::Death],
            Path::Obrimos => &[Arcanum::Forces, Arcanum::Prime],
            Path::Thyrsus => &[Arcanum::Life, Arcanum::Spirit],
            Path::_Custom(_, ruling, _) => ruling,
        }
    }

    fn get_inferior_arcanum(&self) -> (r: &Arcanum)
        ensures
            *r == self.inferior_arcanum_spec(),
    {
        match self {
            Path::Acanthus => &Arcanum::Forces,
            Path::Mastigos => &Arcanum::Matter,
            Path::Moros => &Arcanum::Spirit,
            Path::Obrimos => &Arcanum::Death,
            Path::Thyrsus => &Arcanum::Mind,
            Path::_Custom(_, _, inferior) => inferior,
        }
    }

    pub open spec fn name_view(self) -> Seq<char> {
        match self {
            Path::Acanthus => "acanthus"@,
            Path::Mastigos => "mastigos"@,
            Path::Moros => "moros"@,
            Path::Obrimos => "obrimos"@,
            Path::Thyrsus => "thyrsus"@,
            Path::_Custom(name, ..) => name@,
        }
    }

    pub fn name(&self) -> (r: &str)
        ensures
            r@ == self.name_view(),
    {
        match self {
            Path::Acanthus => "acanthus",
            Path::Mastigos => "mastigos",
            Path::Moros => "moros",
            Path::Obrimos => "obrimos",
            Path::Thyrsus => "thyrsus",
            Path::_Custom(name, ..) => name.as_str(),
        }
    }

    pub open spec fn all_spec() -> Seq<Self> {
        seq![Path::Acanthus, Path::Mastigos, Path::Moros, Path::Obrimos, Path::Thyrsus]
    }

    pub fn all() -> (r: [Path; 5])
        ensures
            r@ == Self::all_spec(),
    {
        let r = [Path::Acanthus, Path::Mastigos, Path::Moros, Path::Obrimos, Path::Thyrsus];
        assert(r@ =~= Self::all_spec());
        r
    }
}

impl From<Path> for XSplat {
    fn from(val: Path) -> (r: Self) {
        XSplat::Mage(val)
    }
}

impl vstd::std_specs::convert::FromSpecImpl<Path> for XSplat {
    open spec fn obeys_from_spec() -> bool {
        true
    }

    open spec fn from_spec(v: Path) -> Self {
        XSplat::Mage(v)
    }
}

#[derive(Debug)]
pub enum Order {
    AdamantineArrow,
    GuardiansOfTheVeil,
    Mysterium,
    SilverLadder,
    FreeCouncil,
    SeersOfTheThrone(Option<Ministry>),
    _Custom(String, [Skill; 3]),
}

impl Clone for Order {
    fn clone(&self) -> (r: Self)
        ensures
            r == *self,
    {
        match self {
            Order::AdamantineArrow => Order::AdamantineArrow,
            Order::GuardiansOfTheVeil => Order::GuardiansOfTheVeil,
            Order::Mysterium => Order::Mysterium,
            Order::SilverLadder => Order::SilverLadder,
            Order::FreeCouncil => Order::FreeCouncil,
            Order::SeersOfTheThrone(m) => Order::SeersOfTheThrone(
                match m {
                    Some(m) => Some(m.clone()),
                    None => None,
                },
            ),
            Order::_Custom(name, skills) => Order::_Custom(name.clone(), *skills),
        }
    }
}

#[derive(Debug)]
pub enum Ministry {
    Hegemony,
    Panopticon,
    Paternoster,
    Praetorian,
    _Custom(String, [Skill; 3]),
}

impl Clone for Ministry {
    fn clone(&self) -> (r: Self)
        ensures
            r == *self,
    {
        match self {
            Ministry::Hegemony => Ministry::Hegemony,
            Ministry::Panopticon => Ministry::Panopticon,
            Ministry::Paternoster => Ministry::Paternoster,
            Ministry::Praetorian => Ministry::Praetorian,
            Ministry::_Custom(name, skills) => Ministry::_Custom(name.clone(), *skills),
        }
    }
}

impl Ministry {
    pub open spec fn name_view(self) -> Seq<char> {
        match self {
            Ministry::Hegemony => "hegemony"@,
            Ministry::Panopticon => "panopticon"@,
            Ministry::Paternoster => "paternoster"@,
            Ministry::Praetorian => "praetorian"@,
            Ministry::_Custom(name, _) => name@,
        }
    }

    pub fn name(&self) -> (r: &str)
        ensures
            r@ == self.name_view(),
    {
        match self {
            Ministry::Hegemony => "hegemony",
            Ministry::Panopticon => "panopticon",
            Ministry::Paternoster => "paternoster",
            Ministry::Praetorian => "praetorian",
            Ministry::_Custom(name, _) => name.as_str(),
        }
    }

    pub open spec fn all_spec() -> Seq<Self> {
        seq![Ministry::Hegemony, Ministry::Panopticon, Ministry::Paternoster, Ministry::Praetorian]
    }

    pub fn all() -> (r: [Ministry; 4])
        ensures
            r@ == Self::all_spec(),
    {
        let r = [Ministry::Hegemony, Ministry::Panopticon, Ministry::Paternoster, Ministry::Praetorian];
        assert(r@ =~= Self::all_spec());
        r
    }
}

impl Order {
    /// The three rote skills of the order (of the ministry, for the Seers of the Throne).
    pub open spec fn rote_skills_spec(self) -> Seq<Skill> {
        match self {
            Order::AdamantineArrow => seq![Skill::Athletics, Skill::Intimidation, Skill::Medicine],
            Order::GuardiansOfTheVeil => seq![Skill::Investigation, Skill::Stealth, Skill::Subterfuge],
            Order::Mysterium => seq![Skill::Investigation, Skill::Occult, Skill::Survival],
            Order::SilverLadder => seq![Skill::Expression, Skill::Persuasion, Skill::Subterfuge],
            Order::FreeCouncil => seq![Skill::Crafts, Skill::Persuasion, Skill::Science],
            Order::SeersOfTheThrone(ministry) => match ministry {
                Some(ministry) => match ministry {
                    Ministry::Hegemony => seq![Skill::Politics, Skill::Persuasion, Skill::Empathy],
                    Ministry::Panopticon => seq![Skill::Investigation, Skill::Stealth, Skill::Subterfuge],
                    Ministry::Paternoster => seq![Skill::Academics, Skill::Occult, Skill::Expression],
                    Ministry::Praetorian => seq![Skill::Athletics, Skill::Larceny, Skill::Intimidation],
                    Ministry::_Custom(_, skills) => skills@,
                },
                None => seq![Skill::Investigation, Skill::Occult, Skill::Persuasion],
            },
            Order::_Custom(_, skills) => skills@,
        }
    }

    pub fn get_rote_skills(&self) -> (r: &[Skill; 3])
        ensures
            r@ == self.rote_skills_spec(),
    {
        match self {
            Order::AdamantineArrow => &[Skill::Athletics, Skill::Intimidation, Skill::Medicine],
            Order::GuardiansOfTheVeil => &[Skill::Investigation, Skill::Stealth, Skill::Subterfuge],
            Order::Mysterium => &[Skill::Investigation, Skill::Occult, Skill::Survival],
            Order::SilverLadder => &[Skill::Expression, Skill::Persuasion, Skill::Subterfuge],
            Order::FreeCouncil => &[Skill::Crafts, Skill::Persuasion, Skill::Science],
            Order::SeersOfTheThrone(ministry) => match ministry {
                Some(ministry) => match ministry {
                    Ministry::Hegemony => &[Skill::Politics, Skill::Persuasion, Skill::Empathy],
                    Ministry::Panopticon => &[Skill::Investigation, Skill::Stealth, Skill::Subterfuge],
                    Ministry::Paternoster => &[Skill::Academics, Skill::Occult, Skill::Expression],
                    Ministry::Praetorian => &[Skill::Athletics, Skill::Larceny, Skill::Intimidation],
                    Ministry::_Custom(_, skills) => skills,
                },
                None => &[Skill::Investigation, Skill::Occult, Skill::Persuasion],
            },
            Order::_Custom(_, skills) => skills,
        }
    }

    pub open spec fn name_view(self) -> Seq<char> {
        match self {
            Order::AdamantineArrow => "adamantine_arrow"@,
            Order::GuardiansOfTheVeil => "guardians_of_the_veil"@,
            Order::Mysterium => "mysterium"@,
            Order::SilverLadder => "silver_ladder"@,
            Order::FreeCouncil => "free_council"@,
            Order::SeersOfTheThrone(ministry) => match ministry {
                Some(ministry) => ministry.name_view(),
                None => "seers_of_the_throne"@,
            },
            Order::_Custom(name, _) => name@,
        }
    }

    /// The name of the order; a Seer in a ministry goes by the ministry's name.
    pub fn name(&self) -> (r: &str)
        ensures
            r@ == self.name_view(),
    {
        match self {
            Order::AdamantineArrow => "adamantine_arrow",
            Order::GuardiansOfTheVeil => "guardians_of_the_veil",
            Order::Mysterium => "mysterium",
            Order::SilverLadder => "silver_ladder",
            Order::FreeCouncil => "free_council",
            Order::SeersOfTheThrone(ministry) => match ministry {
                Some(ministry) => ministry.name(),
                None => "seers_of_the_throne",
            },
            Order::_Custom(name, _) => name.as_str(),
        }
    }

    pub open spec fn all_spec() -> Seq<Order> {
        seq![
            Order::AdamantineArrow,
            Order::GuardiansOfTheVeil,
            Order::Mysterium,
            Order::SilverLadder,
            Order::FreeCouncil,
            Order::SeersOfTheThrone(None),
            Order::SeersOfTheThrone(Some(Ministry::Hegemony)),
            Order::SeersOfTheThrone(Some(Ministry::Panopticon)),
            Order::SeersOfTheThrone(Some(Ministry::Paternoster)),
            Order::SeersOfTheThrone(Some(Ministry::Praetorian)),
        ]
    }

    /// The five orders, the Seers of the Throne, and the Seers in each of their four ministries.
    pub fn all() -> (r: [Order; 10])
        ensures
            r@ == Self::all_spec(),
    {
        let r = [
            Order::AdamantineArrow,
            Order::GuardiansOfTheVeil,
            Order::Mysterium,
            Order::SilverLadder,
            Order::FreeCouncil,
            Order::SeersOfTheThrone(None),
            Order::SeersOfTheThrone(Some(Ministry::Hegemony)),
            Order::SeersOfTheThrone(Some(Ministry::Panopticon)),
            Order::SeersOfTheThrone(Some(Ministry::Paternoster)),
            Order::SeersOfTheThrone(Some(Ministry::Praetorian)),
        ];
        assert(r@ =~= Self::all_spec());
        r
    }
}

impl From<Order> for YSplat {
    fn from(order: Order) -> (r: Self) {
        YSplat::Mage(order)
    }
}

impl vstd::std_specs::convert::FromSpecImpl<Order> for YSplat {
    open spec fn obeys_from_spec() -> bool {
        true
    }

    open spec fn from_spec(v: Order) -> Self {
        YSplat::Mage(v)
    }
}

#[derive(Debug)]
pub enum Legacy {
    _Custom(String, Option<Arcanum>),
}

impl Clone for Legacy {
    fn clone(&self) -> (r: Self)
        ensures
            r == *self,
    {
        match self {
            Legacy::_Custom(name, a) => Legacy::_Custom(name.clone(), *a),
        }
    }
}

impl Legacy {
    pub open spec fn name_view(self) -> Seq<char> {
        match self {
            Legacy::_Custom(name, _) => name@,
        }
    }

    pub fn name(&self) -> (r: &str)
        ensures
            r@ == self.name_view(),
    {
        match self {
            Legacy::_Custom(name, _) => name.as_str(),
        }
    }
}

impl From<Legacy> for ZSplat {
    fn from(legacy: Legacy) -> (r: Self) {
        ZSplat::Mage(legacy)
    }
}

impl vstd::std_specs::convert::FromSpecImpl<Legacy> for ZSplat {
    open spec fn obeys_from_spec() -> bool {
        true
    }

    open spec fn from_spec(v: Legacy) -> Self {
        ZSplat::Mage(v)
    }
}

#[derive(Clone, Copy, Debug, PartialEq, Eq, Hash, Structural)]
pub enum Arcanum {
    Death,
    Fate,
    Forces,
    Life,
    Matter,
    Mind,
    Prime,
    Space,
    Spirit,
    Time,
}

impl Arcanum {
    pub open spec fn name_view(self) -> Seq<char> {
        match self {
            Arcanum::Death => "death"@,
            Arcanum::Fate => "fate"@,
            Arcanum::Forces => "forces"@,
            Arcanum::Life => "life"@,
            Arcanum::Matter => "matter"@,
            Arcanum::Mind => "mind"@,
            Arcanum::Prime => "prime"@,
            Arcanum::Space => "space"@,
            Arcanum::Spirit => "spirit"@,
            Arcanum::Time => "time"@,
        }
    }

    pub fn name(&self) -> (r: &'static str)
        ensures
            r@ == self.name_view(),
    {
        match self {
            Arcanum::Death => "death",
            Arcanum::Fate => "fate",
            Arcanum::Forces => "forces",
            Arcanum::Life => "life",
            Arcanum::Matter => "matter",
            Arcanum::Mind => "mind",
            Arcanum::Prime => "prime",
            Arcanum::Space => "space",
            Arcanum::Spirit => "spirit",
            Arcanum::Time => "time",
        }
    }

    pub open spec fn all_spec() -> Seq<Arcanum> {
        seq![
            Arcanum::Death,
            Arcanum::Fate,
            Arcanum::Forces,
            Arcanum::Life,
            Arcanum::Matter,
            Arcanum::Mind,
            Arcanum::Prime,
            Arcanum::Space,
            Arcanum::Spirit,
            Arcanum::Time,
        ]
    }

    pub fn all() -> (r: [Arcanum; 10])
        ensures
            r@ == Self::all_spec(),
    {
        let r = [
            Arcanum::Death,
            Arcanum::Fate,
            Arcanum::Forces,
            Arcanum::Life,
            Arcanum::Matter,
            Arcanum::Mind,
            Arcanum::Prime,
            Arcanum::Space,
            Arcanum::Spirit,
            Arcanum::Time,
        ];
        assert(r@ =~= Self::all_spec());
        r
    }
}

impl From<Arcanum> for Ability {
    fn from(val: Arcanum) -> (r: Self) {
        Ability::Arcanum(val)
    }
}

impl vstd::std_specs::convert::FromSpecImpl<Arcanum> for Ability {
    open spec fn obeys_from_spec() -> bool {
        true
    }

    open spec fn from_spec(v: Arcanum) -> Self {
        Ability::Arcanum(v)
    }
}

#[derive(Clone, Copy, Debug, PartialEq, Eq, Hash, Structural)]
pub enum MageMerit {
    HighSpeech,
}

impl MageMerit {
    pub open spec fn all_spec() -> Seq<Self> {
        seq![MageMerit::HighSpeech]
    }

    pub fn all() -> (r: Vec<MageMerit>)
        ensures
            r@ == Self::all_spec(),
    {
        let r = vec![Self::HighSpeech];
        assert(r@ =~= Self::all_spec());
        r
    }

    /// Mage merits can be taken by mages only.
    pub fn is_available(&self, character: &Character) -> (r: bool)
        ensures
            r == (character.splat is Mage),
    {
        matches!(character.splat, Splat::Mage(..))
    }

    pub fn name(&self) -> (r: &'static str)
        ensures
            r@ == "high_speech"@,
    {
        match self {
            MageMerit::HighSpeech => "high_speech",
        }
    }
}

impl From<MageMerit> for Merit {
    fn from(merit: MageMerit) -> (r: Self) {
        Merit::Mage(merit)
    }
}

impl vstd::std_specs::convert::FromSpecImpl<MageMerit> for Merit {
    open spec fn obeys_from_spec() -> bool {
        true
    }

    open spec fn from_spec(v: MageMerit) -> Self {
        Merit::Mage(v)
    }
}

/// A rote: a spell that a mage has learned by heart.
#[derive(Debug)]
pub struct Rote {
    pub arcanum: Arcanum,
    pub level: u16,
    pub spell: String,
    pub creator: String,
    pub skill: Skill,
}

} // verus!
