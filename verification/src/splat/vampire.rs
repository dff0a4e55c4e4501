use vstd::prelude::*;

use crate::character::modifier::{Modifier, ModifierOp, ModifierTarget, ModifierValue};
use crate::character::traits::{Attribute, Trait};
use crate::character::Character;
use crate::dice_pool::DicePool;

use super::ability::Ability;
use super::{Merit, Splat, XSplat, YSplat, ZSplat};

verus! {

broadcast use vstd::array::group_array_axioms;

/// What belongs to a vampire character beyond clan, covenant and bloodline.
#[derive(Debug)]
pub struct VampireData {
    pub attr_bonus: Option<Attribute>,
    pub banes: Vec<String>,
}

impl Default for VampireData {
    fn default() -> (r: Self)
        ensures
            r.attr_bonus is None,
            r.banes@.len() == 0,
    {
        VampireData { attr_bonus: None, banes: Vec::new() }
    }
}

#[derive(Debug)]
pub enum Clan {
    Daeva,
    Gangrel,
    Mekhet,
    Nosferatu,
    Ventrue,
    _Custom(String, Box<[Discipline; 3]>, [Attribute; 2]),
}

impl Default for Clan {
    fn default() -> (r: Self)
        ensures
            r is Daeva,
    {
        Clan::Daeva
    }
}

impl Clone for Clan {
    fn clone(&self) -> (r: Self)
        ensures
            r == *self,
    {
        match self {
            Clan::Daeva => Clan::Daeva,
            Clan::Gangrel => Clan::Gangrel,
            Clan::Mekhet => Clan::Mekhet,
            Clan::Nosferatu => Clan::Nosferatu,
            Clan::Ventrue => Clan::Ventrue,
            Clan::_Custom(name, disciplines, attributes) => {
                let d = [disciplines[0].clone(), disciplines[1].clone(), disciplines[2].clone()];
                assert(d =~= **disciplines);
                Clan::_Custom(name.clone(), Box::new(d), *attributes)
            },
        }
    }
}

impl Clan {
    /// The three in-clan disciplines.
    pub open spec fn disciplines_spec(self) -> Seq<Discipline> {
        match self {
            Clan::Daeva => seq![Discipline::Celerity, Discipline::Majesty, Discipline::Vigor],
            Clan::Gangrel => seq![Discipline::Animalism, Discipline::Protean, Discipline::Resilience],
            Clan::Mekhet => seq![Discipline::Auspex, Discipline::Celerity, Discipline::Obfuscate],
            Clan::Nosferatu => seq![Discipline::Nightmare, Discipline::Obfuscate, Discipline::Vigor],
            Clan::Ventrue => seq![Discipline::Animalism, Discipline::Dominate, Discipline::Resilience],
            Clan::_Custom(_, disciplines, _) => disciplines@,
        }
    }

    /// The two attributes from which the clan's bonus dot may be taken.
    pub open spec fn favored_attributes_spec(self) -> Seq<Attribute> {
        match self {
            Clan::Daeva => seq![Attribute::Dexterity, Attribute::Manipulation],
            Clan::Gangrel => seq![Attribute::Composure, Attribute::Stamina],
            Clan::Mekhet => seq![Attribute::Intelligence, Attribute::Wits],
            Clan::Nosferatu => seq![Attribute::Composure, Attribute::Strength],
            Clan::Ventrue => seq![Attribute::Presence, Attribute::Resolve],
            Clan::_Custom(_, _, attributes) => attributes@,
        }
    }

    pub fn get_disciplines(&self) -> (r: &[Discipline; 3])
        ensures
            r@ == self.disciplines_spec(),
    {
        match self {
            Clan::Daeva => &[Discipline::Celerity, Discipline::Majesty, Discipline::Vigor],
            Clan::Gangrel => &[Discipline::Animalism, Discipline::Protean, Discipline::Resilience],
            Clan::Mekhet => &[Discipline::Auspex, Discipline::Celerity, Discipline::Obfuscate],
            Clan::Nosferatu => &[Discipline::Nightmare, Discipline::Obfuscate, Discipline::Vigor],
            Clan::Ventrue => &[Discipline::Animalism, Discipline::Dominate, Discipline::Resilience],
            Clan::_Custom(_, disciplines, _) => disciplines,
        }
    }

    pub fn get_favored_attributes(&self) -> (r: &[Attribute; 2])
        ensures
            r@ == self.favored_attributes_spec(),
    {
        match self {
            Clan::Daeva => &[Attribute::Dexterity, Attribute::Manipulation],
            Clan::Gangrel => &[Attribute::Composure, Attribute::Stamina],
            Clan::Mekhet => &[Attribute::Intelligence, Attribute::Wits],
            Clan::Nosferatu => &[Attribute::Composure, Attribute::Strength],
            Clan::Ventrue => &[Attribute::Presence, Attribute::Resolve],
            Clan::_Custom(_, _, attributes) => attributes,
        }
    }

    pub open spec fn name_view(self) -> Seq<char> {
        match self {
            Clan::Daeva => "daeva"@,
            Clan::Gangrel => "gangrel"@,
            Clan::Mekhet => "mekhet"@,
            Clan::Nosferatu => "nosferatu"@,
            Clan::Ventrue => "ventrue"@,
            Clan::_Custom(name, ..) => name@,
        }
    }

    pub fn name(&self) -> (r: &str)
        ensures
            r@ == self.name_view(),
    {
        match self {
            Clan::Daeva => "daeva",
            Clan::Gangrel => "gangrel",
            Clan::Mekhet => "mekhet",
            Clan::Nosferatu => "nosferatu",
            Clan::Ventrue => "ventrue",
            Clan::_Custom(name, ..) => name.as_str(),
        }
    }

    pub open spec fn all_spec() -> Seq<Self> {
        seq![Clan::Daeva, Clan::Gangrel, Clan::Mekhet, Clan::Nosferatu, Clan::Ventrue]
    }

    pub fn all() -> (r: [Clan; 5])
        ensures
            r@ == Self::all_spec(),
    {
        let r = [Clan::Daeva, Clan::Gangrel, Clan::Mekhet, Clan::Nosferatu, Clan::Ventrue];
        assert(r@ =~= Self::all_spec());
        r
    }
}

impl From<Clan> for XSplat {
    fn from(val: Clan) -> (r: Self) {
        XSplat::Vampire(val)
    }
}

impl vstd::std_specs::convert::FromSpecImpl<Clan> for XSplat {
    open spec fn obeys_from_spec() -> bool {
        true
    }

    open spec fn from_spec(v: Clan) -> Self {
        XSplat::Vampire(v)
    }
}

#[derive(Debug)]
pub enum Covenant {
    CarthianMovement,
    CircleOfTheCrone,
    Invictus,
    LanceaEtSanctum,
    OrdoDracul,
    _Custom(String),
}

impl Clone for Covenant {
    fn clone(&self) -> (r: Self)
        ensures
            r == *self,
    {
        match self {
            Covenant::CarthianMovement => Covenant::CarthianMovement,
            Covenant::CircleOfTheCrone => Covenant::CircleOfTheCrone,
            Covenant::Invictus => Covenant::Invictus,
            Covenant::LanceaEtSanctum => Covenant::LanceaEtSanctum,
            Covenant::OrdoDracul => Covenant::OrdoDracul,
            Covenant::_Custom(s) => Covenant::_Custom(s.clone()),
        }
    }
}

impl Covenant {
    pub open spec fn name_view(self) -> Seq<char> {
        match self {
            Covenant::CarthianMovement => "carthian_movement"@,
            Covenant::CircleOfTheCrone => "circle_of_the_crone"@,
            Covenant::Invictus => "invictus"@,
            Covenant::LanceaEtSanctum => "lancea_et_sanctum"@,
            Covenant::OrdoDracul => "ordo_dracul"@,
            Covenant::_Custom(s) => s@,
        }
    }

    pub fn name(&self) -> (r: &str)
        ensures
            r@ == self.name_view(),
    {
        match self {
            Covenant::CarthianMovement => "carthian_movement",
            Covenant::CircleOfTheCrone => "circle_of_the_crone",
            Covenant::Invictus => "invictus",
            Covenant::LanceaEtSanctum => "lancea_et_sanctum",
            Covenant::OrdoDracul => "ordo_dracul",
            Covenant::_Custom(s) => s.as_str(),
        }
    }

    pub open spec fn all_spec() -> Seq<Self> {
        seq![
                    Covenant::CarthianMovement,
                    Covenant::CircleOfTheCrone,
                    Covenant::Invictus,
                    Covenant::LanceaEtSanctum,
                    Covenant::OrdoDracul,
                ]
    }

    pub fn all() -> (r: [Covenant; 5])
        ensures
            r@ == Self::all_spec(),
    {
        let r = [
            Covenant::CarthianMovement,
            Covenant::CircleOfTheCrone,
            Covenant::Invictus,
            Covenant::LanceaEtSanctum,
            Covenant::OrdoDracul,
        ];
        assert(r@ =~= seq![
            Covenant::CarthianMovement,
            Covenant::CircleOfTheCrone,
            Covenant::Invictus,
            Covenant::LanceaEtSanctum,
            Covenant::OrdoDracul,
        ]);
        r
    }
}

impl From<Covenant> for YSplat {
    fn from(val: Covenant) -> (r: Self) {
        YSplat::Vampire(val)
    }
}

impl vstd::std_specs::convert::FromSpecImpl<Covenant> for YSplat {
    open spec fn obeys_from_spec() -> bool {
        true
    }

    open spec fn from_spec(v: Covenant) -> Self {
        YSplat::Vampire(v)
    }
}

#[derive(Debug)]
pub enum Bloodline {
    _Custom(String, Option<[Discipline; 4]>),
}

impl Clone for Bloodline {
    fn clone(&self) -> (r: Self)
        ensures
            r == *self,
    {
        match self {
            Bloodline::_Custom(name, disciplines) => {
                let d = match disciplines {
                    Some(d) => {
                        let c = [d[0].clone(), d[1].clone(), d[2].clone(), d[3].clone()];
                        assert(c =~= *d);
                        Some(c)
                    },
                    None => None,
                };
                Bloodline::_Custom(name.clone(), d)
            },
        }
    }
}

impl Bloodline {
    pub open spec fn name_view(self) -> Seq<char> {
        match self {
            Bloodline::_Custom(s, _) => s@,
        }
    }

    pub fn name(&self) -> (r: &str)
        ensures
            r@ == self.name_view(),
    {
        match self {
            Bloodline::_Custom(s, _) => s.as_str(),
        }
    }
}

impl From<Bloodline> for ZSplat {
    fn from(val: Bloodline) -> (r: Self) {
        ZSplat::Vampire(val)
    }
}

impl vstd::std_specs::convert::FromSpecImpl<Bloodline> for ZSplat {
    open spec fn obeys_from_spec() -> bool {
        true
    }

    open spec fn from_spec(v: Bloodline) -> Self {
        ZSplat::Vampire(v)
    }
}

#[derive(Debug, Hash)]
pub enum Discipline {
    Animalism,
    Auspex,
    Celerity,
    Dominate,
    Majesty,
    Nightmare,
    Obfuscate,
    Protean,
    Resilience,
    Vigor,
    _Custom(String),
}

impl Clone for Discipline {
    fn clone(&self) -> (r: Self)
        ensures
            r == *self,
    {
        match self {
            Discipline::Animalism => Discipline::Animalism,
            Discipline::Auspex => Discipline::Auspex,
            Discipline::Celerity => Discipline::Celerity,
            Discipline::Dominate => Discipline::Dominate,
            Discipline::Majesty => Discipline::Majesty,
            Discipline::Nightmare => Discipline::Nightmare,
            Discipline::Obfuscate => Discipline::Obfuscate,
            Discipline::Protean => Discipline::Protean,
            Discipline::Resilience => Discipline::Resilience,
            Discipline::Vigor => Discipline::Vigor,
            Discipline::_Custom(s) => Discipline::_Custom(s.clone()),
        }
    }
}

impl PartialEq for Discipline {
    fn eq(&self, other: &Self) -> (r: bool) {
        match self {
            Discipline::_Custom(a) => match other {
                Discipline::_Custom(b) => *a == *b,
                _ => false,
            },
            _ => match other {
                Discipline::_Custom(_) => false,
                _ => self.tag() == other.tag(),
            },
        }
    }
}

impl vstd::std_specs::cmp::PartialEqSpecImpl for Discipline {
    open spec fn obeys_eq_spec() -> bool {
        true
    }

    open spec fn eq_spec(&self, other: &Discipline) -> bool {
        self.same(*other)
    }
}

impl Eq for Discipline {

}

impl Discipline {
    /// A number for each variant.
    pub open spec fn tag_spec(self) -> u8 {
        match self {
            Discipline::Animalism => 0,
            Discipline::Auspex => 1,
            Discipline::Celerity => 2,
            Discipline::Dominate => 3,
            Discipline::Majesty => 4,
            Discipline::Nightmare => 5,
            Discipline::Obfuscate => 6,
            Discipline::Protean => 7,
            Discipline::Resilience => 8,
            Discipline::Vigor => 9,
            Discipline::_Custom(_) => 10,
        }
    }

    fn tag(&self) -> (r: u8)
        ensures
            r == self.tag_spec(),
    {
        match self {
            Discipline::Animalism => 0,
            Discipline::Auspex => 1,
            Discipline::Celerity => 2,
            Discipline::Dominate => 3,
            Discipline::Majesty => 4,
            Discipline::Nightmare => 5,
            Discipline::Obfuscate => 6,
            Discipline::Protean => 7,
            Discipline::Resilience => 8,
            Discipline::Vigor => 9,
            Discipline::_Custom(_) => 10,
        }
    }

    /// Disciplines are told apart by variant, and custom ones by the text of their name.
    pub open spec fn same(self, other: Discipline) -> bool {
        match (self, other) {
            (Discipline::_Custom(a), Discipline::_Custom(b)) => a@ == b@,
            _ => self.tag_spec() == other.tag_spec(),
        }
    }

    /// Celerity adds its dots to Defense, Resilience to Stamina and Vigor to Strength.
    pub open spec fn modifiers_spec(self, value: u16) -> Seq<Modifier> {
        match self {
            Discipline::Celerity => seq![
                Modifier {
                    target: ModifierTarget::Trait(Trait::Defense),
                    value: ModifierValue::Num(value as i16),
                    op: ModifierOp::Add,
                    condition: None,
                },
            ],
            Discipline::Resilience => seq![
                Modifier {
                    target: ModifierTarget::Attribute(Attribute::Stamina),
                    value: ModifierValue::Num(value as i16),
                    op: ModifierOp::Add,
                    condition: None,
                },
            ],
            Discipline::Vigor => seq![
                Modifier {
                    target: ModifierTarget::Attribute(Attribute::Strength),
                    value: ModifierValue::Num(value as i16),
                    op: ModifierOp::Add,
                    condition: None,
                },
            ],
            _ => seq![],
        }
    }

    pub fn get_modifiers(&self, value: u16) -> (r: Vec<Modifier>)
        ensures
            r@ == self.modifiers_spec(value),
    {
        let r = match self {
            Discipline::Celerity => vec![
                Modifier::new(ModifierTarget::Trait(Trait::Defense), ModifierValue::from(value), ModifierOp::Add),
            ],
            Discipline::Resilience => vec![
                Modifier::new(
                    ModifierTarget::Attribute(Attribute::Stamina),
                    ModifierValue::from(value),
                    ModifierOp::Add,
                ),
            ],
            Discipline::Vigor => vec![
                Modifier::new(
                    ModifierTarget::Attribute(Attribute::Strength),
                    ModifierValue::from(value),
                    ModifierOp::Add,
                ),
            ],
            _ => vec![],
        };
        assert(r@ =~= self.modifiers_spec(value));
        r
    }

    pub open spec fn name_view(self) -> Seq<char> {
        match self {
            Discipline::Animalism => "animalism"@,
            Discipline::Auspex => "auspex"@,
            Discipline::Celerity => "celerity"@,
            Discipline::Dominate => "dominate"@,
            Discipline::Majesty => "majesty"@,
            Discipline::Nightmare => "nightmare"@,
            Discipline::Obfuscate => "obfuscate"@,
            Discipline::Protean => "protean"@,
            Discipline::Resilience => "resilience"@,
            Discipline::Vigor => "vigor"@,
            Discipline::_Custom(s) => s@,
        }
    }

    pub fn name(&self) -> (r: &str)
        ensures
            r@ == self.name_view(),
    {
        match self {
            Discipline::Animalism => "animalism",
            Discipline::Auspex => "auspex",
            Discipline::Celerity => "celerity",
            Discipline::Dominate => "dominate",
            Discipline::Majesty => "majesty",
            Discipline::Nightmare => "nightmare",
            Discipline::Obfuscate => "obfuscate",
            Discipline::Protean => "protean",
            Discipline::Resilience => "resilience",
            Discipline::Vigor => "vigor",
            Discipline::_Custom(s) => s.as_str(),
        }
    }

    /// The ten standard disciplines.
    pub open spec fn all_spec() -> Seq<Discipline> {
        seq![
            Discipline::Animalism,
            Discipline::Auspex,
            Discipline::Celerity,
            Discipline::Dominate,
            Discipline::Majesty,
            Discipline::Nightmare,
            Discipline::Obfuscate,
            Discipline::Protean,
            Discipline::Resilience,
            Discipline::Vigor,
        ]
    }

    pub fn all() -> (r: [Discipline; 10])
        ensures
            r@ == Self::all_spec(),
    {
        let r = [
            Discipline::Animalism,
            Discipline::Auspex,
            Discipline::Celerity,
            Discipline::Dominate,
            Discipline::Majesty,
            Discipline::Nightmare,
            Discipline::Obfuscate,
            Discipline::Protean,
            Discipline::Resilience,
            Discipline::Vigor,
        ];
        assert(r@ =~= Self::all_spec());
        r
    }
}

impl From<Discipline> for Ability {
    fn from(val: Discipline) -> (r: Self) {
        Ability::Discipline(val)
    }
}

impl vstd::std_specs::convert::FromSpecImpl<Discipline> for Ability {
    open spec fn obeys_from_spec() -> bool {
        true
    }

    open spec fn from_spec(v: Discipline) -> Self {
        Ability::Discipline(v)
    }
}

/// The archetypes from which a vampire's Mask and Dirge are chosen.
pub enum MaskDirge {
    Authoritarian,
    Child,
    Competitor,
    Conformist,
    Conspirator,
    Courtesan,
    CultLeader,
    Deviant,
    Follower,
    Guru,
    Idealist,
    Jester,
    Junkie,
    Martyr,
    Masochist,
    Monster,
    Nomad,
    Nurturer,
    Perfectionist,
    Penitent,
    Questioner,
    Rebel,
    Scholar,
    SocialChameleon,
    Spy,
    Survivor,
    Visionary,
    _Custom(String),
}

#[derive(Debug, Hash)]
pub enum VampireMerit {
    AcuteSenses,
    Atrocious,
    Bloodhound,
    ClawsOfTheUnholy,
    CloseFamily,
    Cutthroat,
    DistinguishedPalate,
    DreamVisions,
    Enticing,
    FeedingGrounds(String),
    Herd,
    HoneyTrap,
    KindredStatus(String),
    KissOfTheSuccubus,
    Lineage(String),
    LingeringDreams,
    PackAlpha,
    SwarmForm,
    Touchstone,
    UndeadMenses,
    UnnaturalAffinity,
    UnsettlingGaze,
    CacophonySavvy,
    Courtoisie,
    Crusade,
    DynastyMembership,
    KindredDueling,
    MobilizeOutrage,
    RidingTheWave,
    RitesOfTheImpaled,
    TempleGuardian,
    IndependentStudy,
    SecretSocietyJunkie,
    Sworn(String),
    TwilightJudge,
    NestGuardian,
}

impl VampireMerit {
    /// A number for each variant.
    pub open spec fn tag_spec(self) -> u8 {
        match self {
            VampireMerit::AcuteSenses => 0,
            VampireMerit::Atrocious => 1,
            VampireMerit::Bloodhound => 2,
            VampireMerit::ClawsOfTheUnholy => 3,
            VampireMerit::CloseFamily => 4,
            VampireMerit::Cutthroat => 5,
            VampireMerit::DistinguishedPalate => 6,
            VampireMerit::DreamVisions => 7,
            VampireMerit::Enticing => 8,
            VampireMerit::FeedingGrounds(_) => 9,
            VampireMerit::Herd => 10,
            VampireMerit::HoneyTrap => 11,
            VampireMerit::KindredStatus(_) => 12,
            VampireMerit::KissOfTheSuccubus => 13,
            VampireMerit::Lineage(_) => 14,
            VampireMerit::LingeringDreams => 15,
            VampireMerit::PackAlpha => 16,
            VampireMerit::SwarmForm => 17,
            VampireMerit::Touchstone => 18,
            VampireMerit::UndeadMenses => 19,
            VampireMerit::UnnaturalAffinity => 20,
            VampireMerit::UnsettlingGaze => 21,
            VampireMerit::CacophonySavvy => 22,
            VampireMerit::Courtoisie => 23,
            VampireMerit::Crusade => 24,
            VampireMerit::DynastyMembership => 25,
            VampireMerit::KindredDueling => 26,
            VampireMerit::MobilizeOutrage => 27,
            VampireMerit::RidingTheWave => 28,
            VampireMerit::RitesOfTheImpaled => 29,
            VampireMerit::TempleGuardian => 30,
            VampireMerit::IndependentStudy => 31,
            VampireMerit::SecretSocietyJunkie => 32,
            VampireMerit::Sworn(_) => 33,
            VampireMerit::TwilightJudge => 34,
            VampireMerit::NestGuardian => 35,
        }
    }

    fn tag(&self) -> (r: u8)
        ensures
            r == self.tag_spec(),
    {
        match self {
            VampireMerit::AcuteSenses => 0,
            VampireMerit::Atrocious => 1,
            VampireMerit::Bloodhound => 2,
            VampireMerit::ClawsOfTheUnholy => 3,
            VampireMerit::CloseFamily => 4,
            VampireMerit::Cutthroat => 5,
            VampireMerit::DistinguishedPalate => 6,
            VampireMerit::DreamVisions => 7,
            VampireMerit::Enticing => 8,
            VampireMerit::FeedingGrounds(_) => 9,
            VampireMerit::Herd => 10,
            VampireMerit::HoneyTrap => 11,
            VampireMerit::KindredStatus(_) => 12,
            VampireMerit::KissOfTheSuccubus => 13,
            VampireMerit::Lineage(_) => 14,
            VampireMerit::LingeringDreams => 15,
            VampireMerit::PackAlpha => 16,
            VampireMerit::SwarmForm => 17,
            VampireMerit::Touchstone => 18,
            VampireMerit::UndeadMenses => 19,
            VampireMerit::UnnaturalAffinity => 20,
            VampireMerit::UnsettlingGaze => 21,
            VampireMerit::CacophonySavvy => 22,
            VampireMerit::Courtoisie => 23,
            VampireMerit::Crusade => 24,
            VampireMerit::DynastyMembership => 25,
            VampireMerit::KindredDueling => 26,
            VampireMerit::MobilizeOutrage => 27,
            VampireMerit::RidingTheWave => 28,
            VampireMerit::RitesOfTheImpaled => 29,
            VampireMerit::TempleGuardian => 30,
            VampireMerit::IndependentStudy => 31,
            VampireMerit::SecretSocietyJunkie => 32,
            VampireMerit::Sworn(_) => 33,
            VampireMerit::TwilightJudge => 34,
            VampireMerit::NestGuardian => 35,
        }
    }

    /// Merits are told apart by variant, and by the text of the name that some of them carry.
    pub open spec fn same(self, other: VampireMerit) -> bool {
        match (self, other) {
            (VampireMerit::FeedingGrounds(a), VampireMerit::FeedingGrounds(b)) => a@ == b@,
            (VampireMerit::KindredStatus(a), VampireMerit::KindredStatus(b)) => a@ == b@,
            (VampireMerit::Lineage(a), VampireMerit::Lineage(b)) => a@ == b@,
            (VampireMerit::Sworn(a), VampireMerit::Sworn(b)) => a@ == b@,
            _ => self.tag_spec() == other.tag_spec(),
        }
    }

    /// Vampire merits can be taken by vampires only.
    pub fn is_available(&self, character: &Character) -> (r: bool)
        ensures
            r == (character.splat is Vampire),
    {
        matches!(character.splat, Splat::Vampire(..))
    }

    /// The name carried by the merits that have one; empty for the others.
    pub open spec fn payload_view(self) -> Seq<char> {
        match self {
            VampireMerit::FeedingGrounds(s) => s@,
            VampireMerit::KindredStatus(s) => s@,
            VampireMerit::Lineage(s) => s@,
            VampireMerit::Sworn(s) => s@,
            _ => Seq::empty(),
        }
    }

    /// Every vampire merit, in declaration order, those that carry a name with an empty one.
    pub fn all() -> (r: [VampireMerit; 36])
        ensures
            forall|i: int| 0 <= i < 36 ==> (#[trigger] r@[i]).tag_spec() == i && r@[i].payload_view().len() == 0,
    {
        let r = [
            VampireMerit::AcuteSenses,
            VampireMerit::Atrocious,
            VampireMerit::Bloodhound,
            VampireMerit::ClawsOfTheUnholy,
            VampireMerit::CloseFamily,
            VampireMerit::Cutthroat,
            VampireMerit::DistinguishedPalate,
            VampireMerit::DreamVisions,
            VampireMerit::Enticing,
            VampireMerit::FeedingGrounds(String::new()),
            VampireMerit::Herd,
            VampireMerit::HoneyTrap,
            VampireMerit::KindredStatus(String::new()),
            VampireMerit::KissOfTheSuccubus,
            VampireMerit::Lineage(String::new()),
            VampireMerit::LingeringDreams,
            VampireMerit::PackAlpha,
            VampireMerit::SwarmForm,
            VampireMerit::Touchstone,
            VampireMerit::UndeadMenses,
            VampireMerit::UnnaturalAffinity,
            VampireMerit::UnsettlingGaze,
            VampireMerit::CacophonySavvy,
            VampireMerit::Courtoisie,
            VampireMerit::Crusade,
            VampireMerit::DynastyMembership,
            VampireMerit::KindredDueling,
            VampireMerit::MobilizeOutrage,
            VampireMerit::RidingTheWave,
            VampireMerit::RitesOfTheImpaled,
            VampireMerit::TempleGuardian,
            VampireMerit::IndependentStudy,
            VampireMerit::SecretSocietyJunkie,
            VampireMerit::Sworn(String::new()),
            VampireMerit::TwilightJudge,
            VampireMerit::NestGuardian,
        ];
        r
    }

    pub open spec fn name_view(self) -> Seq<char> {
        match self {
            VampireMerit::AcuteSenses => "acute_senses"@,
            VampireMerit::Atrocious => "atrocious"@,
            VampireMerit::Bloodhound => "bloodhound"@,
            VampireMerit::ClawsOfTheUnholy => "claws_of_the_unholy"@,
            VampireMerit::CloseFamily => "close_family"@,
            VampireMerit::Cutthroat => "cutthroat"@,
            VampireMerit::DistinguishedPalate => "distinguished_palate"@,
            VampireMerit::DreamVisions => "dream_visions"@,
            VampireMerit::Enticing => "enticing"@,
            VampireMerit::FeedingGrounds(_) => "feeding_grounds"@,
            VampireMerit::Herd => "herd"@,
            VampireMerit::HoneyTrap => "honey_trap"@,
            VampireMerit::KindredStatus(_) => "kindred_status"@,
            VampireMerit::KissOfTheSuccubus => "kiss_of_the_succubus"@,
            VampireMerit::Lineage(_) => "lineage"@,
            VampireMerit::LingeringDreams => "lingering_dreams"@,
            VampireMerit::PackAlpha => "pack_alpha"@,
            VampireMerit::SwarmForm => "swarm_form"@,
            VampireMerit::Touchstone => "touchstone"@,
            VampireMerit::UndeadMenses => "undead_menses"@,
            VampireMerit::UnnaturalAffinity => "unnatural_affinity"@,
            VampireMerit::UnsettlingGaze => "unsettling_gaze"@,
            VampireMerit::CacophonySavvy => "cacophony_savvy"@,
            VampireMerit::Courtoisie => "courtoisie"@,
            VampireMerit::Crusade => "crusade"@,
            VampireMerit::DynastyMembership => "dynasty_membership"@,
            VampireMerit::KindredDueling => "kindred_dueling"@,
            VampireMerit::MobilizeOutrage => "mobilize_outrage"@,
            VampireMerit::RidingTheWave => "riding_the_wave"@,
            VampireMerit::RitesOfTheImpaled => "rites_of_the_impaled"@,
            VampireMerit::TempleGuardian => "temple_guardian"@,
            VampireMerit::IndependentStudy => "independent_study"@,
            VampireMerit::SecretSocietyJunkie => "secret_society_junkie"@,
            VampireMerit::Sworn(_) => "sworn"@,
            VampireMerit::TwilightJudge => "twilight_judge"@,
            VampireMerit::NestGuardian => "nest_guardian"@,
        }
    }

    pub fn name(&self) -> (r: &'static str)
        ensures
            r@ == self.name_view(),
    {
        match self {
            VampireMerit::AcuteSenses => "acute_senses",
            VampireMerit::Atrocious => "atrocious",
            VampireMerit::Bloodhound => "bloodhound",
            VampireMerit::ClawsOfTheUnholy => "claws_of_the_unholy",
            VampireMerit::CloseFamily => "close_family",
            VampireMerit::Cutthroat => "cutthroat",
            VampireMerit::DistinguishedPalate => "distinguished_palate",
            VampireMerit::DreamVisions => "dream_visions",
            VampireMerit::Enticing => "enticing",
            VampireMerit::FeedingGrounds(_) => "feeding_grounds",
            VampireMerit::Herd => "herd",
            VampireMerit::HoneyTrap => "honey_trap",
            VampireMerit::KindredStatus(_) => "kindred_status",
            VampireMerit::KissOfTheSuccubus => "kiss_of_the_succubus",
            VampireMerit::Lineage(_) => "lineage",
            VampireMerit::LingeringDreams => "lingering_dreams",
            VampireMerit::PackAlpha => "pack_alpha",
            VampireMerit::SwarmForm => "swarm_form",
            VampireMerit::Touchstone => "touchstone",
            VampireMerit::UndeadMenses => "undead_menses",
            VampireMerit::UnnaturalAffinity => "unnatural_affinity",
            VampireMerit::UnsettlingGaze => "unsettling_gaze",
            VampireMerit::CacophonySavvy => "cacophony_savvy",
            VampireMerit::Courtoisie => "courtoisie",
            VampireMerit::Crusade => "crusade",
            VampireMerit::DynastyMembership => "dynasty_membership",
            VampireMerit::KindredDueling => "kindred_dueling",
            VampireMerit::MobilizeOutrage => "mobilize_outrage",
            VampireMerit::RidingTheWave => "riding_the_wave",
            VampireMerit::RitesOfTheImpaled => "rites_of_the_impaled",
            VampireMerit::TempleGuardian => "temple_guardian",
            VampireMerit::IndependentStudy => "independent_study",
            VampireMerit::SecretSocietyJunkie => "secret_society_junkie",
            VampireMerit::Sworn(_) => "sworn",
            VampireMerit::TwilightJudge => "twilight_judge",
            VampireMerit::NestGuardian => "nest_guardian",
        }
    }
}

impl Clone for VampireMerit {
    fn clone(&self) -> (r: Self)
        ensures
            r == *self,
    {
        match self {
            VampireMerit::AcuteSenses => VampireMerit::AcuteSenses,
            VampireMerit::Atrocious => VampireMerit::Atrocious,
            VampireMerit::Bloodhound => VampireMerit::Bloodhound,
            VampireMerit::ClawsOfTheUnholy => VampireMerit::ClawsOfTheUnholy,
            VampireMerit::CloseFamily => VampireMerit::CloseFamily,
            VampireMerit::Cutthroat => VampireMerit::Cutthroat,
            VampireMerit::DistinguishedPalate => VampireMerit::DistinguishedPalate,
            VampireMerit::DreamVisions => VampireMerit::DreamVisions,
            VampireMerit::Enticing => VampireMerit::Enticing,
            VampireMerit::FeedingGrounds(s) => VampireMerit::FeedingGrounds(s.clone()),
            VampireMerit::Herd => VampireMerit::Herd,
            VampireMerit::HoneyTrap => VampireMerit::HoneyTrap,
            VampireMerit::KindredStatus(s) => VampireMerit::KindredStatus(s.clone()),
            VampireMerit::KissOfTheSuccubus => VampireMerit::KissOfTheSuccubus,
            VampireMerit::Lineage(s) => VampireMerit::Lineage(s.clone()),
            VampireMerit::LingeringDreams => VampireMerit::LingeringDreams,
            VampireMerit::PackAlpha => VampireMerit::PackAlpha,
            VampireMerit::SwarmForm => VampireMerit::SwarmForm,
            VampireMerit::Touchstone => VampireMerit::Touchstone,
            VampireMerit::UndeadMenses => VampireMerit::UndeadMenses,
            VampireMerit::UnnaturalAffinity => VampireMerit::UnnaturalAffinity,
            VampireMerit::UnsettlingGaze => VampireMerit::UnsettlingGaze,
            VampireMerit::CacophonySavvy => VampireMerit::CacophonySavvy,
            VampireMerit::Courtoisie => VampireMerit::Courtoisie,
            VampireMerit::Crusade => VampireMerit::Crusade,
            VampireMerit::DynastyMembership => VampireMerit::DynastyMembership,
            VampireMerit::KindredDueling => VampireMerit::KindredDueling,
            VampireMerit::MobilizeOutrage => VampireMerit::MobilizeOutrage,
            VampireMerit::RidingTheWave => VampireMerit::RidingTheWave,
            VampireMerit::RitesOfTheImpaled => VampireMerit::RitesOfTheImpaled,
            VampireMerit::TempleGuardian => VampireMerit::TempleGuardian,
            VampireMerit::IndependentStudy => VampireMerit::IndependentStudy,
            VampireMerit::SecretSocietyJunkie => VampireMerit::SecretSocietyJunkie,
            VampireMerit::Sworn(s) => VampireMerit::Sworn(s.clone()),
            VampireMerit::TwilightJudge => VampireMerit::TwilightJudge,
            VampireMerit::NestGuardian => VampireMerit::NestGuardian,
        }
    }
}

impl PartialEq for VampireMerit {
    fn eq(&self, other: &Self) -> (r: bool) {
        match self {
            VampireMerit::FeedingGrounds(a) => match other {
                VampireMerit::FeedingGrounds(b) => *a == *b,
                _ => false,
            },
            VampireMerit::KindredStatus(a) => match other {
                VampireMerit::KindredStatus(b) => *a == *b,
                _ => false,
            },
            VampireMerit::Sworn(a) => match other {
                VampireMerit::Sworn(b) => *a == *b,
                _ => false,
            },
            VampireMerit::Lineage(a) => match other {
                VampireMerit::Lineage(b) => *a == *b,
                _ => false,
            },
            _ => self.tag() == other.tag(),
        }
    }
}

impl vstd::std_specs::cmp::PartialEqSpecImpl for VampireMerit {
    open spec fn obeys_eq_spec() -> bool {
        true
    }

    open spec fn eq_spec(&self, other: &VampireMerit) -> bool {
        self.same(*other)
    }
}

impl Eq for VampireMerit {

}

impl From<VampireMerit> for Merit {
    fn from(merit: VampireMerit) -> (r: Self) {
        Merit::Vampire(merit)
    }
}

impl vstd::std_specs::convert::FromSpecImpl<VampireMerit> for Merit {
    open spec fn obeys_from_spec() -> bool {
        true
    }

    open spec fn from_spec(v: VampireMerit) -> Self {
        Merit::Vampire(v)
    }
}

/// A power that draws on several disciplines at once.
#[derive(Debug)]
pub struct Devotion {
    name: String,
    cost: String,
    disciplines: Vec<(Discipline, u16)>,
    dice_pool: DicePool,
    book: String,
    page: u16,
}

} // verus!
