use vstd::prelude::*;

use crate::character::modifier::{Modifier, ModifierOp, ModifierTarget, ModifierValue};
use crate::character::traits::{Attribute, Skill, Trait};
use crate::character::Character;

use super::ability::Ability;
use super::{Merit, Splat, XSplat, YSplat, ZSplat};

verus! {

broadcast use vstd::array::group_array_axioms;

/// The three kinds of trigger that can send a werewolf into Death Rage.
#[derive(Debug)]
pub struct KuruthTriggerSet {
    pub passive: String,
    pub common: String,
    pub specific: String,
}

impl Default for KuruthTriggerSet {
    /// Three empty triggers.
    fn default() -> (r: Self)
        ensures
            r.passive@.len() == 0,
            r.common@.len() == 0,
            r.specific@.len() == 0,
    {
        KuruthTriggerSet { passive: String::new(), common: String::new(), specific: String::new() }
    }
}

impl Clone for KuruthTriggerSet {
    fn clone(&self) -> (r: Self)
        ensures
            r == *self,
    {
        KuruthTriggerSet {
            passive: self.passive.clone(),
            common: self.common.clone(),
            specific: self.specific.clone(),
        }
    }
}

#[derive(Clone, Copy, Debug, PartialEq, Eq, Structural)]
pub enum KuruthTrigger {
    Passive,
    Common,
    Specific,
}

impl KuruthTrigger {
    pub fn all(&self) -> (r: [KuruthTrigger; 3])
        ensures
            r@ == seq![KuruthTrigger::Passive, KuruthTrigger::Common, KuruthTrigger::Specific],
    {
        [Self::Passive, Self::Common, Self::Specific]
    }

    pub fn name(&self) -> (r: &'static str)
        ensures
            r@ == (match self {
                KuruthTrigger::Passive => "passive"@,
                KuruthTrigger::Common => "common"@,
                KuruthTrigger::Specific => "specific"@,
            }),
    {
        match self {
            KuruthTrigger::Passive => "passive",
            KuruthTrigger::Common => "common",
            KuruthTrigger::Specific => "specific",
        }
    }
}

/// A werewolf's Kuruth triggers: one of the standard sets, or a custom one.
#[derive(Debug)]
pub enum KuruthTriggers {
    Blood,
    Moon,
    TheOther,
    Pack,
    Territory,
    Wound,
    _Custom(KuruthTriggerSet),
}

impl Default for KuruthTriggers {
    fn default() -> (r: Self)
        ensures
            r matches KuruthTriggers::_Custom(set) && set.passive@.len() == 0
                && set.common@.len() == 0 && set.specific@.len() == 0,
    {
        KuruthTriggers::_Custom(KuruthTriggerSet {
            passive: String::new(),
            common: String::new(),
            specific: String::new(),
        })
    }
}

impl Clone for KuruthTriggers {
    fn clone(&self) -> (r: Self)
        ensures
            r == *self,
    {
        match self {
            KuruthTriggers::Blood => KuruthTriggers::Blood,
            KuruthTriggers::Moon => KuruthTriggers::Moon,
            KuruthTriggers::TheOther => KuruthTriggers::TheOther,
            KuruthTriggers::Pack => KuruthTriggers::Pack,
            KuruthTriggers::Territory => KuruthTriggers::Territory,
            KuruthTriggers::Wound => KuruthTriggers::Wound,
            KuruthTriggers::_Custom(set) => KuruthTriggers::_Custom(set.clone()),
        }
    }
}

/// The passive, common and specific triggers of a standard set, in that order.
pub open spec fn standard_triggers(t: KuruthTriggers) -> (Seq<char>, Seq<char>, Seq<char>) {
    match t {
        KuruthTriggers::Blood => (
            "Smelling human blood."@,
            "Tasting human blood."@,
            "Swallowing human blood."@,
        ),
        KuruthTriggers::Moon => (
            "Your auspice moon is in the sky."@,
            "You witness your auspice moon in the sky."@,
            "Hear a wolf or werewolf howl when your auspice moon is in the sky."@,
        ),
        KuruthTriggers::TheOther => (
            "You come within 10 yards of a supernatural creature."@,
            "You witness a supernatural creature doing something obviously inhuman."@,
            "You are the target of a supernatural power."@,
        ),
        KuruthTriggers::Pack => (
            "A pack member takes lethal damage."@,
            "Seeing someone attack a pack member."@,
            "You cause lethal damage to a pack member."@,
        ),
        KuruthTriggers::Territory => (
            "A werewolf you don't know enters your territory without permission."@,
            "You see a werewolf you don't know in your territory."@,
            "A werewolf you don't know challenges your pack's ability to do its duty."@,
        ),
        KuruthTriggers::Wound => (
            "Being in the area of a Wound."@,
            "Interacting with a Wound-born spirit."@,
            "Being attacked by a Wound-born spirit."@,
        ),
        KuruthTriggers::_Custom(set) => (set.passive@, set.common@, set.specific@),
    }
}

/// Each standard set of Kuruth triggers holds three triggers, none of them empty and no
/// two alike; a custom set is read back as it was given.
pub proof fn lemma_standard_triggers(t: KuruthTriggers)
    ensures
        t matches KuruthTriggers::_Custom(set) ==> standard_triggers(t) == (set.passive@, set.common@, set.specific@),
        !(t is _Custom) ==> ({
            let (p, c, s) = standard_triggers(t);
            &&& p.len() > 0 && c.len() > 0 && s.len() > 0
            &&& p != c && c != s && p != s
        }),
{
    reveal_strlit("Smelling human blood.");
    reveal_strlit("Tasting human blood.");
    reveal_strlit("Swallowing human blood.");
    reveal_strlit("Your auspice moon is in the sky.");
    reveal_strlit("You witness your auspice moon in the sky.");
    reveal_strlit("Hear a wolf or werewolf howl when your auspice moon is in the sky.");
    reveal_strlit("You come within 10 yards of a supernatural creature.");
    reveal_strlit("You witness a supernatural creature doing something obviously inhuman.");
    reveal_strlit("You are the target of a supernatural power.");
    reveal_strlit("A pack member takes lethal damage.");
    reveal_strlit("Seeing someone attack a pack member.");
    reveal_strlit("You cause lethal damage to a pack member.");
    reveal_strlit("A werewolf you don't know enters your territory without permission.");
    reveal_strlit("You see a werewolf you don't know in your territory.");
    reveal_strlit("A werewolf you don't know challenges your pack's ability to do its duty.");
    reveal_strlit("Being in the area of a Wound.");
    reveal_strlit("Interacting with a Wound-born spirit.");
    reveal_strlit("Being attacked by a Wound-born spirit.");
}

impl KuruthTriggers {
    pub open spec fn all_spec() -> Seq<Self> {
        seq![
                    KuruthTriggers::Blood,
                    KuruthTriggers::Moon,
                    KuruthTriggers::TheOther,
                    KuruthTriggers::Pack,
                    KuruthTriggers::Territory,
                    KuruthTriggers::Wound,
                ]
    }

    pub fn all() -> (r: [KuruthTriggers; 6])
        ensures
            r@ == Self::all_spec(),
    {
        let r = [
            KuruthTriggers::Blood,
            KuruthTriggers::Moon,
            KuruthTriggers::TheOther,
            KuruthTriggers::Pack,
            KuruthTriggers::Territory,
            KuruthTriggers::Wound,
        ];
        assert(r@ =~= seq![
            KuruthTriggers::Blood,
            KuruthTriggers::Moon,
            KuruthTriggers::TheOther,
            KuruthTriggers::Pack,
            KuruthTriggers::Territory,
            KuruthTriggers::Wound,
        ]);
        r
    }

    /// The name of a standard set; a custom set has none.
    pub fn name(&self) -> (r: Option<&'static str>)
        ensures
            r is None <==> self is _Custom,
            r matches Some(s) ==> s@ == (match self {
                KuruthTriggers::Blood => "blood"@,
                KuruthTriggers::Moon => "moon"@,
                KuruthTriggers::TheOther => "the_other"@,
                KuruthTriggers::Pack => "pack"@,
                KuruthTriggers::Territory => "territory"@,
                _ => "wound"@,
            }),
    {
        match self {
            KuruthTriggers::Blood => Some("blood"),
            KuruthTriggers::Moon => Some("moon"),
            KuruthTriggers::TheOther => Some("the_other"),
            KuruthTriggers::Pack => Some("pack"),
            KuruthTriggers::Territory => Some("territory"),
            KuruthTriggers::Wound => Some("wound"),
            KuruthTriggers::_Custom(_) => None,
        }
    }

    /// The three triggers of this set.
    pub fn get_triggers(&self) -> (r: KuruthTriggerSet)
        ensures
            (r.passive@, r.common@, r.specific@) == standard_triggers(*self),
    {
        match self {
            KuruthTriggers::Blood => KuruthTriggerSet {
                passive: "Smelling human blood.".to_owned(),
                common: "Tasting human blood.".to_owned(),
                specific: "Swallowing human blood.".to_owned(),
            },
            KuruthTriggers::Moon => KuruthTriggerSet {
                passive: "Your auspice moon is in the sky.".to_owned(),
                common: "You witness your auspice moon in the sky.".to_owned(),
                specific: "Hear a wolf or werewolf howl when your auspice moon is in the sky.".to_owned(),
            },
            KuruthTriggers::TheOther => KuruthTriggerSet {
                passive: "You come within 10 yards of a supernatural creature.".to_owned(),
                common: "You witness a supernatural creature doing something obviously inhuman.".to_owned(),
                specific: "You are the target of a supernatural power.".to_owned(),
            },
            KuruthTriggers::Pack => KuruthTriggerSet {
                passive: "A pack member takes lethal damage.".to_owned(),
                common: "Seeing someone attack a pack member.".to_owned(),
                specific: "You cause lethal damage to a pack member.".to_owned(),
            },
            KuruthTriggers::Territory => KuruthTriggerSet {
                passive: "A werewolf you don't know enters your territory without permission.".to_owned(),
                common: "You see a werewolf you don't know in your territory.".to_owned(),
                specific: "A werewolf you don't know challenges your pack's ability to do its duty.".to_owned(),
            },
            KuruthTriggers::Wound => KuruthTriggerSet {
                passive: "Being in the area of a Wound.".to_owned(),
                common: "Interacting with a Wound-born spirit.".to_owned(),
                specific: "Being attacked by a Wound-born spirit.".to_owned(),
            },
            KuruthTriggers::_Custom(set) => set.clone(),
        }
    }
}

/// What belongs to a werewolf character beyond auspice, tribe and lodge.
#[derive(Debug)]
pub struct WerewolfData {
    pub skill_bonus: Option<Skill>,
    pub form: Form,
    pub triggers: KuruthTriggers,
    pub hunters_aspect: Option<HuntersAspect>,
    pub moon_gifts: Vec<(MoonGift, u16)>,
    pub shadow_gifts: Vec<ShadowGift>,
    pub wolf_gifts: Vec<WolfGift>,
    pub rites: Vec<Rite>,
}

impl Default for WerewolfData {
    /// A werewolf in Hishu form with no skill bonus, custom triggers left empty, no hunter's
    /// aspect, and no gifts or rites.
    fn default() -> (r: Self)
        ensures
            r.skill_bonus is None,
            r.form == Form::Hishu,
            r.triggers matches KuruthTriggers::_Custom(set) && set.passive@.len() == 0 && set.common@.len() == 0
                && set.specific@.len() == 0,
            r.hunters_aspect is None,
            r.moon_gifts@.len() == 0,
            r.shadow_gifts@.len() == 0,
            r.wolf_gifts@.len() == 0,
            r.rites@.len() == 0,
    {
        WerewolfData {
            skill_bonus: None,
            form: Form::Hishu,
            triggers: KuruthTriggers::default(),
            hunters_aspect: None,
            moon_gifts: Vec::new(),
            shadow_gifts: Vec::new(),
            wolf_gifts: Vec::new(),
            rites: Vec::new(),
        }
    }
}

#[derive(Debug)]
pub enum HuntersAspect {
    Monstrous,
    Isolating,
    Blissful,
    Mystic,
    Dominant,
    Fanatical,
    Frenzied,
    Agnoized,
    Insidious,
    Implacable,
    Primal,
    _Custom(String),
}

impl Clone for HuntersAspect {
    fn clone(&self) -> (r: Self)
        ensures
            r == *self,
    {
        match self {
            HuntersAspect::Monstrous => HuntersAspect::Monstrous,
            HuntersAspect::Isolating => HuntersAspect::Isolating,
            HuntersAspect::Blissful => HuntersAspect::Blissful,
            HuntersAspect::Mystic => HuntersAspect::Mystic,
            HuntersAspect::Dominant => HuntersAspect::Dominant,
            HuntersAspect::Fanatical => HuntersAspect::Fanatical,
            HuntersAspect::Frenzied => HuntersAspect::Frenzied,
            HuntersAspect::Agnoized => HuntersAspect::Agnoized,
            HuntersAspect::Insidious => HuntersAspect::Insidious,
            HuntersAspect::Implacable => HuntersAspect::Implacable,
            HuntersAspect::Primal => HuntersAspect::Primal,
            HuntersAspect::_Custom(s) => HuntersAspect::_Custom(s.clone()),
        }
    }
}

impl HuntersAspect {
    pub open spec fn name_view(self) -> Seq<char> {
        match self {
            HuntersAspect::Monstrous => "monstrous"@,
            HuntersAspect::Isolating => "isolating"@,
            HuntersAspect::Blissful => "blissful"@,
            HuntersAspect::Mystic => "mystic"@,
            HuntersAspect::Dominant => "dominant"@,
            HuntersAspect::Fanatical => "fanatical"@,
            HuntersAspect::Frenzied => "frenzied"@,
            HuntersAspect::Agnoized => "agnoized"@,
            HuntersAspect::Insidious => "insidious"@,
            HuntersAspect::Implacable => "implacable"@,
            HuntersAspect::Primal => "primal"@,
            HuntersAspect::_Custom(s) => s@,
        }
    }

    pub fn name(&self) -> (r: &str)
        ensures
            r@ == self.name_view(),
    {
        match self {
            HuntersAspect::Monstrous => "monstrous",
            HuntersAspect::Isolating => "isolating",
            HuntersAspect::Blissful => "blissful",
            HuntersAspect::Mystic => "mystic",
            HuntersAspect::Dominant => "dominant",
            HuntersAspect::Fanatical => "fanatical",
            HuntersAspect::Frenzied => "frenzied",
            HuntersAspect::Agnoized => "agnoized",
            HuntersAspect::Insidious => "insidious",
            HuntersAspect::Implacable => "implacable",
            HuntersAspect::Primal => "primal",
            HuntersAspect::_Custom(s) => s.as_str(),
        }
    }
}

#[derive(Debug)]
pub enum Auspice {
    Cahalith,
    Elodoth,
    Irraka,
    Ithaeur,
    Rahu,
    _Custom(String, [Skill; 3], Renown, MoonGift, [ShadowGift; 2], HuntersAspect),
}

impl Clone for Auspice {
    fn clone(&self) -> (r: Self)
        ensures
            r == *self,
    {
        match self {
            Auspice::Cahalith => Auspice::Cahalith,
            Auspice::Elodoth => Auspice::Elodoth,
            Auspice::Irraka => Auspice::Irraka,
            Auspice::Ithaeur => Auspice::Ithaeur,
            Auspice::Rahu => Auspice::Rahu,
            Auspice::_Custom(name, skills, renown, moon, gifts, aspect) => {
                let g = [gifts[0].clone(), gifts[1].clone()];
                assert(g =~= *gifts);
                Auspice::_Custom(name.clone(), *skills, *renown, moon.clone(), g, aspect.clone())
            },
        }
    }
}

impl Auspice {
    /// The three auspice skills.
    pub open spec fn skills_spec(self) -> Seq<Skill> {
        match self {
            Auspice::Cahalith => seq![Skill::Crafts, Skill::Expression, Skill::Persuasion],
            Auspice::Elodoth => seq![Skill::Empathy, Skill::Investigation, Skill::Politics],
            Auspice::Irraka => seq![Skill::Larceny, Skill::Stealth, Skill::Subterfuge],
            Auspice::Ithaeur => seq![Skill::AnimalKen, Skill::Medicine, Skill::Occult],
            Auspice::Rahu => seq![Skill::Brawl, Skill::Intimidation, Skill::Survival],
            Auspice::_Custom(_, skills, ..) => skills@,
        }
    }

    /// The auspice renown.
    pub open spec fn renown_spec(self) -> Renown {
        match self {
            Auspice::Cahalith => Renown::Glory,
            Auspice::Elodoth => Renown::Honor,
            Auspice::Irraka => Renown::Cunning,
            Auspice::Ithaeur => Renown::Wisdom,
            Auspice::Rahu => Renown::Purity,
            Auspice::_Custom(_, _, renown, ..) => renown,
        }
    }

    /// The moon gift of the auspice.
    pub open spec fn moon_gift_spec(self) -> MoonGift {
        match self {
            Auspice::Cahalith => MoonGift::Gibbous,
            Auspice::Elodoth => MoonGift::Half,
            Auspice::Irraka => MoonGift::New,
            Auspice::Ithaeur => MoonGift::Crescent,
            Auspice::Rahu => MoonGift::Full,
            Auspice::_Custom(_, _, _, moon_gift, ..) => moon_gift,
        }
    }

    /// The hunter's aspect that comes with the auspice.
    pub open spec fn hunters_aspect_spec(self) -> HuntersAspect {
        match self {
            Auspice::Cahalith => HuntersAspect::Monstrous,
            Auspice::Elodoth => HuntersAspect::Isolating,
            Auspice::Irraka => HuntersAspect::Blissful,
            Auspice::Ithaeur => HuntersAspect::Mystic,
            Auspice::Rahu => HuntersAspect::Dominant,
            Auspice::_Custom(.., aspect) => aspect,
        }
    }

    pub fn get_skills(&self) -> (r: &[Skill; 3])
        ensures
            r@ == self.skills_spec(),
    {
        match self {
            Auspice::Cahalith => &[Skill::Crafts, Skill::Expression, Skill::Persuasion],
            Auspice::Elodoth => &[Skill::Empathy, Skill::Investigation, Skill::Politics],
            Auspice::Irraka => &[Skill::Larceny, Skill::Stealth, Skill::Subterfuge],
            Auspice::Ithaeur => &[Skill::AnimalKen, Skill::Medicine, Skill::Occult],
            Auspice::Rahu => &[Skill::Brawl, Skill::Intimidation, Skill::Survival],
            Auspice::_Custom(_, skills, ..) => skills,
        }
    }

    pub fn get_renown(&self) -> (r: &Renown)
        ensures
            *r == self.renown_spec(),
    {
        match self {
            Auspice::Cahalith => &Renown::Glory,
            Auspice::Elodoth => &Renown::Honor,
            Auspice::Irraka => &Renown::Cunning,
            Auspice::Ithaeur => &Renown::Wisdom,
            Auspice::Rahu => &Renown::Purity,
            Auspice::_Custom(_, _, renown, ..) => renown,
        }
    }

    /// The two shadow gifts that the auspice opens.
    pub fn get_gifts(&self) -> (r: &[ShadowGift; 2])
        ensures
            r@ == (match self {
                Auspice::Cahalith => seq![ShadowGift::Inspiration, ShadowGift::Knowledge],
                Auspice::Elodoth => seq![ShadowGift::Insight, ShadowGift::Warding],
                Auspice::Irraka => seq![ShadowGift::Evasion, ShadowGift::Stealth],
                Auspice::Ithaeur => seq![ShadowGift::Elemental, ShadowGift::Shaping],
                Auspice::Rahu => seq![ShadowGift::Dominance, ShadowGift::Strength],
                Auspice::_Custom(.., gifts, _) => gifts@,
            }),
    {
        match self {
            Auspice::Cahalith => &[ShadowGift::Inspiration, ShadowGift::Knowledge],
            Auspice::Elodoth => &[ShadowGift::Insight, ShadowGift::Warding],
            Auspice::Irraka => &[ShadowGift::Evasion, ShadowGift::Stealth],
            Auspice::Ithaeur => &[ShadowGift::Elemental, ShadowGift::Shaping],
            Auspice::Rahu => &[ShadowGift::Dominance, ShadowGift::Strength],
            Auspice::_Custom(.., gifts, _) => gifts,
        }
    }

    pub fn get_moon_gift(&self) -> (r: &MoonGift)
        ensures
            *r == self.moon_gift_spec(),
    {
        match self {
            Auspice::Cahalith => &MoonGift::Gibbous,
            Auspice::Elodoth => &MoonGift::Half,
            Auspice::Irraka => &MoonGift::New,
            Auspice::Ithaeur => &MoonGift::Crescent,
            Auspice::Rahu => &MoonGift::Full,
            Auspice::_Custom(.., moon_gift, _, _) => moon_gift,
        }
    }

    pub fn get_hunters_aspect(&self) -> (r: &HuntersAspect)
        ensures
            *r == self.hunters_aspect_spec(),
    {
        match self {
            Auspice::Cahalith => &HuntersAspect::Monstrous,
            Auspice::Elodoth => &HuntersAspect::Isolating,
            Auspice::Irraka => &HuntersAspect::Blissful,
            Auspice::Ithaeur => &HuntersAspect::Mystic,
            Auspice::Rahu => &HuntersAspect::Dominant,
            Auspice::_Custom(.., aspect) => aspect,
        }
    }

    pub open spec fn name_view(self) -> Seq<char> {
        match self {
            Auspice::Cahalith => "cahalith"@,
            Auspice::Elodoth => "elodoth"@,
            Auspice::Irraka => "irraka"@,
            Auspice::Ithaeur => "ithaeur"@,
            Auspice::Rahu => "rahu"@,
            Auspice::_Custom(name, ..) => name@,
        }
    }

    pub fn name(&self) -> (r: &str)
        ensures
            r@ == self.name_view(),
    {
        match self {
            Auspice::Cahalith => "cahalith",
            Auspice::Elodoth => "elodoth",
            Auspice::Irraka => "irraka",
            Auspice::Ithaeur => "ithaeur",
            Auspice::Rahu => "rahu",
            Auspice::_Custom(name, ..) => name.as_str(),
        }
    }

    /// The five standard auspices.
    pub open spec fn all_spec() -> Seq<Self> {
        seq![Auspice::Cahalith, Auspice::Elodoth, Auspice::Irraka, Auspice::Ithaeur, Auspice::Rahu]
    }

    pub fn all() -> (r: [Auspice; 5])
        ensures
            r@ == Self::all_spec(),
    {
        let r = [Auspice::Cahalith, Auspice::Elodoth, Auspice::Irraka, Auspice::Ithaeur, Auspice::Rahu];
        assert(r@ =~= Self::all_spec());
        r
    }
}

impl From<Auspice> for XSplat {
    fn from(val: Auspice) -> (r: Self) {
        XSplat::Werewolf(val)
    }
}

impl vstd::std_specs::convert::FromSpecImpl<Auspice> for XSplat {
    open spec fn obeys_from_spec() -> bool {
        true
    }

    open spec fn from_spec(v: Auspice) -> Self {
        XSplat::Werewolf(v)
    }
}

#[derive(Debug)]
pub enum PureTribe {
    FireTouched,
    IvoryClaws,
    PredatorKings,
    _Custom(String, Renown, [Renown; 2], [Skill; 3], [HuntersAspect; 2], [ShadowGift; 4]),
}

impl Clone for PureTribe {
    fn clone(&self) -> (r: Self)
        ensures
            r == *self,
    {
        match self {
            PureTribe::FireTouched => PureTribe::FireTouched,
            PureTribe::IvoryClaws => PureTribe::IvoryClaws,
            PureTribe::PredatorKings => PureTribe::PredatorKings,
            PureTribe::_Custom(name, renown, secondary, skills, aspects, gifts) => {
                let a = [aspects[0].clone(), aspects[1].clone()];
                assert(a =~= *aspects);
                let g = [gifts[0].clone(), gifts[1].clone(), gifts[2].clone(), gifts[3].clone()];
                assert(g =~= *gifts);
                PureTribe::_Custom(name.clone(), *renown, *secondary, *skills, a, g)
            },
        }
    }
}

impl PureTribe {
    pub fn get_secondary_renown(&self) -> (r: &[Renown; 2])
        ensures
            r@ == (match self {
                PureTribe::FireTouched => seq![Renown::Cunning, Renown::Glory],
                PureTribe::IvoryClaws => seq![Renown::Glory, Renown::Honor],
                PureTribe::PredatorKings => seq![Renown::Purity, Renown::Wisdom],
                PureTribe::_Custom(_, _, renown, ..) => renown@,
            }),
    {
        match self {
            Self::FireTouched => &[Renown::Cunning, Renown::Glory],
            Self::IvoryClaws => &[Renown::Glory, Renown::Honor],
            Self::PredatorKings => &[Renown::Purity, Renown::Wisdom],
            Self::_Custom(_, _, renown, ..) => renown,
        }
    }

    pub fn get_skills(&self) -> (r: &[Skill; 3])
        ensures
            r@ == (match self {
                PureTribe::FireTouched => seq![Skill::Expression, Skill::Occult, Skill::Subterfuge],
                PureTribe::IvoryClaws => seq![Skill::Intimidation, Skill::Persuasion, Skill::Politics],
                PureTribe::PredatorKings => seq![Skill::AnimalKen, Skill::Brawl, Skill::Crafts],
                PureTribe::_Custom(.., skills, _, _) => skills@,
            }),
    {
        match self {
            Self::FireTouched => &[Skill::Expression, Skill::Occult, Skill::Subterfuge],
            Self::IvoryClaws => &[Skill::Intimidation, Skill::Persuasion, Skill::Politics],
            Self::PredatorKings => &[Skill::AnimalKen, Skill::Brawl, Skill::Crafts],
            Self::_Custom(.., skills, _, _) => skills,
        }
    }

    pub fn get_hunters_aspects(&self) -> (r: &[HuntersAspect; 2])
        ensures
            r@ == (match self {
                PureTribe::FireTouched => seq![HuntersAspect::Fanatical, HuntersAspect::Frenzied],
                PureTribe::IvoryClaws => seq![HuntersAspect::Agnoized, HuntersAspect::Insidious],
                PureTribe::PredatorKings => seq![HuntersAspect::Implacable, HuntersAspect::Primal],
                PureTribe::_Custom(.., aspects, _) => aspects@,
            }),
    {
        match self {
            Self::FireTouched => &[HuntersAspect::Fanatical, HuntersAspect::Frenzied],
            Self::IvoryClaws => &[HuntersAspect::Agnoized, HuntersAspect::Insidious],
            Self::PredatorKings => &[HuntersAspect::Implacable, HuntersAspect::Primal],
            Self::_Custom(.., aspects, _) => aspects,
        }
    }

    pub open spec fn name_view(self) -> Seq<char> {
        match self {
            PureTribe::FireTouched => "fire_touched"@,
            PureTribe::IvoryClaws => "ivory_claws"@,
            PureTribe::PredatorKings => "predator_kings"@,
            PureTribe::_Custom(name, ..) => name@,
        }
    }

    pub fn name(&self) -> (r: &str)
        ensures
            r@ == self.name_view(),
    {
        match self {
            PureTribe::FireTouched => "fire_touched",
            PureTribe::IvoryClaws => "ivory_claws",
            PureTribe::PredatorKings => "predator_kings",
            PureTribe::_Custom(name, ..) => name.as_str(),
        }
    }

    pub open spec fn all_spec() -> Seq<Self> {
        seq![PureTribe::FireTouched, PureTribe::IvoryClaws, PureTribe::PredatorKings]
    }

    pub fn all() -> (r: [PureTribe; 3])
        ensures
            r@ == Self::all_spec(),
    {
        let r = [PureTribe::FireTouched, PureTribe::IvoryClaws, PureTribe::PredatorKings];
        assert(r@ =~= Self::all_spec());
        r
    }
}

impl From<PureTribe> for Tribe {
    fn from(pure: PureTribe) -> (r: Self) {
        Tribe::Pure(pure)
    }
}

impl vstd::std_specs::convert::FromSpecImpl<PureTribe> for Tribe {
    open spec fn obeys_from_spec() -> bool {
        true
    }

    open spec fn from_spec(v: PureTribe) -> Self {
        Tribe::Pure(v)
    }
}

#[derive(Debug)]
pub enum Tribe {
    BloodTalons,
    BoneShadows,
    HuntersInDarkness,
    IronMasters,
    StormLords,
    Pure(PureTribe),
    _Custom(String, Renown, [ShadowGift; 3]),
}

impl Clone for Tribe {
    fn clone(&self) -> (r: Self)
        ensures
            r == *self,
    {
        match self {
            Tribe::BloodTalons => Tribe::BloodTalons,
            Tribe::BoneShadows => Tribe::BoneShadows,
            Tribe::HuntersInDarkness => Tribe::HuntersInDarkness,
            Tribe::IronMasters => Tribe::IronMasters,
            Tribe::StormLords => Tribe::StormLords,
            Tribe::Pure(p) => Tribe::Pure(p.clone()),
            Tribe::_Custom(name, renown, gifts) => {
                let g = [gifts[0].clone(), gifts[1].clone(), gifts[2].clone()];
                assert(g =~= *gifts);
                Tribe::_Custom(name.clone(), *renown, g)
            },
        }
    }
}

impl Tribe {
    pub open spec fn renown_spec(self) -> Renown {
        match self {
            Tribe::BloodTalons => Renown::Glory,
            Tribe::BoneShadows => Renown::Wisdom,
            Tribe::HuntersInDarkness => Renown::Purity,
            Tribe::IronMasters => Renown::Cunning,
            Tribe::StormLords => Renown::Honor,
            Tribe::Pure(tribe) => match tribe {
                PureTribe::FireTouched => Renown::Wisdom,
                PureTribe::IvoryClaws => Renown::Purity,
                PureTribe::PredatorKings => Renown::Glory,
                PureTribe::_Custom(_, renown, ..) => renown,
            },
            Tribe::_Custom(_, renown, _) => renown,
        }
    }

    pub open spec fn gifts_spec(self) -> Seq<ShadowGift> {
        match self {
            Tribe::BloodTalons => seq![ShadowGift::Inspiration, ShadowGift::Rage, ShadowGift::Strength],
            Tribe::BoneShadows => seq![ShadowGift::Death, ShadowGift::Elemental, ShadowGift::Insight],
            Tribe::HuntersInDarkness => seq![ShadowGift::Nature, ShadowGift::Stealth, ShadowGift::Warding],
            Tribe::IronMasters => seq![ShadowGift::Knowledge, ShadowGift::Shaping, ShadowGift::Technology],
            Tribe::StormLords => seq![ShadowGift::Evasion, ShadowGift::Dominance, ShadowGift::Weather],
            Tribe::Pure(tribe) => match tribe {
                PureTribe::FireTouched => seq![
                    ShadowGift::Disease,
                    ShadowGift::Fervor,
                    ShadowGift::Insight,
                    ShadowGift::Inspiration,
                ],
                PureTribe::IvoryClaws => seq![
                    ShadowGift::Agony,
                    ShadowGift::Blood,
                    ShadowGift::Dominance,
                    ShadowGift::Warding,
                ],
                PureTribe::PredatorKings => seq![
                    ShadowGift::Hunger,
                    ShadowGift::Nature,
                    ShadowGift::Rage,
                    ShadowGift::Strength,
                ],
                PureTribe::_Custom(.., gifts) => gifts@,
            },
            Tribe::_Custom(.., gifts) => gifts@,
        }
    }

    pub fn get_renown(&self) -> (r: &Renown)
        ensures
            *r == self.renown_spec(),
    {
        match self {
            Self::BloodTalons => &Renown::Glory,
            Self::BoneShadows => &Renown::Wisdom,
            Self::HuntersInDarkness => &Renown::Purity,
            Self::IronMasters => &Renown::Cunning,
            Self::StormLords => &Renown::Honor,
            Self::Pure(tribe) => match tribe {
                PureTribe::FireTouched => &Renown::Wisdom,
                PureTribe::IvoryClaws => &Renown::Purity,
                PureTribe::PredatorKings => &Renown::Glory,
                PureTribe::_Custom(_, renown, ..) => renown,
            },
            Self::_Custom(_, renown, _) => renown,
        }
    }

    /// The shadow gifts that the tribe opens.
    pub fn get_gifts(&self) -> (r: Vec<ShadowGift>)
        ensures
            r@ == self.gifts_spec(),
    {
        match self {
            Tribe::BloodTalons => vec![ShadowGift::Inspiration, ShadowGift::Rage, ShadowGift::Strength],
            Tribe::BoneShadows => vec![ShadowGift::Death, ShadowGift::Elemental, ShadowGift::Insight],
            Tribe::HuntersInDarkness => vec![ShadowGift::Nature, ShadowGift::Stealth, ShadowGift::Warding],
            Tribe::IronMasters => vec![ShadowGift::Knowledge, ShadowGift::Shaping, ShadowGift::Technology],
            Tribe::StormLords => vec![ShadowGift::Evasion, ShadowGift::Dominance, ShadowGift::Weather],
            Tribe::Pure(tribe) => match tribe {
                PureTribe::FireTouched => vec![
                    ShadowGift::Disease,
                    ShadowGift::Fervor,
                    ShadowGift::Insight,
                    ShadowGift::Inspiration,
                ],
                PureTribe::IvoryClaws => vec![
                    ShadowGift::Agony,
                    ShadowGift::Blood,
                    ShadowGift::Dominance,
                    ShadowGift::Warding,
                ],
                PureTribe::PredatorKings => vec![
                    ShadowGift::Hunger,
                    ShadowGift::Nature,
                    ShadowGift::Rage,
                    ShadowGift::Strength,
                ],
                PureTribe::_Custom(.., gifts) => {
                    let r = vec![gifts[0].clone(), gifts[1].clone(), gifts[2].clone(), gifts[3].clone()];
                    assert(r@ =~= gifts@);
                    r
                },
            },
            Tribe::_Custom(.., gifts) => {
                let r = vec![gifts[0].clone(), gifts[1].clone(), gifts[2].clone()];
                assert(r@ =~= gifts@);
                r
            },
        }
    }

    pub open spec fn name_view(self) -> Seq<char> {
        match self {
            Tribe::BloodTalons => "blood_talons"@,
            Tribe::BoneShadows => "bone_shadows"@,
            Tribe::HuntersInDarkness => "hunters_in_darkness"@,
            Tribe::IronMasters => "iron_masters"@,
            Tribe::StormLords => "storm_lords"@,
            Tribe::Pure(p) => p.name_view(),
            Tribe::_Custom(name, ..) => name@,
        }
    }

    pub fn name(&self) -> (r: &str)
        ensures
            r@ == self.name_view(),
    {
        match self {
            Tribe::BloodTalons => "blood_talons",
            Tribe::BoneShadows => "bone_shadows",
            Tribe::HuntersInDarkness => "hunters_in_darkness",
            Tribe::IronMasters => "iron_masters",
            Tribe::StormLords => "storm_lords",
            Tribe::Pure(p) => p.name(),
            Tribe::_Custom(name, ..) => name.as_str(),
        }
    }

    /// Every standard tribe: the five Forsaken tribes, then the three Pure tribes.
    pub open spec fn all_spec() -> Seq<Self> {
        seq![
                    Tribe::BloodTalons,
                    Tribe::BoneShadows,
                    Tribe::HuntersInDarkness,
                    Tribe::IronMasters,
                    Tribe::StormLords,
                    Tribe::Pure(PureTribe::FireTouched),
                    Tribe::Pure(PureTribe::IvoryClaws),
                    Tribe::Pure(PureTribe::PredatorKings),
                ]
    }

    pub fn all() -> (r: Vec<Tribe>)
        ensures
            r@ == Self::all_spec(),
    {
        let r = vec![
            Tribe::BloodTalons,
            Tribe::BoneShadows,
            Tribe::HuntersInDarkness,
            Tribe::IronMasters,
            Tribe::StormLords,
            Tribe::Pure(PureTribe::FireTouched),
            Tribe::Pure(PureTribe::IvoryClaws),
            Tribe::Pure(PureTribe::PredatorKings),
        ];
        assert(r@ =~= seq![
            Tribe::BloodTalons,
            Tribe::BoneShadows,
            Tribe::HuntersInDarkness,
            Tribe::IronMasters,
            Tribe::StormLords,
            Tribe::Pure(PureTribe::FireTouched),
            Tribe::Pure(PureTribe::IvoryClaws),
            Tribe::Pure(PureTribe::PredatorKings),
        ]);
        r
    }
}

impl From<Tribe> for YSplat {
    fn from(tribe: Tribe) -> (r: Self) {
        YSplat::Werewolf(tribe)
    }
}

impl vstd::std_specs::convert::FromSpecImpl<Tribe> for YSplat {
    open spec fn obeys_from_spec() -> bool {
        true
    }

    open spec fn from_spec(v: Tribe) -> Self {
        YSplat::Werewolf(v)
    }
}

#[derive(Debug)]
pub enum Lodge {
    _Custom(String),
}

impl Clone for Lodge {
    fn clone(&self) -> (r: Self)
        ensures
            r == *self,
    {
        match self {
            Lodge::_Custom(s) => Lodge::_Custom(s.clone()),
        }
    }
}

impl Lodge {
    pub open spec fn name_view(self) -> Seq<char> {
        match self {
            Lodge::_Custom(s) => s@,
        }
    }

    pub fn name(&self) -> (r: &str)
        ensures
            r@ == self.name_view(),
    {
        match self {
            Lodge::_Custom(s) => s.as_str(),
        }
    }
}

impl From<Lodge> for ZSplat {
    fn from(lodge: Lodge) -> (r: Self) {
        ZSplat::Werewolf(lodge)
    }
}

impl vstd::std_specs::convert::FromSpecImpl<Lodge> for ZSplat {
    open spec fn obeys_from_spec() -> bool {
        true
    }

    open spec fn from_spec(v: Lodge) -> Self {
        ZSplat::Werewolf(v)
    }
}

#[derive(Clone, Copy, Debug, PartialEq, Eq, Hash, Structural)]
pub enum Renown {
    Purity,
    Glory,
    Honor,
    Wisdom,
    Cunning,
}

impl Renown {
    pub open spec fn name_view(self) -> Seq<char> {
        match self {
            Renown::Purity => "purity"@,
            Renown::Glory => "glory"@,
            Renown::Honor => "honor"@,
            Renown::Wisdom => "wisdom"@,
            Renown::Cunning => "cunning"@,
        }
    }

    pub fn name(&self) -> (r: &'static str)
        ensures
            r@ == self.name_view(),
    {
        match self {
            Renown::Purity => "purity",
            Renown::Glory => "glory",
            Renown::Honor => "honor",
            Renown::Wisdom => "wisdom",
            Renown::Cunning => "cunning",
        }
    }

    pub open spec fn all_spec() -> Seq<Self> {
        seq![Renown::Purity, Renown::Glory, Renown::Honor, Renown::Wisdom, Renown::Cunning]
    }

    pub fn all() -> (r: [Renown; 5])
        ensures
            r@ == Self::all_spec(),
    {
        let r = [Renown::Purity, Renown::Glory, Renown::Honor, Renown::Wisdom, Renown::Cunning];
        assert(r@ =~= Self::all_spec());
        r
    }
}

impl From<Renown> for Ability {
    fn from(val: Renown) -> (r: Self) {
        Ability::Renown(val)
    }
}

impl vstd::std_specs::convert::FromSpecImpl<Renown> for Ability {
    open spec fn obeys_from_spec() -> bool {
        true
    }

    open spec fn from_spec(v: Renown) -> Self {
        Ability::Renown(v)
    }
}

#[derive(Debug)]
pub enum Gift {
    Moon(MoonGift),
    Shadow(ShadowGift),
    Wolf(WolfGift),
}

#[derive(Debug, Hash)]
pub enum MoonGift {
    Crescent,
    Full,
    Gibbous,
    Half,
    New,
    _Custom(String),
}

impl Clone for MoonGift {
    fn clone(&self) -> (r: Self)
        ensures
            r == *self,
    {
        match self {
            MoonGift::Crescent => MoonGift::Crescent,
            MoonGift::Full => MoonGift::Full,
            MoonGift::Gibbous => MoonGift::Gibbous,
            MoonGift::Half => MoonGift::Half,
            MoonGift::New => MoonGift::New,
            MoonGift::_Custom(s) => MoonGift::_Custom(s.clone()),
        }
    }
}

impl MoonGift {
    /// Moon gifts are told apart by variant, and custom ones by the text of their name.
    pub open spec fn same(self, other: MoonGift) -> bool {
        match (self, other) {
            (MoonGift::_Custom(a), MoonGift::_Custom(b)) => a@ == b@,
            (MoonGift::_Custom(_), _) => false,
            (_, MoonGift::_Custom(_)) => false,
            _ => self == other,
        }
    }

    /// The modifiers that a moon gift rated `value` grants: Full Moon from three dots on
    /// adds the character's Purity to their health.
    pub open spec fn modifiers_spec(self, value: u16) -> Seq<Modifier> {
        match self {
            MoonGift::Full => if value > 2 {
                seq![
                    Modifier {
                        target: ModifierTarget::Trait(Trait::Health),
                        value: ModifierValue::Ability(Ability::Renown(Renown::Purity)),
                        op: ModifierOp::Add,
                        condition: None,
                    },
                ]
            } else {
                seq![]
            },
            _ => seq![],
        }
    }

    pub fn get_modifiers(&self, value: u16) -> (r: Vec<Modifier>)
        ensures
            r@ == self.modifiers_spec(value),
    {
        match self {
            MoonGift::Full => {
                if value > 2 {
                    let r = vec![
                        Modifier::new(
                            ModifierTarget::Trait(Trait::Health),
                            ModifierValue::Ability(Ability::Renown(Renown::Purity)),
                            ModifierOp::Add,
                        ),
                    ];
                    assert(r@ =~= self.modifiers_spec(value));
                    r
                } else {
                    let r = vec![];
                    assert(r@ =~= self.modifiers_spec(value));
                    r
                }
            },
            _ => {
                let r = vec![];
                assert(r@ =~= self.modifiers_spec(value));
                r
            },
        }
    }

    pub open spec fn name_view(self) -> Seq<char> {
        match self {
            MoonGift::Crescent => "crescent"@,
            MoonGift::Full => "full"@,
            MoonGift::Gibbous => "gibbous"@,
            MoonGift::Half => "half"@,
            MoonGift::New => "new"@,
            MoonGift::_Custom(s) => s@,
        }
    }

    pub fn name(&self) -> (r: &str)
        ensures
            r@ == self.name_view(),
    {
        match self {
            MoonGift::Crescent => "crescent",
            MoonGift::Full => "full",
            MoonGift::Gibbous => "gibbous",
            MoonGift::Half => "half",
            MoonGift::New => "new",
            MoonGift::_Custom(s) => s.as_str(),
        }
    }
}

impl PartialEq for MoonGift {
    fn eq(&self, other: &Self) -> (r: bool) {
        match self {
            MoonGift::Crescent => match other {
                MoonGift::Crescent => true,
                _ => false,
            },
            MoonGift::Full => match other {
                MoonGift::Full => true,
                _ => false,
            },
            MoonGift::Gibbous => match other {
                MoonGift::Gibbous => true,
                _ => false,
            },
            MoonGift::Half => match other {
                MoonGift::Half => true,
                _ => false,
            },
            MoonGift::New => match other {
                MoonGift::New => true,
                _ => false,
            },
            MoonGift::_Custom(a) => match other {
                MoonGift::_Custom(b) => *a == *b,
                _ => false,
            },
        }
    }
}

impl vstd::std_specs::cmp::PartialEqSpecImpl for MoonGift {
    open spec fn obeys_eq_spec() -> bool {
        true
    }

    open spec fn eq_spec(&self, other: &MoonGift) -> bool {
        self.same(*other)
    }
}

impl Eq for MoonGift {

}

#[derive(Debug)]
pub enum ShadowGift {
    Death,
    Dominance,
    Elemental,
    Evasion,
    Insight,
    Inspiration,
    Knowledge,
    Nature,
    Rage,
    Shaping,
    Stealth,
    Strength,
    Technology,
    Warding,
    Weather,
    Agony,
    Blood,
    Disease,
    Fervor,
    Hunger,
    _Custom(String),
}

impl Clone for ShadowGift {
    fn clone(&self) -> (r: Self)
        ensures
            r == *self,
    {
        match self {
            ShadowGift::Death => ShadowGift::Death,
            ShadowGift::Dominance => ShadowGift::Dominance,
            ShadowGift::Elemental => ShadowGift::Elemental,
            ShadowGift::Evasion => ShadowGift::Evasion,
            ShadowGift::Insight => ShadowGift::Insight,
            ShadowGift::Inspiration => ShadowGift::Inspiration,
            ShadowGift::Knowledge => ShadowGift::Knowledge,
            ShadowGift::Nature => ShadowGift::Nature,
            ShadowGift::Rage => ShadowGift::Rage,
            ShadowGift::Shaping => ShadowGift::Shaping,
            ShadowGift::Stealth => ShadowGift::Stealth,
            ShadowGift::Strength => ShadowGift::Strength,
            ShadowGift::Technology => ShadowGift::Technology,
            ShadowGift::Warding => ShadowGift::Warding,
            ShadowGift::Weather => ShadowGift::Weather,
            ShadowGift::Agony => ShadowGift::Agony,
            ShadowGift::Blood => ShadowGift::Blood,
            ShadowGift::Disease => ShadowGift::Disease,
            ShadowGift::Fervor => ShadowGift::Fervor,
            ShadowGift::Hunger => ShadowGift::Hunger,
            ShadowGift::_Custom(s) => ShadowGift::_Custom(s.clone()),
        }
    }
}

impl ShadowGift {
    /// Every shadow gift but a custom one, in order.
    pub open spec fn all_spec() -> Seq<Self> {
        seq![
            ShadowGift::Death,
            ShadowGift::Dominance,
            ShadowGift::Elemental,
            ShadowGift::Evasion,
            ShadowGift::Insight,
            ShadowGift::Inspiration,
            ShadowGift::Knowledge,
            ShadowGift::Nature,
            ShadowGift::Rage,
            ShadowGift::Shaping,
            ShadowGift::Stealth,
            ShadowGift::Strength,
            ShadowGift::Technology,
            ShadowGift::Warding,
            ShadowGift::Weather,
            ShadowGift::Agony,
            ShadowGift::Blood,
            ShadowGift::Disease,
            ShadowGift::Fervor,
            ShadowGift::Hunger,
        ]
    }

    pub fn all() -> (r: [ShadowGift; 20])
        ensures
            r@ == Self::all_spec(),
    {
        let r = [
            ShadowGift::Death,
            ShadowGift::Dominance,
            ShadowGift::Elemental,
            ShadowGift::Evasion,
            ShadowGift::Insight,
            ShadowGift::Inspiration,
            ShadowGift::Knowledge,
            ShadowGift::Nature,
            ShadowGift::Rage,
            ShadowGift::Shaping,
            ShadowGift::Stealth,
            ShadowGift::Strength,
            ShadowGift::Technology,
            ShadowGift::Warding,
            ShadowGift::Weather,
            ShadowGift::Agony,
            ShadowGift::Blood,
            ShadowGift::Disease,
            ShadowGift::Fervor,
            ShadowGift::Hunger,
        ];
        assert(r@ =~= Self::all_spec());
        r
    }
    pub open spec fn name_view(self) -> Seq<char> {
        match self {
            ShadowGift::Death => "death"@,
            ShadowGift::Dominance => "dominance"@,
            ShadowGift::Elemental => "elemental"@,
            ShadowGift::Evasion => "evasion"@,
            ShadowGift::Insight => "insight"@,
            ShadowGift::Inspiration => "inspiration"@,
            ShadowGift::Knowledge => "knowledge"@,
            ShadowGift::Nature => "nature"@,
            ShadowGift::Rage => "rage"@,
            ShadowGift::Shaping => "shaping"@,
            ShadowGift::Stealth => "stealth"@,
            ShadowGift::Strength => "strength"@,
            ShadowGift::Technology => "technology"@,
            ShadowGift::Warding => "warding"@,
            ShadowGift::Weather => "weather"@,
            ShadowGift::Agony => "agony"@,
            ShadowGift::Blood => "blood"@,
            ShadowGift::Disease => "disease"@,
            ShadowGift::Fervor => "fervor"@,
            ShadowGift::Hunger => "hunger"@,
            ShadowGift::_Custom(s) => s@,
        }
    }

    pub fn name(&self) -> (r: &str)
        ensures
            r@ == self.name_view(),
    {
        match self {
            ShadowGift::Death => "death",
            ShadowGift::Dominance => "dominance",
            ShadowGift::Elemental => "elemental",
            ShadowGift::Evasion => "evasion",
            ShadowGift::Insight => "insight",
            ShadowGift::Inspiration => "inspiration",
            ShadowGift::Knowledge => "knowledge",
            ShadowGift::Nature => "nature",
            ShadowGift::Rage => "rage",
            ShadowGift::Shaping => "shaping",
            ShadowGift::Stealth => "stealth",
            ShadowGift::Strength => "strength",
            ShadowGift::Technology => "technology",
            ShadowGift::Warding => "warding",
            ShadowGift::Weather => "weather",
            ShadowGift::Agony => "agony",
            ShadowGift::Blood => "blood",
            ShadowGift::Disease => "disease",
            ShadowGift::Fervor => "fervor",
            ShadowGift::Hunger => "hunger",
            ShadowGift::_Custom(s) => s.as_str(),
        }
    }
}

#[derive(Debug)]
pub enum WolfGift {
    Change,
    Hunting,
    Pack,
    _Custom(String),
}

impl Clone for WolfGift {
    fn clone(&self) -> (r: Self)
        ensures
            r == *self,
    {
        match self {
            WolfGift::Change => WolfGift::Change,
            WolfGift::Hunting => WolfGift::Hunting,
            WolfGift::Pack => WolfGift::Pack,
            WolfGift::_Custom(s) => WolfGift::_Custom(s.clone()),
        }
    }
}

impl WolfGift {
    /// Every wolf gift but a custom one, in order.
    pub open spec fn all_spec() -> Seq<Self> {
        seq![WolfGift::Change, WolfGift::Hunting, WolfGift::Pack]
    }

    pub fn all() -> (r: [WolfGift; 3])
        ensures
            r@ == Self::all_spec(),
    {
        let r = [WolfGift::Change, WolfGift::Hunting, WolfGift::Pack];
        assert(r@ =~= Self::all_spec());
        r
    }
    pub open spec fn name_view(self) -> Seq<char> {
        match self {
            WolfGift::Change => "change"@,
            WolfGift::Hunting => "hunting"@,
            WolfGift::Pack => "pack"@,
            WolfGift::_Custom(s) => s@,
        }
    }

    pub fn name(&self) -> (r: &str)
        ensures
            r@ == self.name_view(),
    {
        match self {
            WolfGift::Change => "change",
            WolfGift::Hunting => "hunting",
            WolfGift::Pack => "pack",
            WolfGift::_Custom(s) => s.as_str(),
        }
    }
}

/// The five shapes of a werewolf.
#[derive(Clone, Copy, Debug, PartialEq, Eq, Hash, Structural)]
pub enum Form {
    Hishu,
    Dalu,
    Gauru,
    Urshul,
    Urhan,
}

impl Default for Form {
    /// Hishu, the human form.
    fn default() -> (r: Self)
        ensures
            r == Form::Hishu,
    {
        Form::Hishu
    }
}

/// An unconditional `Add` modifier of a fixed number.
pub open spec fn plain_add(target: ModifierTarget, n: i16) -> Modifier {
    Modifier { target, value: ModifierValue::Num(n), op: ModifierOp::Add, condition: None }
}

impl Form {
    /// The trait changes that the form brings.
    pub open spec fn modifiers_spec(self) -> Seq<Modifier> {
        match self {
            Form::Hishu => seq![plain_add(ModifierTarget::Trait(Trait::Perception), 1)],
            Form::Dalu => seq![
                plain_add(ModifierTarget::Attribute(Attribute::Strength), 1),
                plain_add(ModifierTarget::Attribute(Attribute::Stamina), 1),
                plain_add(ModifierTarget::Attribute(Attribute::Manipulation), -1i16),
                plain_add(ModifierTarget::Trait(Trait::Size), 1),
                plain_add(ModifierTarget::Trait(Trait::Perception), 2),
            ],
            Form::Gauru => seq![
                plain_add(ModifierTarget::Attribute(Attribute::Strength), 3),
                plain_add(ModifierTarget::Attribute(Attribute::Dexterity), 1),
                plain_add(ModifierTarget::Attribute(Attribute::Stamina), 2),
                plain_add(ModifierTarget::Trait(Trait::Size), 2),
                plain_add(ModifierTarget::Trait(Trait::Perception), 3),
            ],
            Form::Urshul => seq![
                plain_add(ModifierTarget::Attribute(Attribute::Strength), 2),
                plain_add(ModifierTarget::Attribute(Attribute::Dexterity), 2),
                plain_add(ModifierTarget::Attribute(Attribute::Stamina), 2),
                plain_add(ModifierTarget::Attribute(Attribute::Manipulation), -1i16),
                plain_add(ModifierTarget::Trait(Trait::Size), 1),
                plain_add(ModifierTarget::Trait(Trait::Speed), 3),
                plain_add(ModifierTarget::Trait(Trait::Perception), 3),
            ],
            Form::Urhan => seq![
                plain_add(ModifierTarget::Attribute(Attribute::Dexterity), 2),
                plain_add(ModifierTarget::Attribute(Attribute::Stamina), 1),
                plain_add(ModifierTarget::Attribute(Attribute::Manipulation), -1i16),
                plain_add(ModifierTarget::Trait(Trait::Size), -1i16),
                plain_add(ModifierTarget::Trait(Trait::Speed), 3),
                plain_add(ModifierTarget::Trait(Trait::Perception), 4),
            ],
        }
    }

    pub fn get_modifiers(&self) -> (r: Vec<Modifier>)
        ensures
            r@ == self.modifiers_spec(),
    {
        let r = match self {
            Form::Hishu => vec![
                Modifier::new(ModifierTarget::Trait(Trait::Perception), ModifierValue::Num(1), ModifierOp::Add),
            ],
            Form::Dalu => vec![
                Modifier::new(ModifierTarget::Attribute(Attribute::Strength), ModifierValue::Num(1), ModifierOp::Add),
                Modifier::new(ModifierTarget::Attribute(Attribute::Stamina), ModifierValue::Num(1), ModifierOp::Add),
                Modifier::new(ModifierTarget::Attribute(Attribute::Manipulation), ModifierValue::Num(-1), ModifierOp::Add),
                Modifier::new(ModifierTarget::Trait(Trait::Size), ModifierValue::Num(1), ModifierOp::Add),
                Modifier::new(ModifierTarget::Trait(Trait::Perception), ModifierValue::Num(2), ModifierOp::Add),
            ],
            Form::Gauru => vec![
                Modifier::new(ModifierTarget::Attribute(Attribute::Strength), ModifierValue::Num(3), ModifierOp::Add),
                Modifier::new(ModifierTarget::Attribute(Attribute::Dexterity), ModifierValue::Num(1), ModifierOp::Add),
                Modifier::new(ModifierTarget::Attribute(Attribute::Stamina), ModifierValue::Num(2), ModifierOp::Add),
                Modifier::new(ModifierTarget::Trait(Trait::Size), ModifierValue::Num(2), ModifierOp::Add),
                Modifier::new(ModifierTarget::Trait(Trait::Perception), ModifierValue::Num(3), ModifierOp::Add),
            ],
            Form::Urshul => vec![
                Modifier::new(ModifierTarget::Attribute(Attribute::Strength), ModifierValue::Num(2), ModifierOp::Add),
                Modifier::new(ModifierTarget::Attribute(Attribute::Dexterity), ModifierValue::Num(2), ModifierOp::Add),
                Modifier::new(ModifierTarget::Attribute(Attribute::Stamina), ModifierValue::Num(2), ModifierOp::Add),
                Modifier::new(ModifierTarget::Attribute(Attribute::Manipulation), ModifierValue::Num(-1), ModifierOp::Add),
                Modifier::new(ModifierTarget::Trait(Trait::Size), ModifierValue::Num(1), ModifierOp::Add),
                Modifier::new(ModifierTarget::Trait(Trait::Speed), ModifierValue::Num(3), ModifierOp::Add),
                Modifier::new(ModifierTarget::Trait(Trait::Perception), ModifierValue::Num(3), ModifierOp::Add),
            ],
            Form::Urhan => vec![
                Modifier::new(ModifierTarget::Attribute(Attribute::Dexterity), ModifierValue::Num(2), ModifierOp::Add),
                Modifier::new(ModifierTarget::Attribute(Attribute::Stamina), ModifierValue::Num(1), ModifierOp::Add),
                Modifier::new(ModifierTarget::Attribute(Attribute::Manipulation), ModifierValue::Num(-1), ModifierOp::Add),
                Modifier::new(ModifierTarget::Trait(Trait::Size), ModifierValue::Num(-1), ModifierOp::Add),
                Modifier::new(ModifierTarget::Trait(Trait::Speed), ModifierValue::Num(3), ModifierOp::Add),
                Modifier::new(ModifierTarget::Trait(Trait::Perception), ModifierValue::Num(4), ModifierOp::Add),
            ],
        };
        assert(r@ =~= self.modifiers_spec());
        r
    }

    pub open spec fn name_view(self) -> Seq<char> {
        match self {
            Form::Hishu => "hishu"@,
            Form::Dalu => "dalu"@,
            Form::Gauru => "gauru"@,
            Form::Urshul => "urshul"@,
            Form::Urhan => "urhan"@,
        }
    }

    pub fn name(&self) -> (r: &'static str)
        ensures
            r@ == self.name_view(),
    {
        match self {
            Form::Hishu => "hishu",
            Form::Dalu => "dalu",
            Form::Gauru => "gauru",
            Form::Urshul => "urshul",
            Form::Urhan => "urhan",
        }
    }

    pub open spec fn all_spec() -> Seq<Self> {
        seq![Form::Hishu, Form::Dalu, Form::Gauru, Form::Urshul, Form::Urhan]
    }

    pub fn all() -> (r: [Form; 5])
        ensures
            r@ == Self::all_spec(),
    {
        let r = [Form::Hishu, Form::Dalu, Form::Gauru, Form::Urshul, Form::Urhan];
        assert(r@ =~= Self::all_spec());
        r
    }
}

#[derive(Debug)]
pub enum Rite {
    SacredHunt,
    _Custom(String),
}

impl Rite {
    pub fn name(&self) -> (r: &str)
        ensures
            r@ == (match self {
                Rite::SacredHunt => "sacred_hunt"@,
                Rite::_Custom(s) => s@,
            }),
    {
        match self {
            Rite::SacredHunt => "sacred_hunt",
            Rite::_Custom(s) => s.as_str(),
        }
    }
}

#[derive(Clone, Copy, Debug, PartialEq, Eq, Hash, Structural)]
pub enum WerewolfMerit {
    FavoredForm(Option<Form>),
    EfficientKiller,
    Totem,
}

impl WerewolfMerit {
    /// Werewolf merits can be taken by werewolves only.
    pub fn is_available(&self, character: &Character) -> (r: bool)
        ensures
            r == (character.splat is Werewolf),
    {
        matches!(character.splat, Splat::Werewolf(..))
    }

    pub open spec fn name_view(self) -> Seq<char> {
        match self {
            WerewolfMerit::FavoredForm(_) => "favored_form"@,
            WerewolfMerit::EfficientKiller => "efficient_killer"@,
            WerewolfMerit::Totem => "totem"@,
        }
    }

    pub fn name(&self) -> (r: &'static str)
        ensures
            r@ == self.name_view(),
    {
        match self {
            WerewolfMerit::FavoredForm(_) => "favored_form",
            WerewolfMerit::EfficientKiller => "efficient_killer",
            WerewolfMerit::Totem => "totem",
        }
    }

    pub open spec fn all_spec() -> Seq<Self> {
        seq![WerewolfMerit::FavoredForm(None), WerewolfMerit::EfficientKiller, WerewolfMerit::Totem]
    }

    pub fn all() -> (r: [WerewolfMerit; 3])
        ensures
            r@ == Self::all_spec(),
    {
        let r = [WerewolfMerit::FavoredForm(None), WerewolfMerit::EfficientKiller, WerewolfMerit::Totem];
        assert(r@ =~= Self::all_spec());
        r
    }
}

impl From<WerewolfMerit> for Merit {
    fn from(merit: WerewolfMerit) -> (r: Self) {
        Merit::Werewolf(merit)
    }
}

impl vstd::std_specs::convert::FromSpecImpl<WerewolfMerit> for Merit {
    open spec fn obeys_from_spec() -> bool {
        true
    }

    open spec fn from_spec(v: WerewolfMerit) -> Self {
        Merit::Werewolf(v)
    }
}

} // verus!
