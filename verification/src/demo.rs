//! Four sample sheets, one of each of the main splats, put together with the builder.
use vstd::prelude::*;

use crate::character::modifier::{
    ability_modifiers, character_modifiers, cond_entries, cond_sum, merit_modifiers, modifiers_fit, modifiers_sum,
    splat_modifiers, uncond_entries, uncond_sum, ability_defense_skill, defensive_combat_skill, lemma_defense_skill,
    Condition, Modifier, ModifierContext, ModifierOp, ModifierTarget, ModifierValue, Modifiers,
};
use crate::character::traits::{Attribute, Skill, Trait};
use crate::character::{
    abilities_from, ability_insert, first_index, has_ability_spec, in_i16, lemma_first_index_exists, Attributes,
    Character, CharacterBuilder, CharacterInfo, Skills,
};
use crate::splat::ability::Ability;
use crate::splat::changeling::{ChangelingData, Court, Regalia, Seeming};
use crate::splat::mage::{Arcanum, MageData, MageMerit, Order, Path};
use crate::splat::vampire::{Bloodline, Clan, Covenant, Discipline, VampireData, VampireMerit};
use crate::splat::merits::plain;
use crate::splat::werewolf::{plain_add, Auspice, Form, KuruthTriggers, Renown, Tribe, WerewolfData, WerewolfMerit};
use crate::splat::{Merit, Splat};

verus! {

/// Whether a target names an attribute, its dots or its rating.
pub open spec fn is_attribute_target(t: ModifierTarget) -> bool {
    t is Attribute || t is BaseAttribute
}

/// A modifier on an attribute adds one, without a condition.
pub open spec fn attribute_step(m: Modifier) -> bool {
    is_attribute_target(m.target) ==> m.value == ModifierValue::Num(1) && m.condition is None
}

/// Every modifier of the list on an attribute adds one, without a condition.
pub open spec fn attribute_steps(ms: Seq<Modifier>) -> bool {
    forall|i: int| 0 <= i < ms.len() ==> attribute_step(#[trigger] ms[i])
}

/// No modifier of the list is on an attribute.
pub open spec fn attribute_free(ms: Seq<Modifier>) -> bool {
    forall|i: int| 0 <= i < ms.len() ==> !is_attribute_target((#[trigger] ms[i]).target)
}

proof fn lemma_concat_index(a: Seq<Modifier>, b: Seq<Modifier>, i: int)
    requires
        0 <= i < a.len() + b.len(),
    ensures
        (a + b)[i] == if i < a.len() {
            a[i]
        } else {
            b[i - a.len()]
        },
{
}

proof fn lemma_attribute_free_concat(a: Seq<Modifier>, b: Seq<Modifier>)
    requires
        attribute_free(a),
        attribute_free(b),
    ensures
        attribute_free(a + b),
{
    assert forall|i: int| 0 <= i < (a + b).len() implies !is_attribute_target((#[trigger] (a + b)[i]).target) by {
        lemma_concat_index(a, b, i);
    }
}

/// No merit puts a modifier on an attribute.
proof fn lemma_merit_modifiers_attribute_free(s: Seq<(Merit, u16)>)
    ensures
        attribute_free(merit_modifiers(s)),
        merit_modifiers(s).len() <= s.len(),
    decreases s.len(),
{
    if s.len() > 0 {
        lemma_merit_modifiers_attribute_free(s.drop_last());
        let b = s.last().0.modifiers_spec(s.last().1);
        assert(attribute_free(b));
        lemma_attribute_free_concat(merit_modifiers(s.drop_last()), b);
    }
}

/// A discipline that adds to an attribute: Resilience or Vigor.
pub open spec fn raises_attribute(a: Ability) -> bool {
    a == Ability::Discipline(Discipline::Resilience) || a == Ability::Discipline(Discipline::Vigor)
}

/// The abilities of a list that hold no discipline raising an attribute put no modifier
/// on an attribute, and each puts at most one modifier.
proof fn lemma_ability_modifiers_attribute_free(s: Seq<(Ability, u16)>)
    requires
        forall|i: int| 0 <= i < s.len() ==> !raises_attribute(#[trigger] s[i].0),
    ensures
        attribute_free(ability_modifiers(s)),
        ability_modifiers(s).len() <= s.len(),
    decreases s.len(),
{
    if s.len() > 0 {
        let d = s.drop_last();
        assert forall|i: int| 0 <= i < d.len() implies !raises_attribute(#[trigger] d[i].0) by {
            assert(d[i] == s[i]);
        }
        lemma_ability_modifiers_attribute_free(d);
        assert(!raises_attribute(s[s.len() - 1].0));
        let b = s.last().0.modifiers_spec(s.last().1);
        assert(attribute_free(b));
        lemma_attribute_free_concat(ability_modifiers(d), b);
    }
}

/// Every ability of `abilities_from(s)` is one of those of `s`, and it has no more entries.
proof fn lemma_abilities_from_keys(s: Seq<(Ability, u16)>)
    ensures
        abilities_from(s).len() <= s.len(),
        forall|i: int|
            0 <= i < abilities_from(s).len() ==> exists|j: int|
                0 <= j < s.len() && (#[trigger] abilities_from(s)[i]).0 == s[j].0,
    decreases s.len(),
{
    if s.len() > 0 {
        let d = s.drop_last();
        lemma_abilities_from_keys(d);
        let r = abilities_from(d);
        let x = s.last();
        let r2 = ability_insert(r, x.0, x.1);
        if has_ability_spec(r, x.0) {
            let k0 = choose|k: int| 0 <= k < r.len() && #[trigger] r[k].0.same(x.0);
            lemma_first_index_exists(r, x.0, k0);
            assert(r2.len() == r.len());
        }
        assert forall|i: int| 0 <= i < r2.len() implies exists|j: int|
            0 <= j < s.len() && (#[trigger] r2[i]).0 == s[j].0 by {
            if has_ability_spec(r, x.0) {
                let k0 = choose|k: int| 0 <= k < r.len() && #[trigger] r[k].0.same(x.0);
                lemma_first_index_exists(r, x.0, k0);
                let k = first_index(r, x.0);
                if i == k && 0 <= k < r.len() {
                    assert(r2[i].0 == r[i].0);
                } else {
                    assert(r2[i] == r[i]);
                }
                let j = choose|j: int| 0 <= j < d.len() && r[i].0 == d[j].0;
                assert(s[j] == d[j]);
            } else if i < r.len() {
                assert(r2[i] == r[i]);
                let j = choose|j: int| 0 <= j < d.len() && r[i].0 == d[j].0;
                assert(s[j] == d[j]);
            } else {
                assert(r2[i] == x);
                assert(s[s.len() - 1] == x);
            }
        }
    }
}

/// The entries of the tables filed from a list whose modifiers on `t` add one each: the
/// unconditional ones on `t` add one, and no conditional one is on `t`.
proof fn lemma_entries_of_steps(ms: Seq<Modifier>, t: ModifierTarget)
    requires
        forall|i: int| 0 <= i < ms.len() ==> (#[trigger] ms[i]).target == t ==> ms[i].value == ModifierValue::Num(1)
            && ms[i].condition is None,
    ensures
        forall|i: int|
            0 <= i < uncond_entries(ms).len() ==> (#[trigger] uncond_entries(ms)[i]).0 == t ==> uncond_entries(
                ms,
            )[i].1 == ModifierValue::Num(1),
        forall|i: int| 0 <= i < cond_entries(ms).len() ==> (#[trigger] cond_entries(ms)[i]).0 != t,
        uncond_entries(ms).len() <= ms.len(),
    decreases ms.len(),
{
    if ms.len() > 0 {
        let d = ms.drop_last();
        assert forall|i: int| 0 <= i < d.len() && (#[trigger] d[i]).target == t implies d[i].value
            == ModifierValue::Num(1) && d[i].condition is None by {
            assert(d[i] == ms[i]);
        }
        lemma_entries_of_steps(d, t);
        assert(ms[ms.len() - 1] == ms.last());
    }
}

/// Prefix sums over entries on `t` that add one each stay between nothing and their count.
proof fn lemma_step_sums(cx: ModifierContext, es: Seq<(ModifierTarget, ModifierValue)>, t: ModifierTarget, k: int)
    requires
        0 <= k <= es.len(),
        forall|i: int| 0 <= i < es.len() ==> (#[trigger] es[i]).0 == t ==> es[i].1 == ModifierValue::Num(1),
    ensures
        0 <= uncond_sum(cx, es.take(k), t) <= k,
    decreases k,
{
    if k > 0 {
        lemma_step_sums(cx, es, t, k - 1);
        assert(es.take(k).drop_last() =~= es.take(k - 1));
        assert(es.take(k).last() == es[k - 1]);
    }
}

proof fn lemma_no_cond_sums(cx: ModifierContext, cs: Seq<(ModifierTarget, Condition, ModifierValue)>, t: ModifierTarget, k: int)
    requires
        0 <= k <= cs.len(),
        forall|i: int| 0 <= i < cs.len() ==> (#[trigger] cs[i]).0 != t,
    ensures
        cond_sum(cx, cs.take(k), t) == 0,
    decreases k,
{
    if k > 0 {
        lemma_no_cond_sums(cx, cs, t, k - 1);
        assert(cs.take(k).drop_last() =~= cs.take(k - 1));
        assert(cs.take(k).last() == cs[k - 1]);
    }
}

proof fn lemma_steps_concat(a: Seq<Modifier>, b: Seq<Modifier>)
    requires
        attribute_steps(a),
        attribute_steps(b),
    ensures
        attribute_steps(a + b),
{
    assert forall|i: int| 0 <= i < (a + b).len() implies attribute_step(#[trigger] (a + b)[i]) by {
        lemma_concat_index(a, b, i);
    }
}

/// The modifiers of a splat are on attributes only to add one to them, except a werewolf's
/// in a form other than Hishu; there are at most ten of them.
proof fn lemma_splat_steps(c: Character)
    requires
        c.splat matches Splat::Werewolf(_, _, _, d) ==> d.form == Form::Hishu,
    ensures
        attribute_steps(splat_modifiers(c)),
        splat_modifiers(c).len() <= 10,
{
    let ms = splat_modifiers(c);
    match c.splat {
        Splat::Werewolf(auspice, _, _, data) => {
            let f = data.form.modifiers_spec();
            assert(attribute_steps(f));
            match auspice {
                Some(a) => {
                    let g = a.moon_gift_spec().modifiers_spec(
                        match crate::character::ability_value(c.abilities@, Ability::Renown(a.renown_spec())) {
                            Some(v) => v,
                            None => 0u16,
                        },
                    );
                    let k = match data.skill_bonus {
                        Some(s) => if a.skills_spec().contains(s) {
                            seq![crate::character::modifier::plus_one(ModifierTarget::BaseSkill(s))]
                        } else {
                            seq![]
                        },
                        None => seq![],
                    };
                    assert(attribute_steps(g));
                    assert(attribute_steps(k));
                    lemma_steps_concat(g, k);
                    lemma_steps_concat(f, g + k);
                    assert(ms =~= f + (g + k));
                },
                None => {
                    assert(ms =~= f + seq![]);
                },
            }
        },
        Splat::Mage(_, order, _, data) => {
            let o: Seq<Modifier> = if order is Some {
                seq![crate::character::modifier::plus_one(ModifierTarget::BaseSkill(crate::character::traits::Skill::Occult))]
            } else {
                seq![]
            };
            let r: Seq<Modifier> = match data.attr_bonus {
                Some(a) => if crate::character::traits::attribute_column(a) == crate::character::traits::AttributeType::Resistance {
                    seq![crate::character::modifier::plus_one(ModifierTarget::BaseAttribute(a))]
                } else {
                    seq![]
                },
                None => seq![],
            };
            assert(attribute_steps(o));
            assert(attribute_steps(r));
            lemma_steps_concat(o, r);
        },
        _ => {},
    }
}

/// Tables filed from a short list whose modifiers on `t` add one each: summing them on `t`
/// fits an `i16`, and the sum is between nothing and the length of the list.
proof fn lemma_step_tables(cx: ModifierContext, m: Modifiers, ms: Seq<Modifier>, t: ModifierTarget)
    requires
        m.entries() == uncond_entries(ms),
        m.conditional_entries() == cond_entries(ms),
        ms.len() <= 1000,
        forall|i: int| 0 <= i < ms.len() ==> (#[trigger] ms[i]).target == t ==> ms[i].value == ModifierValue::Num(1)
            && ms[i].condition is None,
    ensures
        modifiers_fit(cx, m, t),
        0 <= modifiers_sum(cx, m, t) <= ms.len(),
{
    lemma_entries_of_steps(ms, t);
    let es = uncond_entries(ms);
    let cs = cond_entries(ms);
    assert forall|k: int| 0 <= k <= es.len() implies in_i16(#[trigger] uncond_sum(cx, es.take(k), t)) by {
        lemma_step_sums(cx, es, t, k);
    }
    lemma_step_sums(cx, es, t, es.len() as int);
    assert(es.take(es.len() as int) =~= es);
    assert forall|k: int| 0 <= k <= cs.len() implies in_i16(
        uncond_sum(cx, es, t) + #[trigger] cond_sum(cx, cs.take(k), t),
    ) by {
        lemma_no_cond_sums(cx, cs, t, k);
    }
    lemma_no_cond_sums(cx, cs, t, cs.len() as int);
    assert(cs.take(cs.len() as int) =~= cs);
}

/// A builder whose abilities raise no attribute, whose werewolf (if it is one) is in Hishu
/// form, whose attributes have at most five dots and whose lists are short puts together
/// sheets whose attributes, willpower and fuel can all be worked out.
pub proof fn lemma_builder_buildable(b: CharacterBuilder)
    requires
        b.flag,
        forall|a: Attribute| #[trigger] b.attributes.get_spec(a) <= 5,
        b.abilities@.len() <= 50,
        b.merits@.len() <= 50,
        forall|i: int| 0 <= i < b.abilities@.len() ==> !raises_attribute(#[trigger] b.abilities@[i].0),
        b.splat matches Splat::Werewolf(_, _, _, d) ==> d.form == Form::Hishu,
    ensures
        b.buildable(),
{
    assert forall|c: Character| #[trigger] b.assembles(c) implies c.max_willpower_ok() && (b.fuel is None
        ==> c.max_fuel_ok()) by {
        let am = ability_modifiers(c.abilities@);
        let mm = merit_modifiers(c.merits@);
        let sm = splat_modifiers(c);
        let ms = character_modifiers(c);
        lemma_ability_modifiers_attribute_free(c.abilities@);
        lemma_merit_modifiers_attribute_free(c.merits@);
        lemma_splat_steps(c);
        lemma_attribute_free_concat(am, mm);
        assert(ms == am + mm + sm);
        assert forall|i: int| 0 <= i < ms.len() implies attribute_step(#[trigger] ms[i]) by {
            lemma_concat_index(am + mm, sm, i);
            if i < (am + mm).len() {
                assert(!is_attribute_target((am + mm)[i].target));
            } else {
                assert(attribute_step(sm[i - (am + mm).len()]));
            }
        }
        assert(ms.len() <= 110);
        assert forall|a: Attribute| #[trigger] c.modified_ok(ModifierTarget::Attribute(a)) && c.modified_spec(
            ModifierTarget::Attribute(a),
        ) <= 225 by {
            let cx = crate::character::modifier::context_of(c);
            let t1 = ModifierTarget::Attribute(a);
            let t2 = ModifierTarget::BaseAttribute(a);
            assert forall|i: int| 0 <= i < ms.len() && (#[trigger] ms[i]).target == t1 implies ms[i].value
                == ModifierValue::Num(1) && ms[i].condition is None by {
                assert(attribute_step(ms[i]));
            }
            assert forall|i: int| 0 <= i < ms.len() && (#[trigger] ms[i]).target == t2 implies ms[i].value
                == ModifierValue::Num(1) && ms[i].condition is None by {
                assert(attribute_step(ms[i]));
            }
            lemma_step_tables(cx, c.modifiers_view(), ms, t1);
            lemma_step_tables(cx, c.modifiers_view(), ms, t2);
            assert(c.base_value(t1) <= 5);
        }
        assert(c.attributes_in_range());
        assert(c.modified_ok(ModifierTarget::Attribute(Attribute::Resolve)));
        assert(c.modified_ok(ModifierTarget::Attribute(Attribute::Composure)));
        assert(c.max_willpower_spec() <= 450);
    }
}

/// Rating a list of abilities no two of which are the same gives the list as it is.
proof fn lemma_abilities_from_distinct(s: Seq<(Ability, u16)>)
    requires
        forall|i: int, j: int| 0 <= i < j < s.len() ==> !(#[trigger] s[i].0).same(#[trigger] s[j].0),
    ensures
        abilities_from(s) == s,
    decreases s.len(),
{
    if s.len() > 0 {
        let d = s.drop_last();
        assert forall|i: int, j: int| 0 <= i < j < d.len() implies !(#[trigger] d[i].0).same(#[trigger] d[j].0) by {
            assert(d[i] == s[i] && d[j] == s[j]);
        }
        lemma_abilities_from_distinct(d);
        let x = s.last();
        assert forall|i: int| 0 <= i < d.len() implies !(#[trigger] d[i].0).same(x.0) by {
            assert(d[i] == s[i]);
            assert(x == s[s.len() - 1]);
        }
        assert(!has_ability_spec(d, x.0));
        assert(d.push(x) =~= s);
    }
}

/// A skill list without dots.
pub open spec fn no_skills() -> Skills {
    Skills {
        academics: 0,
        computer: 0,
        crafts: 0,
        investigation: 0,
        medicine: 0,
        occult: 0,
        politics: 0,
        science: 0,
        athletics: 0,
        brawl: 0,
        drive: 0,
        firearms: 0,
        larceny: 0,
        stealth: 0,
        survival: 0,
        weaponry: 0,
        animal_ken: 0,
        empathy: 0,
        expression: 0,
        intimidation: 0,
        persuasion: 0,
        socialize: 0,
        streetwise: 0,
        subterfuge: 0,
    }
}

fn blank_skills() -> (r: Skills)
    ensures
        r == no_skills(),
{
    Skills {
        academics: 0,
        computer: 0,
        crafts: 0,
        investigation: 0,
        medicine: 0,
        occult: 0,
        politics: 0,
        science: 0,
        athletics: 0,
        brawl: 0,
        drive: 0,
        firearms: 0,
        larceny: 0,
        stealth: 0,
        survival: 0,
        weaponry: 0,
        animal_ken: 0,
        empathy: 0,
        expression: 0,
        intimidation: 0,
        persuasion: 0,
        socialize: 0,
        streetwise: 0,
        subterfuge: 0,
    }
}

/// The description entries of a sample sheet: the six given, and every other one empty.
pub open spec fn info_is(
    i: CharacterInfo,
    name: Seq<char>,
    player: Seq<char>,
    virtue: Seq<char>,
    vice: Seq<char>,
    concept: Seq<char>,
    chronicle: Seq<char>,
) -> bool {
    &&& i.name@ == name
    &&& i.player@ == player
    &&& i.virtue_anchor@ == virtue
    &&& i.vice_anchor@ == vice
    &&& i.concept@ == concept
    &&& i.chronicle@ == chronicle
    &&& i.faction@.len() == 0
    &&& i.group_name@.len() == 0
    &&& i.age@.len() == 0
    &&& i.date_of_birth@.len() == 0
    &&& i.hair@.len() == 0
    &&& i.eyes@.len() == 0
    &&& i.race@.len() == 0
    &&& i.nationality@.len() == 0
    &&& i.height@.len() == 0
    &&& i.weight@.len() == 0
    &&& i.sex@.len() == 0
    &&& i.other@.len() == 0
}

fn info(name: &str, player: &str, virtue: &str, vice: &str, concept: &str, chronicle: &str) -> (r: CharacterInfo)
    ensures
        info_is(r, name@, player@, virtue@, vice@, concept@, chronicle@),
{
    CharacterInfo {
        name: name.to_owned(),
        player: player.to_owned(),
        virtue_anchor: virtue.to_owned(),
        vice_anchor: vice.to_owned(),
        faction: String::new(),
        group_name: String::new(),
        concept: concept.to_owned(),
        chronicle: chronicle.to_owned(),
        age: String::new(),
        date_of_birth: String::new(),
        hair: String::new(),
        eyes: String::new(),
        race: String::new(),
        nationality: String::new(),
        height: String::new(),
        weight: String::new(),
        sex: String::new(),
        other: String::new(),
    }
}

/// One entry of a specialty list: the skill and its one specialty.
pub open spec fn specialty_is(e: (Skill, Vec<String>), k: Skill, s: Seq<char>) -> bool {
    e.0 == k && e.1@.len() == 1 && e.1@[0]@ == s
}

/// What every sample sheet has as it comes out of the builder: no damage, Integrity 7,
/// Size 5, a supernatural tolerance of one, fuel and willpower full, and modifier tables
/// computed from it.
pub open spec fn fresh_sample(c: Character) -> bool {
    &&& c.health_view().with_counts(0, 0, 0)
    &&& c.integrity == 7
    &&& c.base_size == 5
    &&& c.power == 1
    &&& c.fuel == c.max_fuel_spec()
    &&& c.willpower == c.max_willpower_spec()
    &&& c.beats == 0
    &&& c.touchstones@.len() == 0
    &&& c.conditions@.len() == 0
    &&& c.aspirations@.len() == 0
    &&& crate::overview::tables_match(c)
}

/// Darren Webb, a Ventrue of the Ordo Dracul in the Dragolescu bloodline.
pub open spec fn sample_vampire(c: Character) -> bool {
    &&& c.splat matches Splat::Vampire(Clan::Ventrue, Some(Covenant::OrdoDracul), Some(Bloodline::_Custom(n, Some(ds))), d)
        && n@ == "Dragolescu"@ && ds@ == seq![
        Discipline::Animalism,
        Discipline::Dominate,
        Discipline::Resilience,
        Discipline::Auspex,
    ] && d.attr_bonus is None && d.banes@.len() == 0
    &&& info_is(
        c.info,
        "Darren Webb"@,
        "m00n"@,
        "Scholar"@,
        "Authoritarian"@,
        "Occult Journalist/Mastermind"@,
        "Night Trains"@,
    )
    &&& c.base_attributes_view() == (Attributes {
        intelligence: 3,
        wits: 3,
        resolve: 2,
        strength: 1,
        dexterity: 3,
        stamina: 2,
        presence: 3,
        manipulation: 2,
        composure: 3,
    })
    &&& c.base_skills_view() == (Skills {
        investigation: 2,
        occult: 3,
        politics: 2,
        larceny: 3,
        stealth: 1,
        animal_ken: 1,
        expression: 3,
        intimidation: 1,
        streetwise: 2,
        subterfuge: 4,
        ..no_skills()
    })
    &&& c.specialties@.len() == 3
    &&& specialty_is(c.specialties@[0], Skill::Larceny, "Sleight of Hand"@)
    &&& specialty_is(c.specialties@[1], Skill::Streetwise, "Rumours"@)
    &&& specialty_is(c.specialties@[2], Skill::Subterfuge, "Detecting Lies"@)
    &&& c.abilities@.len() == 3
    &&& c.abilities@[0] == (Ability::Discipline(Discipline::Animalism), 1u16)
    &&& c.abilities@[1] == (Ability::Discipline(Discipline::Dominate), 2u16)
    &&& c.abilities@[2] matches (Ability::Discipline(Discipline::_Custom(n)), 2u16) && n@ == "Coil of the Voivode"@
    &&& c.merits@.len() == 8
    &&& c.merits@[0] matches (Merit::Status(n), 1u16) && n@ == "Ordo Dracul"@
    &&& c.merits@[1] matches (Merit::Status(n), 1u16) && n@ == "City"@
    &&& c.merits@[2] == (Merit::Vampire(VampireMerit::CacophonySavvy), 3u16)
    &&& c.merits@[3] == (Merit::FastTalking, 1u16)
    &&& c.merits@[4] matches (Merit::ProfessionalTraining(n, Some(ks), None), 2u16) && n@.len() == 0 && ks@ == seq![
        Skill::Expression,
        Skill::Occult,
    ]
    &&& c.merits@[5] matches (Merit::SafePlace(n), 3u16) && n@.len() == 0
    &&& c.merits@[6] == (Merit::Resources, 3u16)
    &&& c.merits@[7] == (Merit::Vampire(VampireMerit::NestGuardian), 1u16)
    &&& fresh_sample(c)
}

fn sample_vampire_sheet() -> (r: Character)
    ensures
        sample_vampire(r),
{
    let mut skills = blank_skills();
    skills.investigation = 2;
    skills.occult = 3;
    skills.politics = 2;
    skills.larceny = 3;
    skills.stealth = 1;
    skills.animal_ken = 1;
    skills.expression = 3;
    skills.intimidation = 1;
    skills.streetwise = 2;
    skills.subterfuge = 4;
    let b = Character::builder().with_splat(
        Splat::Vampire(
            Clan::Ventrue,
            Some(Covenant::OrdoDracul),
            Some(
                Bloodline::_Custom(
                    "Dragolescu".to_owned(),
                    Some([Discipline::Animalism, Discipline::Dominate, Discipline::Resilience, Discipline::Auspex]),
                ),
            ),
            Box::new(VampireData::default()),
        ),
    ).with_info(
        info("Darren Webb", "m00n", "Scholar", "Authoritarian", "Occult Journalist/Mastermind", "Night Trains"),
    ).with_attributes(
        Attributes {
            intelligence: 3,
            wits: 3,
            resolve: 2,
            strength: 1,
            dexterity: 3,
            stamina: 2,
            presence: 3,
            manipulation: 2,
            composure: 3,
        },
    ).with_skills(skills);
    let b = b.with_specialties(Skill::Larceny, vec!["Sleight of Hand".to_owned()]);
    proof {
        assert(b.specialties@ == seq![b.specialties@[0]]);
    }
    let b = b.with_specialties(Skill::Streetwise, vec!["Rumours".to_owned()]);
    let b = b.with_specialties(Skill::Subterfuge, vec!["Detecting Lies".to_owned()]);
    let abilities = [
        (Ability::from(Discipline::Animalism), 1u16),
        (Ability::from(Discipline::Dominate), 2u16),
        (Ability::from(Discipline::_Custom("Coil of the Voivode".to_owned())), 2u16),
    ];
    proof {
        lemma_abilities_from_distinct(abilities@);
    }
    let b = b.with_abilities(abilities);
    let b = b.with_merits(
        [
            (Merit::Status("Ordo Dracul".to_owned()), 1),
            (Merit::Status("City".to_owned()), 1),
            (Merit::from(VampireMerit::CacophonySavvy), 3),
            (Merit::FastTalking, 1),
            (Merit::ProfessionalTraining(String::new(), Some([Skill::Expression, Skill::Occult]), None), 2),
            (Merit::SafePlace(String::new()), 3),
            (Merit::Resources, 3),
            (Merit::from(VampireMerit::NestGuardian), 1),
        ],
    );
    proof {
        lemma_builder_buildable(b);
    }
    b.build()
}

/// Amos Gray, a Rahu of the Blood Talons, in Hishu form.
pub open spec fn sample_werewolf(c: Character) -> bool {
    &&& c.splat matches Splat::Werewolf(Some(Auspice::Rahu), Some(Tribe::BloodTalons), None, d) && d.skill_bonus is None
        && d.form == Form::Hishu && (d.triggers matches KuruthTriggers::_Custom(set) && set.passive@.len() == 0
        && set.common@.len() == 0 && set.specific@.len() == 0) && d.hunters_aspect == Some(
        Auspice::Rahu.hunters_aspect_spec(),
    ) && d.moon_gifts@.len() == 0 && d.shadow_gifts@.len() == 0 && d.wolf_gifts@.len() == 0 && d.rites@.len() == 0
    &&& info_is(c.info, "Amos Gray"@, "m00n"@, "Destroyer"@, "Lone Wolf"@, ""@, ""@)
    &&& c.base_attributes_view() == (Attributes {
        intelligence: 1,
        wits: 3,
        resolve: 2,
        strength: 3,
        dexterity: 2,
        stamina: 3,
        presence: 3,
        manipulation: 1,
        composure: 3,
    })
    &&& c.base_skills_view() == (Skills {
        investigation: 2,
        medicine: 2,
        athletics: 2,
        brawl: 4,
        stealth: 2,
        survival: 3,
        expression: 3,
        intimidation: 4,
        ..no_skills()
    })
    &&& c.specialties@.len() == 3
    &&& specialty_is(c.specialties@[0], Skill::Brawl, "Claws"@)
    &&& specialty_is(c.specialties@[1], Skill::Stealth, "Stalking"@)
    &&& specialty_is(c.specialties@[2], Skill::Intimidation, "Direct Threats"@)
    &&& c.abilities@ == seq![(Ability::Renown(Renown::Glory), 1u16), (Ability::Renown(Renown::Purity), 3u16)]
    &&& c.merits@.len() == 8
    &&& c.merits@[0] == (Merit::Giant, 3u16)
    &&& c.merits@[1] == (Merit::TrainedObserver, 1u16)
    &&& c.merits@[2] == (Merit::DefensiveCombat(true, Some(Skill::Brawl)), 1u16)
    &&& c.merits@[3] == (Merit::Werewolf(WerewolfMerit::FavoredForm(Some(Form::Gauru))), 2u16)
    &&& c.merits@[4] == (Merit::Werewolf(WerewolfMerit::EfficientKiller), 2u16)
    &&& c.merits@[5] == (Merit::RelentlessAssault, 2u16)
    &&& c.merits@[6] matches (Merit::Language(n), 1u16) && n@ == "First Tongue"@
    &&& c.merits@[7] == (Merit::Werewolf(WerewolfMerit::Totem), 1u16)
    &&& fresh_sample(c)
}

fn sample_werewolf_sheet() -> (r: Character)
    ensures
        sample_werewolf(r),
{
    let mut skills = blank_skills();
    skills.investigation = 2;
    skills.medicine = 2;
    skills.athletics = 2;
    skills.brawl = 4;
    skills.stealth = 2;
    skills.survival = 3;
    skills.expression = 3;
    skills.intimidation = 4;
    let data = WerewolfData {
        skill_bonus: None,
        form: Form::Hishu,
        triggers: KuruthTriggers::default(),
        hunters_aspect: None,
        moon_gifts: Vec::new(),
        shadow_gifts: Vec::new(),
        wolf_gifts: Vec::new(),
        rites: Vec::new(),
    };
    let b = Character::builder().with_splat(
        Splat::Werewolf(Some(Auspice::Rahu), Some(Tribe::BloodTalons), None, Box::new(data)),
    ).with_info(info("Amos Gray", "m00n", "Destroyer", "Lone Wolf", "", "")).with_attributes(
        Attributes {
            intelligence: 1,
            wits: 3,
            resolve: 2,
            strength: 3,
            dexterity: 2,
            stamina: 3,
            presence: 3,
            manipulation: 1,
            composure: 3,
        },
    ).with_skills(skills);
    let b = b.with_specialties(Skill::Brawl, vec!["Claws".to_owned()]);
    proof {
        assert(b.specialties@ == seq![b.specialties@[0]]);
    }
    let b = b.with_specialties(Skill::Stealth, vec!["Stalking".to_owned()]);
    let b = b.with_specialties(Skill::Intimidation, vec!["Direct Threats".to_owned()]);
    let abilities = [(Ability::from(Renown::Glory), 1u16), (Ability::from(Renown::Purity), 3u16)];
    proof {
        lemma_abilities_from_distinct(abilities@);
    }
    let b = b.with_abilities(abilities);
    let b = b.with_merits(
        [
            (Merit::Giant, 3),
            (Merit::TrainedObserver, 1),
            (Merit::DefensiveCombat(true, Some(Skill::Brawl)), 1),
            (Merit::from(WerewolfMerit::FavoredForm(Some(Form::Gauru))), 2),
            (Merit::from(WerewolfMerit::EfficientKiller), 2),
            (Merit::RelentlessAssault, 2),
            (Merit::Language("First Tongue".to_owned()), 1),
            (Merit::from(WerewolfMerit::Totem), 1),
        ],
    );
    proof {
        lemma_builder_buildable(b);
    }
    b.build()
}

/// Polaris, a Mastigos of the Mysterium with a bonus dot of Resolve.
pub open spec fn sample_mage(c: Character) -> bool {
    &&& c.splat matches Splat::Mage(Path::Mastigos, Some(Order::Mysterium), None, d) && d.attr_bonus == Some(
        Attribute::Resolve,
    ) && d.obsessions@.len() == 0 && d.rotes@.len() == 0
    &&& info_is(c.info, "Polaris"@, "m00n"@, "Curious"@, "Greedy"@, "Astronomer"@, ""@)
    &&& c.base_attributes_view() == (Attributes {
        intelligence: 3,
        wits: 3,
        resolve: 3,
        strength: 2,
        dexterity: 3,
        stamina: 2,
        presence: 1,
        manipulation: 2,
        composure: 3,
    })
    &&& c.base_skills_view() == (Skills {
        academics: 2,
        computer: 1,
        crafts: 1,
        investigation: 3,
        occult: 3,
        science: 2,
        larceny: 2,
        stealth: 2,
        animal_ken: 1,
        empathy: 2,
        expression: 1,
        subterfuge: 3,
        ..no_skills()
    })
    &&& c.specialties@.len() == 5
    &&& specialty_is(c.specialties@[0], Skill::Academics, "Research"@)
    &&& specialty_is(c.specialties@[1], Skill::AnimalKen, "Felines"@)
    &&& specialty_is(c.specialties@[2], Skill::Subterfuge, "Detecting Lies"@)
    &&& specialty_is(c.specialties@[3], Skill::Investigation, "Riddles"@)
    &&& specialty_is(c.specialties@[4], Skill::Science, "Astronomy"@)
    &&& c.abilities@ == seq![
        (Ability::Arcanum(Arcanum::Mind), 1u16),
        (Ability::Arcanum(Arcanum::Prime), 2u16),
        (Ability::Arcanum(Arcanum::Space), 3u16),
    ]
    &&& c.merits@.len() == 4
    &&& c.merits@[0] matches (Merit::Status(n), 1u16) && n@ == "Mysterium"@
    &&& c.merits@[1] == (Merit::Mage(MageMerit::HighSpeech), 1u16)
    &&& c.merits@[2] matches (Merit::ProfessionalTraining(n, Some(ks), None), 3u16) && n@ == "e"@ && ks@ == seq![
        Skill::Investigation,
        Skill::Science,
    ]
    &&& c.merits@[3] == (Merit::TrainedObserver, 1u16)
    &&& fresh_sample(c)
}

fn sample_mage_sheet() -> (r: Character)
    ensures
        sample_mage(r),
{
    let mut skills = blank_skills();
    skills.academics = 2;
    skills.computer = 1;
    skills.crafts = 1;
    skills.investigation = 3;
    skills.occult = 3;
    skills.science = 2;
    skills.larceny = 2;
    skills.stealth = 2;
    skills.animal_ken = 1;
    skills.empathy = 2;
    skills.expression = 1;
    skills.subterfuge = 3;
    let data = MageData { attr_bonus: Some(Attribute::Resolve), obsessions: Vec::new(), rotes: Vec::new() };
    let b = Character::builder().with_splat(
        Splat::Mage(Path::Mastigos, Some(Order::Mysterium), None, Box::new(data)),
    ).with_info(info("Polaris", "m00n", "Curious", "Greedy", "Astronomer", "")).with_attributes(
        Attributes {
            intelligence: 3,
            wits: 3,
            resolve: 3,
            strength: 2,
            dexterity: 3,
            stamina: 2,
            presence: 1,
            manipulation: 2,
            composure: 3,
        },
    ).with_skills(skills);
    let b = b.with_specialties(Skill::Academics, vec!["Research".to_owned()]);
    proof {
        assert(b.specialties@ == seq![b.specialties@[0]]);
    }
    let b = b.with_specialties(Skill::AnimalKen, vec!["Felines".to_owned()]);
    let b = b.with_specialties(Skill::Subterfuge, vec!["Detecting Lies".to_owned()]);
    let b = b.with_specialties(Skill::Investigation, vec!["Riddles".to_owned()]);
    let b = b.with_specialties(Skill::Science, vec!["Astronomy".to_owned()]);
    let abilities = [
        (Ability::from(Arcanum::Mind), 1u16),
        (Ability::from(Arcanum::Prime), 2u16),
        (Ability::from(Arcanum::Space), 3u16),
    ];
    proof {
        lemma_abilities_from_distinct(abilities@);
    }
    let b = b.with_abilities(abilities);
    let b = b.with_merits(
        [
            (Merit::Status("Mysterium".to_owned()), 1),
            (Merit::from(MageMerit::HighSpeech), 1),
            (Merit::ProfessionalTraining("e".to_owned(), Some([Skill::Investigation, Skill::Science]), None), 3),
            (Merit::TrainedObserver, 1),
        ],
    );
    proof {
        lemma_builder_buildable(b);
    }
    b.build()
}

/// A Wizened changeling of the Autumn Court with the Crown as regalia, described by
/// player and concept only, with the ratings of a fresh sheet.
pub open spec fn sample_changeling(c: Character) -> bool {
    &&& c.splat matches Splat::Changeling(Seeming::Wizened, Some(Court::Autumn), None, d) && d.attr_bonus is None
        && d.regalia == Some(Regalia::Crown) && d.frailties@.len() == 0 && d.clarity.sum_spec() == 0
        && d.contracts@.len() == 0
    &&& info_is(c.info, ""@, "m00n"@, ""@, ""@, "Fae Magic Enthusiast"@, ""@)
    &&& forall|a: Attribute| #[trigger] c.base_attributes_view().get_spec(a) == 1
    &&& c.base_skills_view() == no_skills()
    &&& c.specialties@.len() == 0
    &&& c.abilities@.len() == 0
    &&& c.merits@.len() == 0
    &&& fresh_sample(c)
}

fn sample_changeling_sheet() -> (r: Character)
    ensures
        sample_changeling(r),
{
    let data = ChangelingData { regalia: Some(Regalia::Crown), ..ChangelingData::default() };
    let b = Character::builder().with_splat(
        Splat::Changeling(Seeming::Wizened, Some(Court::Autumn), None, Box::new(data)),
    ).with_info(info("", "m00n", "", "", "Fae Magic Enthusiast", "")).with_attributes(Attributes::default()).with_skills(
        blank_skills(),
    );
    let b = b.with_merits([]);
    proof {
        lemma_builder_buildable(b);
    }
    b.build()
}

/// The sample vampire has no modifiers at all, so its numbers are those of its ratings:
/// Health is Size 5 plus Stamina 2, Strength is one dot, Willpower is Resolve 2 plus
/// Composure 3, and fuel is ten for a tolerance of one.
pub proof fn lemma_sample_vampire_numbers(c: Character)
    requires
        sample_vampire(c),
    ensures
        character_modifiers(c).len() == 0,
        c.max_health_spec() == 7,
        c.attributes_spec().strength == 1,
        c.max_willpower_spec() == 5,
        c.max_fuel_spec() == 10,
{
    let ab = c.abilities@;
    let ms = c.merits@;
    reveal_with_fuel(ability_modifiers, 4);
    assert(ab.drop_last().drop_last().drop_last() =~= Seq::<(Ability, u16)>::empty());
    assert(ab.drop_last().drop_last().last() == ab[0]);
    assert(ab.drop_last().last() == ab[1]);
    assert(ab.last() == ab[2]);
    assert(ability_modifiers(ab) =~= Seq::<Modifier>::empty());
    assert forall|j: int| 0 <= j < 8 implies (#[trigger] ms[j]).0.modifiers_spec(ms[j].1).len() == 0 by {}
    lemma_no_merit_modifiers(ms);
    assert(splat_modifiers(c) =~= Seq::<Modifier>::empty());
    assert(character_modifiers(c) =~= Seq::<Modifier>::empty());
    assert forall|t: ModifierTarget| #[trigger] c.mod_sum(t) == 0 by {
        assert(uncond_entries(Seq::<Modifier>::empty()) =~= Seq::<(ModifierTarget, ModifierValue)>::empty());
        assert(cond_entries(Seq::<Modifier>::empty()) =~= Seq::<(ModifierTarget, Condition, ModifierValue)>::empty());
    }
    assert(c.mod_sum(ModifierTarget::Trait(crate::character::traits::Trait::Size)) == 0);
    assert(c.mod_sum(ModifierTarget::Trait(crate::character::traits::Trait::Health)) == 0);
    assert(c.mod_sum(ModifierTarget::Attribute(Attribute::Stamina)) == 0);
    assert(c.mod_sum(ModifierTarget::BaseAttribute(Attribute::Stamina)) == 0);
    assert(c.mod_sum(ModifierTarget::Attribute(Attribute::Strength)) == 0);
    assert(c.mod_sum(ModifierTarget::BaseAttribute(Attribute::Strength)) == 0);
    assert(c.mod_sum(ModifierTarget::Attribute(Attribute::Resolve)) == 0);
    assert(c.mod_sum(ModifierTarget::BaseAttribute(Attribute::Resolve)) == 0);
    assert(c.mod_sum(ModifierTarget::Attribute(Attribute::Composure)) == 0);
    assert(c.mod_sum(ModifierTarget::BaseAttribute(Attribute::Composure)) == 0);
}

/// The sample werewolf's numbers: Giant adds one to Size, Hishu form one to Perception,
/// the Full Moon gift of a Rahu with three dots of Purity adds Purity to Health, and
/// Defensive Combat puts Brawl in place of Athletics in Defense. So Size is 6, Health is
/// Size 6 plus Stamina 3 plus Purity 3, Perception is Wits 3 plus Composure 3 plus one,
/// and Defense is the lower of Wits 3 and Dexterity 2 plus Brawl 4.
#[verifier::rlimit(50)]
pub proof fn lemma_sample_werewolf_numbers(c: Character)
    requires
        sample_werewolf(c),
    ensures
        c.size_spec() == 6,
        c.max_health_spec() == 12,
        c.perception_spec() == 7,
        c.defense_skill() == Skill::Brawl,
        c.defense_spec() == 6,
{
    lemma_sample_werewolf_modifiers(c);
    let cms = character_modifiers(c);
    reveal_with_fuel(uncond_entries, 5);
    reveal_with_fuel(cond_entries, 5);
    reveal_with_fuel(uncond_sum, 5);
    let es = seq![
        (ModifierTarget::Trait(Trait::Size), ModifierValue::Num(1)),
        (ModifierTarget::Trait(Trait::Defense), ModifierValue::Skill(Skill::Brawl)),
        (ModifierTarget::Trait(Trait::Perception), ModifierValue::Num(1)),
        (ModifierTarget::Trait(Trait::Health), ModifierValue::Ability(Ability::Renown(Renown::Purity))),
    ];
    assert(cms.drop_last().drop_last().drop_last().drop_last() =~= Seq::<Modifier>::empty());
    assert(uncond_entries(cms) =~= es);
    assert(cond_entries(cms) =~= Seq::<(ModifierTarget, Condition, ModifierValue)>::empty());
    assert(es.drop_last().drop_last().drop_last().drop_last() =~= Seq::<(ModifierTarget, ModifierValue)>::empty());
    let t_size = ModifierTarget::Trait(Trait::Size);
    let t_health = ModifierTarget::Trait(Trait::Health);
    let t_perception = ModifierTarget::Trait(Trait::Perception);
    assert(c.mod_sum(t_size) == 1);
    assert(c.mod_sum(t_health) == 3);
    assert(c.mod_sum(t_perception) == 1);
    assert forall|a: Attribute| #[trigger] c.mod_sum(ModifierTarget::Attribute(a)) == 0 && c.mod_sum(
        ModifierTarget::BaseAttribute(a),
    ) == 0 by {}
    assert(c.mod_sum(ModifierTarget::Skill(Skill::Brawl)) == 0);
    assert(c.mod_sum(ModifierTarget::BaseSkill(Skill::Brawl)) == 0);
    assert(c.mod_sum(ModifierTarget::Attribute(Attribute::Stamina)) == 0);
    assert(c.mod_sum(ModifierTarget::Attribute(Attribute::Wits)) == 0);
    assert(c.mod_sum(ModifierTarget::Attribute(Attribute::Composure)) == 0);
    assert(c.mod_sum(ModifierTarget::Attribute(Attribute::Dexterity)) == 0);
    assert(c.mod_sum(ModifierTarget::BaseAttribute(Attribute::Stamina)) == 0);
    assert(c.mod_sum(ModifierTarget::BaseAttribute(Attribute::Wits)) == 0);
    assert(c.mod_sum(ModifierTarget::BaseAttribute(Attribute::Composure)) == 0);
    assert(c.mod_sum(ModifierTarget::BaseAttribute(Attribute::Dexterity)) == 0);
    let ms = c.merits@;
    assert forall|i: int| 0 <= i < ms.len() implies (#[trigger] defensive_combat_skill(ms[i].0)) is None
        || defensive_combat_skill(ms[i].0) == Some(Skill::Brawl) by {}
    let ab = c.abilities@;
    assert forall|i: int| 0 <= i < ab.len() implies (#[trigger] ability_defense_skill(ab[i].0)) is None
        || ability_defense_skill(ab[i].0) == Some(Skill::Brawl) by {}
    assert(defensive_combat_skill(ms[2].0) is Some);
    lemma_defense_skill(c, Skill::Brawl);
    assert(c.attributes_spec().wits == 3);
    assert(c.attributes_spec().dexterity == 2);
    assert(c.skills_spec().brawl == 4);
    reveal_with_fuel(crate::dice_pool::flat_pool_value, 4);
    assert(crate::dice_pool::flat_pool_value(c, crate::character::defense_pool_of(Skill::Brawl)) == 6);
}

/// The modifiers of the sample werewolf, in order: Giant's, Defensive Combat's, Hishu
/// form's and the Full Moon gift's; and the tables filed from them.
proof fn lemma_sample_werewolf_modifiers(c: Character)
    requires
        sample_werewolf(c),
    ensures
        character_modifiers(c) == seq![
            plain(ModifierTarget::Trait(Trait::Size), ModifierValue::Num(1), ModifierOp::Add),
            plain(ModifierTarget::Trait(Trait::Defense), ModifierValue::Skill(Skill::Brawl), ModifierOp::Replace),
            plain_add(ModifierTarget::Trait(Trait::Perception), 1),
            Modifier {
                target: ModifierTarget::Trait(Trait::Health),
                value: ModifierValue::Ability(Ability::Renown(Renown::Purity)),
                op: ModifierOp::Add,
                condition: None,
            },
        ],
        crate::character::ability_value(c.abilities@, Ability::Renown(Renown::Purity)) == Some(3u16),
{
    let ab = c.abilities@;
    let ms = c.merits@;
    reveal_with_fuel(ability_modifiers, 3);
    reveal_with_fuel(merit_modifiers, 9);
    assert(ab.drop_last().drop_last() =~= Seq::<(Ability, u16)>::empty());
    assert(ab.drop_last().last() == ab[0]);
    assert(ab.last() == ab[1]);
    assert(ability_modifiers(ab) =~= Seq::<Modifier>::empty());
    assert(crate::character::first_ability_index(ab, Ability::Renown(Renown::Purity), 1));
    crate::character::lemma_first_index_unique(ab, Ability::Renown(Renown::Purity), 1);
    let giant = plain(ModifierTarget::Trait(Trait::Size), ModifierValue::Num(1), ModifierOp::Add);
    let dc = plain(ModifierTarget::Trait(Trait::Defense), ModifierValue::Skill(Skill::Brawl), ModifierOp::Replace);
    assert(ms =~= seq![ms[0], ms[1], ms[2], ms[3], ms[4], ms[5], ms[6], ms[7]]);
    assert(merit_modifiers(ms) =~= seq![giant, dc]);
    assert(splat_modifiers(c) =~= seq![
        plain_add(ModifierTarget::Trait(Trait::Perception), 1),
        Modifier {
            target: ModifierTarget::Trait(Trait::Health),
            value: ModifierValue::Ability(Ability::Renown(Renown::Purity)),
            op: ModifierOp::Add,
            condition: None,
        },
    ]);
}

/// A list of merits none of which grants a modifier gives an empty list of modifiers.
proof fn lemma_no_merit_modifiers(s: Seq<(Merit, u16)>)
    requires
        forall|j: int| 0 <= j < s.len() ==> (#[trigger] s[j]).0.modifiers_spec(s[j].1).len() == 0,
    ensures
        merit_modifiers(s).len() == 0,
    decreases s.len(),
{
    if s.len() > 0 {
        let d = s.drop_last();
        assert forall|j: int| 0 <= j < d.len() implies (#[trigger] d[j]).0.modifiers_spec(d[j].1).len() == 0 by {
            assert(d[j] == s[j]);
        }
        lemma_no_merit_modifiers(d);
        assert(s[s.len() - 1] == s.last());
    }
}

/// Four sample sheets, put together with the builder: a vampire, a mage, a werewolf and a
/// changeling, in that order.
pub fn demo_characters() -> (r: [Character; 4])
    ensures
        sample_vampire(r[0]),
        sample_mage(r[1]),
        sample_werewolf(r[2]),
        sample_changeling(r[3]),
{
    [sample_vampire_sheet(), sample_mage_sheet(), sample_werewolf_sheet(), sample_changeling_sheet()]
}

} // verus!
