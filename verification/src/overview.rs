//! Editing a sheet from its overview page: each edit that the page can make, and what it
//! does to the sheet.
use vstd::prelude::*;

use crate::character::modifier::{character_modifiers, cond_entries, uncond_entries, Modifier, ModifierTarget, ModifierValue};
use crate::character::traits::{Attribute, Skill, Trait};
use crate::character::{
    ability_insert, ability_remove, ability_value, first_index, has_ability_spec, in_i16, vec_changed, Character,
    Damage, Wound,
};
use crate::splat::ability::Ability;
use crate::splat::changeling::{ChangelingData, Regalia};
use crate::splat::mage::{MageData, Ministry, Order};
use crate::splat::vampire::VampireData;
use crate::splat::werewolf::{HuntersAspect, KuruthTrigger, KuruthTriggerSet, KuruthTriggers, WerewolfData};
use crate::splat::{Merit, Splat};

verus! {

/// An edit made on the overview page of a sheet.
pub enum OverviewEvent {
    AttrChanged(u16, Attribute),
    SkillChanged(u16, Skill),
    TraitChanged(u16, Trait),
    AbilityValChanged(Ability, u16),
    AbilityChanged(Ability, Ability),
    MeritChanged(usize, Merit, u16),
    HealthChanged(Wound),
    ConditionChanged(usize, String),
    AspirationChanged(usize, String),
    SplatThingChanged(usize, String),
    RegaliaChanged(Regalia),
    KuruthTriggersChanged(KuruthTriggers),
    KuruthTriggerChanged(KuruthTrigger, String),
    HuntersAspectChanged(HuntersAspect),
    RoteSkillChanged(Skill),
    Msg,
}

/// The modifier tables of `c` are those computed from its abilities, merits and splat.
pub open spec fn tables_match(c: Character) -> bool {
    &&& c.modifiers_view().entries() == uncond_entries(character_modifiers(c))
    &&& c.modifiers_view().conditional_entries() == cond_entries(character_modifiers(c))
}

/// `new` is `old` with `val` at index `i`; where `old` was too short, the slots from its
/// end up to `i` hold empty strings.
pub open spec fn list_set(old: Seq<String>, i: int, val: String, new: Seq<String>) -> bool {
    &&& new.len() == if i < old.len() {
        old.len() as int
    } else {
        i + 1
    }
    &&& new[i] == val
    &&& forall|j: int| 0 <= j < old.len() && j != i ==> new[j] == old[j]
    &&& forall|j: int| old.len() <= j < i ==> (#[trigger] new[j])@.len() == 0
}

/// Whether `vec_changed` may be called on a list of `len` entries at index `i`.
pub open spec fn list_index_ok(len: nat, i: usize) -> bool {
    i < len || i < usize::MAX
}

/// The list of a splat that the overview page edits line by line: a changeling's
/// frailties, a vampire's banes, a mage's obsessions.
pub open spec fn splat_list(s: Splat) -> Option<Seq<String>> {
    match s {
        Splat::Changeling(_, _, _, d) => Some(d.frailties@),
        Splat::Vampire(_, _, _, d) => Some(d.banes@),
        Splat::Mage(_, _, _, d) => Some(d.obsessions@),
        _ => None,
    }
}

/// `new` is the splat `old` with its edited list changed as `list_set` says, and nothing
/// else changed; a splat without such a list stays as it is.
pub open spec fn splat_thing_set(old: Splat, i: int, val: String, new: Splat) -> bool {
    match old {
        Splat::Changeling(a, b, k, d) => new matches Splat::Changeling(a2, b2, k2, d2) && a2 == a && b2 == b
            && k2 == k && *d2 == (ChangelingData { frailties: d2.frailties, ..*d }) && list_set(
            d.frailties@,
            i,
            val,
            d2.frailties@,
        ),
        Splat::Vampire(a, b, k, d) => new matches Splat::Vampire(a2, b2, k2, d2) && a2 == a && b2 == b && k2 == k
            && *d2 == (VampireData { banes: d2.banes, ..*d }) && list_set(d.banes@, i, val, d2.banes@),
        Splat::Mage(a, b, k, d) => new matches Splat::Mage(a2, b2, k2, d2) && a2 == a && b2 == b && k2 == k
            && *d2 == (MageData { obsessions: d2.obsessions, ..*d }) && list_set(d.obsessions@, i, val, d2.obsessions@),
        _ => new == old,
    }
}

/// The three rote skills after `skill` is picked: unless they hold it already, the first
/// leaves, the other two move up, and `skill` comes last.
pub open spec fn rote_picked(rs: [Skill; 3], skill: Skill, rs2: [Skill; 3]) -> bool {
    if rs@.contains(skill) {
        rs2 == rs
    } else {
        rs2@ == seq![rs@[1], rs@[2], skill]
    }
}

/// `new` is the splat `old` after a rote skill is picked: a mage whose order, or whose
/// ministry of the Seers of the Throne, is a custom one has its three rote skills changed
/// as `rote_picked` says; any other splat stays as it is.
pub open spec fn rote_skill_set(old: Splat, skill: Skill, new: Splat) -> bool {
    match old {
        Splat::Mage(p, Some(Order::_Custom(name, rs)), l, d) => new matches Splat::Mage(
            p2,
            Some(Order::_Custom(name2, rs2)),
            l2,
            d2,
        ) && p2 == p && name2 == name && l2 == l && d2 == d && rote_picked(rs, skill, rs2),
        Splat::Mage(p, Some(Order::SeersOfTheThrone(Some(Ministry::_Custom(name, rs)))), l, d) => new matches Splat::Mage(
            p2,
            Some(Order::SeersOfTheThrone(Some(Ministry::_Custom(name2, rs2)))),
            l2,
            d2,
        ) && p2 == p && name2 == name && l2 == l && d2 == d && rote_picked(rs, skill, rs2),
        _ => new == old,
    }
}

/// A changeling's regalia set to `r`; other splats stay as they are.
pub open spec fn with_regalia(s: Splat, r: Regalia) -> Splat {
    match s {
        Splat::Changeling(a, b, k, d) => Splat::Changeling(a, b, k, Box::new(ChangelingData { regalia: Some(r), ..*d })),
        _ => s,
    }
}

/// A werewolf's Kuruth triggers set to `t`; other splats stay as they are.
pub open spec fn with_triggers(s: Splat, t: KuruthTriggers) -> Splat {
    match s {
        Splat::Werewolf(a, b, k, d) => Splat::Werewolf(a, b, k, Box::new(WerewolfData { triggers: t, ..*d })),
        _ => s,
    }
}

/// One trigger of a custom set changed to `val`.
pub open spec fn trigger_set_with(set: KuruthTriggerSet, k: KuruthTrigger, val: String) -> KuruthTriggerSet {
    match k {
        KuruthTrigger::Passive => KuruthTriggerSet { passive: val, ..set },
        KuruthTrigger::Common => KuruthTriggerSet { common: val, ..set },
        KuruthTrigger::Specific => KuruthTriggerSet { specific: val, ..set },
    }
}

/// A werewolf's custom Kuruth trigger `k` set to `val`; a werewolf with one of the
/// standard sets of triggers, and any other splat, stay as they are.
pub open spec fn with_trigger(s: Splat, k: KuruthTrigger, val: String) -> Splat {
    match s {
        Splat::Werewolf(a, b, l, d) => match d.triggers {
            KuruthTriggers::_Custom(set) => Splat::Werewolf(
                a,
                b,
                l,
                Box::new(WerewolfData { triggers: KuruthTriggers::_Custom(trigger_set_with(set, k, val)), ..*d }),
            ),
            _ => s,
        },
        _ => s,
    }
}

/// A werewolf's hunter's aspect set to `h`; other splats stay as they are.
pub open spec fn with_aspect(s: Splat, h: HuntersAspect) -> Splat {
    match s {
        Splat::Werewolf(a, b, k, d) => Splat::Werewolf(a, b, k, Box::new(WerewolfData { hunters_aspect: Some(h), ..*d })),
        _ => s,
    }
}

/// The rating of ability `a` set to `v` where the sheet has it; else the list as it is.
pub open spec fn ability_rerated(s: Seq<(Ability, u16)>, a: Ability, v: u16) -> Seq<(Ability, u16)> {
    match ability_value(s, a) {
        Some(_) => s.update(first_index(s, a), (s[first_index(s, a)].0, v)),
        None => s,
    }
}

/// Ability `a` after it is swapped for `b`: where the sheet has `a`, it is taken off and
/// `b` rated as `a` was; else `a` is added with no dots.
pub open spec fn ability_swapped(s: Seq<(Ability, u16)>, a: Ability, b: Ability) -> Seq<(Ability, u16)> {
    if has_ability_spec(s, a) {
        ability_insert(
            ability_remove(s, a),
            b,
            match ability_value(s, a) {
                Some(v) => v,
                None => 0u16,
            },
        )
    } else {
        ability_insert(s, a, 0)
    }
}

/// The new value of a trait set to `v`, where the page can set that trait.
pub open spec fn trait_set(c: Character, t: Trait, v: u16) -> Character {
    match t {
        Trait::Size => Character {
            base_size: ((((v as i16) - c.mod_sum(ModifierTarget::Trait(Trait::Size))) as i16) as u16),
            ..c
        },
        Trait::Willpower => Character { willpower: v, ..c },
        Trait::Power => Character { power: v, ..c },
        Trait::Fuel => Character { fuel: v, ..c },
        Trait::Integrity => Character { integrity: v, ..c },
        Trait::Beats => Character { beats: v, ..c },
        _ => c,
    }
}

/// Whether the modifiers that a merit gives change when `old` is replaced by `m` rated `v`.
pub open spec fn merit_modifiers_change(old: (Merit, u16), m: Merit, v: u16) -> bool {
    old.0.modifiers_spec(old.1) != m.modifiers_spec(v)
}

/// On which sheets an edit can be made: setting Size needs its modifier and the new base
/// size to fit an `i16`; a merit is put at an index up to the number of merits; a box of
/// the health track can only take a kind of damage that is not already at its count's
/// limit; a line of a list is set below the largest index there is.
pub open spec fn overview_edit_ok(c: Character, e: OverviewEvent) -> bool {
    match e {
        OverviewEvent::TraitChanged(v, Trait::Size) => {
            &&& c.mod_fits(ModifierTarget::Trait(Trait::Size))
            &&& in_i16((v as i16) - c.mod_sum(ModifierTarget::Trait(Trait::Size)))
        },
        OverviewEvent::MeritChanged(i, _, _) => i <= c.merits@.len(),
        OverviewEvent::HealthChanged(w) => c.health_view().poke_ok(w),
        OverviewEvent::ConditionChanged(i, _) => list_index_ok(c.conditions@.len(), i),
        OverviewEvent::AspirationChanged(i, _) => list_index_ok(c.aspirations@.len(), i),
        OverviewEvent::SplatThingChanged(i, _) => match splat_list(c.splat) {
            Some(l) => list_index_ok(l.len(), i),
            None => true,
        },
        _ => true,
    }
}

/// What an edit does to a sheet, and whether the modifier tables are recomputed.
pub open spec fn overview_edit(old: Character, e: OverviewEvent, new: Character, recompute: bool) -> bool {
    match e {
        OverviewEvent::AttrChanged(v, a) => !recompute && new == (Character {
            _attributes: old._attributes.with_attr(a, v),
            ..old
        }),
        OverviewEvent::SkillChanged(v, s) => !recompute && new == (Character { skills: old.skills.with_skill(s, v), ..old }),
        OverviewEvent::TraitChanged(v, t) => !recompute && new == trait_set(old, t, v),
        OverviewEvent::AbilityValChanged(a, v) => {
            &&& recompute
            &&& new.abilities@ == ability_rerated(old.abilities@, a, v)
            &&& new == (Character { abilities: new.abilities, modifiers: new.modifiers, ..old })
            &&& tables_match(new)
        },
        OverviewEvent::AbilityChanged(a, b) => {
            &&& !recompute
            &&& new.abilities@ == ability_swapped(old.abilities@, a, b)
            &&& new == (Character { abilities: new.abilities, ..old })
        },
        OverviewEvent::MeritChanged(i, m, v) => {
            &&& recompute == if i == old.merits@.len() {
                m.modifiers_spec(v).len() > 0
            } else {
                merit_modifiers_change(old.merits@[i as int], m, v)
            }
            &&& new.merits@ == if i == old.merits@.len() {
                old.merits@.push((m, v))
            } else {
                old.merits@.update(i as int, (m, v))
            }
            &&& if recompute {
                new == (Character { merits: new.merits, modifiers: new.modifiers, ..old }) && tables_match(new)
            } else {
                new == (Character { merits: new.merits, ..old })
            }
        },
        OverviewEvent::HealthChanged(w) => {
            &&& !recompute
            &&& old.health_view().poked(w, new.health_view())
            &&& new == (Character { health: new.health, ..old })
        },
        OverviewEvent::ConditionChanged(i, s) => {
            &&& !recompute
            &&& list_set(old.conditions@, i as int, s, new.conditions@)
            &&& new == (Character { conditions: new.conditions, ..old })
        },
        OverviewEvent::AspirationChanged(i, s) => {
            &&& !recompute
            &&& list_set(old.aspirations@, i as int, s, new.aspirations@)
            &&& new == (Character { aspirations: new.aspirations, ..old })
        },
        OverviewEvent::SplatThingChanged(i, s) => {
            &&& !recompute
            &&& splat_thing_set(old.splat, i as int, s, new.splat)
            &&& new == (Character { splat: new.splat, ..old })
        },
        OverviewEvent::RegaliaChanged(r) => !recompute && new == (Character { splat: with_regalia(old.splat, r), ..old }),
        OverviewEvent::KuruthTriggersChanged(t) => !recompute && new == (Character {
            splat: with_triggers(old.splat, t),
            ..old
        }),
        OverviewEvent::KuruthTriggerChanged(k, s) => !recompute && new == (Character {
            splat: with_trigger(old.splat, k, s),
            ..old
        }),
        OverviewEvent::HuntersAspectChanged(h) => !recompute && new == (Character {
            splat: with_aspect(old.splat, h),
            ..old
        }),
        OverviewEvent::RoteSkillChanged(skill) => {
            &&& !recompute
            &&& rote_skill_set(old.splat, skill, new.splat)
            &&& new == (Character { splat: new.splat, ..old })
        },
        OverviewEvent::Msg => !recompute && new == old,
    }
}

/// Applies an edit from the overview page to a sheet, recomputing the modifier tables
/// where the edit can change them; tells whether it did.
pub fn apply_overview_event(c: &mut Character, e: OverviewEvent) -> (recompute: bool)
    requires
        overview_edit_ok(*old(c), e),
    ensures
        overview_edit(*old(c), e, *final(c), recompute),
{
    match e {
        OverviewEvent::AttrChanged(v, a) => {
            *c.base_attributes_mut().get_mut(&a) = v;
            false
        },
        OverviewEvent::SkillChanged(v, s) => {
            *c.base_skills_mut().get_mut(s) = v;
            false
        },
        OverviewEvent::TraitChanged(v, t) => {
            match t {
                Trait::Size => {
                    let m = c.get_modifier(ModifierTarget::Trait(Trait::Size));
                    let wide: i16 = #[verifier::truncate] (v as i16);
                    let diff: i16 = wide - m;
                    c.base_size = #[verifier::truncate] (diff as u16);
                },
                Trait::Willpower => c.willpower = v,
                Trait::Power => c.power = v,
                Trait::Fuel => c.fuel = v,
                Trait::Integrity => c.integrity = v,
                Trait::Beats => c.beats = v,
                _ => {},
            }
            false
        },
        OverviewEvent::AbilityValChanged(a, v) => {
            if let Some(x) = c.get_ability_value_mut(&a) {
                *x = v;
            }
            c.calc_mod_map();
            true
        },
        OverviewEvent::AbilityChanged(a, b) => {
            if c.has_ability(&a) {
                let val = match c.remove_ability(&a) {
                    Some(v) => v,
                    None => 0,
                };
                c.add_ability(b, val);
            } else {
                c.add_ability(a, 0);
            }
            false
        },
        OverviewEvent::MeritChanged(i, m, v) => {
            let ghost merits_before = c.merits@;
            let ghost entry = (m, v);
            let flag = if c.merits.len() == i {
                let flag = m.get_modifiers(v).len() > 0;
                c.merits.push((m, v));
                flag
            } else {
                let old = c.merits.remove(i);
                let before = old.0.get_modifiers(old.1);
                let after = m.get_modifiers(v);
                let flag = !same_merit_modifiers(&before, &after);
                c.merits.insert(i, (m, v));
                assert(c.merits@ =~= merits_before.update(i as int, entry));
                flag
            };
            if flag {
                c.calc_mod_map();
            }
            flag
        },
        OverviewEvent::HealthChanged(w) => {
            c.health_mut().poke(&w);
            false
        },
        OverviewEvent::ConditionChanged(i, s) => {
            vec_changed(i, s, &mut c.conditions);
            false
        },
        OverviewEvent::AspirationChanged(i, s) => {
            vec_changed(i, s, &mut c.aspirations);
            false
        },
        OverviewEvent::SplatThingChanged(i, s) => {
            match &mut c.splat {
                Splat::Changeling(_, _, _, data) => vec_changed(i, s, &mut data.frailties),
                Splat::Vampire(_, _, _, data) => vec_changed(i, s, &mut data.banes),
                Splat::Mage(_, _, _, data) => vec_changed(i, s, &mut data.obsessions),
                _ => {},
            }
            false
        },
        OverviewEvent::RegaliaChanged(r) => {
            if let Splat::Changeling(_, _, _, data) = &mut c.splat {
                data.regalia = Some(r);
            }
            false
        },
        OverviewEvent::KuruthTriggersChanged(t) => {
            if let Splat::Werewolf(_, _, _, data) = &mut c.splat {
                data.triggers = t;
            }
            false
        },
        OverviewEvent::KuruthTriggerChanged(k, s) => {
            if let Splat::Werewolf(_, _, _, data) = &mut c.splat {
                if let KuruthTriggers::_Custom(set) = &mut data.triggers {
                    match k {
                        KuruthTrigger::Passive => set.passive = s,
                        KuruthTrigger::Common => set.common = s,
                        KuruthTrigger::Specific => set.specific = s,
                    }
                }
            }
            false
        },
        OverviewEvent::HuntersAspectChanged(h) => {
            if let Splat::Werewolf(_, _, _, data) = &mut c.splat {
                data.hunters_aspect = Some(h);
            }
            false
        },
        OverviewEvent::RoteSkillChanged(skill) => {
            match &mut c.splat {
                Splat::Mage(_, Some(Order::_Custom(_, rs)), _, _) => pick_rote_skill(rs, skill),
                Splat::Mage(_, Some(Order::SeersOfTheThrone(Some(Ministry::_Custom(_, rs)))), _, _) => pick_rote_skill(
                    rs,
                    skill,
                ),
                _ => {},
            }
            false
        },
        OverviewEvent::Msg => false,
    }
}

/// Picks a rote skill: unless the three hold it already, the first leaves, the other two
/// move up, and `skill` comes last.
fn pick_rote_skill(rs: &mut [Skill; 3], skill: Skill)
    ensures
        rote_picked(*old(rs), skill, *final(rs)),
{
    if !(rs[0] == skill || rs[1] == skill || rs[2] == skill) {
        let a = rs[1];
        let b = rs[2];
        *rs = [a, b, skill];
        assert(final(rs)@ =~= seq![old(rs)@[1], old(rs)@[2], skill]);
    } else {
        assert(old(rs)@.contains(skill));
    }
}

/// A merit modifier holds a number or a skill, never an ability or a dice pool.
pub open spec fn plain_valued(m: Modifier) -> bool {
    m.value is Num || m.value is Skill
}

/// Whether two lists of merit modifiers are equal.
fn same_merit_modifiers(a: &Vec<Modifier>, b: &Vec<Modifier>) -> (r: bool)
    requires
        forall|i: int| 0 <= i < a@.len() ==> plain_valued(#[trigger] a@[i]),
        forall|i: int| 0 <= i < b@.len() ==> plain_valued(#[trigger] b@[i]),
    ensures
        r == (a@ == b@),
{
    if a.len() != b.len() {
        return false;
    }
    let mut i: usize = 0;
    while i < a.len()
        invariant
            a@.len() == b@.len(),
            i <= a@.len(),
            forall|j: int| 0 <= j < a@.len() ==> plain_valued(#[trigger] a@[j]),
            forall|j: int| 0 <= j < b@.len() ==> plain_valued(#[trigger] b@[j]),
            forall|j: int| 0 <= j < i ==> a@[j] == b@[j],
        decreases a@.len() - i,
    {
        if !same_modifier(&a[i], &b[i]) {
            return false;
        }
        i += 1;
    }
    assert(a@ =~= b@);
    true
}

fn same_modifier(x: &Modifier, y: &Modifier) -> (r: bool)
    requires
        plain_valued(*x),
        plain_valued(*y),
    ensures
        r == (*x == *y),
{
    let same_value = match (&x.value, &y.value) {
        (ModifierValue::Num(p), ModifierValue::Num(q)) => *p == *q,
        (ModifierValue::Skill(p), ModifierValue::Skill(q)) => *p == *q,
        _ => false,
    };
    let same_condition = match (x.condition, y.condition) {
        (Some(p), Some(q)) => p == q,
        (None, None) => true,
        _ => false,
    };
    same_value && x.target == y.target && x.op == y.op && same_condition
}

} // verus!
