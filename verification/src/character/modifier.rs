use vstd::prelude::*;

use super::traits::{attribute_column, column_attributes, Attribute, AttributeType, Skill, Trait};
use super::{ability_value, defense_pool_of, in_i16, Character, Skills};
use crate::splat::Merit;
use crate::dice_pool::{pool_ok, pool_value, DicePool};
use crate::splat::ability::Ability;
use crate::splat::werewolf::Form;
use crate::splat::Splat;

verus! {

/// A change to a trait: what it changes, by how much, how, and under which condition.
#[derive(Debug)]
pub struct Modifier {
    pub target: ModifierTarget,
    pub value: ModifierValue,
    pub op: ModifierOp,
    pub condition: Option<Condition>,
}

impl Modifier {
    /// An unconditional modifier.
    pub fn new(target: ModifierTarget, value: ModifierValue, op: ModifierOp) -> (r: Self)
        ensures
            r == (Modifier { target, value, op, condition: None }),
    {
        Self { target, value, op, condition: None }
    }

    /// A modifier that applies only while `condition` holds.
    pub fn conditional(
        target: ModifierTarget,
        value: ModifierValue,
        op: ModifierOp,
        condition: Condition,
    ) -> (r: Self)
        ensures
            r == (Modifier { target, value, op, condition: Some(condition) }),
    {
        Self { target, value, op, condition: Some(condition) }
    }

    /// The fixed number of the modifier, where it is one; a skill or an ability has none.
    pub fn val(&self) -> (r: Option<i16>)
        requires
            !(self.value is DicePool),
        ensures
            r == (match self.value {
                ModifierValue::Num(n) => Some(n),
                _ => None,
            }),
    {
        match self.value {
            ModifierValue::Num(val) => Some(val),
            ModifierValue::Skill(_) | ModifierValue::Ability(_) => None,
            ModifierValue::DicePool(_) => None,
        }
    }
}

/// What a modifier changes. A base target changes the dots themselves, which counts
/// towards the cap of five; a plain target changes the rating only.
#[derive(Clone, Copy, Debug, Hash, PartialEq, Eq, Structural)]
pub enum ModifierTarget {
    BaseAttribute(Attribute),
    BaseSkill(Skill),
    Attribute(Attribute),
    Skill(Skill),
    Trait(Trait),
}

impl From<Attribute> for ModifierTarget {
    fn from(attr: Attribute) -> (r: Self) {
        ModifierTarget::Attribute(attr)
    }
}

impl vstd::std_specs::convert::FromSpecImpl<Attribute> for ModifierTarget {
    open spec fn obeys_from_spec() -> bool {
        true
    }

    open spec fn from_spec(v: Attribute) -> Self {
        ModifierTarget::Attribute(v)
    }
}

impl From<Skill> for ModifierTarget {
    fn from(value: Skill) -> (r: Self) {
        ModifierTarget::Skill(value)
    }
}

impl vstd::std_specs::convert::FromSpecImpl<Skill> for ModifierTarget {
    open spec fn obeys_from_spec() -> bool {
        true
    }

    open spec fn from_spec(v: Skill) -> Self {
        ModifierTarget::Skill(v)
    }
}

impl From<Trait> for ModifierTarget {
    fn from(value: Trait) -> (r: Self) {
        ModifierTarget::Trait(value)
    }
}

impl vstd::std_specs::convert::FromSpecImpl<Trait> for ModifierTarget {
    open spec fn obeys_from_spec() -> bool {
        true
    }

    open spec fn from_spec(v: Trait) -> Self {
        ModifierTarget::Trait(v)
    }
}

/// How much a modifier changes its target by: a number, the dots of an ability, the dots
/// of a base skill, or a dice pool.
#[derive(Debug)]
pub enum ModifierValue {
    Num(i16),
    Ability(Ability),
    Skill(Skill),
    DicePool(DicePool),
}

/// What the value of a table entry reads of a character: its rated abilities, its
/// unmodified skills, and the form it is in if it is a werewolf.
pub struct ModifierContext {
    pub abilities: Seq<(Ability, u16)>,
    pub skills: Skills,
    pub form: Option<Form>,
}

/// The form of a werewolf sheet; `None` for every other splat.
pub open spec fn werewolf_form(s: Splat) -> Option<Form> {
    match s {
        Splat::Werewolf(.., data) => Some(data.form),
        _ => None,
    }
}

pub open spec fn context_of(ch: Character) -> ModifierContext {
    ModifierContext { abilities: ch.abilities@, skills: ch.base_skills_view(), form: werewolf_form(ch.splat) }
}

/// The number a value stands for, read from the character's unmodified ratings; a dice
/// pool counts for nothing here (none ever enters a character's modifier tables).
pub open spec fn simple_value(cx: ModifierContext, v: ModifierValue) -> int {
    match v {
        ModifierValue::Num(n) => n as int,
        ModifierValue::Ability(a) => (match ability_value(cx.abilities, a) {
            Some(x) => x,
            None => 0u16,
        }) as i16 as int,
        ModifierValue::Skill(s) => (cx.skills.get_spec(s) as i16) as int,
        ModifierValue::DicePool(_) => 0,
    }
}

/// The number a value stands for.
pub open spec fn modifier_value(ch: Character, v: ModifierValue) -> int {
    match v {
        ModifierValue::DicePool(p) => pool_value(ch, p),
        _ => simple_value(context_of(ch), v),
    }
}

impl ModifierValue {
    /// The number this value stands for on `character`.
    pub fn value(&self, character: &Character) -> (r: i16)
        requires
            match *self {
                ModifierValue::DicePool(p) => pool_ok(*character, p),
                _ => true,
            },
        ensures
            r == modifier_value(*character, *self),
    {
        match self {
            ModifierValue::DicePool(pool) => pool.value(character),
            _ => simple_value_of(self, character),
        }
    }
}

fn simple_value_of(v: &ModifierValue, character: &Character) -> (r: i16)
    ensures
        r == simple_value(context_of(*character), *v),
{
    match v {
        ModifierValue::Num(value) => *value,
        ModifierValue::Ability(ability) => match character.get_ability_value(ability) {
            Some(x) => *x as i16,
            None => 0u16 as i16,
        },
        ModifierValue::Skill(skill) => character.base_skills().get(*skill) as i16,
        ModifierValue::DicePool(_) => 0,
    }
}

impl From<i16> for ModifierValue {
    fn from(value: i16) -> (r: Self) {
        ModifierValue::Num(value)
    }
}

impl vstd::std_specs::convert::FromSpecImpl<i16> for ModifierValue {
    open spec fn obeys_from_spec() -> bool {
        true
    }

    open spec fn from_spec(v: i16) -> Self {
        ModifierValue::Num(v)
    }
}

impl From<u16> for ModifierValue {
    fn from(value: u16) -> (r: Self) {
        ModifierValue::Num(value as i16)
    }
}

impl vstd::std_specs::convert::FromSpecImpl<u16> for ModifierValue {
    open spec fn obeys_from_spec() -> bool {
        true
    }

    open spec fn from_spec(v: u16) -> Self {
        ModifierValue::Num(v as i16)
    }
}

impl From<i32> for ModifierValue {
    fn from(value: i32) -> (r: Self) {
        ModifierValue::Num(value as i16)
    }
}

impl vstd::std_specs::convert::FromSpecImpl<i32> for ModifierValue {
    open spec fn obeys_from_spec() -> bool {
        true
    }

    open spec fn from_spec(v: i32) -> Self {
        ModifierValue::Num(v as i16)
    }
}

impl From<Ability> for ModifierValue {
    fn from(value: Ability) -> (r: Self) {
        ModifierValue::Ability(value)
    }
}

impl vstd::std_specs::convert::FromSpecImpl<Ability> for ModifierValue {
    open spec fn obeys_from_spec() -> bool {
        true
    }

    open spec fn from_spec(v: Ability) -> Self {
        ModifierValue::Ability(v)
    }
}

impl From<Skill> for ModifierValue {
    fn from(value: Skill) -> (r: Self) {
        ModifierValue::Skill(value)
    }
}

impl vstd::std_specs::convert::FromSpecImpl<Skill> for ModifierValue {
    open spec fn obeys_from_spec() -> bool {
        true
    }

    open spec fn from_spec(v: Skill) -> Self {
        ModifierValue::Skill(v)
    }
}

impl From<DicePool> for ModifierValue {
    fn from(value: DicePool) -> (r: Self) {
        ModifierValue::DicePool(value)
    }
}

impl vstd::std_specs::convert::FromSpecImpl<DicePool> for ModifierValue {
    open spec fn obeys_from_spec() -> bool {
        true
    }

    open spec fn from_spec(v: DicePool) -> Self {
        ModifierValue::DicePool(v)
    }
}

#[derive(Clone, Copy, Debug, PartialEq, Eq, Structural)]
pub enum ModifierOp {
    Add,
    Replace,
}

impl ModifierOp {
    pub fn name(&self) -> (r: &'static str)
        ensures
            r@ == (match self {
                ModifierOp::Add => "add"@,
                ModifierOp::Replace => "set"@,
            }),
    {
        match self {
            ModifierOp::Add => "add",
            ModifierOp::Replace => "set",
        }
    }
}

/// When a conditional modifier applies.
#[derive(Clone, Copy, Hash, Debug, PartialEq, Eq, Structural)]
pub enum Condition {
    WerewolfForm(Form),
}

/// Whether the condition holds of the character: a werewolf in the given form.
pub open spec fn cond_holds(cx: ModifierContext, c: Condition) -> bool {
    match c {
        Condition::WerewolfForm(form) => cx.form == Some(form),
    }
}

impl Condition {
    pub fn check(&self, character: &Character) -> (r: bool)
        ensures
            r == cond_holds(context_of(*character), *self),
    {
        match self {
            Self::WerewolfForm(form) => {
                if let Splat::Werewolf(.., data) = &character.splat {
                    *form == data.form
                } else {
                    false
                }
            },
        }
    }
}

impl From<Form> for Condition {
    fn from(value: Form) -> (r: Self) {
        Condition::WerewolfForm(value)
    }
}

impl vstd::std_specs::convert::FromSpecImpl<Form> for Condition {
    open spec fn obeys_from_spec() -> bool {
        true
    }

    open spec fn from_spec(v: Form) -> Self {
        Condition::WerewolfForm(v)
    }
}

/// The contribution of one unconditional entry to the sum on target `t`.
pub open spec fn entry_term(cx: ModifierContext, e: (ModifierTarget, ModifierValue), t: ModifierTarget) -> int {
    if e.0 == t {
        simple_value(cx, e.1)
    } else {
        0
    }
}

/// The sum of the unconditional entries on target `t`.
pub open spec fn uncond_sum(cx: ModifierContext, es: Seq<(ModifierTarget, ModifierValue)>, t: ModifierTarget) -> int
    decreases es.len(),
{
    if es.len() == 0 {
        0
    } else {
        uncond_sum(cx, es.drop_last(), t) + entry_term(cx, es.last(), t)
    }
}

/// The contribution of one conditional entry: it counts while its condition holds.
pub open spec fn cond_term(
    cx: ModifierContext,
    e: (ModifierTarget, Condition, ModifierValue),
    t: ModifierTarget,
) -> int {
    if e.0 == t && cond_holds(cx, e.1) {
        simple_value(cx, e.2)
    } else {
        0
    }
}

/// The sum of the conditional entries on target `t` whose condition holds.
pub open spec fn cond_sum(
    cx: ModifierContext,
    cs: Seq<(ModifierTarget, Condition, ModifierValue)>,
    t: ModifierTarget,
) -> int
    decreases cs.len(),
{
    if cs.len() == 0 {
        0
    } else {
        cond_sum(cx, cs.drop_last(), t) + cond_term(cx, cs.last(), t)
    }
}

/// The sum of all modifiers in `m` on target `t` that apply to `ch`.
pub open spec fn modifiers_sum(cx: ModifierContext, m: Modifiers, t: ModifierTarget) -> int {
    uncond_sum(cx, m.entries(), t) + cond_sum(cx, m.conditional_entries(), t)
}

/// Every running total of `modifiers_sum`, in the order the entries are added, fits an `i16`.
pub open spec fn modifiers_fit(cx: ModifierContext, m: Modifiers, t: ModifierTarget) -> bool {
    &&& forall|k: int|
        0 <= k <= m.entries().len() ==> in_i16(#[trigger] uncond_sum(cx, m.entries().take(k), t))
    &&& forall|k: int|
        0 <= k <= m.conditional_entries().len() ==> in_i16(
            uncond_sum(cx, m.entries(), t) + #[trigger] cond_sum(cx, m.conditional_entries().take(k), t),
        )
}

/// The skill put in place by the last unconditional entry on `t` that holds a skill, or `d`.
pub open spec fn last_skill(es: Seq<(ModifierTarget, ModifierValue)>, t: ModifierTarget, d: Skill) -> Skill
    decreases es.len(),
{
    if es.len() == 0 {
        d
    } else {
        match es.last() {
            (target, ModifierValue::Skill(s)) if target == t => s,
            _ => last_skill(es.drop_last(), t, d),
        }
    }
}

/// The skill put in place by the last conditional entry on `t` that holds a skill and
/// whose condition holds, or `d`.
pub open spec fn last_cond_skill(
    cx: ModifierContext,
    cs: Seq<(ModifierTarget, Condition, ModifierValue)>,
    t: ModifierTarget,
    d: Skill,
) -> Skill
    decreases cs.len(),
{
    if cs.len() == 0 {
        d
    } else {
        match cs.last() {
            (target, c, ModifierValue::Skill(s)) if target == t && cond_holds(cx, c) => s,
            _ => last_cond_skill(cx, cs.drop_last(), t, d),
        }
    }
}

/// Like `last_cond_skill`, for the entries whose condition is `c`.
pub open spec fn last_skill_under(
    cs: Seq<(ModifierTarget, Condition, ModifierValue)>,
    t: ModifierTarget,
    c: Condition,
    d: Skill,
) -> Skill
    decreases cs.len(),
{
    if cs.len() == 0 {
        d
    } else {
        match cs.last() {
            (target, c2, ModifierValue::Skill(s)) if target == t && c2 == c => s,
            _ => last_skill_under(cs.drop_last(), t, c, d),
        }
    }
}

/// The sum of the conditional entries on `t` whose condition is `c`.
pub open spec fn sum_under(
    cx: ModifierContext,
    cs: Seq<(ModifierTarget, Condition, ModifierValue)>,
    t: ModifierTarget,
    c: Condition,
) -> int
    decreases cs.len(),
{
    if cs.len() == 0 {
        0
    } else {
        sum_under(cx, cs.drop_last(), t, c) + (if cs.last().0 == t && cs.last().1 == c {
            simple_value(cx, cs.last().2)
        } else {
            0
        })
    }
}

/// The unconditional modifiers of a list, as table entries, in order.
pub open spec fn uncond_entries(ms: Seq<Modifier>) -> Seq<(ModifierTarget, ModifierValue)>
    decreases ms.len(),
{
    if ms.len() == 0 {
        seq![]
    } else {
        let rest = uncond_entries(ms.drop_last());
        if ms.last().condition is None {
            rest.push((ms.last().target, ms.last().value))
        } else {
            rest
        }
    }
}

/// The conditional modifiers of a list, as table entries, in order.
pub open spec fn cond_entries(ms: Seq<Modifier>) -> Seq<(ModifierTarget, Condition, ModifierValue)>
    decreases ms.len(),
{
    if ms.len() == 0 {
        seq![]
    } else {
        let rest = cond_entries(ms.drop_last());
        match ms.last().condition {
            Some(c) => rest.push((ms.last().target, c, ms.last().value)),
            None => rest,
        }
    }
}

/// The modifiers of a list of rated abilities, in order.
pub open spec fn ability_modifiers(s: Seq<(Ability, u16)>) -> Seq<Modifier>
    decreases s.len(),
{
    if s.len() == 0 {
        seq![]
    } else {
        ability_modifiers(s.drop_last()) + s.last().0.modifiers_spec(s.last().1)
    }
}

/// The modifiers of a list of rated merits, in order.
pub open spec fn merit_modifiers(s: Seq<(Merit, u16)>) -> Seq<Modifier>
    decreases s.len(),
{
    if s.len() == 0 {
        seq![]
    } else {
        merit_modifiers(s.drop_last()) + s.last().0.modifiers_spec(s.last().1)
    }
}

/// An unconditional `Add` of one.
pub open spec fn plus_one(target: ModifierTarget) -> Modifier {
    Modifier { target, value: ModifierValue::Num(1), op: ModifierOp::Add, condition: None }
}

/// The modifiers that come with the splat: a werewolf's form, the moon gift of the auspice
/// (rated by the auspice renown), and the bonus dot in an auspice skill; a mage's dot of
/// Occult from an order and a resistance attribute dot; the clan's or seeming's favoured
/// attribute dot.
pub open spec fn splat_modifiers(ch: Character) -> Seq<Modifier> {
    match ch.splat {
        Splat::Werewolf(auspice, _, _, data) => data.form.modifiers_spec() + match auspice {
            Some(a) => a.moon_gift_spec().modifiers_spec(
                match ability_value(ch.abilities@, Ability::Renown(a.renown_spec())) {
                    Some(v) => v,
                    None => 0u16,
                },
            ) + match data.skill_bonus {
                Some(s) => if a.skills_spec().contains(s) {
                    seq![plus_one(ModifierTarget::BaseSkill(s))]
                } else {
                    seq![]
                },
                None => seq![],
            },
            None => seq![],
        },
        Splat::Mage(_, order, _, data) => (if order is Some {
            seq![plus_one(ModifierTarget::BaseSkill(Skill::Occult))]
        } else {
            seq![]
        }) + match data.attr_bonus {
            Some(a) => if attribute_column(a) == AttributeType::Resistance {
                seq![plus_one(ModifierTarget::BaseAttribute(a))]
            } else {
                seq![]
            },
            None => seq![],
        },
        Splat::Vampire(clan, _, _, data) => match data.attr_bonus {
            Some(a) => if clan.favored_attributes_spec().contains(a) {
                seq![plus_one(ModifierTarget::BaseAttribute(a))]
            } else {
                seq![]
            },
            None => seq![],
        },
        Splat::Changeling(seeming, _, _, data) => match data.attr_bonus {
            Some(a) => if column_attributes(seeming.favored_type()).contains(a) {
                seq![plus_one(ModifierTarget::BaseAttribute(a))]
            } else {
                seq![]
            },
            None => seq![],
        },
        _ => seq![],
    }
}

/// Every modifier of a sheet: its abilities', its merits', then its splat's.
pub open spec fn character_modifiers(ch: Character) -> Seq<Modifier> {
    ability_modifiers(ch.abilities@) + merit_modifiers(ch.merits@) + splat_modifiers(ch)
}

/// No modifier of the list is worth a dice pool.
pub open spec fn no_pool_values(ms: Seq<Modifier>) -> bool {
    forall|i: int| 0 <= i < ms.len() ==> !((#[trigger] ms[i]).value is DicePool)
}

proof fn lemma_ability_modifiers_no_pools(s: Seq<(Ability, u16)>)
    ensures
        no_pool_values(ability_modifiers(s)),
    decreases s.len(),
{
    if s.len() > 0 {
        lemma_ability_modifiers_no_pools(s.drop_last());
        let a = ability_modifiers(s.drop_last());
        let b = s.last().0.modifiers_spec(s.last().1);
        assert(no_pool_values(b));
        assert forall|i: int| 0 <= i < (a + b).len() implies !((#[trigger] (a + b)[i]).value is DicePool) by {
            if i < a.len() {
                assert((a + b)[i] == a[i]);
            } else {
                assert((a + b)[i] == b[i - a.len()]);
            }
        }
    }
}

proof fn lemma_merit_modifiers_no_pools(s: Seq<(Merit, u16)>)
    ensures
        no_pool_values(merit_modifiers(s)),
    decreases s.len(),
{
    if s.len() > 0 {
        lemma_merit_modifiers_no_pools(s.drop_last());
        let a = merit_modifiers(s.drop_last());
        let b = s.last().0.modifiers_spec(s.last().1);
        assert(no_pool_values(b));
        assert forall|i: int| 0 <= i < (a + b).len() implies !((#[trigger] (a + b)[i]).value is DicePool) by {
            if i < a.len() {
                assert((a + b)[i] == a[i]);
            } else {
                assert((a + b)[i] == b[i - a.len()]);
            }
        }
    }
}

/// What one modifier adds to target `t`: its value when it is on `t` and has no condition
/// or one that holds, else nothing.
pub open spec fn modifier_term(cx: ModifierContext, m: Modifier, t: ModifierTarget) -> int {
    if m.target == t && match m.condition {
        Some(c) => cond_holds(cx, c),
        None => true,
    } {
        simple_value(cx, m.value)
    } else {
        0
    }
}

/// The sum of what the modifiers of a list add to target `t`.
pub open spec fn applying_sum(cx: ModifierContext, ms: Seq<Modifier>, t: ModifierTarget) -> int
    decreases ms.len(),
{
    if ms.len() == 0 {
        0
    } else {
        applying_sum(cx, ms.drop_last(), t) + modifier_term(cx, ms.last(), t)
    }
}

/// Filing a list of modifiers in the two tables and summing the tables gives the sum over
/// the list.
proof fn lemma_tables_sum(cx: ModifierContext, ms: Seq<Modifier>, t: ModifierTarget)
    ensures
        uncond_sum(cx, uncond_entries(ms), t) + cond_sum(cx, cond_entries(ms), t) == applying_sum(cx, ms, t),
    decreases ms.len(),
{
    if ms.len() > 0 {
        lemma_tables_sum(cx, ms.drop_last(), t);
        let u = uncond_entries(ms.drop_last());
        let c = cond_entries(ms.drop_last());
        let m = ms.last();
        match m.condition {
            Some(k) => {
                assert(c.push((m.target, k, m.value)).drop_last() =~= c);
            },
            None => {
                assert(u.push((m.target, m.value)).drop_last() =~= u);
            },
        }
    }
}

/// The sum over two lists one after the other is the sum of the sums.
proof fn lemma_applying_sum_concat(cx: ModifierContext, a: Seq<Modifier>, b: Seq<Modifier>, t: ModifierTarget)
    ensures
        applying_sum(cx, a + b, t) == applying_sum(cx, a, t) + applying_sum(cx, b, t),
    decreases b.len(),
{
    if b.len() == 0 {
        assert(a + b =~= a);
    } else {
        lemma_applying_sum_concat(cx, a, b.drop_last(), t);
        assert((a + b).drop_last() =~= a + b.drop_last());
        assert((a + b).last() == b.last());
    }
}

/// After `update`, the modifier on a target is what the sheet's abilities, its merits and
/// its splat put on it, added up; it depends on the sheet alone, so a second `update`
/// changes nothing. For a vampire, the splat adds one dot to the bonus attribute when it is
/// one of the clan's favoured attributes, and nothing otherwise.
pub proof fn lemma_updated_modifier(ch: Character, m: Modifiers, t: ModifierTarget)
    requires
        m.entries() == uncond_entries(character_modifiers(ch)),
        m.conditional_entries() == cond_entries(character_modifiers(ch)),
    ensures
        modifiers_sum(context_of(ch), m, t) == applying_sum(context_of(ch), ability_modifiers(ch.abilities@), t)
            + applying_sum(context_of(ch), merit_modifiers(ch.merits@), t) + applying_sum(
            context_of(ch),
            splat_modifiers(ch),
            t,
        ),
        ch.splat matches Splat::Vampire(clan, _, _, data) ==> applying_sum(context_of(ch), splat_modifiers(ch), t)
            == if data.attr_bonus matches Some(a) && t == ModifierTarget::BaseAttribute(a)
            && clan.favored_attributes_spec().contains(a) {
            1int
        } else {
            0int
        },
{
    let cx = context_of(ch);
    let a = ability_modifiers(ch.abilities@);
    let b = merit_modifiers(ch.merits@);
    let c = splat_modifiers(ch);
    lemma_tables_sum(cx, character_modifiers(ch), t);
    lemma_applying_sum_concat(cx, a + b, c, t);
    lemma_applying_sum_concat(cx, a, b, t);
    if let Splat::Vampire(clan, _, _, data) = ch.splat {
        if let Some(x) = data.attr_bonus {
            if clan.favored_attributes_spec().contains(x) {
                let one = seq![plus_one(ModifierTarget::BaseAttribute(x))];
                assert(one.drop_last() =~= Seq::<Modifier>::empty());
                assert(applying_sum(cx, one.drop_last(), t) == 0);
                assert(one.last() == plus_one(ModifierTarget::BaseAttribute(x)));
                assert(applying_sum(cx, one, t) == modifier_term(cx, plus_one(ModifierTarget::BaseAttribute(x)), t));
            }
        }
    }
}

/// After `update`, a vampire's modifier on the dots of its bonus attribute is what its
/// abilities and merits put there, plus one when that attribute is one of its clan's
/// favoured attributes.
pub proof fn lemma_vampire_bonus_attribute(ch: Character, m: Modifiers, a: Attribute)
    requires
        m.entries() == uncond_entries(character_modifiers(ch)),
        m.conditional_entries() == cond_entries(character_modifiers(ch)),
        ch.splat matches Splat::Vampire(_, _, _, d) && d.attr_bonus == Some(a),
    ensures
        ch.splat matches Splat::Vampire(clan, _, _, _) && modifiers_sum(
            context_of(ch),
            m,
            ModifierTarget::BaseAttribute(a),
        ) == applying_sum(context_of(ch), ability_modifiers(ch.abilities@), ModifierTarget::BaseAttribute(a))
            + applying_sum(context_of(ch), merit_modifiers(ch.merits@), ModifierTarget::BaseAttribute(a))
            + if clan.favored_attributes_spec().contains(a) {
            1int
        } else {
            0int
        },
{
    lemma_updated_modifier(ch, m, ModifierTarget::BaseAttribute(a));
}

/// Two tables computed from the same sheet are the same, so every sum and every pool read
/// from them is the same: computing the tables again changes nothing.
pub proof fn lemma_update_again(ch: Character, m1: Modifiers, m2: Modifiers, t: ModifierTarget)
    requires
        m1.entries() == uncond_entries(character_modifiers(ch)),
        m1.conditional_entries() == cond_entries(character_modifiers(ch)),
        m2.entries() == uncond_entries(character_modifiers(ch)),
        m2.conditional_entries() == cond_entries(character_modifiers(ch)),
    ensures
        m1.entries() == m2.entries(),
        m1.conditional_entries() == m2.conditional_entries(),
        modifiers_sum(context_of(ch), m1, t) == modifiers_sum(context_of(ch), m2, t),
        last_cond_skill(context_of(ch), m1.conditional_entries(), t, last_skill(m1.entries(), t, Skill::Athletics))
            == last_cond_skill(context_of(ch), m2.conditional_entries(), t, last_skill(m2.entries(), t, Skill::Athletics)),
{
}

/// A modifier that puts a skill in target `t`.
pub open spec fn names_skill(m: Modifier, t: ModifierTarget) -> bool {
    m.target == t && m.value is Skill
}

/// Every modifier of the list that puts a skill in `t` puts `k`, without a condition.
pub open spec fn only_skill(ms: Seq<Modifier>, t: ModifierTarget, k: Skill) -> bool {
    forall|i: int|
        0 <= i < ms.len() && names_skill(#[trigger] ms[i], t) ==> ms[i].value == ModifierValue::Skill(k)
            && ms[i].condition is None
}

/// Some modifier of the list puts a skill in `t`.
pub open spec fn some_skill(ms: Seq<Modifier>, t: ModifierTarget) -> bool {
    exists|i: int| 0 <= i < ms.len() && names_skill(#[trigger] ms[i], t)
}

/// Over a list whose modifiers that put a skill in `t` all put `k`, the tables name `k`
/// for `t` where some modifier does, and leave the default otherwise.
proof fn lemma_last_skill_of_list(cx: ModifierContext, ms: Seq<Modifier>, t: ModifierTarget, k: Skill, d: Skill)
    requires
        only_skill(ms, t, k),
    ensures
        last_skill(uncond_entries(ms), t, d) == if some_skill(ms, t) {
            k
        } else {
            d
        },
        forall|x: Skill| #[trigger] last_cond_skill(cx, cond_entries(ms), t, x) == x,
    decreases ms.len(),
{
    if ms.len() > 0 {
        let dl = ms.drop_last();
        let m = ms.last();
        assert forall|i: int| 0 <= i < dl.len() && names_skill(#[trigger] dl[i], t) implies dl[i].value
            == ModifierValue::Skill(k) && dl[i].condition is None by {
            assert(dl[i] == ms[i]);
        }
        lemma_last_skill_of_list(cx, dl, t, k, d);
        assert(ms[ms.len() - 1] == m);
        if names_skill(m, t) {
            assert(some_skill(ms, t));
        } else {
            assert(some_skill(ms, t) == some_skill(dl, t)) by {
                if some_skill(ms, t) {
                    let i = choose|i: int| 0 <= i < ms.len() && names_skill(#[trigger] ms[i], t);
                    assert(dl[i] == ms[i]);
                }
                if some_skill(dl, t) {
                    let i = choose|i: int| 0 <= i < dl.len() && names_skill(#[trigger] dl[i], t);
                    assert(dl[i] == ms[i]);
                }
            }
        }
        let u = uncond_entries(dl);
        let c = cond_entries(dl);
        match m.condition {
            Some(cnd) => {
                let c2 = c.push((m.target, cnd, m.value));
                assert(c2.drop_last() =~= c);
                assert forall|x: Skill| #[trigger] last_cond_skill(cx, cond_entries(ms), t, x) == x by {
                    assert(last_cond_skill(cx, c, t, x) == x);
                }
            },
            None => {
                let u2 = u.push((m.target, m.value));
                assert(u2.drop_last() =~= u);
            },
        }
    }
}

proof fn lemma_skill_concat(a: Seq<Modifier>, b: Seq<Modifier>, t: ModifierTarget, k: Skill)
    ensures
        only_skill(a, t, k) && only_skill(b, t, k) ==> only_skill(a + b, t, k),
        some_skill(a + b, t) == (some_skill(a, t) || some_skill(b, t)),
{
    if only_skill(a, t, k) && only_skill(b, t, k) {
        assert forall|i: int| 0 <= i < (a + b).len() && names_skill(#[trigger] (a + b)[i], t) implies (a
            + b)[i].value == ModifierValue::Skill(k) && (a + b)[i].condition is None by {
            if i < a.len() {
                assert((a + b)[i] == a[i]);
            } else {
                assert((a + b)[i] == b[i - a.len()]);
            }
        }
    }
    if some_skill(a + b, t) {
        let i = choose|i: int| 0 <= i < (a + b).len() && names_skill(#[trigger] (a + b)[i], t);
        if i < a.len() {
            assert((a + b)[i] == a[i]);
        } else {
            assert((a + b)[i] == b[i - a.len()]);
        }
    }
    if some_skill(a, t) {
        let i = choose|i: int| 0 <= i < a.len() && names_skill(#[trigger] a[i], t);
        assert((a + b)[i] == a[i]);
    }
    if some_skill(b, t) {
        let i = choose|i: int| 0 <= i < b.len() && names_skill(#[trigger] b[i], t);
        assert((a + b)[i + a.len()] == b[i]);
    }
}

/// A merit that puts a skill in place of Athletics in Defense: Defensive Combat with a skill.
pub open spec fn defensive_combat_skill(m: Merit) -> Option<Skill> {
    match m {
        Merit::DefensiveCombat(_, Some(s)) => Some(s),
        _ => None,
    }
}

/// The Defensive Combat skill of an ability that is such a merit.
pub open spec fn ability_defense_skill(a: Ability) -> Option<Skill> {
    match a {
        Ability::Merit(m) => defensive_combat_skill(m),
        _ => None,
    }
}

proof fn lemma_merit_defense(s: Seq<(Merit, u16)>, k: Skill)
    requires
        forall|i: int| 0 <= i < s.len() ==> ((#[trigger] defensive_combat_skill(s[i].0)) is None
            || defensive_combat_skill(s[i].0) == Some(k)),
    ensures
        only_skill(merit_modifiers(s), ModifierTarget::Trait(Trait::Defense), k),
        some_skill(merit_modifiers(s), ModifierTarget::Trait(Trait::Defense)) == exists|i: int|
            0 <= i < s.len() && (#[trigger] defensive_combat_skill(s[i].0)) is Some,
    decreases s.len(),
{
    let t = ModifierTarget::Trait(Trait::Defense);
    if s.len() > 0 {
        let d = s.drop_last();
        assert forall|i: int| 0 <= i < d.len() implies ((#[trigger] defensive_combat_skill(d[i].0)) is None
            || defensive_combat_skill(d[i].0) == Some(k)) by {
            assert(d[i] == s[i]);
        }
        lemma_merit_defense(d, k);
        let b = s.last().0.modifiers_spec(s.last().1);
        assert(s[s.len() - 1] == s.last());
        assert((defensive_combat_skill(s[s.len() - 1].0) is None
            || defensive_combat_skill(s[s.len() - 1].0) == Some(k)));
        assert(only_skill(b, t, k));
        assert(some_skill(b, t) == (defensive_combat_skill(s.last().0) is Some)) by {
            if defensive_combat_skill(s.last().0) is Some {
                assert(names_skill(b[0], t));
            }
        }
        lemma_skill_concat(merit_modifiers(d), b, t, k);
        if exists|i: int| 0 <= i < s.len() && (#[trigger] defensive_combat_skill(s[i].0)) is Some {
            let i = choose|i: int| 0 <= i < s.len() && (#[trigger] defensive_combat_skill(s[i].0)) is Some;
            if i < d.len() {
                assert(d[i] == s[i]);
            }
        }
        if exists|i: int| 0 <= i < d.len() && (#[trigger] defensive_combat_skill(d[i].0)) is Some {
            let i = choose|i: int| 0 <= i < d.len() && (#[trigger] defensive_combat_skill(d[i].0)) is Some;
            assert(d[i] == s[i]);
        }
    }
}

proof fn lemma_ability_defense(s: Seq<(Ability, u16)>, k: Skill)
    requires
        forall|i: int| 0 <= i < s.len() ==> ((#[trigger] ability_defense_skill(s[i].0)) is None
            || ability_defense_skill(s[i].0) == Some(k)),
    ensures
        only_skill(ability_modifiers(s), ModifierTarget::Trait(Trait::Defense), k),
        some_skill(ability_modifiers(s), ModifierTarget::Trait(Trait::Defense)) == exists|i: int|
            0 <= i < s.len() && (#[trigger] ability_defense_skill(s[i].0)) is Some,
    decreases s.len(),
{
    let t = ModifierTarget::Trait(Trait::Defense);
    if s.len() > 0 {
        let d = s.drop_last();
        assert forall|i: int| 0 <= i < d.len() implies ((#[trigger] ability_defense_skill(d[i].0)) is None
            || ability_defense_skill(d[i].0) == Some(k)) by {
            assert(d[i] == s[i]);
        }
        lemma_ability_defense(d, k);
        let b = s.last().0.modifiers_spec(s.last().1);
        assert(s[s.len() - 1] == s.last());
        assert((ability_defense_skill(s[s.len() - 1].0) is None || ability_defense_skill(s[s.len() - 1].0) == Some(k)));
        assert(only_skill(b, t, k));
        assert(some_skill(b, t) == (ability_defense_skill(s.last().0) is Some)) by {
            if ability_defense_skill(s.last().0) is Some {
                assert(names_skill(b[0], t));
            }
        }
        lemma_skill_concat(ability_modifiers(d), b, t, k);
        if exists|i: int| 0 <= i < s.len() && (#[trigger] ability_defense_skill(s[i].0)) is Some {
            let i = choose|i: int| 0 <= i < s.len() && (#[trigger] ability_defense_skill(s[i].0)) is Some;
            if i < d.len() {
                assert(d[i] == s[i]);
            }
        }
        if exists|i: int| 0 <= i < d.len() && (#[trigger] ability_defense_skill(d[i].0)) is Some {
            let i = choose|i: int| 0 <= i < d.len() && (#[trigger] ability_defense_skill(d[i].0)) is Some;
            assert(d[i] == s[i]);
        }
    }
}

/// Whether a sheet has a Defensive Combat merit with a skill, among its merits or its
/// abilities.
pub open spec fn has_defensive_combat(ch: Character) -> bool {
    ||| exists|i: int| 0 <= i < ch.merits@.len() && (#[trigger] defensive_combat_skill(ch.merits@[i].0)) is Some
    ||| exists|i: int|
        0 <= i < ch.abilities@.len() && (#[trigger] ability_defense_skill(ch.abilities@[i].0)) is Some
}

/// Once the tables are computed, Defense is rolled with the skill of the sheet's
/// Defensive Combat merits where it has one (all of them naming the same skill `k`), and
/// with Athletics where it has none.
pub proof fn lemma_defense_skill(ch: Character, k: Skill)
    requires
        ch.modifiers_view().entries() == uncond_entries(character_modifiers(ch)),
        ch.modifiers_view().conditional_entries() == cond_entries(character_modifiers(ch)),
        forall|i: int|
            0 <= i < ch.merits@.len() ==> ((#[trigger] defensive_combat_skill(ch.merits@[i].0)) is None
                || defensive_combat_skill(ch.merits@[i].0) == Some(k)),
        forall|i: int|
            0 <= i < ch.abilities@.len() ==> ((#[trigger] ability_defense_skill(ch.abilities@[i].0)) is None
                || ability_defense_skill(ch.abilities@[i].0) == Some(k)),
    ensures
        ch.defense_skill() == if has_defensive_combat(ch) {
            k
        } else {
            Skill::Athletics
        },
{
    let t = ModifierTarget::Trait(Trait::Defense);
    let a = ability_modifiers(ch.abilities@);
    let b = merit_modifiers(ch.merits@);
    let c = splat_modifiers(ch);
    lemma_ability_defense(ch.abilities@, k);
    lemma_merit_defense(ch.merits@, k);
    assert(only_skill(c, t, k) && !some_skill(c, t)) by {
        assert forall|i: int| 0 <= i < c.len() implies !names_skill(#[trigger] c[i], t) by {
            lemma_splat_no_skill(ch, i);
        }
    }
    lemma_skill_concat(a, b, t, k);
    lemma_skill_concat(a + b, c, t, k);
    lemma_last_skill_of_list(context_of(ch), character_modifiers(ch), t, k, Skill::Athletics);
    let x = last_skill(uncond_entries(character_modifiers(ch)), t, Skill::Athletics);
    assert(last_cond_skill(context_of(ch), cond_entries(character_modifiers(ch)), t, x) == x);
}

/// No modifier of a splat puts a skill in Defense.
proof fn lemma_splat_no_skill(ch: Character, i: int)
    requires
        0 <= i < splat_modifiers(ch).len(),
    ensures
        !names_skill(splat_modifiers(ch)[i], ModifierTarget::Trait(Trait::Defense)),
{
    let ms = splat_modifiers(ch);
    match ch.splat {
        Splat::Werewolf(auspice, _, _, data) => {
            let f = data.form.modifiers_spec();
            match auspice {
                Some(au) => {
                    let g = au.moon_gift_spec().modifiers_spec(
                        match ability_value(ch.abilities@, Ability::Renown(au.renown_spec())) {
                            Some(v) => v,
                            None => 0u16,
                        },
                    );
                    let kk = match data.skill_bonus {
                        Some(s) => if au.skills_spec().contains(s) {
                            seq![plus_one(ModifierTarget::BaseSkill(s))]
                        } else {
                            seq![]
                        },
                        None => seq![],
                    };
                    assert(ms == f + (g + kk));
                    if i < f.len() {
                        assert(ms[i] == f[i]);
                    } else if i < f.len() + g.len() {
                        assert(ms[i] == g[i - f.len()]);
                    } else {
                        assert(ms[i] == kk[i - f.len() - g.len()]);
                    }
                },
                None => {
                    assert(ms == f + seq![]);
                    assert(ms[i] == f[i]);
                },
            }
        },
        _ => {},
    }
}

/// The tables of modifiers computed for a sheet: unconditional entries, and entries that
/// apply under a condition, each in the order the modifiers were found.
#[derive(Debug)]
pub struct Modifiers {
    modifier_map: Vec<(ModifierTarget, ModifierValue)>,
    conditional_modifier_map: Vec<(ModifierTarget, Condition, ModifierValue)>,
}

impl Default for Modifiers {
    fn default() -> (r: Self)
        ensures
            r.entries().len() == 0,
            r.conditional_entries().len() == 0,
    {
        Modifiers { modifier_map: Vec::new(), conditional_modifier_map: Vec::new() }
    }
}

impl Modifiers {
    pub closed spec fn entries(self) -> Seq<(ModifierTarget, ModifierValue)> {
        self.modifier_map@
    }

    pub closed spec fn conditional_entries(self) -> Seq<(ModifierTarget, Condition, ModifierValue)> {
        self.conditional_modifier_map@
    }

    /// No entry is worth a dice pool: no ability, merit or splat produces such a modifier.
    #[verifier::type_invariant]
    closed spec fn no_pools(self) -> bool {
        &&& forall|i: int|
            0 <= i < self.modifier_map@.len() ==> !((#[trigger] self.modifier_map@[i]).1 is DicePool)
        &&& forall|i: int|
            0 <= i < self.conditional_modifier_map@.len()
                ==> !((#[trigger] self.conditional_modifier_map@[i]).2 is DicePool)
    }

    /// Recomputes the tables from the character's abilities, merits and splat.
    pub fn update(&mut self, character: &Character)
        ensures
            final(self).entries() == uncond_entries(character_modifiers(*character)),
            final(self).conditional_entries() == cond_entries(character_modifiers(*character)),
    {
        let mut modifiers: Vec<Modifier> = Vec::new();

        let n = character.abilities.len();
        let mut i: usize = 0;
        while i < n
            invariant
                n == character.abilities@.len(),
                i <= n,
                modifiers@ == ability_modifiers(character.abilities@.take(i as int)),
            decreases n - i,
        {
            let mut ms = character.abilities[i].0.get_modifiers(character.abilities[i].1);
            proof {
                assert(character.abilities@.take(i + 1).drop_last() =~= character.abilities@.take(i as int));
            }
            modifiers.append(&mut ms);
            i += 1;
        }
        assert(character.abilities@.take(n as int) =~= character.abilities@);

        let ghost after_abilities = modifiers@;
        let n = character.merits.len();
        let mut i: usize = 0;
        while i < n
            invariant
                n == character.merits@.len(),
                i <= n,
                modifiers@ == after_abilities + merit_modifiers(character.merits@.take(i as int)),
            decreases n - i,
        {
            let mut ms = character.merits[i].0.get_modifiers(character.merits[i].1);
            proof {
                assert(character.merits@.take(i + 1).drop_last() =~= character.merits@.take(i as int));
            }
            modifiers.append(&mut ms);
            proof {
                assert(modifiers@ =~= after_abilities + merit_modifiers(character.merits@.take(i + 1)));
            }
            i += 1;
        }
        assert(character.merits@.take(n as int) =~= character.merits@);

        let ghost before_splat = modifiers@;
        let mut splat_mods = splat_modifiers_of(character);
        modifiers.append(&mut splat_mods);
        assert(modifiers@ =~= character_modifiers(*character));

        proof {
            lemma_ability_modifiers_no_pools(character.abilities@);
            lemma_merit_modifiers_no_pools(character.merits@);
            let a = ability_modifiers(character.abilities@);
            let b = merit_modifiers(character.merits@);
            let c = splat_modifiers(*character);
            assert forall|i: int| 0 <= i < modifiers@.len() implies !((#[trigger] modifiers@[i]).value is DicePool) by {
                if i < a.len() {
                    assert(modifiers@[i] == a[i]);
                } else if i < a.len() + b.len() {
                    assert(modifiers@[i] == b[i - a.len()]);
                } else {
                    assert(modifiers@[i] == c[i - a.len() - b.len()]);
                }
            }
        }

        let mut modifier_map: Vec<(ModifierTarget, ModifierValue)> = Vec::new();
        let mut conditional_modifier_map: Vec<(ModifierTarget, Condition, ModifierValue)> = Vec::new();
        let n = modifiers.len();
        let mut i: usize = 0;
        while i < n
            invariant
                n == modifiers@.len(),
                i <= n,
                no_pool_values(modifiers@),
                modifier_map@ == uncond_entries(modifiers@.take(i as int)),
                conditional_modifier_map@ == cond_entries(modifiers@.take(i as int)),
                forall|j: int|
                    0 <= j < modifier_map@.len() ==> !((#[trigger] modifier_map@[j]).1 is DicePool),
                forall|j: int|
                    0 <= j < conditional_modifier_map@.len()
                        ==> !((#[trigger] conditional_modifier_map@[j]).2 is DicePool),
            decreases n - i,
        {
            let modifier = modifiers[i].clone();
            proof {
                assert(modifiers@.take(i + 1).drop_last() =~= modifiers@.take(i as int));
                assert(modifiers@.take(i + 1).last() == modifiers@[i as int]);
            }
            handle_modifier(modifier, &mut modifier_map, &mut conditional_modifier_map);
            i += 1;
        }
        assert(modifiers@.take(n as int) =~= modifiers@);

        *self = Modifiers { modifier_map, conditional_modifier_map };
    }

    /// The sum of the modifiers on `target` that apply to `character`.
    pub fn get_modifier(&self, character: &Character, target: ModifierTarget) -> (r: i16)
        requires
            modifiers_fit(context_of(*character), *self, target),
        ensures
            r == modifiers_sum(context_of(*character), *self, target),
    {
        proof {
            use_type_invariant(self);
        }
        let mut count: i16 = 0;

        let n = self.modifier_map.len();
        let mut i: usize = 0;
        while i < n
            invariant
                n == self.entries().len(),
                i <= n,
                modifiers_fit(context_of(*character), *self, target),
                count == uncond_sum(context_of(*character), self.entries().take(i as int), target),
            decreases n - i,
        {
            proof {
                assert(self.entries().take(i + 1).drop_last() =~= self.entries().take(i as int));
                assert(in_i16(uncond_sum(context_of(*character), self.entries().take(i + 1), target)));
            }
            if self.modifier_map[i].0 == target {
                count = count + simple_value_of(&self.modifier_map[i].1, character);
            }
            i += 1;
        }
        assert(self.entries().take(n as int) =~= self.entries());

        let ghost base = count as int;
        let n = self.conditional_modifier_map.len();
        let mut i: usize = 0;
        while i < n
            invariant
                n == self.conditional_entries().len(),
                i <= n,
                base == uncond_sum(context_of(*character), self.entries(), target),
                modifiers_fit(context_of(*character), *self, target),
                count == base + cond_sum(context_of(*character), self.conditional_entries().take(i as int), target),
            decreases n - i,
        {
            proof {
                assert(self.conditional_entries().take(i + 1).drop_last() =~= self.conditional_entries().take(
                    i as int,
                ));
                assert(in_i16(base + cond_sum(context_of(*character), self.conditional_entries().take(i + 1), target)));
            }
            if self.conditional_modifier_map[i].0 == target && self.conditional_modifier_map[i].1.check(
                character,
            ) {
                count = count + simple_value_of(&self.conditional_modifier_map[i].2, character);
            }
            i += 1;
        }
        assert(self.conditional_entries().take(n as int) =~= self.conditional_entries());
        count
    }

    /// The sum of the modifiers on `target` that apply under `condition`, whether it holds
    /// or not; `None` when there is no such modifier.
    pub fn get_conditional_modifier(
        &self,
        character: &Character,
        target: ModifierTarget,
        condition: Condition,
    ) -> (r: Option<i16>)
        requires
            forall|k: int|
                0 <= k <= self.conditional_entries().len() ==> in_i16(
                    #[trigger] sum_under(context_of(*character), self.conditional_entries().take(k), target, condition),
                ),
        ensures
            r is Some <==> exists|i: int|
                0 <= i < self.conditional_entries().len() && #[trigger] self.conditional_entries()[i].0
                    == target && self.conditional_entries()[i].1 == condition,
            r matches Some(v) ==> v == sum_under(context_of(*character), self.conditional_entries(), target, condition),
    {
        proof {
            use_type_invariant(self);
        }
        let mut count: i16 = 0;
        let mut found = false;
        let n = self.conditional_modifier_map.len();
        let mut i: usize = 0;
        while i < n
            invariant
                n == self.conditional_entries().len(),
                i <= n,
                forall|k: int|
                    0 <= k <= self.conditional_entries().len() ==> in_i16(
                        #[trigger] sum_under(context_of(*character), self.conditional_entries().take(k), target, condition),
                    ),
                count == sum_under(context_of(*character), self.conditional_entries().take(i as int), target, condition),
                found <==> exists|j: int|
                    0 <= j < i && #[trigger] self.conditional_entries()[j].0 == target
                        && self.conditional_entries()[j].1 == condition,
            decreases n - i,
        {
            proof {
                assert(self.conditional_entries().take(i + 1).drop_last() =~= self.conditional_entries().take(
                    i as int,
                ));
                assert(in_i16(sum_under(context_of(*character), self.conditional_entries().take(i + 1), target, condition)));
            }
            if self.conditional_modifier_map[i].0 == target && self.conditional_modifier_map[i].1 == condition {
                count = count + simple_value_of(&self.conditional_modifier_map[i].2, character);
                found = true;
            }
            i += 1;
        }
        assert(self.conditional_entries().take(n as int) =~= self.conditional_entries());
        if found {
            Some(count)
        } else {
            None
        }
    }

    /// The dice pool of a target that is rolled rather than rated: Defense, whose skill
    /// the last applying modifier on Defense that names a skill decides.
    pub fn get_pool(&self, character: &Character, target: ModifierTarget) -> (r: Option<DicePool>)
        ensures
            r == (if target == ModifierTarget::Trait(Trait::Defense) {
                Some(
                    defense_pool_of(
                        last_cond_skill(
                            context_of(*character),
                            self.conditional_entries(),
                            target,
                            last_skill(self.entries(), target, Skill::Athletics),
                        ),
                    ),
                )
            } else {
                None
            }),
    {
        proof {
            use_type_invariant(self);
        }
        match target {
            ModifierTarget::Trait(Trait::Defense) => {
                let mut defense_skill = Skill::Athletics;
                let n = self.modifier_map.len();
                let mut i: usize = 0;
                while i < n
                    invariant
                        n == self.entries().len(),
                        i <= n,
                        target == ModifierTarget::Trait(Trait::Defense),
                        defense_skill == last_skill(self.entries().take(i as int), target, Skill::Athletics),
                    decreases n - i,
                {
                    proof {
                        assert(self.entries().take(i + 1).drop_last() =~= self.entries().take(i as int));
                    }
                    if self.modifier_map[i].0 == target {
                        if let ModifierValue::Skill(skill) = &self.modifier_map[i].1 {
                            defense_skill = *skill;
                        }
                    }
                    i += 1;
                }
                assert(self.entries().take(n as int) =~= self.entries());
                let ghost d = defense_skill;
                let n = self.conditional_modifier_map.len();
                let mut i: usize = 0;
                while i < n
                    invariant
                        n == self.conditional_entries().len(),
                        i <= n,
                        target == ModifierTarget::Trait(Trait::Defense),
                        defense_skill == last_cond_skill(
                            context_of(*character),
                            self.conditional_entries().take(i as int),
                            target,
                            d,
                        ),
                    decreases n - i,
                {
                    proof {
                        assert(self.conditional_entries().take(i + 1).drop_last()
                            =~= self.conditional_entries().take(i as int));
                    }
                    if self.conditional_modifier_map[i].0 == target && self.conditional_modifier_map[i].1.check(
                        character,
                    ) {
                        if let ModifierValue::Skill(skill) = &self.conditional_modifier_map[i].2 {
                            defense_skill = *skill;
                        }
                    }
                    i += 1;
                }
                assert(self.conditional_entries().take(n as int) =~= self.conditional_entries());
                Some(DicePool::min(DicePool::Attribute(Attribute::Wits), DicePool::Attribute(Attribute::Dexterity))
                    + defense_skill)
            },
            _ => None,
        }
    }

    /// Like `get_pool`, with the conditional modifiers of `condition` counted whether it
    /// holds or not, and those of other conditions left out.
    pub fn get_conditional_pool(&self, target: ModifierTarget, condition: Condition) -> (r: Option<DicePool>)
        ensures
            r == (if target == ModifierTarget::Trait(Trait::Defense) {
                Some(
                    defense_pool_of(
                        last_skill_under(
                            self.conditional_entries(),
                            target,
                            condition,
                            last_skill(self.entries(), target, Skill::Athletics),
                        ),
                    ),
                )
            } else {
                None
            }),
    {
        proof {
            use_type_invariant(self);
        }
        match target {
            ModifierTarget::Trait(Trait::Defense) => {
                let mut defense_skill = Skill::Athletics;
                let n = self.modifier_map.len();
                let mut i: usize = 0;
                while i < n
                    invariant
                        n == self.entries().len(),
                        i <= n,
                        target == ModifierTarget::Trait(Trait::Defense),
                        defense_skill == last_skill(self.entries().take(i as int), target, Skill::Athletics),
                    decreases n - i,
                {
                    proof {
                        assert(self.entries().take(i + 1).drop_last() =~= self.entries().take(i as int));
                    }
                    if self.modifier_map[i].0 == target {
                        if let ModifierValue::Skill(skill) = &self.modifier_map[i].1 {
                            defense_skill = *skill;
                        }
                    }
                    i += 1;
                }
                assert(self.entries().take(n as int) =~= self.entries());
                let ghost d = defense_skill;
                let n = self.conditional_modifier_map.len();
                let mut i: usize = 0;
                while i < n
                    invariant
                        n == self.conditional_entries().len(),
                        i <= n,
                        target == ModifierTarget::Trait(Trait::Defense),
                        defense_skill == last_skill_under(
                            self.conditional_entries().take(i as int),
                            target,
                            condition,
                            d,
                        ),
                    decreases n - i,
                {
                    proof {
                        assert(self.conditional_entries().take(i + 1).drop_last()
                            =~= self.conditional_entries().take(i as int));
                    }
                    if self.conditional_modifier_map[i].0 == target && self.conditional_modifier_map[i].1
                        == condition {
                        if let ModifierValue::Skill(skill) = &self.conditional_modifier_map[i].2 {
                            defense_skill = *skill;
                        }
                    }
                    i += 1;
                }
                assert(self.conditional_entries().take(n as int) =~= self.conditional_entries());
                Some(DicePool::min(DicePool::Attribute(Attribute::Wits), DicePool::Attribute(Attribute::Dexterity))
                    + defense_skill)
            },
            _ => None,
        }
    }
}

/// Files a modifier in the table it belongs to.
fn handle_modifier(
    modifier: Modifier,
    modifier_map: &mut Vec<(ModifierTarget, ModifierValue)>,
    conditional_modifier_map: &mut Vec<(ModifierTarget, Condition, ModifierValue)>,
)
    ensures
        match modifier.condition {
            Some(c) => final(conditional_modifier_map)@ == old(conditional_modifier_map)@.push(
                (modifier.target, c, modifier.value),
            ) && final(modifier_map)@ == old(modifier_map)@,
            None => final(modifier_map)@ == old(modifier_map)@.push((modifier.target, modifier.value))
                && final(conditional_modifier_map)@ == old(conditional_modifier_map)@,
        },
{
    if let Some(condition) = modifier.condition {
        conditional_modifier_map.push((modifier.target, condition, modifier.value));
    } else {
        modifier_map.push((modifier.target, modifier.value));
    }
}

/// The modifiers that come with the character's splat.
fn splat_modifiers_of(character: &Character) -> (r: Vec<Modifier>)
    ensures
        r@ == splat_modifiers(*character),
{
    let mut modifiers: Vec<Modifier> = Vec::new();
    match &character.splat {
        Splat::Werewolf(auspice, .., data) => {
            modifiers = data.form.get_modifiers();

            if let Some(auspice) = auspice {
                let renown = Ability::Renown(*auspice.get_renown());
                let rating = match character.get_ability_value(&renown) {
                    Some(v) => *v,
                    None => 0,
                };
                let mut gift_mods = auspice.get_moon_gift().get_modifiers(rating);
                modifiers.append(&mut gift_mods);

                if let Some(skill_bonus) = data.skill_bonus {
                    if contains_skill(auspice.get_skills(), skill_bonus) {
                        modifiers.push(
                            Modifier::new(ModifierTarget::BaseSkill(skill_bonus), ModifierValue::Num(1), ModifierOp::Add),
                        );
                    }
                }
            }
        },
        Splat::Mage(_, order, _, data) => {
            if order.is_some() {
                modifiers.push(
                    Modifier::new(ModifierTarget::BaseSkill(Skill::Occult), ModifierValue::Num(1), ModifierOp::Add),
                );
            }

            if let Some(attr_bonus) = data.attr_bonus {
                if attr_bonus.get_type() == AttributeType::Resistance {
                    modifiers.push(
                        Modifier::new(ModifierTarget::BaseAttribute(attr_bonus), ModifierValue::Num(1), ModifierOp::Add),
                    );
                }
            }
        },
        Splat::Vampire(clan, .., data) => {
            if let Some(attr_bonus) = data.attr_bonus {
                if contains_attribute(clan.get_favored_attributes(), attr_bonus) {
                    modifiers.push(
                        Modifier::new(ModifierTarget::BaseAttribute(attr_bonus), ModifierValue::Num(1), ModifierOp::Add),
                    );
                }
            }
        },
        Splat::Changeling(seeming, .., data) => {
            if let Some(attr_bonus) = data.attr_bonus {
                if contains_attribute(&seeming.get_favored_attributes(), attr_bonus) {
                    modifiers.push(
                        Modifier::new(ModifierTarget::BaseAttribute(attr_bonus), ModifierValue::Num(1), ModifierOp::Add),
                    );
                }
            }
        },
        _ => {},
    }
    assert(modifiers@ =~= splat_modifiers(*character));
    modifiers
}

fn contains_skill(skills: &[Skill], s: Skill) -> (r: bool)
    ensures
        r == skills@.contains(s),
{
    let mut i: usize = 0;
    while i < skills.len()
        invariant
            i <= skills@.len(),
            forall|j: int| 0 <= j < i ==> skills@[j] != s,
        decreases skills@.len() - i,
    {
        if skills[i] == s {
            return true;
        }
        i += 1;
    }
    false
}

fn contains_attribute(attributes: &[Attribute], a: Attribute) -> (r: bool)
    ensures
        r == attributes@.contains(a),
{
    let mut i: usize = 0;
    while i < attributes.len()
        invariant
            i <= attributes@.len(),
            forall|j: int| 0 <= j < i ==> attributes@[j] != a,
        decreases attributes@.len() - i,
    {
        if attributes[i] == a {
            return true;
        }
        i += 1;
    }
    false
}

impl Clone for Modifier {
    fn clone(&self) -> (r: Self)
        ensures
            r == *self,
    {
        Modifier {
            target: self.target,
            value: self.value.clone(),
            op: self.op,
            condition: self.condition,
        }
    }
}

impl Clone for ModifierValue {
    fn clone(&self) -> (r: Self)
        ensures
            r == *self,
    {
        match self {
            ModifierValue::Num(n) => ModifierValue::Num(*n),
            ModifierValue::Ability(a) => ModifierValue::Ability(a.clone()),
            ModifierValue::Skill(s) => ModifierValue::Skill(*s),
            ModifierValue::DicePool(p) => ModifierValue::DicePool(p.clone()),
        }
    }
}

} // verus!
