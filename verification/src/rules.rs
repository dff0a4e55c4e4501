//! The rulebook facts that a sheet's numbers follow, stated as laws over every sheet: what
//! the vampire disciplines and the werewolf forms add to which traits, which rating
//! Initiative is made of, which column of attributes each seeming favours, and which
//! hunter's aspect comes with each auspice.
use vstd::prelude::*;

use crate::character::modifier::{
    ability_modifiers, applying_sum, context_of, merit_modifiers, splat_modifiers,
    lemma_updated_modifier, modifier_term, ModifierContext, ModifierTarget,
};
use crate::character::traits::{attribute_column, Attribute, AttributeType, Trait};
use crate::character::{Character, CharacterBuilder};
use crate::overview::tables_match;
use crate::splat::ability::Ability;
use crate::splat::changeling::Seeming;
use crate::splat::vampire::Discipline;
use crate::splat::werewolf::{Auspice, Form, HuntersAspect};
use crate::splat::Splat;

verus! {

/// What a discipline rated `v` adds to target `t`: Vigor adds its dots to Strength,
/// Resilience to Stamina and Celerity to Defense, each to nothing else; no other
/// discipline adds anything.
pub proof fn lemma_discipline_bonus(cx: ModifierContext, d: Discipline, v: u16, t: ModifierTarget)
    requires
        v <= 32767,
    ensures
        applying_sum(cx, Ability::Discipline(d).modifiers_spec(v), t) == match d {
            Discipline::Vigor => if t == ModifierTarget::Attribute(Attribute::Strength) {
                v as int
            } else {
                0
            },
            Discipline::Resilience => if t == ModifierTarget::Attribute(Attribute::Stamina) {
                v as int
            } else {
                0
            },
            Discipline::Celerity => if t == ModifierTarget::Trait(Trait::Defense) {
                v as int
            } else {
                0
            },
            _ => 0,
        },
{
    let ms = Ability::Discipline(d).modifiers_spec(v);
    reveal_with_fuel(applying_sum, 3);
    if ms.len() == 1 {
        assert(ms.drop_last() =~= Seq::<crate::character::modifier::Modifier>::empty());
        assert((v as i16) as int == v as int);
    }
}

/// A vampire whose one rated ability is Vigor, with no merits and no bonus attribute, and
/// whose tables are computed, has the dots of Vigor added to its Strength (at most five
/// dots of Strength and of Vigor) and its Stamina as rated.
pub proof fn lemma_vigor_strength(c: Character, v: u16)
    requires
        tables_match(c),
        c.splat matches Splat::Vampire(_, _, _, d) && d.attr_bonus is None,
        c.abilities@ == seq![(Ability::Discipline(Discipline::Vigor), v)],
        c.merits@.len() == 0,
        v <= 5,
        c.base_attributes_view().strength <= 5,
        c.base_attributes_view().stamina <= 5,
    ensures
        c.attributes_spec().strength == c.base_attributes_view().strength + v,
        c.attributes_spec().stamina == c.base_attributes_view().stamina,
{
    let cx = context_of(c);
    let ab = c.abilities@;
    reveal_with_fuel(ability_modifiers, 2);
    assert(ab.drop_last() =~= Seq::<(Ability, u16)>::empty());
    assert(ability_modifiers(ab) =~= Ability::Discipline(Discipline::Vigor).modifiers_spec(v));
    assert(merit_modifiers(c.merits@) =~= Seq::<crate::character::modifier::Modifier>::empty());
    assert(splat_modifiers(c) =~= Seq::<crate::character::modifier::Modifier>::empty());
    let ts = ModifierTarget::Attribute(Attribute::Strength);
    let bs = ModifierTarget::BaseAttribute(Attribute::Strength);
    let tt = ModifierTarget::Attribute(Attribute::Stamina);
    let bt = ModifierTarget::BaseAttribute(Attribute::Stamina);
    lemma_updated_modifier(c, c.modifiers_view(), ts);
    lemma_updated_modifier(c, c.modifiers_view(), bs);
    lemma_updated_modifier(c, c.modifiers_view(), tt);
    lemma_updated_modifier(c, c.modifiers_view(), bt);
    lemma_discipline_bonus(cx, Discipline::Vigor, v, ts);
    lemma_discipline_bonus(cx, Discipline::Vigor, v, bs);
    lemma_discipline_bonus(cx, Discipline::Vigor, v, tt);
    lemma_discipline_bonus(cx, Discipline::Vigor, v, bt);
    assert(c.mod_sum(ts) == v);
    assert(c.mod_sum(bs) == 0);
    assert(c.mod_sum(tt) == 0);
    assert(c.mod_sum(bt) == 0);
}

/// What the form `f` adds to target `t`: Hishu +1 Perception; Dalu +1 Strength, +1
/// Stamina, -1 Manipulation, +1 Size, +2 Perception; Gauru +3 Strength, +1 Dexterity, +2
/// Stamina, +2 Size, +3 Perception; Urshul +2 Strength, +2 Dexterity, +2 Stamina, -1
/// Manipulation, +1 Size, +3 Speed, +3 Perception; Urhan +2 Dexterity, +1 Stamina, -1
/// Manipulation, -1 Size, +3 Speed, +4 Perception; and nothing to any other target.
pub proof fn lemma_form_bonus(cx: ModifierContext, f: Form, t: ModifierTarget)
    ensures
        applying_sum(cx, f.modifiers_spec(), t) == ({
            let strength = t == ModifierTarget::Attribute(Attribute::Strength);
            let dexterity = t == ModifierTarget::Attribute(Attribute::Dexterity);
            let stamina = t == ModifierTarget::Attribute(Attribute::Stamina);
            let manipulation = t == ModifierTarget::Attribute(Attribute::Manipulation);
            let size = t == ModifierTarget::Trait(Trait::Size);
            let speed = t == ModifierTarget::Trait(Trait::Speed);
            let perception = t == ModifierTarget::Trait(Trait::Perception);
            match f {
                Form::Hishu => if perception {
                    1int
                } else {
                    0
                },
                Form::Dalu => if strength || stamina || size {
                    1int
                } else if manipulation {
                    -1
                } else if perception {
                    2
                } else {
                    0
                },
                Form::Gauru => if strength || perception {
                    3int
                } else if dexterity {
                    1
                } else if stamina || size {
                    2
                } else {
                    0
                },
                Form::Urshul => if strength || dexterity || stamina {
                    2int
                } else if manipulation {
                    -1
                } else if size {
                    1
                } else if speed || perception {
                    3
                } else {
                    0
                },
                Form::Urhan => if dexterity {
                    2int
                } else if stamina {
                    1
                } else if manipulation || size {
                    -1
                } else if speed {
                    3
                } else if perception {
                    4
                } else {
                    0
                },
            }
        }),
{
    lemma_sum_by_prefix(cx, f.modifiers_spec(), t);
}

/// `applying_sum` over a list, unfolded entry by entry from the front.
proof fn lemma_sum_by_prefix(cx: ModifierContext, ms: Seq<crate::character::modifier::Modifier>, t: ModifierTarget)
    requires
        ms.len() <= 7,
    ensures
        applying_sum(cx, ms, t) == (if ms.len() > 0 {
            modifier_term(cx, ms[0], t)
        } else {
            0
        }) + (if ms.len() > 1 {
            modifier_term(cx, ms[1], t)
        } else {
            0
        }) + (if ms.len() > 2 {
            modifier_term(cx, ms[2], t)
        } else {
            0
        }) + (if ms.len() > 3 {
            modifier_term(cx, ms[3], t)
        } else {
            0
        }) + (if ms.len() > 4 {
            modifier_term(cx, ms[4], t)
        } else {
            0
        }) + (if ms.len() > 5 {
            modifier_term(cx, ms[5], t)
        } else {
            0
        }) + (if ms.len() > 6 {
            modifier_term(cx, ms[6], t)
        } else {
            0
        }),
    decreases ms.len(),
{
    if ms.len() > 0 {
        let d = ms.drop_last();
        lemma_sum_by_prefix(cx, d, t);
        assert forall|i: int| 0 <= i < d.len() implies d[i] == ms[i] by {}
    }
}

/// A werewolf in Dalu form without an auspice, abilities or merits, whose tables are
/// computed, has one more dot of Strength than rated (below five) and its Dexterity as
/// rated (at most five).
pub proof fn lemma_dalu_strength(c: Character)
    requires
        tables_match(c),
        c.splat matches Splat::Werewolf(None, _, _, d) && d.form == Form::Dalu,
        c.abilities@.len() == 0,
        c.merits@.len() == 0,
        c.base_attributes_view().strength < 5,
        c.base_attributes_view().dexterity <= 5,
    ensures
        c.attributes_spec().strength == c.base_attributes_view().strength + 1,
        c.attributes_spec().dexterity == c.base_attributes_view().dexterity,
{
    let cx = context_of(c);
    assert(ability_modifiers(c.abilities@) =~= Seq::<crate::character::modifier::Modifier>::empty());
    assert(merit_modifiers(c.merits@) =~= Seq::<crate::character::modifier::Modifier>::empty());
    assert(splat_modifiers(c) =~= Form::Dalu.modifiers_spec() + Seq::<crate::character::modifier::Modifier>::empty());
    assert(splat_modifiers(c) =~= Form::Dalu.modifiers_spec());
    let ts = ModifierTarget::Attribute(Attribute::Strength);
    let bs = ModifierTarget::BaseAttribute(Attribute::Strength);
    let td = ModifierTarget::Attribute(Attribute::Dexterity);
    let bd = ModifierTarget::BaseAttribute(Attribute::Dexterity);
    lemma_updated_modifier(c, c.modifiers_view(), ts);
    lemma_updated_modifier(c, c.modifiers_view(), bs);
    lemma_updated_modifier(c, c.modifiers_view(), td);
    lemma_updated_modifier(c, c.modifiers_view(), bd);
    lemma_form_bonus(cx, Form::Dalu, ts);
    lemma_form_bonus(cx, Form::Dalu, bs);
    lemma_form_bonus(cx, Form::Dalu, td);
    lemma_form_bonus(cx, Form::Dalu, bd);
    assert(c.mod_sum(ts) == 1);
    assert(c.mod_sum(bs) == 0);
    assert(c.mod_sum(td) == 0);
    assert(c.mod_sum(bd) == 0);
}

/// Initiative does not depend on Wits: setting the dots of Wits to any number leaves it
/// as it was.
pub proof fn lemma_initiative_ignores_wits(c: Character, w: u16)
    ensures
        (Character { _attributes: c._attributes.with_attr(Attribute::Wits, w), ..c }).initative_spec()
            == c.initative_spec(),
{
    let c2 = Character { _attributes: c._attributes.with_attr(Attribute::Wits, w), ..c };
    assert(context_of(c2) == context_of(c));
    assert(c2.modified_spec(ModifierTarget::Attribute(Attribute::Dexterity)) == c.modified_spec(
        ModifierTarget::Attribute(Attribute::Dexterity),
    ));
    assert(c2.modified_spec(ModifierTarget::Attribute(Attribute::Composure)) == c.modified_spec(
        ModifierTarget::Attribute(Attribute::Composure),
    ));
}

/// Initiative is Dexterity plus Composure: where neither has modifiers, their dots are
/// below five, and Initiative stays between its bounds, one more dot of Composure, or of
/// Dexterity, gives one more point of Initiative.
pub proof fn lemma_initiative_steps(c: Character, a: Attribute)
    requires
        a == Attribute::Composure || a == Attribute::Dexterity,
        c.base_attributes_view().get_spec(a) < 5,
        c.mod_sum(ModifierTarget::Attribute(a)) == 0,
        c.mod_sum(ModifierTarget::BaseAttribute(a)) == 0,
        0 < c.initative_spec() < 254,
        c.attributes_spec().dexterity + c.attributes_spec().composure + c.mod_sum(ModifierTarget::Trait(Trait::Initative))
            > 0,
    ensures
        (Character {
            _attributes: c._attributes.with_attr(a, (c.base_attributes_view().get_spec(a) + 1) as u16),
            ..c
        }).initative_spec() == c.initative_spec() + 1,
{
    let b = c.base_attributes_view().get_spec(a);
    let c2 = Character { _attributes: c._attributes.with_attr(a, (b + 1) as u16), ..c };
    assert(context_of(c2) == context_of(c));
    let other = if a == Attribute::Composure {
        Attribute::Dexterity
    } else {
        Attribute::Composure
    };
    assert(c2.modified_spec(ModifierTarget::Attribute(other)) == c.modified_spec(ModifierTarget::Attribute(other)));
    assert(c.modified_spec(ModifierTarget::Attribute(a)) == b);
    assert(c2.modified_spec(ModifierTarget::Attribute(a)) == b + 1);
}

/// The column of attributes that a seeming favours, as the rulebook gives it: Beast and
/// Elemental Resistance, Darkling and Wizened Finesse, Fairest and Ogre Power; a custom
/// seeming its own.
pub open spec fn rulebook_column(s: Seeming) -> AttributeType {
    match s {
        Seeming::Beast | Seeming::Elemental => AttributeType::Resistance,
        Seeming::Darkling | Seeming::Wizened => AttributeType::Finesse,
        Seeming::Fairest | Seeming::Ogre => AttributeType::Power,
        Seeming::_Custom(.., t) => t,
    }
}

/// Each seeming favours the column the rulebook gives it, and each column is favoured by
/// exactly two of the six seemings of the rulebook.
pub proof fn lemma_seeming_columns(s: Seeming, col: AttributeType)
    ensures
        s.favored_type() == rulebook_column(s),
        seemings_favoring(col) == 2,
{
}

/// How many of the six seemings of the rulebook favour the column `col`.
pub open spec fn seemings_favoring(col: AttributeType) -> int {
    let one = |s: Seeming| if s.favored_type() == col {
        1int
    } else {
        0int
    };
    one(Seeming::Beast) + one(Seeming::Darkling) + one(Seeming::Elemental) + one(Seeming::Fairest) + one(
        Seeming::Ogre,
    ) + one(Seeming::Wizened)
}

/// A changeling whose tables are computed gets one dot on the dots of its bonus attribute
/// exactly when that attribute stands in its seeming's rulebook column (so a Fairest with
/// Presence as bonus attribute gets it, and one with Wits does not), and nothing from its
/// splat on any other attribute.
pub proof fn lemma_changeling_bonus(c: Character, a: Attribute)
    requires
        c.splat matches Splat::Changeling(_, _, _, d) && d.attr_bonus == Some(a),
    ensures
        c.splat matches Splat::Changeling(s, _, _, _) && applying_sum(
            context_of(c),
            splat_modifiers(c),
            ModifierTarget::BaseAttribute(a),
        ) == if attribute_column(a) == rulebook_column(s) {
            1int
        } else {
            0int
        },
        forall|b: Attribute|
            b != a ==> #[trigger] applying_sum(context_of(c), splat_modifiers(c), ModifierTarget::BaseAttribute(b))
                == 0,
{
    let ms = splat_modifiers(c);
    reveal_with_fuel(applying_sum, 2);
    if let Splat::Changeling(s, _, _, _) = c.splat {
        lemma_seeming_columns(s, AttributeType::Power);
        crate::character::traits::lemma_attribute_grid(a, crate::character::traits::attribute_row(a), attribute_column(a));
        assert(crate::character::traits::column_attributes(s.favored_type()).contains(a) == (attribute_column(a)
            == s.favored_type())) by {
            let col = s.favored_type();
            let cs = crate::character::traits::column_attributes(col);
            if cs.contains(a) {
                let i = choose|i: int| 0 <= i < cs.len() && cs[i] == a;
                assert(cs[i] == a);
            }
            if attribute_column(a) == col {
                assert(cs[0] == crate::character::traits::grid_attribute(crate::character::traits::TraitCategory::Mental, col));
                let row = crate::character::traits::attribute_row(a);
                if row == crate::character::traits::TraitCategory::Mental {
                    assert(cs[0] == a);
                } else if row == crate::character::traits::TraitCategory::Physical {
                    assert(cs[1] == a);
                } else {
                    assert(cs[2] == a);
                }
            }
        }
        if ms.len() == 1 {
            assert(ms.drop_last() =~= Seq::<crate::character::modifier::Modifier>::empty());
        }
    }
}

/// The hunter's aspect of an auspice, as the rulebook gives it: Cahalith Monstrous,
/// Elodoth Isolating, Irraka Blissful, Ithaeur Mystic, Rahu Dominant; a custom auspice its
/// own.
pub open spec fn rulebook_aspect(a: Auspice) -> HuntersAspect {
    match a {
        Auspice::Cahalith => HuntersAspect::Monstrous,
        Auspice::Elodoth => HuntersAspect::Isolating,
        Auspice::Irraka => HuntersAspect::Blissful,
        Auspice::Ithaeur => HuntersAspect::Mystic,
        Auspice::Rahu => HuntersAspect::Dominant,
        Auspice::_Custom(.., h) => h,
    }
}

/// A werewolf built with an auspice gets that auspice's rulebook hunter's aspect, and the
/// five auspices of the rulebook have five different aspects.
pub proof fn lemma_built_hunters_aspect(b: CharacterBuilder, c: Character, x: Auspice, y: Auspice)
    requires
        b.assembles(c),
    ensures
        b.splat matches Splat::Werewolf(Some(a), _, _, _) ==> (c.splat matches Splat::Werewolf(Some(a2), _, _, d)
            && a2 == a && d.hunters_aspect == Some(rulebook_aspect(a))),
        !(x is _Custom) && !(y is _Custom) && x != y ==> x.hunters_aspect_spec() != y.hunters_aspect_spec(),
{
}

} // verus!
