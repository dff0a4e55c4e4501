use cofd::character::dice_pool::{uwu, PoolComponent};
use cofd::character::modifier::{Condition, Modifier, ModifierOp, ModifierTarget, ModifierValue};
use cofd::character::traits::{Attribute, Skill, Trait};
use cofd::character::{
    add, defense_pool, is_empty_vec, is_five, vec_changed, Attributes, Character, CharacterInfo, Damage,
    InfoTrait, Skills, Wound,
};
use cofd::dice_pool::DicePool;
use cofd::splat::geist::Burden;
use cofd::splat::mage::{MageData, Path};
use cofd::splat::vampire::{Clan, Covenant, Discipline};
use cofd::splat::werewolf::{Auspice, Form, MoonGift, Renown};
use cofd::splat::{Merit, Splat, XSplat, YSplat, ZSplat};
use cofd::splat::changeling::Regalia;
use cofd::splat::geist::Key;
use cofd::splat::mage::Arcanum;
use cofd::splat::name_key::NameKey;
use cofd::splat::werewolf::{HuntersAspect, KuruthTriggers, Rite, ShadowGift, WolfGift};

#[test]
fn add_clamps_to_a_rating() {
    assert_eq!(add(3, 2), 5);
    assert_eq!(add(3, -5), 0);
    assert_eq!(add(0, 0), 0);
    assert_eq!(add(254, 0), 254);
    assert_eq!(add(255, 0), u16::MAX);
    assert_eq!(add(250, 10), u16::MAX);
}

#[test]
fn wounds_cycle_when_poked() {
    let w = Wound::default();
    assert_eq!(w, Wound::Healthy);
    assert_eq!(w.poke(), Wound::Bashing);
    assert_eq!(w.poke().poke(), Wound::Lethal);
    assert_eq!(w.poke().poke().poke(), Wound::Aggravated);
    assert_eq!(w.poke().poke().poke().poke(), w);
    assert_eq!(Wound::Aggravated.inc(), Wound::Aggravated);
    assert_eq!(Wound::Bashing.inc(), Wound::Lethal);
    let mut m = Wound::Lethal;
    m.poke_mut();
    assert_eq!(m, Wound::Aggravated);
}

#[test]
fn damage_fills_worst_first() {
    let d = Damage::new(2, 1, 3);
    assert_eq!(d.get(&Wound::Bashing), 2);
    assert_eq!(d.get(&Wound::Lethal), 1);
    assert_eq!(d.get(&Wound::Aggravated), 3);
    assert_eq!(d.get(&Wound::Healthy), 0);
    assert_eq!(d.sum(), 6);
    let boxes: Vec<Wound> = (0..7).map(|i| d.get_i(i)).collect();
    assert_eq!(
        boxes,
        vec![
            Wound::Aggravated,
            Wound::Aggravated,
            Wound::Aggravated,
            Wound::Lethal,
            Wound::Bashing,
            Wound::Bashing,
            Wound::Healthy
        ]
    );
}

#[test]
fn damage_taken_then_healed_is_undone() {
    let before = Damage::new(2, 1, 3);
    let mut d = before.clone();
    d.inc(&Wound::Lethal);
    assert_eq!(d.get(&Wound::Lethal), 2);
    d.dec(&Wound::Lethal);
    assert_eq!(d, before);

    let mut healthy = Damage::default();
    healthy.dec(&Wound::Bashing);
    assert_eq!(healthy, Damage::default());
}

#[test]
fn poking_a_box_moves_damage_along() {
    let mut d = Damage::default();
    d.poke(&Wound::Healthy);
    assert_eq!(d, Damage::new(1, 0, 0));
    d.poke(&Wound::Bashing);
    assert_eq!(d, Damage::new(0, 1, 0));
    d.poke(&Wound::Lethal);
    assert_eq!(d, Damage::new(0, 0, 1));
    d.poke(&Wound::Aggravated);
    assert_eq!(d, Damage::default());
}

#[test]
fn attributes_added_then_taken_away() {
    let a = Attributes {
        intelligence: 3,
        wits: 2,
        resolve: 1,
        strength: 4,
        dexterity: 2,
        stamina: 3,
        presence: 1,
        manipulation: 2,
        composure: 5,
    };
    let b = Attributes::default();
    let sum = a.clone() + b.clone();
    assert_eq!(sum.strength, 5);
    assert_eq!(sum - b, a);
}

#[test]
fn setting_one_rating_leaves_the_others() {
    let mut a = Attributes::default();
    *a.get_mut(&Attribute::Wits) = 4;
    assert_eq!(a.wits, 4);
    assert_eq!(*a.get(&Attribute::Wits), 4);
    assert_eq!(a.resolve, 1);

    let mut s = Skills::default();
    *s.get_mut(Skill::Brawl) = 3;
    assert_eq!(s.get(Skill::Brawl), 3);
    assert_eq!(s.get(Skill::Athletics), 0);

    let mut i = CharacterInfo::default();
    i.get_mut(InfoTrait::Name).push_str("Polaris");
    assert_eq!(i.get(InfoTrait::Name), "Polaris");
    assert_eq!(i.get(InfoTrait::Player), "");
    assert_eq!(InfoTrait::VirtueAnchor.name(), "virtue_anchor");
}

#[test]
fn abilities_are_kept_as_a_map() {
    let mut c = Character::default();
    c.add_ability(Renown::Glory.into(), 2);
    c.add_ability(Renown::Purity.into(), 1);
    c.add_ability(Renown::Glory.into(), 3);
    assert_eq!(c.abilities.len(), 2);
    assert_eq!(c.get_ability_value(&Renown::Glory.into()), Some(&3));
    assert_eq!(c.get_ability_value(&Renown::Purity.into()), Some(&1));
    assert!(c.has_ability(&Renown::Purity.into()));

    if let Some(v) = c.get_ability_value_mut(&Renown::Purity.into()) {
        *v = 4;
    }
    assert_eq!(c.get_ability_value(&Renown::Purity.into()), Some(&4));

    c.add_ability(Discipline::_Custom("Coil".to_string()).into(), 1);
    c.add_ability(Discipline::_Custom("Coil".to_string()).into(), 2);
    assert_eq!(c.abilities.len(), 3);

    assert_eq!(c.remove_ability(&Renown::Glory.into()), Some(3));
    assert!(!c.has_ability(&Renown::Glory.into()));
    assert_eq!(c.remove_ability(&Renown::Glory.into()), None);
    assert_eq!(c.get_ability_value(&Renown::Glory.into()), None);
    assert!(c.get_ability_value_mut(&Renown::Glory.into()).is_none());
}

#[test]
fn merits_are_kept_in_order() {
    let mut c = Character::default();
    c.add_merit(Merit::Giant);
    c.add_merit(Merit::Resources);
    assert_eq!(c.merits.len(), 2);
    assert!(matches!(c.get_merit(0), Some((Merit::Giant, 0))));
    assert!(c.get_merit(2).is_none());
    if let Some(m) = c.get_merit_mut(1) {
        m.1 = 3;
    }
    assert!(c.get_merit_mut(5).is_none());
    let removed = c.remove_merit(0);
    assert!(matches!(removed, (Merit::Giant, 0)));
    assert!(matches!(c.get_merit(0), Some((Merit::Resources, 3))));
}

#[test]
fn a_fresh_sheet() {
    let c = Character::default();
    assert_eq!(c.base_size, 5);
    assert_eq!(c.integrity, 7);
    assert_eq!(c.size(), 5);
    assert_eq!(c.max_health(), 6);
    assert_eq!(c.max_willpower(), 2);
    assert_eq!(c.speed(), 7);
    assert_eq!(c.initative(), 2);
    assert_eq!(c.perception(), 2);
    assert_eq!(c.defense(), 1);
    assert_eq!(c.max_fuel(), 1);
    assert_eq!(c.wound_penalty(), 0);
    assert_eq!(c.get_trait(&Trait::Size), 5);
    assert_eq!(c.get_trait(&Trait::Integrity), 7);
    assert_eq!(c.armor().general, 0);
}

#[test]
fn maximum_fuel_follows_supernatural_tolerance() {
    let mut c = Character::default();
    let expected = [(0, 1), (1, 10), (4, 13), (5, 15), (8, 30), (9, 50), (10, 75), (11, 0)];
    for (power, fuel) in expected {
        c.power = power;
        assert_eq!(c.max_fuel(), fuel, "power {}", power);
    }
}

#[test]
fn wound_penalty_counts_the_last_boxes() {
    let mut c = Character::default();
    let expected = [0, 0, 0, 0, 1, 2, 3, 3];
    for (taken, penalty) in expected.iter().enumerate() {
        assert_eq!(c.wound_penalty(), *penalty, "taken {}", taken);
        c.health_mut().inc(&Wound::Bashing);
    }
    assert_eq!(c.health().sum(), 8);
}

#[test]
fn experience_comes_from_beats() {
    let mut c = Character::default();
    c.beats = 12;
    c.alternate_beats = 4;
    assert_eq!(c.experience(), 2);
    assert_eq!(c.alternate_experience(), 0);
}

#[test]
fn building_fills_fuel_and_willpower() {
    let vampire = Character::builder()
        .with_splat(Splat::Vampire(Clan::Daeva, None, None, Default::default()))
        .build();
    assert_eq!(vampire.power, 1);
    assert_eq!(vampire.fuel, 10);
    assert_eq!(vampire.willpower, 2);

    let elder = Character::builder()
        .with_splat(Splat::Vampire(Clan::Daeva, None, None, Default::default()))
        .with_st(5)
        .build();
    assert_eq!(elder.power, 5);
    assert_eq!(elder.fuel, 15);

    let given = Character::builder()
        .with_splat(Splat::Vampire(Clan::Daeva, None, None, Default::default()))
        .with_fuel(3)
        .build();
    assert_eq!(given.fuel, 3);

    let mortal = Character::builder().with_st(4).build();
    assert_eq!(mortal.power, 0);
    assert_eq!(mortal.fuel, 1);

    let werewolf = Character::builder()
        .with_splat(Splat::Werewolf(Some(Auspice::Rahu), None, None, Default::default()))
        .build();
    if let Splat::Werewolf(_, _, _, data) = &werewolf.splat {
        assert!(data.hunters_aspect.is_some());
        assert_eq!(data.hunters_aspect.as_ref().unwrap().name(), "dominant");
    } else {
        panic!("not a werewolf");
    }
}

#[test]
fn giant_adds_one_to_size() {
    let c = Character::builder().with_merits([(Merit::Giant, 3)]).build();
    assert_eq!(c.size(), 6);
    assert_eq!(c.max_health(), 7);
    assert_eq!(c.get_modifier(ModifierTarget::Trait(Trait::Size)), 1);
    assert_eq!(c.get_modifier(ModifierTarget::Trait(Trait::Speed)), 0);
}

#[test]
fn defensive_combat_replaces_athletics() {
    let plain = Character::builder()
        .with_skills(Skills { brawl: 3, athletics: 1, ..Default::default() })
        .with_merits([(Merit::TrainedObserver, 1)])
        .build();
    assert_eq!(plain.defense(), 2);
    assert_eq!(plain.get_pool(ModifierTarget::Trait(Trait::Defense)), Some(defense_pool()));
    assert_eq!(plain.get_pool(ModifierTarget::Trait(Trait::Speed)), None);

    let fighter = Character::builder()
        .with_skills(Skills { brawl: 3, athletics: 1, ..Default::default() })
        .with_merits([(Merit::DefensiveCombat(true, Some(Skill::Brawl)), 1)])
        .build();
    assert_eq!(fighter.defense(), 4);
    let pool = fighter.get_conditional_pool(ModifierTarget::Trait(Trait::Defense), Condition::WerewolfForm(Form::Gauru));
    assert_eq!(pool.map(|p| p.value(&fighter)), Some(4));
    assert_eq!(
        fighter.get_conditional_modifier(ModifierTarget::Trait(Trait::Defense), Condition::WerewolfForm(Form::Gauru)),
        None
    );
}

#[test]
fn the_tables_are_recomputed_on_request() {
    let mut c = Character::default();
    c.add_merit(Merit::Giant);
    assert_eq!(c.size(), 5);
    c.calc_mod_map();
    assert_eq!(c.size(), 6);
    c.remove_merit(0);
    assert_eq!(c.size(), 6);
    c.calc_mod_map();
    assert_eq!(c.size(), 5);
}

#[test]
fn a_werewolf_form_changes_traits_once_recomputed() {
    let mut c = Character::builder()
        .with_splat(Splat::Werewolf(Some(Auspice::Rahu), None, None, Default::default()))
        .with_abilities([(Renown::Purity.into(), 3)])
        .build();
    // Hishu gives one to Perception; a Rahu's Full Moon gift adds Purity to Health.
    assert_eq!(c.perception(), 3);
    assert_eq!(c.max_health(), 9);
    if let Splat::Werewolf(_, _, _, data) = &mut c.splat {
        data.form = Form::Urhan;
    }
    c.calc_mod_map();
    // Urhan: Size -1, Stamina +1, Perception +4, Speed +3, Dexterity +2.
    assert_eq!(c.size(), 4);
    assert_eq!(c.perception(), 1 + 1 + 4);
    assert_eq!(c.attributes().dexterity, 3);
    assert_eq!(c.speed(), 5 + 3 + 1 + 3);
}

#[test]
fn dots_raised_past_five_by_a_bonus_stay_at_five() {
    let mut mage = Character::builder()
        .with_splat(Splat::Mage(
            Path::Moros,
            None,
            None,
            Box::new(MageData { attr_bonus: Some(Attribute::Composure), ..Default::default() }),
        ))
        .with_attributes(Attributes { composure: 5, ..Default::default() })
        .with_merits([])
        .build();
    assert_eq!(mage.attributes().composure, 5);
    mage.base_attributes_mut().composure = 3;
    assert_eq!(mage.attributes().composure, 4);
    assert_eq!(mage.base_attributes().composure, 3);
    assert_eq!(mage._modified(ModifierTarget::BaseAttribute(Attribute::Composure)), 4);

    let mut scholar = Character::builder()
        .with_splat(Splat::Mage(
            Path::Moros,
            None,
            None,
            Box::new(MageData { attr_bonus: Some(Attribute::Intelligence), ..Default::default() }),
        ))
        .with_merits([])
        .build();
    assert_eq!(scholar.attributes().intelligence, 1);
    scholar.base_skills_mut().occult = 2;
    assert_eq!(scholar.skills().occult, 2);
}

#[test]
fn an_order_gives_a_dot_of_occult() {
    let c = Character::builder()
        .with_splat(Splat::Mage(
            Path::Moros,
            Some(cofd::splat::mage::Order::Mysterium),
            None,
            Default::default(),
        ))
        .with_merits([])
        .build();
    assert_eq!(c.skills().occult, 1);
    assert_eq!(c.base_skills().occult, 0);
}

#[test]
fn dice_pools_are_counted_on_a_sheet() {
    let c = Character::builder()
        .with_attributes(Attributes { strength: 3, dexterity: 2, ..Default::default() })
        .with_skills(Skills { brawl: 2, ..Default::default() })
        .build();
    assert_eq!((Attribute::Strength + Skill::Brawl).value(&c), 5);
    assert_eq!((Attribute::Strength + Attribute::Dexterity).value(&c), 5);
    assert_eq!(DicePool::min(DicePool::from(Attribute::Strength), DicePool::from(2i16)).value(&c), 2);
    assert_eq!(DicePool::max(DicePool::Mod(2), DicePool::Mod(7)).value(&c), 7);
    assert_eq!((DicePool::Mod(2) - DicePool::Mod(5)).value(&c), -3);
    assert_eq!((DicePool::from(Trait::Size) + Skill::Brawl).value(&c), 7);
    assert_eq!(DicePool::default(), DicePool::Mod(0));
    assert_eq!(defense_pool().value(&c), 1);

    let total = (PoolComponent::Attribute(Attribute::Strength) - PoolComponent::Trait(Trait::Size)).total(&c);
    assert_eq!(total, -2);
    let nested = ((PoolComponent::from(Skill::Brawl) + PoolComponent::from(Attribute::Dexterity))
        + (PoolComponent::Attribute(Attribute::Strength) + PoolComponent::Skill(Skill::Brawl)))
    .total(&c);
    assert_eq!(nested, 9);
    uwu();
}

#[test]
fn modifier_values() {
    let c = Character::builder().with_skills(Skills { occult: 2, ..Default::default() }).build();
    assert_eq!(ModifierValue::Num(-2).value(&c), -2);
    assert_eq!(ModifierValue::Skill(Skill::Occult).value(&c), 2);
    assert_eq!(ModifierValue::Ability(Renown::Glory.into()).value(&c), 0);
    assert_eq!(ModifierValue::DicePool(DicePool::Mod(4)).value(&c), 4);
    let m = Modifier::new(ModifierTarget::Trait(Trait::Size), ModifierValue::from(2i16), ModifierOp::Add);
    assert_eq!(m.val(), Some(2));
    let s = Modifier::conditional(
        ModifierTarget::Trait(Trait::Defense),
        ModifierValue::Skill(Skill::Brawl),
        ModifierOp::Replace,
        Condition::WerewolfForm(Form::Gauru),
    );
    assert_eq!(s.val(), None);
    assert_eq!(ModifierOp::Replace.name(), "set");
    assert!(!Condition::WerewolfForm(Form::Hishu).check(&c));
}

#[test]
fn splat_choices_are_set_and_read_back() {
    let mut s = Splat::Vampire(Clan::Daeva, None, None, Default::default());
    s.set_xsplat(Some(XSplat::Vampire(Clan::Gangrel)));
    assert!(matches!(s.xsplat(), Some(XSplat::Vampire(Clan::Gangrel))));
    s.set_xsplat(Some(XSplat::Mage(Path::Moros)));
    assert!(matches!(s.xsplat(), Some(XSplat::Vampire(Clan::Gangrel))));
    s.set_ysplat(Some(YSplat::Vampire(Covenant::Invictus)));
    assert!(matches!(s.ysplat(), Some(YSplat::Vampire(Covenant::Invictus))));
    s.set_ysplat(None);
    assert!(s.ysplat().is_none());
    s.set_zsplat(s.custom_zsplat("Dragolescu".to_string()));
    assert!(matches!(s.zsplat(), Some(ref z) if z.is_custom() && z.name() == "Dragolescu"));
    s.set_zsplat(None);
    assert!(s.zsplat().is_none());

    let mut w = Splat::Werewolf(Some(Auspice::Rahu), None, None, Default::default());
    w.set_xsplat(None);
    assert!(w.xsplat().is_none());
    assert_eq!(Splat::Mortal.name(), "mortal");
    assert_eq!(w.fuel(), Some("essence"));
    assert_eq!(Splat::Mortal.fuel(), None);
    assert_eq!(s.integrity(), "humanity");
}

#[test]
fn custom_choices_carry_their_names() {
    let w = Splat::Werewolf(None, None, None, Default::default());
    let mut x = w.custom_xsplat("Wanderer".to_string()).unwrap();
    assert!(x.is_custom());
    assert_eq!(x.name(), "Wanderer");
    if let Some(n) = x.name_mut() {
        *n = "Rover".to_string();
    }
    assert_eq!(x.name(), "Rover");
    assert!(Splat::Mortal.custom_xsplat("X".to_string()).is_none());
    let y = w.custom_ysplat("Lost".to_string()).unwrap();
    assert!(y.is_custom());
    assert_eq!(y.name(), "Lost");
    let mut clan = XSplat::Vampire(Clan::Daeva);
    assert!(!clan.is_custom());
    assert!(clan.name_mut().is_none());
    assert_eq!(clan.name(), "daeva");
    let b = Splat::Bound(Burden::Abiding, Default::default(), Default::default());
    assert!(b.custom_zsplat("Z".to_string()).is_none());
    assert!(matches!(b.custom_ability("Knock".to_string()), Some(_)));
    assert!(Splat::Mortal.custom_ability("Knock".to_string()).is_none());
    assert!(matches!(w.custom_ability("Moon".to_string()), Some(cofd::splat::ability::Ability::MoonGift(MoonGift::_Custom(_)))));
    let _: Option<ZSplat> = w.custom_zsplat("Lodge".to_string());
}

#[test]
fn lists_of_a_splat() {
    let v = Splat::Vampire(Clan::Daeva, None, None, Default::default());
    let w = Splat::Werewolf(None, None, None, Default::default());
    let ch = Splat::Changeling(cofd::splat::changeling::Seeming::Beast, None, None, Default::default());
    assert_eq!(v.xsplats().len(), 5);
    assert_eq!(w.ysplats().len(), 8);
    assert_eq!(ch.zsplats().len(), 12);
    assert!(v.zsplats().is_empty());
    assert!(Splat::Mortal.xsplats().is_empty());
    assert_eq!(v.all_abilities().map(|a| a.len()), Some(10));
    assert_eq!(w.all_abilities().map(|a| a.len()), Some(5));
    assert!(Splat::Mortal.all_abilities().is_none());
    assert_eq!(Splat::Mortal.merits().len(), 13);
    assert_eq!(v.merits().len(), 36);
    assert!(Splat::Bound(Burden::Abiding, Default::default(), Default::default()).merits().is_empty());
    assert!(v.alternate_beats_optional());
    assert!(!Splat::Mage(Path::Moros, None, None, Default::default()).alternate_beats_optional());
}

#[test]
fn traits_and_their_lists() {
    assert_eq!(Attribute::all().len(), 9);
    assert_eq!(Skill::all().len(), 24);
    assert_eq!(Attribute::Wits.name(), "wits");
    assert_eq!(Skill::AnimalKen.name(), "animal_ken");
    assert_eq!(Form::all().len(), 5);
    assert_eq!(Renown::Purity.name(), "purity");
}

#[test]
fn dice_pools_are_written_out() {
    assert_eq!(defense_pool().to_string(), "min(wits, dexterity) + athletics");
    assert_eq!(DicePool::Mod(-12).to_string(), "-12");
    assert_eq!(DicePool::Mod(i16::MIN).to_string(), "-32768");
    assert_eq!(DicePool::Mod(0).to_string(), "0");
    assert_eq!((DicePool::from(Attribute::Strength) - DicePool::Mod(3)).to_string(), "strength - 3");
    assert_eq!(DicePool::max(DicePool::from(Trait::Size), DicePool::Mod(250)).to_string(), "max(size, 250)");
}

#[test]
fn name_keys_name_the_kind_and_the_thing() {
    assert_eq!(Skill::AnimalKen.name_key(), "skill.animal_ken");
    assert_eq!(HuntersAspect::Dominant.name_key(), "werewolf.dominant");
    assert_eq!(MoonGift::Full.name_key(), "moon-gifts.full");
    assert_eq!(ShadowGift::Death.name_key(), "shadow-gifts.death");
    assert_eq!(WolfGift::Hunting.name_key(), "wolf-gifts.hunting");
    assert_eq!(Rite::SacredHunt.name_key(), "werewolf.sacred_hunt");
    assert_eq!(Arcanum::Prime.name_key(), "mage.prime");
    assert_eq!(Key::ColdWind.name_key(), "geist.cold_wind");
    assert_eq!(Regalia::Crown.name_key(), "changeling.crown");
    assert_eq!(KuruthTriggers::Moon.name_key(), "kuruth-triggers.moon");
    assert_eq!(KuruthTriggers::default().name_key(), "custom");
    assert_eq!(XSplat::Vampire(Clan::Daeva).name_key(), "vampire.daeva");
    assert_eq!(YSplat::Vampire(Covenant::Invictus).name_key(), "vampire.invictus");
    assert_eq!(XSplat::Bound(Burden::Abiding).name_key(), "bound.abiding");
    assert_eq!(ZSplat::Werewolf(cofd::splat::werewolf::Lodge::_Custom("Lodge of Wolves".to_string())).name_key(), "werewolf.Lodge of Wolves");
}

#[test]
fn lists_grow_to_take_an_entry() {
    let mut v: Vec<String> = vec!["a".to_string()];
    vec_changed(2, "c".to_string(), &mut v);
    assert_eq!(v, vec!["a", "", "c"]);
    vec_changed(0, "z".to_string(), &mut v);
    assert_eq!(v, vec!["z", "", "c"]);
    assert!(!is_empty_vec(&v));
    assert!(is_empty_vec(&vec![]));
    assert!(is_five(&5));
    assert!(!is_five(&4));
}

#[test]
fn standard_kuruth_triggers_are_three_distinct_texts() {
    for t in KuruthTriggers::all().iter() {
        let set = t.get_triggers();
        assert!(!set.passive.is_empty() && !set.common.is_empty() && !set.specific.is_empty());
        assert!(set.passive != set.common && set.common != set.specific && set.passive != set.specific);
    }
    assert_eq!(KuruthTriggers::Blood.get_triggers().passive, "Smelling human blood.");
}

#[test]
fn skills_without_modifiers_are_the_rated_skills() {
    let mut c = Character::default();
    c.base_skills_mut().brawl = 3;
    c.base_skills_mut().occult = 7;
    c.calc_mod_map();
    assert_eq!(c.skills(), Skills { brawl: 3, occult: 7, ..Default::default() });
    assert_eq!(c._modified(ModifierTarget::Skill(Skill::Occult)), 7);
    assert_eq!(c._modified(ModifierTarget::BaseSkill(Skill::Brawl)), 3);
}

#[test]
fn custom_choices_for_every_splat() {
    let splats = vec![
        Splat::Vampire(Clan::Daeva, None, None, Default::default()),
        Splat::Werewolf(None, None, None, Default::default()),
        Splat::Mage(Path::Moros, None, None, Box::new(MageData::default())),
        Splat::Bound(Burden::Abiding, Default::default(), Default::default()),
    ];
    for s in splats.iter() {
        let x = s.custom_xsplat("N".to_string()).unwrap();
        assert!(x.is_custom());
        assert_eq!(x.name(), "N");
        let y = s.custom_ysplat("M".to_string()).unwrap();
        assert!(y.is_custom());
        assert_eq!(y.name(), "M");
    }
    assert!(Splat::Mortal.custom_ysplat("M".to_string()).is_none());
}
