use cofd::character::modifier::{Modifiers, ModifierTarget};
use cofd::character::traits::{Attribute, Skill, Trait};
use cofd::character::{Character, Wound};
use cofd::overview::{apply_overview_event, OverviewEvent};
use cofd::splat::ability::Ability;
use cofd::splat::mage::{MageData, Order, Path};
use cofd::splat::vampire::{Clan, Discipline, VampireData};
use cofd::splat::werewolf::{KuruthTrigger, KuruthTriggerSet, KuruthTriggers, Renown, WerewolfData};
use cofd::splat::{Merit, Splat};

#[test]
fn overview_sets_attributes_skills_and_traits() {
    let mut c = Character::default();
    assert!(!apply_overview_event(&mut c, OverviewEvent::AttrChanged(4, Attribute::Wits)));
    assert_eq!(c.base_attributes().wits, 4);
    assert!(!apply_overview_event(&mut c, OverviewEvent::SkillChanged(3, Skill::Occult)));
    assert_eq!(c.base_skills().occult, 3);
    assert!(!apply_overview_event(&mut c, OverviewEvent::TraitChanged(6, Trait::Integrity)));
    assert_eq!(c.integrity, 6);
    assert!(!apply_overview_event(&mut c, OverviewEvent::TraitChanged(9, Trait::Beats)));
    assert_eq!(c.beats, 9);
    assert!(!apply_overview_event(&mut c, OverviewEvent::TraitChanged(9, Trait::Speed)));
    assert!(!apply_overview_event(&mut c, OverviewEvent::Msg));
}

#[test]
fn overview_size_is_set_before_modifiers() {
    let mut c = Character::default();
    assert!(apply_overview_event(&mut c, OverviewEvent::MeritChanged(0, Merit::Giant, 3)));
    assert_eq!(c.get_modifier(ModifierTarget::Trait(Trait::Size)), 1);
    assert!(!apply_overview_event(&mut c, OverviewEvent::TraitChanged(7, Trait::Size)));
    assert_eq!(c.base_size, 6);
    assert_eq!(c.size(), 7);
}

#[test]
fn overview_merit_changes_recompute_only_when_modifiers_change() {
    let mut c = Character::default();
    assert!(!apply_overview_event(&mut c, OverviewEvent::MeritChanged(0, Merit::FastTalking, 1)));
    assert_eq!(c.merits.len(), 1);
    assert!(!apply_overview_event(&mut c, OverviewEvent::MeritChanged(0, Merit::Resources, 2)));
    assert_eq!(c.merits.len(), 1);
    assert!(c.merits[0].0 == Merit::Resources);
    assert_eq!(c.merits[0].1, 2);
    assert!(apply_overview_event(&mut c, OverviewEvent::MeritChanged(0, Merit::Giant, 3)));
    assert_eq!(c.get_modifier(ModifierTarget::Trait(Trait::Size)), 1);
    assert!(!apply_overview_event(&mut c, OverviewEvent::MeritChanged(0, Merit::Giant, 2)));
    assert!(apply_overview_event(&mut c, OverviewEvent::MeritChanged(0, Merit::Resources, 3)));
    assert_eq!(c.get_modifier(ModifierTarget::Trait(Trait::Size)), 0);
}

#[test]
fn overview_swaps_and_rates_abilities() {
    let mut c = Character::default();
    let glory = Ability::Renown(Renown::Glory);
    let honor = Ability::Renown(Renown::Honor);
    assert!(!apply_overview_event(&mut c, OverviewEvent::AbilityChanged(glory.clone(), honor.clone())));
    assert_eq!(c.get_ability_value(&glory), Some(&0));
    assert!(apply_overview_event(&mut c, OverviewEvent::AbilityValChanged(glory.clone(), 3)));
    assert_eq!(c.get_ability_value(&glory), Some(&3));
    assert!(!apply_overview_event(&mut c, OverviewEvent::AbilityChanged(glory.clone(), honor.clone())));
    assert_eq!(c.get_ability_value(&glory), None);
    assert_eq!(c.get_ability_value(&honor), Some(&3));
    assert!(apply_overview_event(&mut c, OverviewEvent::AbilityValChanged(glory.clone(), 2)));
    assert_eq!(c.get_ability_value(&glory), None);
}

#[test]
fn overview_health_and_lists() {
    let mut c = Character::default();
    assert!(!apply_overview_event(&mut c, OverviewEvent::HealthChanged(Wound::Healthy)));
    assert_eq!(c.health().get(&Wound::Bashing), 1);
    assert!(!apply_overview_event(&mut c, OverviewEvent::HealthChanged(Wound::Bashing)));
    assert_eq!(c.health().get(&Wound::Bashing), 0);
    assert_eq!(c.health().get(&Wound::Lethal), 1);
    assert!(!apply_overview_event(&mut c, OverviewEvent::ConditionChanged(2, "Shaken".to_string())));
    assert_eq!(c.conditions, vec!["", "", "Shaken"]);
    assert!(!apply_overview_event(&mut c, OverviewEvent::AspirationChanged(0, "Find the book".to_string())));
    assert_eq!(c.aspirations, vec!["Find the book"]);
    assert!(!apply_overview_event(&mut c, OverviewEvent::SplatThingChanged(0, "ignored".to_string())));
    assert!(matches!(c.splat, Splat::Mortal));
}

#[test]
fn overview_splat_lists_and_rotes() {
    let mut c = Character::default();
    c.splat = Splat::Vampire(Clan::Ventrue, None, None, Box::new(VampireData::default()));
    assert!(!apply_overview_event(&mut c, OverviewEvent::SplatThingChanged(1, "Sunlight".to_string())));
    match &c.splat {
        Splat::Vampire(_, _, _, data) => assert_eq!(data.banes, vec!["", "Sunlight"]),
        _ => panic!("still a vampire"),
    }

    c.splat = Splat::Mage(
        Path::Mastigos,
        Some(Order::_Custom("Lanterns".to_string(), [Skill::Occult, Skill::Science, Skill::Stealth])),
        None,
        Box::new(MageData::default()),
    );
    assert!(!apply_overview_event(&mut c, OverviewEvent::RoteSkillChanged(Skill::Brawl)));
    match &c.splat {
        Splat::Mage(_, Some(Order::_Custom(_, rs)), _, _) => {
            assert_eq!(*rs, [Skill::Science, Skill::Stealth, Skill::Brawl])
        },
        _ => panic!("still a custom order"),
    }
    assert!(!apply_overview_event(&mut c, OverviewEvent::RoteSkillChanged(Skill::Stealth)));
    match &c.splat {
        Splat::Mage(_, Some(Order::_Custom(_, rs)), _, _) => {
            assert_eq!(*rs, [Skill::Science, Skill::Stealth, Skill::Brawl])
        },
        _ => panic!("still a custom order"),
    }
}

#[test]
fn overview_kuruth_triggers() {
    let mut c = Character::default();
    c.splat = Splat::Werewolf(None, None, None, Box::new(WerewolfData::default()));
    let set = KuruthTriggerSet { passive: String::new(), common: String::new(), specific: String::new() };
    assert!(!apply_overview_event(&mut c, OverviewEvent::KuruthTriggersChanged(KuruthTriggers::_Custom(set))));
    assert!(!apply_overview_event(
        &mut c,
        OverviewEvent::KuruthTriggerChanged(KuruthTrigger::Common, "Silver".to_string()),
    ));
    match &c.splat {
        Splat::Werewolf(_, _, _, data) => match &data.triggers {
            KuruthTriggers::_Custom(set) => {
                assert_eq!(set.common, "Silver");
                assert_eq!(set.passive, "");
            },
            _ => panic!("custom triggers"),
        },
        _ => panic!("still a werewolf"),
    }
}

#[test]
fn ability_removal_keeps_the_others() {
    let mut c = Character::default();
    let animalism = Ability::Discipline(Discipline::Animalism);
    let dominate = Ability::Discipline(Discipline::Dominate);
    c.add_ability(dominate.clone(), 2);
    c.add_ability(animalism.clone(), 3);
    assert_eq!(c.remove_ability(&animalism), Some(3));
    assert!(!c.has_ability(&animalism));
    assert_eq!(c.get_ability_value(&animalism), None);
    assert_eq!(c.get_ability_value(&dominate), Some(&2));
    assert_eq!(c.remove_ability(&animalism), None);
    assert_eq!(c.get_ability_value(&dominate), Some(&2));
}

#[test]
fn vampire_favoured_attribute_dot_is_a_modifier() {
    let mut c = Character::default();
    c.splat = Splat::Vampire(
        Clan::Ventrue,
        None,
        None,
        Box::new(VampireData { attr_bonus: Some(Attribute::Resolve), banes: vec![] }),
    );
    c.add_merit(Merit::Giant);
    let mut m = Modifiers::default();
    m.update(&c);
    assert_eq!(m.get_modifier(&c, ModifierTarget::BaseAttribute(Attribute::Resolve)), 1);
    assert_eq!(m.get_modifier(&c, ModifierTarget::BaseAttribute(Attribute::Wits)), 0);
    m.update(&c);
    assert_eq!(m.get_modifier(&c, ModifierTarget::BaseAttribute(Attribute::Resolve)), 1);
    c.splat = Splat::Vampire(
        Clan::Ventrue,
        None,
        None,
        Box::new(VampireData { attr_bonus: Some(Attribute::Wits), banes: vec![] }),
    );
    m.update(&c);
    assert_eq!(m.get_modifier(&c, ModifierTarget::BaseAttribute(Attribute::Wits)), 0);
}
