use cofd::character::traits::AttributeType;
use cofd::choices::{hunters_aspect_choices, regalia_choices, untaken_shadow_gifts, untaken_wolf_gifts};
use cofd::splat::changeling::{Regalia, Seeming};
use cofd::splat::werewolf::{Auspice, HuntersAspect, PureTribe, ShadowGift, Tribe, WolfGift};

#[test]
fn regalia_choices_leave_out_the_seemings_own() {
    let r = regalia_choices(&Seeming::Wizened);
    let names: Vec<&str> = r.iter().map(|x| x.name()).collect();
    assert_eq!(names, vec!["crown", "mirror", "shield", "steed", "sword"]);
    let custom = Seeming::_Custom("Tricksters".to_string(), Regalia::_Custom("Mask".to_string()), AttributeType::Finesse);
    assert_eq!(regalia_choices(&custom).len(), 6);
    let custom = Seeming::_Custom("Riders".to_string(), Regalia::Steed, AttributeType::Power);
    assert!(regalia_choices(&custom).iter().all(|x| x.name() != "steed"));
}

#[test]
fn hunters_aspects_come_from_auspice_or_pure_tribe() {
    let r = hunters_aspect_choices(&Some(Auspice::Rahu), &None, "custom".to_string());
    assert_eq!(r.len(), 2);
    assert!(matches!(r[0], HuntersAspect::Dominant));
    assert!(matches!(&r[1], HuntersAspect::_Custom(n) if n == "custom"));
    let r = hunters_aspect_choices(&None, &Some(Tribe::Pure(PureTribe::FireTouched)), "eigene".to_string());
    assert_eq!(r.len(), 3);
    assert!(matches!(r[0], HuntersAspect::Fanatical));
    assert!(matches!(r[1], HuntersAspect::Frenzied));
    let r = hunters_aspect_choices(&None, &Some(Tribe::BloodTalons), "custom".to_string());
    assert_eq!(r.len(), 1);
}

#[test]
fn gifts_already_taken_are_not_offered() {
    let all = untaken_shadow_gifts(&vec![]);
    assert_eq!(all.len(), 20);
    let taken = vec![ShadowGift::Death, ShadowGift::Hunger, ShadowGift::_Custom("death".to_string())];
    let left = untaken_shadow_gifts(&taken);
    assert_eq!(left.len(), 18);
    assert!(matches!(left[0], ShadowGift::Dominance));
    assert!(matches!(left[17], ShadowGift::Fervor));
    let wolf = untaken_wolf_gifts(&vec![WolfGift::Hunting]);
    assert_eq!(wolf.len(), 2);
    assert!(matches!(wolf[0], WolfGift::Change));
    assert!(matches!(wolf[1], WolfGift::Pack));
}
