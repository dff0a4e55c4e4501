use cofd::character::traits::Skill;
use cofd::character::{Character, InfoTrait};
use cofd::extras::{apply_info_event, apply_splat_extras_event, InfoEvent, SplatExtrasEvent};
use cofd::splat::changeling::{ChangelingData, Contract, Seeming};
use cofd::splat::mage::{Arcanum, MageData, Path, Rote};
use cofd::splat::vampire::Clan;
use cofd::splat::werewolf::{Rite, ShadowGift, WerewolfData, WolfGift};
use cofd::splat::{Splat, XSplat};

fn rote(spell: &str) -> Rote {
    Rote { arcanum: Arcanum::Mind, level: 1, spell: spell.to_string(), creator: String::new(), skill: Skill::Occult }
}

#[test]
fn rotes_are_swapped_in_and_an_index_past_the_end_changes_nothing() {
    let mut c = Character::default();
    c.splat = Splat::Mage(Path::Mastigos, None, None, Box::new(MageData::default()));
    apply_splat_extras_event(&mut c, SplatExtrasEvent::RoteChanged(0, rote("a")));
    match &c.splat {
        Splat::Mage(_, _, _, d) => assert!(d.rotes.is_empty()),
        _ => panic!("a mage"),
    }
    if let Splat::Mage(_, _, _, d) = &mut c.splat {
        d.rotes.push(rote("a"));
        d.rotes.push(rote("b"));
    }
    apply_splat_extras_event(&mut c, SplatExtrasEvent::RoteChanged(0, rote("c")));
    match &c.splat {
        Splat::Mage(_, _, _, d) => {
            assert_eq!(d.rotes.len(), 2);
            assert_eq!(d.rotes[0].spell, "c");
            assert_eq!(d.rotes[1].spell, "b");
        },
        _ => panic!("a mage"),
    }
}

#[test]
fn gifts_and_rites_are_set_or_added() {
    let mut c = Character::default();
    c.splat = Splat::Werewolf(None, None, None, Box::new(WerewolfData::default()));
    apply_splat_extras_event(&mut c, SplatExtrasEvent::ShadowGiftChanged(3, ShadowGift::Death));
    apply_splat_extras_event(&mut c, SplatExtrasEvent::ShadowGiftChanged(0, ShadowGift::Rage));
    apply_splat_extras_event(&mut c, SplatExtrasEvent::WolfGiftChanged(0, WolfGift::Pack));
    apply_splat_extras_event(&mut c, SplatExtrasEvent::RiteChanged(0, Rite::SacredHunt));
    apply_splat_extras_event(&mut c, SplatExtrasEvent::RiteChanged(1, Rite::_Custom("Dance".to_string())));
    apply_splat_extras_event(&mut c, SplatExtrasEvent::RiteChanged(0, Rite::_Custom(String::new())));
    match &c.splat {
        Splat::Werewolf(_, _, _, d) => {
            assert_eq!(d.shadow_gifts.len(), 1);
            assert!(matches!(d.shadow_gifts[0], ShadowGift::Rage));
            assert!(matches!(d.wolf_gifts[0], WolfGift::Pack));
            assert_eq!(d.rites.len(), 1);
            assert!(matches!(&d.rites[0], Rite::_Custom(n) if n == "Dance"));
        },
        _ => panic!("a werewolf"),
    }
    c.splat = Splat::Changeling(Seeming::Beast, None, None, Box::new(ChangelingData::default()));
    apply_splat_extras_event(&mut c, SplatExtrasEvent::ContractChanged(0, Contract::default()));
    apply_splat_extras_event(&mut c, SplatExtrasEvent::Msg);
    match &c.splat {
        Splat::Changeling(_, _, _, d) => assert!(d.contracts.is_empty()),
        _ => panic!("a changeling"),
    }
}

#[test]
fn info_bar_edits() {
    let mut c = Character::default();
    assert!(!apply_info_event(&mut c, InfoEvent::InfoTraitChanged("Ada".to_string(), InfoTrait::Name)));
    assert_eq!(c.info.name, "Ada");
    c.splat = Splat::Vampire(Clan::Daeva, None, None, Default::default());
    assert!(apply_info_event(&mut c, InfoEvent::XSplatChanged(XSplat::Vampire(Clan::Gangrel))));
    assert!(matches!(c.splat, Splat::Vampire(Clan::Gangrel, ..)));
    let custom = c.splat.custom_ysplat(String::new()).unwrap();
    assert!(!apply_info_event(&mut c, InfoEvent::YSplatChanged(custom)));
    assert!(matches!(c.splat, Splat::Vampire(_, None, ..)));
}
