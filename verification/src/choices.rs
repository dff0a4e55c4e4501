//! The choices a sheet editor offers for a splat's picks: the regalia a changeling may
//! take beside the seeming's own, the hunter's aspects open to a werewolf, and the shadow
//! and wolf gifts not yet taken.
use vstd::prelude::*;

use crate::splat::changeling::{Regalia, Seeming};
use crate::splat::werewolf::{Auspice, HuntersAspect, PureTribe, ShadowGift, Tribe, WolfGift};

verus! {

/// The entries of `all`, in order, that `taken` does not hold.
pub open spec fn not_in<T>(all: Seq<T>, taken: Seq<T>) -> Seq<T>
    decreases all.len(),
{
    if all.len() == 0 {
        seq![]
    } else {
        let r = not_in(all.drop_last(), taken);
        if taken.contains(all.last()) {
            r
        } else {
            r.push(all.last())
        }
    }
}

fn same_shadow_gift(a: &ShadowGift, b: &ShadowGift) -> (r: bool)
    requires
        !(*a is _Custom),
    ensures
        r == (*a == *b),
{
    match a {
        ShadowGift::Death => matches!(b, ShadowGift::Death),
        ShadowGift::Dominance => matches!(b, ShadowGift::Dominance),
        ShadowGift::Elemental => matches!(b, ShadowGift::Elemental),
        ShadowGift::Evasion => matches!(b, ShadowGift::Evasion),
        ShadowGift::Insight => matches!(b, ShadowGift::Insight),
        ShadowGift::Inspiration => matches!(b, ShadowGift::Inspiration),
        ShadowGift::Knowledge => matches!(b, ShadowGift::Knowledge),
        ShadowGift::Nature => matches!(b, ShadowGift::Nature),
        ShadowGift::Rage => matches!(b, ShadowGift::Rage),
        ShadowGift::Shaping => matches!(b, ShadowGift::Shaping),
        ShadowGift::Stealth => matches!(b, ShadowGift::Stealth),
        ShadowGift::Strength => matches!(b, ShadowGift::Strength),
        ShadowGift::Technology => matches!(b, ShadowGift::Technology),
        ShadowGift::Warding => matches!(b, ShadowGift::Warding),
        ShadowGift::Weather => matches!(b, ShadowGift::Weather),
        ShadowGift::Agony => matches!(b, ShadowGift::Agony),
        ShadowGift::Blood => matches!(b, ShadowGift::Blood),
        ShadowGift::Disease => matches!(b, ShadowGift::Disease),
        ShadowGift::Fervor => matches!(b, ShadowGift::Fervor),
        ShadowGift::Hunger => matches!(b, ShadowGift::Hunger),
        ShadowGift::_Custom(_) => false,
    }
}

fn shadow_gift_taken(taken: &Vec<ShadowGift>, g: &ShadowGift) -> (r: bool)
    requires
        !(*g is _Custom),
    ensures
        r == taken@.contains(*g),
{
    let mut j: usize = 0;
    while j < taken.len()
        invariant
            !(*g is _Custom),
            j <= taken@.len(),
            forall|k: int| 0 <= k < j ==> taken@[k] != *g,
        decreases taken@.len() - j,
    {
        if same_shadow_gift(g, &taken[j]) {
            assert(taken@[j as int] == *g);
            return true;
        }
        j += 1;
    }
    false
}

/// The shadow gifts not yet taken, in the order of the list of all shadow gifts.
pub fn untaken_shadow_gifts(taken: &Vec<ShadowGift>) -> (r: Vec<ShadowGift>)
    ensures
        r@ == not_in(ShadowGift::all_spec(), taken@),
{
    let all = ShadowGift::all();
    let mut r: Vec<ShadowGift> = Vec::new();
    let mut i: usize = 0;
    while i < 20
        invariant
            i <= 20,
            all@ == ShadowGift::all_spec(),
            r@ == not_in(all@.take(i as int), taken@),
        decreases 20 - i,
    {
        proof {
            assert(all@.take(i + 1).drop_last() =~= all@.take(i as int));
            assert(!(all@[i as int] is _Custom));
        }
        if !shadow_gift_taken(taken, &all[i]) {
            r.push(all[i].clone());
        }
        i += 1;
    }
    assert(all@.take(20) =~= all@);
    r
}

fn same_wolf_gift(a: &WolfGift, b: &WolfGift) -> (r: bool)
    requires
        !(*a is _Custom),
    ensures
        r == (*a == *b),
{
    match a {
        WolfGift::Change => matches!(b, WolfGift::Change),
        WolfGift::Hunting => matches!(b, WolfGift::Hunting),
        WolfGift::Pack => matches!(b, WolfGift::Pack),
        WolfGift::_Custom(_) => false,
    }
}

fn wolf_gift_taken(taken: &Vec<WolfGift>, g: &WolfGift) -> (r: bool)
    requires
        !(*g is _Custom),
    ensures
        r == taken@.contains(*g),
{
    let mut j: usize = 0;
    while j < taken.len()
        invariant
            !(*g is _Custom),
            j <= taken@.len(),
            forall|k: int| 0 <= k < j ==> taken@[k] != *g,
        decreases taken@.len() - j,
    {
        if same_wolf_gift(g, &taken[j]) {
            assert(taken@[j as int] == *g);
            return true;
        }
        j += 1;
    }
    false
}

/// The wolf gifts not yet taken, in the order of the list of all wolf gifts.
pub fn untaken_wolf_gifts(taken: &Vec<WolfGift>) -> (r: Vec<WolfGift>)
    ensures
        r@ == not_in(WolfGift::all_spec(), taken@),
{
    let all = WolfGift::all();
    let mut r: Vec<WolfGift> = Vec::new();
    let mut i: usize = 0;
    while i < 3
        invariant
            i <= 3,
            all@ == WolfGift::all_spec(),
            r@ == not_in(all@.take(i as int), taken@),
        decreases 3 - i,
    {
        proof {
            assert(all@.take(i + 1).drop_last() =~= all@.take(i as int));
            assert(!(all@[i as int] is _Custom));
        }
        if !wolf_gift_taken(taken, &all[i]) {
            r.push(all[i].clone());
        }
        i += 1;
    }
    assert(all@.take(3) =~= all@);
    r
}

fn same_regalia(a: &Regalia, b: &Regalia) -> (r: bool)
    requires
        !(*a is _Custom),
    ensures
        r == (*a == *b),
{
    match a {
        Regalia::Crown => matches!(b, Regalia::Crown),
        Regalia::Jewels => matches!(b, Regalia::Jewels),
        Regalia::Mirror => matches!(b, Regalia::Mirror),
        Regalia::Shield => matches!(b, Regalia::Shield),
        Regalia::Steed => matches!(b, Regalia::Steed),
        Regalia::Sword => matches!(b, Regalia::Sword),
        Regalia::_Custom(_) => false,
    }
}

/// The regalia of a seeming.
pub open spec fn favored_regalia(s: Seeming) -> Regalia {
    match s {
        Seeming::Beast => Regalia::Steed,
        Seeming::Darkling => Regalia::Mirror,
        Seeming::Elemental => Regalia::Sword,
        Seeming::Fairest => Regalia::Crown,
        Seeming::Ogre => Regalia::Shield,
        Seeming::Wizened => Regalia::Jewels,
        Seeming::_Custom(_, regalia, ..) => regalia,
    }
}

/// The regalia that a changeling may take beside the seeming's own: every regalia but a
/// custom one and the seeming's.
pub fn regalia_choices(seeming: &Seeming) -> (r: Vec<Regalia>)
    ensures
        r@ == not_in(Regalia::all_spec(), seq![favored_regalia(*seeming)]),
{
    let own = seeming.get_favored_regalia();
    let all = Regalia::all();
    let mut r: Vec<Regalia> = Vec::new();
    let mut i: usize = 0;
    while i < 6
        invariant
            i <= 6,
            all@ == Regalia::all_spec(),
            *own == favored_regalia(*seeming),
            r@ == not_in(all@.take(i as int), seq![favored_regalia(*seeming)]),
        decreases 6 - i,
    {
        proof {
            assert(all@.take(i + 1).drop_last() =~= all@.take(i as int));
            assert(!(all@[i as int] is _Custom));
        }
        let same = same_regalia(&all[i], own);
        proof {
            assert(seq![favored_regalia(*seeming)].contains(all@[i as int]) == same) by {
                if same {
                    assert(seq![favored_regalia(*seeming)][0] == all@[i as int]);
                }
            }
        }
        if !same {
            r.push(all[i].clone());
        }
        i += 1;
    }
    assert(all@.take(6) =~= all@);
    r
}

/// The two hunter's aspects of a pure tribe.
pub open spec fn pure_tribe_aspects(t: PureTribe) -> Seq<HuntersAspect> {
    match t {
        PureTribe::FireTouched => seq![HuntersAspect::Fanatical, HuntersAspect::Frenzied],
        PureTribe::IvoryClaws => seq![HuntersAspect::Agnoized, HuntersAspect::Insidious],
        PureTribe::PredatorKings => seq![HuntersAspect::Implacable, HuntersAspect::Primal],
        PureTribe::_Custom(.., aspects, _) => aspects@,
    }
}

/// The hunter's aspects open to a werewolf: the auspice's own where there is an auspice,
/// else the two of a pure tribe, and last a custom aspect under the name `custom`.
pub fn hunters_aspect_choices(auspice: &Option<Auspice>, tribe: &Option<Tribe>, custom: String) -> (r: Vec<
    HuntersAspect,
>)
    ensures
        r@ == (match *auspice {
            Some(a) => seq![a.hunters_aspect_spec()],
            None => match *tribe {
                Some(Tribe::Pure(t)) => pure_tribe_aspects(t),
                _ => seq![],
            },
        }).push(HuntersAspect::_Custom(custom)),
{
    let mut r: Vec<HuntersAspect> = Vec::new();
    if let Some(a) = auspice {
        r.push(a.get_hunters_aspect().clone());
    } else if let Some(Tribe::Pure(t)) = tribe {
        let aspects = t.get_hunters_aspects();
        r.push(aspects[0].clone());
        r.push(aspects[1].clone());
    }
    r.push(HuntersAspect::_Custom(custom));
    proof {
        if auspice is None {
            if let Some(Tribe::Pure(t)) = tribe {
                assert(r@ =~= pure_tribe_aspects(*t).push(HuntersAspect::_Custom(custom)));
            } else {
                assert(r@ =~= seq![HuntersAspect::_Custom(custom)]);
            }
        }
    }
    r
}

} // verus!
