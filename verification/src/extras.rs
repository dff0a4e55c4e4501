//! Editing a sheet from its splat extras page (rotes, gifts, rites, contracts) and from its
//! description bar (the description entries and the three splat choices): each edit, and
//! what it does to the sheet.
use vstd::prelude::*;

use crate::character::{Character, InfoTrait};
use crate::overview::tables_match;
use crate::splat::changeling::{ChangelingData, Contract};
use crate::splat::mage::{MageData, Rote};
use crate::splat::werewolf::{Rite, ShadowGift, WerewolfData, WolfGift};
use crate::splat::{Splat, XSplat, YSplat, ZSplat};

verus! {

/// An edit made on the splat extras page of a sheet.
pub enum SplatExtrasEvent {
    RoteChanged(usize, Rote),
    ShadowGiftChanged(usize, ShadowGift),
    WolfGiftChanged(usize, WolfGift),
    RiteChanged(usize, Rite),
    ContractChanged(usize, Contract),
    Msg,
}

/// `s` with entry `i` set to `x`, or `x` added at the end where `i` is past the last entry.
pub open spec fn set_or_push<T>(s: Seq<T>, i: int, x: T) -> Seq<T> {
    if i < s.len() {
        s.update(i, x)
    } else {
        s.push(x)
    }
}

/// `s` after `x` is pushed and the entry at `i` is then swapped out for the last one: entry
/// `i` becomes `x` where there is one; at `i` equal to the length, the list is unchanged.
pub open spec fn swapped_in<T>(s: Seq<T>, i: int, x: T) -> Seq<T> {
    if i < s.len() {
        s.update(i, x)
    } else {
        s
    }
}

/// A custom rite with an empty name, which the page uses to remove a rite.
pub open spec fn is_blank_rite(r: Rite) -> bool {
    r matches Rite::_Custom(n) && n@.len() == 0
}

/// The rites after `r` is put at `i`: a blank custom rite removes the rite at `i`.
pub open spec fn rites_after(s: Seq<Rite>, i: int, r: Rite) -> Seq<Rite> {
    if is_blank_rite(r) {
        s.remove(i)
    } else {
        set_or_push(s, i, r)
    }
}

/// On which sheets a splat extras edit can be made: a rote or a contract is put at an index
/// up to the number there are, and a rite is removed at an index below the number there are.
pub open spec fn splat_extras_ok(c: Character, e: SplatExtrasEvent) -> bool {
    match e {
        SplatExtrasEvent::RoteChanged(i, _) => c.splat matches Splat::Mage(_, _, _, d) ==> i <= d.rotes@.len(),
        SplatExtrasEvent::ContractChanged(i, _) => c.splat matches Splat::Changeling(_, _, _, d) ==> i
            <= d.contracts@.len(),
        SplatExtrasEvent::RiteChanged(i, r) => is_blank_rite(r) ==> (c.splat matches Splat::Werewolf(_, _, _, d) ==> i
            < d.rites@.len()),
        _ => true,
    }
}

/// The splat after a splat extras edit: a mage's rotes, a werewolf's shadow gifts, wolf
/// gifts or rites, or a changeling's contracts change as said; any other splat, and any
/// edit of another splat's list, leaves it as it is.
pub open spec fn splat_extras_edit(old: Splat, e: SplatExtrasEvent, new: Splat) -> bool {
    match e {
        SplatExtrasEvent::RoteChanged(i, x) => match old {
            Splat::Mage(a, b, l, d) => new matches Splat::Mage(a2, b2, l2, d2) && a2 == a && b2 == b && l2 == l
                && *d2 == (MageData { rotes: d2.rotes, ..*d }) && d2.rotes@ == swapped_in(d.rotes@, i as int, x),
            _ => new == old,
        },
        SplatExtrasEvent::ShadowGiftChanged(i, x) => match old {
            Splat::Werewolf(a, b, l, d) => new matches Splat::Werewolf(a2, b2, l2, d2) && a2 == a && b2 == b && l2 == l
                && *d2 == (WerewolfData { shadow_gifts: d2.shadow_gifts, ..*d }) && d2.shadow_gifts@ == set_or_push(
                d.shadow_gifts@,
                i as int,
                x,
            ),
            _ => new == old,
        },
        SplatExtrasEvent::WolfGiftChanged(i, x) => match old {
            Splat::Werewolf(a, b, l, d) => new matches Splat::Werewolf(a2, b2, l2, d2) && a2 == a && b2 == b && l2 == l
                && *d2 == (WerewolfData { wolf_gifts: d2.wolf_gifts, ..*d }) && d2.wolf_gifts@ == set_or_push(
                d.wolf_gifts@,
                i as int,
                x,
            ),
            _ => new == old,
        },
        SplatExtrasEvent::RiteChanged(i, x) => match old {
            Splat::Werewolf(a, b, l, d) => new matches Splat::Werewolf(a2, b2, l2, d2) && a2 == a && b2 == b && l2 == l
                && *d2 == (WerewolfData { rites: d2.rites, ..*d }) && d2.rites@ == rites_after(d.rites@, i as int, x),
            _ => new == old,
        },
        SplatExtrasEvent::ContractChanged(i, x) => match old {
            Splat::Changeling(a, b, l, d) => new matches Splat::Changeling(a2, b2, l2, d2) && a2 == a && b2 == b && l2
                == l && *d2 == (ChangelingData { contracts: d2.contracts, ..*d }) && d2.contracts@ == swapped_in(
                d.contracts@,
                i as int,
                x,
            ),
            _ => new == old,
        },
        SplatExtrasEvent::Msg => new == old,
    }
}

fn set_or_push_vec<T>(v: &mut Vec<T>, i: usize, x: T)
    ensures
        final(v)@ == set_or_push(old(v)@, i as int, x),
{
    if i < v.len() {
        v.set(i, x);
    } else {
        v.push(x);
    }
}

fn swap_in_vec<T>(v: &mut Vec<T>, i: usize, x: T)
    requires
        i <= old(v)@.len(),
    ensures
        final(v)@ == swapped_in(old(v)@, i as int, x),
{
    let ghost before = v@;
    v.push(x);
    let _ = v.swap_remove(i);
    assert(v@ =~= swapped_in(before, i as int, x));
}

fn is_blank_rite_of(r: &Rite) -> (b: bool)
    ensures
        b == is_blank_rite(*r),
{
    match r {
        Rite::_Custom(n) => n.as_str().is_empty(),
        _ => false,
    }
}

/// Applies an edit from the splat extras page to a sheet; only the splat changes.
pub fn apply_splat_extras_event(c: &mut Character, e: SplatExtrasEvent)
    requires
        splat_extras_ok(*old(c), e),
    ensures
        splat_extras_edit(old(c).splat, e, final(c).splat),
        *final(c) == (Character { splat: final(c).splat, ..*old(c) }),
{
    match e {
        SplatExtrasEvent::RoteChanged(i, x) => {
            if let Splat::Mage(_, _, _, data) = &mut c.splat {
                swap_in_vec(&mut data.rotes, i, x);
            }
        },
        SplatExtrasEvent::ShadowGiftChanged(i, x) => {
            if let Splat::Werewolf(_, _, _, data) = &mut c.splat {
                set_or_push_vec(&mut data.shadow_gifts, i, x);
            }
        },
        SplatExtrasEvent::WolfGiftChanged(i, x) => {
            if let Splat::Werewolf(_, _, _, data) = &mut c.splat {
                set_or_push_vec(&mut data.wolf_gifts, i, x);
            }
        },
        SplatExtrasEvent::RiteChanged(i, x) => {
            if let Splat::Werewolf(_, _, _, data) = &mut c.splat {
                if is_blank_rite_of(&x) {
                    let _ = data.rites.remove(i);
                } else {
                    set_or_push_vec(&mut data.rites, i, x);
                }
            }
        },
        SplatExtrasEvent::ContractChanged(i, x) => {
            if let Splat::Changeling(_, _, _, data) = &mut c.splat {
                swap_in_vec(&mut data.contracts, i, x);
            }
        },
        SplatExtrasEvent::Msg => {},
    }
}

/// An edit made on the description bar of a sheet.
pub enum InfoEvent {
    InfoTraitChanged(String, InfoTrait),
    XSplatChanged(XSplat),
    YSplatChanged(YSplat),
    ZSplatChanged(ZSplat),
}

/// What a description bar edit does to a sheet, and whether the modifier tables are
/// recomputed: a choice with an empty name clears that choice; a first choice recomputes
/// the tables, the others do not.
pub open spec fn info_edit(old: Character, e: InfoEvent, new: Character, recompute: bool) -> bool {
    match e {
        InfoEvent::InfoTraitChanged(v, t) => !recompute && new == (Character { info: old.info.with_info(t, v), ..old }),
        InfoEvent::XSplatChanged(x) => {
            &&& recompute
            &&& new.splat == old.splat.with_xsplat(
                if x.name_view().len() == 0 {
                    None
                } else {
                    Some(x)
                },
            )
            &&& new == (Character { splat: new.splat, modifiers: new.modifiers, ..old })
            &&& tables_match(new)
        },
        InfoEvent::YSplatChanged(y) => !recompute && new == (Character {
            splat: old.splat.with_ysplat(
                if y.name_view().len() == 0 {
                    None
                } else {
                    Some(y)
                },
            ),
            ..old
        }),
        InfoEvent::ZSplatChanged(z) => !recompute && new == (Character {
            splat: old.splat.with_zsplat(
                if z.name_view().len() == 0 {
                    None
                } else {
                    Some(z)
                },
            ),
            ..old
        }),
    }
}

/// Applies an edit from the description bar to a sheet, recomputing the modifier tables
/// where a first choice changes; tells whether it did.
pub fn apply_info_event(c: &mut Character, e: InfoEvent) -> (recompute: bool)
    ensures
        info_edit(*old(c), e, *final(c), recompute),
{
    match e {
        InfoEvent::InfoTraitChanged(v, t) => {
            *c.info.get_mut(t) = v;
            false
        },
        InfoEvent::XSplatChanged(x) => {
            if x.name().is_empty() {
                c.splat.set_xsplat(None);
            } else {
                c.splat.set_xsplat(Some(x));
            }
            c.calc_mod_map();
            true
        },
        InfoEvent::YSplatChanged(y) => {
            if y.name().is_empty() {
                c.splat.set_ysplat(None);
            } else {
                c.splat.set_ysplat(Some(y));
            }
            false
        },
        InfoEvent::ZSplatChanged(z) => {
            if z.name().is_empty() {
                c.splat.set_zsplat(None);
            } else {
                c.splat.set_zsplat(Some(z));
            }
            false
        },
    }
}

} // verus!
