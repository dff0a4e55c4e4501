use vstd::prelude::*;

use super::ability::Ability;
use super::{XSplat, YSplat};

verus! {

broadcast use vstd::array::group_array_axioms;

#[derive(Debug)]
pub enum Burden {
    Abiding,
    Bereaved,
    Hungry,
    Kindly,
    Vengeful,
    _Custom(String, [Haunt; 3]),
}

impl Default for Burden {
    fn default() -> (r: Self)
        ensures
            r is Abiding,
    {
        Burden::Abiding
    }
}

impl Clone for Burden {
    fn clone(&self) -> (r: Self)
        ensures
            r == *self,
    {
        match self {
            Burden::Abiding => Burden::Abiding,
            Burden::Bereaved => Burden::Bereaved,
            Burden::Hungry => Burden::Hungry,
            Burden::Kindly => Burden::Kindly,
            Burden::Vengeful => Burden::Vengeful,
            Burden::_Custom(name, haunts) => {
                let h = [haunts[0].clone(), haunts[1].clone(), haunts[2].clone()];
                assert(h =~= *haunts);
                Burden::_Custom(name.clone(), h)
            },
        }
    }
}

impl Burden {
    /// The three haunts that the burden favours.
    pub fn get_favoured_haunts(&self) -> (r: &[Haunt; 3])
        ensures
            r@ == (match self {
                Burden::Abiding => seq![Haunt::Caul, Haunt::Memoria, Haunt::Tomb],
                Burden::Bereaved => seq![Haunt::Curse, Haunt::Oracle, Haunt::Shroud],
                Burden::Hungry => seq![Haunt::Boneyard, Haunt::Marionette, Haunt::Caul],
                Burden::Kindly => seq![Haunt::Dirge, Haunt::Marionette, Haunt::Shroud],
                Burden::Vengeful => seq![Haunt::Curse, Haunt::Memoria, Haunt::Rage],
                Burden::_Custom(_, haunts) => haunts@,
            }),
    {
        match self {
            Self::Abiding => &[Haunt::Caul, Haunt::Memoria, Haunt::Tomb],
            Self::Bereaved => &[Haunt::Curse, Haunt::Oracle, Haunt::Shroud],
            Self::Hungry => &[Haunt::Boneyard, Haunt::Marionette, Haunt::Caul],
            Self::Kindly => &[Haunt::Dirge, Haunt::Marionette, Haunt::Shroud],
            Self::Vengeful => &[Haunt::Curse, Haunt::Memoria, Haunt::Rage],
            Self::_Custom(_, haunts) => haunts,
        }
    }

    pub open spec fn name_view(self) -> Seq<char> {
        match self {
            Burden::Abiding => "abiding"@,
            Burden::Bereaved => "bereaved"@,
            Burden::Hungry => "hungry"@,
            Burden::Kindly => "kindly"@,
            Burden::Vengeful => "vengeful"@,
            Burden::_Custom(name, _) => name@,
        }
    }

    pub fn name(&self) -> (r: &str)
        ensures
            r@ == self.name_view(),
    {
        match self {
            Burden::Abiding => "abiding",
            Burden::Bereaved => "bereaved",
            Burden::Hungry => "hungry",
            Burden::Kindly => "kindly",
            Burden::Vengeful => "vengeful",
            Burden::_Custom(name, _) => name.as_str(),
        }
    }

    pub open spec fn all_spec() -> Seq<Self> {
        seq![Burden::Abiding, Burden::Bereaved, Burden::Hungry, Burden::Kindly, Burden::Vengeful]
    }

    pub fn all() -> (r: [Burden; 5])
        ensures
            r@ == Self::all_spec(),
    {
        let r = [Burden::Abiding, Burden::Bereaved, Burden::Hungry, Burden::Kindly, Burden::Vengeful];
        assert(r@ =~= Self::all_spec());
        r
    }
}

impl From<Burden> for XSplat {
    fn from(val: Burden) -> (r: Self) {
        XSplat::Bound(val)
    }
}

impl vstd::std_specs::convert::FromSpecImpl<Burden> for XSplat {
    open spec fn obeys_from_spec() -> bool {
        true
    }

    open spec fn from_spec(v: Burden) -> Self {
        XSplat::Bound(v)
    }
}

#[derive(Debug)]
pub enum Archetype {
    Furies,
    Mourners,
    Necropolitans,
    Pilgrims,
    Undertakers,
    _Custom(String),
}

impl Default for Archetype {
    fn default() -> (r: Self)
        ensures
            r is Furies,
    {
        Archetype::Furies
    }
}

impl Clone for Archetype {
    fn clone(&self) -> (r: Self)
        ensures
            r == *self,
    {
        match self {
            Archetype::Furies => Archetype::Furies,
            Archetype::Mourners => Archetype::Mourners,
            Archetype::Necropolitans => Archetype::Necropolitans,
            Archetype::Pilgrims => Archetype::Pilgrims,
            Archetype::Undertakers => Archetype::Undertakers,
            Archetype::_Custom(s) => Archetype::_Custom(s.clone()),
        }
    }
}

impl Archetype {
    pub open spec fn name_view(self) -> Seq<char> {
        match self {
            Archetype::Furies => "furies"@,
            Archetype::Mourners => "mourners"@,
            Archetype::Necropolitans => "necropolitans"@,
            Archetype::Pilgrims => "pilgrims"@,
            Archetype::Undertakers => "undertakers"@,
            Archetype::_Custom(s) => s@,
        }
    }

    pub fn name(&self) -> (r: &str)
        ensures
            r@ == self.name_view(),
    {
        match self {
            Archetype::Furies => "furies",
            Archetype::Mourners => "mourners",
            Archetype::Necropolitans => "necropolitans",
            Archetype::Pilgrims => "pilgrims",
            Archetype::Undertakers => "undertakers",
            Archetype::_Custom(s) => s.as_str(),
        }
    }

    pub open spec fn all_spec() -> Seq<Self> {
        seq![
                    Archetype::Furies,
                    Archetype::Mourners,
                    Archetype::Necropolitans,
                    Archetype::Pilgrims,
                    Archetype::Undertakers,
                ]
    }

    pub fn all() -> (r: [Archetype; 5])
        ensures
            r@ == Self::all_spec(),
    {
        let r = [
            Archetype::Furies,
            Archetype::Mourners,
            Archetype::Necropolitans,
            Archetype::Pilgrims,
            Archetype::Undertakers,
        ];
        assert(r@ =~= seq![
            Archetype::Furies,
            Archetype::Mourners,
            Archetype::Necropolitans,
            Archetype::Pilgrims,
            Archetype::Undertakers,
        ]);
        r
    }
}

impl From<Archetype> for YSplat {
    fn from(val: Archetype) -> (r: Self) {
        YSplat::Bound(val)
    }
}

impl vstd::std_specs::convert::FromSpecImpl<Archetype> for YSplat {
    open spec fn obeys_from_spec() -> bool {
        true
    }

    open spec fn from_spec(v: Archetype) -> Self {
        YSplat::Bound(v)
    }
}

#[derive(Debug, Hash)]
pub enum Haunt {
    Boneyard,
    Caul,
    Curse,
    Dirge,
    Marionette,
    Memoria,
    Oracle,
    Rage,
    Shroud,
    Tomb,
    _Custom(String),
}

impl Clone for Haunt {
    fn clone(&self) -> (r: Self)
        ensures
            r == *self,
    {
        match self {
            Haunt::Boneyard => Haunt::Boneyard,
            Haunt::Caul => Haunt::Caul,
            Haunt::Curse => Haunt::Curse,
            Haunt::Dirge => Haunt::Dirge,
            Haunt::Marionette => Haunt::Marionette,
            Haunt::Memoria => Haunt::Memoria,
            Haunt::Oracle => Haunt::Oracle,
            Haunt::Rage => Haunt::Rage,
            Haunt::Shroud => Haunt::Shroud,
            Haunt::Tomb => Haunt::Tomb,
            Haunt::_Custom(s) => Haunt::_Custom(s.clone()),
        }
    }
}

impl Haunt {
    /// A number for each variant.
    pub open spec fn tag_spec(self) -> u8 {
        match self {
            Haunt::Boneyard => 0,
            Haunt::Caul => 1,
            Haunt::Curse => 2,
            Haunt::Dirge => 3,
            Haunt::Marionette => 4,
            Haunt::Memoria => 5,
            Haunt::Oracle => 6,
            Haunt::Rage => 7,
            Haunt::Shroud => 8,
            Haunt::Tomb => 9,
            Haunt::_Custom(_) => 10,
        }
    }

    fn tag(&self) -> (r: u8)
        ensures
            r == self.tag_spec(),
    {
        match self {
            Haunt::Boneyard => 0,
            Haunt::Caul => 1,
            Haunt::Curse => 2,
            Haunt::Dirge => 3,
            Haunt::Marionette => 4,
            Haunt::Memoria => 5,
            Haunt::Oracle => 6,
            Haunt::Rage => 7,
            Haunt::Shroud => 8,
            Haunt::Tomb => 9,
            Haunt::_Custom(_) => 10,
        }
    }

    /// Haunts are told apart by variant, and custom ones by the text of their name.
    pub open spec fn same(self, other: Haunt) -> bool {
        match (self, other) {
            (Haunt::_Custom(a), Haunt::_Custom(b)) => a@ == b@,
            _ => self.tag_spec() == other.tag_spec(),
        }
    }

    pub open spec fn name_view(self) -> Seq<char> {
        match self {
            Haunt::Boneyard => "boneyard"@,
            Haunt::Caul => "caul"@,
            Haunt::Curse => "curse"@,
            Haunt::Dirge => "dirge"@,
            Haunt::Marionette => "marionette"@,
            Haunt::Memoria => "memoria"@,
            Haunt::Oracle => "oracle"@,
            Haunt::Rage => "rage"@,
            Haunt::Shroud => "shroud"@,
            Haunt::Tomb => "tomb"@,
            Haunt::_Custom(s) => s@,
        }
    }

    pub fn name(&self) -> (r: &str)
        ensures
            r@ == self.name_view(),
    {
        match self {
            Haunt::Boneyard => "boneyard",
            Haunt::Caul => "caul",
            Haunt::Curse => "curse",
            Haunt::Dirge => "dirge",
            Haunt::Marionette => "marionette",
            Haunt::Memoria => "memoria",
            Haunt::Oracle => "oracle",
            Haunt::Rage => "rage",
            Haunt::Shroud => "shroud",
            Haunt::Tomb => "tomb",
            Haunt::_Custom(s) => s.as_str(),
        }
    }

    pub open spec fn all_spec() -> Seq<Haunt> {
        seq![
            Haunt::Boneyard,
            Haunt::Caul,
            Haunt::Curse,
            Haunt::Dirge,
            Haunt::Marionette,
            Haunt::Memoria,
            Haunt::Oracle,
            Haunt::Rage,
            Haunt::Shroud,
            Haunt::Tomb,
        ]
    }

    pub fn all() -> (r: [Haunt; 10])
        ensures
            r@ == Self::all_spec(),
    {
        let r = [
            Haunt::Boneyard,
            Haunt::Caul,
            Haunt::Curse,
            Haunt::Dirge,
            Haunt::Marionette,
            Haunt::Memoria,
            Haunt::Oracle,
            Haunt::Rage,
            Haunt::Shroud,
            Haunt::Tomb,
        ];
        assert(r@ =~= Self::all_spec());
        r
    }
}

impl PartialEq for Haunt {
    fn eq(&self, other: &Self) -> (r: bool) {
        match self {
            Haunt::_Custom(a) => match other {
                Haunt::_Custom(b) => *a == *b,
                _ => false,
            },
            _ => self.tag() == other.tag(),
        }
    }
}

impl vstd::std_specs::cmp::PartialEqSpecImpl for Haunt {
    open spec fn obeys_eq_spec() -> bool {
        true
    }

    open spec fn eq_spec(&self, other: &Haunt) -> bool {
        self.same(*other)
    }
}

impl Eq for Haunt {

}

impl From<Haunt> for Ability {
    fn from(val: Haunt) -> (r: Self) {
        Ability::Haunt(val)
    }
}

impl vstd::std_specs::convert::FromSpecImpl<Haunt> for Ability {
    open spec fn obeys_from_spec() -> bool {
        true
    }

    open spec fn from_spec(v: Haunt) -> Self {
        Ability::Haunt(v)
    }
}

#[derive(Clone, Copy, Debug, PartialEq, Eq, Structural)]
pub enum Key {
    Beasts,
    Blood,
    Chance,
    ColdWind,
    Disease,
    GraveDirt,
    PyreFlame,
    Stillness,
}

impl Key {
    pub fn name(&self) -> (r: &'static str)
        ensures
            r@ == (match self {
                Key::Beasts => "beasts"@,
                Key::Blood => "blood"@,
                Key::Chance => "chance"@,
                Key::ColdWind => "cold_wind"@,
                Key::Disease => "disease"@,
                Key::GraveDirt => "grave_dirt"@,
                Key::PyreFlame => "pyre_flame"@,
                Key::Stillness => "stillness"@,
            }),
    {
        match self {
            Key::Beasts => "beasts",
            Key::Blood => "blood",
            Key::Chance => "chance",
            Key::ColdWind => "cold_wind",
            Key::Disease => "disease",
            Key::GraveDirt => "grave_dirt",
            Key::PyreFlame => "pyre_flame",
            Key::Stillness => "stillness",
        }
    }
}

/// What belongs to a Bound character beyond burden and archetype.
#[derive(Debug)]
pub struct BoundData {
    pub keys: Vec<Key>,
}

impl Default for BoundData {
    fn default() -> (r: Self)
        ensures
            r.keys@.len() == 0,
    {
        BoundData { keys: Vec::new() }
    }
}

impl Clone for BoundData {
    fn clone(&self) -> (r: Self)
        ensures
            r.keys@ == self.keys@,
    {
        BoundData { keys: self.keys.clone() }
    }
}

} // verus!
