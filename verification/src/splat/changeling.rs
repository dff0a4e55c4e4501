use vstd::prelude::*;

use crate::character::traits::{column_attributes, Attribute, AttributeCategory, AttributeType};
use crate::character::{Character, Damage};

use super::{Merit, Splat, XSplat, YSplat, ZSplat};

verus! {

/// What belongs to a changeling character beyond seeming, court and kith.
#[derive(Debug)]
pub struct ChangelingData {
    pub attr_bonus: Option<Attribute>,
    pub regalia: Option<Regalia>,
    pub frailties: Vec<String>,
    pub clarity: Damage,
    pub contracts: Vec<Contract>,
}

impl Default for ChangelingData {
    fn default() -> (r: Self)
        ensures
            r.attr_bonus is None,
            r.regalia is None,
            r.frailties@.len() == 0,
            r.clarity.sum_spec() == 0,
            r.contracts@.len() == 0,
    {
        ChangelingData {
            attr_bonus: None,
            regalia: None,
            frailties: Vec::new(),
            clarity: Damage::new(0, 0, 0),
            contracts: Vec::new(),
        }
    }
}

impl ChangelingData {
    /// Maximum Clarity: Wits plus Composure, both as modified.
    pub fn max_clarity(&self, character: &Character) -> (r: u16)
        requires
            character.attributes_in_range(),
            character.attributes_spec().wits + character.attributes_spec().composure <= u16::MAX,
        ensures
            r == character.attributes_spec().wits + character.attributes_spec().composure,
    {
        let attributes = character.attributes();
        attributes.wits + attributes.composure
    }
}

#[derive(Debug)]
pub enum Seeming {
    Beast,
    Darkling,
    Elemental,
    Fairest,
    Ogre,
    Wizened,
    _Custom(String, Regalia, AttributeType),
}

impl Default for Seeming {
    fn default() -> (r: Self)
        ensures
            r is Beast,
    {
        Seeming::Beast
    }
}

impl Clone for Seeming {
    fn clone(&self) -> (r: Self)
        ensures
            r == *self,
    {
        match self {
            Seeming::Beast => Seeming::Beast,
            Seeming::Darkling => Seeming::Darkling,
            Seeming::Elemental => Seeming::Elemental,
            Seeming::Fairest => Seeming::Fairest,
            Seeming::Ogre => Seeming::Ogre,
            Seeming::Wizened => Seeming::Wizened,
            Seeming::_Custom(name, regalia, t) => Seeming::_Custom(name.clone(), regalia.clone(), *t),
        }
    }
}

impl Seeming {
    /// The column of attributes that the seeming favours.
    pub open spec fn favored_type(self) -> AttributeType {
        match self {
            Seeming::Beast => AttributeType::Resistance,
            Seeming::Darkling => AttributeType::Finesse,
            Seeming::Elemental => AttributeType::Resistance,
            Seeming::Fairest => AttributeType::Power,
            Seeming::Ogre => AttributeType::Power,
            Seeming::Wizened => AttributeType::Finesse,
            Seeming::_Custom(.., t) => t,
        }
    }

    pub fn get_favored_regalia(&self) -> (r: &Regalia)
        ensures
            *r == (match *self {
                Seeming::Beast => Regalia::Steed,
                Seeming::Darkling => Regalia::Mirror,
                Seeming::Elemental => Regalia::Sword,
                Seeming::Fairest => Regalia::Crown,
                Seeming::Ogre => Regalia::Shield,
                Seeming::Wizened => Regalia::Jewels,
                Seeming::_Custom(_, regalia, ..) => regalia,
            }),
    {
        match self {
            Seeming::Beast => &Regalia::Steed,
            Seeming::Darkling => &Regalia::Mirror,
            Seeming::Elemental => &Regalia::Sword,
            Seeming::Fairest => &Regalia::Crown,
            Seeming::Ogre => &Regalia::Shield,
            Seeming::Wizened => &Regalia::Jewels,
            Seeming::_Custom(_, regalia, ..) => regalia,
        }
    }

    /// The three attributes of the favoured column.
    pub fn get_favored_attributes(&self) -> (r: [Attribute; 3])
        ensures
            r@ == column_attributes(self.favored_type()),
    {
        Attribute::get(
            AttributeCategory::Type(
                match self {
                    Seeming::Beast => AttributeType::Resistance,
                    Seeming::Darkling => AttributeType::Finesse,
                    Seeming::Elemental => AttributeType::Resistance,
                    Seeming::Fairest => AttributeType::Power,
                    Seeming::Ogre => AttributeType::Power,
                    Seeming::Wizened => AttributeType::Finesse,
                    Seeming::_Custom(.., _type) => *_type,
                },
            ),
        )
    }

    pub open spec fn name_view(self) -> Seq<char> {
        match self {
            Seeming::Beast => "beast"@,
            Seeming::Darkling => "darkling"@,
            Seeming::Elemental => "elemental"@,
            Seeming::Fairest => "fairest"@,
            Seeming::Ogre => "ogre"@,
            Seeming::Wizened => "wizened"@,
            Seeming::_Custom(name, ..) => name@,
        }
    }

    pub fn name(&self) -> (r: &str)
        ensures
            r@ == self.name_view(),
    {
        match self {
            Seeming::Beast => "beast",
            Seeming::Darkling => "darkling",
            Seeming::Elemental => "elemental",
            Seeming::Fairest => "fairest",
            Seeming::Ogre => "ogre",
            Seeming::Wizened => "wizened",
            Seeming::_Custom(name, ..) => name.as_str(),
        }
    }

    pub open spec fn all_spec() -> Seq<Self> {
        seq![
                    Seeming::Beast,
                    Seeming::Darkling,
                    Seeming::Elemental,
                    Seeming::Fairest,
                    Seeming::Ogre,
                    Seeming::Wizened,
                ]
    }

    pub fn all() -> (r: [Seeming; 6])
        ensures
            r@ == Self::all_spec(),
    {
        let r = [
            Seeming::Beast,
            Seeming::Darkling,
            Seeming::Elemental,
            Seeming::Fairest,
            Seeming::Ogre,
            Seeming::Wizened,
        ];
        assert(r@ =~= seq![
            Seeming::Beast,
            Seeming::Darkling,
            Seeming::Elemental,
            Seeming::Fairest,
            Seeming::Ogre,
            Seeming::Wizened,
        ]);
        r
    }
}

impl From<Seeming> for XSplat {
    fn from(val: Seeming) -> (r: Self) {
        XSplat::Changeling(val)
    }
}

impl vstd::std_specs::convert::FromSpecImpl<Seeming> for XSplat {
    open spec fn obeys_from_spec() -> bool {
        true
    }

    open spec fn from_spec(v: Seeming) -> Self {
        XSplat::Changeling(v)
    }
}

#[derive(Debug)]
pub enum Court {
    Spring,
    Summer,
    Autumn,
    Winter,
    _Custom(String),
}

impl Clone for Court {
    fn clone(&self) -> (r: Self)
        ensures
            r == *self,
    {
        match self {
            Court::Spring => Court::Spring,
            Court::Summer => Court::Summer,
            Court::Autumn => Court::Autumn,
            Court::Winter => Court::Winter,
            Court::_Custom(s) => Court::_Custom(s.clone()),
        }
    }
}

impl Court {
    pub open spec fn name_view(self) -> Seq<char> {
        match self {
            Court::Spring => "spring"@,
            Court::Summer => "summer"@,
            Court::Autumn => "autumn"@,
            Court::Winter => "winter"@,
            Court::_Custom(s) => s@,
        }
    }

    pub fn name(&self) -> (r: &str)
        ensures
            r@ == self.name_view(),
    {
        match self {
            Court::Spring => "spring",
            Court::Summer => "summer",
            Court::Autumn => "autumn",
            Court::Winter => "winter",
            Court::_Custom(s) => s.as_str(),
        }
    }

    pub open spec fn all_spec() -> Seq<Self> {
        seq![Court::Spring, Court::Summer, Court::Autumn, Court::Winter]
    }

    pub fn all() -> (r: [Court; 4])
        ensures
            r@ == Self::all_spec(),
    {
        let r = [Court::Spring, Court::Summer, Court::Autumn, Court::Winter];
        assert(r@ =~= Self::all_spec());
        r
    }
}

impl From<Court> for YSplat {
    fn from(val: Court) -> (r: Self) {
        YSplat::Changeling(val)
    }
}

impl vstd::std_specs::convert::FromSpecImpl<Court> for YSplat {
    open spec fn obeys_from_spec() -> bool {
        true
    }

    open spec fn from_spec(v: Court) -> Self {
        YSplat::Changeling(v)
    }
}

#[derive(Debug)]
pub enum Kith {
    Artist,
    BrightOne,
    Chatelane,
    Gristlegrinder,
    Helldiver,
    Hunterheart,
    Leechfinger,
    Mirrorskin,
    Nightsinger,
    Notary,
    Playmate,
    Snowskin,
    _Custom(String),
}

impl Clone for Kith {
    fn clone(&self) -> (r: Self)
        ensures
            r == *self,
    {
        match self {
            Kith::Artist => Kith::Artist,
            Kith::BrightOne => Kith::BrightOne,
            Kith::Chatelane => Kith::Chatelane,
            Kith::Gristlegrinder => Kith::Gristlegrinder,
            Kith::Helldiver => Kith::Helldiver,
            Kith::Hunterheart => Kith::Hunterheart,
            Kith::Leechfinger => Kith::Leechfinger,
            Kith::Mirrorskin => Kith::Mirrorskin,
            Kith::Nightsinger => Kith::Nightsinger,
            Kith::Notary => Kith::Notary,
            Kith::Playmate => Kith::Playmate,
            Kith::Snowskin => Kith::Snowskin,
            Kith::_Custom(s) => Kith::_Custom(s.clone()),
        }
    }
}

impl Kith {
    pub open spec fn name_view(self) -> Seq<char> {
        match self {
            Kith::Artist => "artist"@,
            Kith::BrightOne => "bright_one"@,
            Kith::Chatelane => "chatelane"@,
            Kith::Gristlegrinder => "gristlegrinder"@,
            Kith::Helldiver => "helldiver"@,
            Kith::Hunterheart => "hunterheart"@,
            Kith::Leechfinger => "leechfinger"@,
            Kith::Mirrorskin => "mirrorskin"@,
            Kith::Nightsinger => "nightsinger"@,
            Kith::Notary => "notary"@,
            Kith::Playmate => "playmate"@,
            Kith::Snowskin => "snowskin"@,
            Kith::_Custom(s) => s@,
        }
    }

    pub fn name(&self) -> (r: &str)
        ensures
            r@ == self.name_view(),
    {
        match self {
            Kith::Artist => "artist",
            Kith::BrightOne => "bright_one",
            Kith::Chatelane => "chatelane",
            Kith::Gristlegrinder => "gristlegrinder",
            Kith::Helldiver => "helldiver",
            Kith::Hunterheart => "hunterheart",
            Kith::Leechfinger => "leechfinger",
            Kith::Mirrorskin => "mirrorskin",
            Kith::Nightsinger => "nightsinger",
            Kith::Notary => "notary",
            Kith::Playmate => "playmate",
            Kith::Snowskin => "snowskin",
            Kith::_Custom(s) => s.as_str(),
        }
    }
}

impl Kith {
    pub open spec fn all_spec() -> Seq<Self> {
        seq![
            Kith::Artist,
            Kith::BrightOne,
            Kith::Chatelane,
            Kith::Gristlegrinder,
            Kith::Helldiver,
            Kith::Hunterheart,
            Kith::Leechfinger,
            Kith::Mirrorskin,
            Kith::Nightsinger,
            Kith::Notary,
            Kith::Playmate,
            Kith::Snowskin,
        ]
    }

    /// Every standard kith.
    pub fn all() -> (r: [Kith; 12])
        ensures
            r@ == Self::all_spec(),
    {
        let r = [
            Kith::Artist,
            Kith::BrightOne,
            Kith::Chatelane,
            Kith::Gristlegrinder,
            Kith::Helldiver,
            Kith::Hunterheart,
            Kith::Leechfinger,
            Kith::Mirrorskin,
            Kith::Nightsinger,
            Kith::Notary,
            Kith::Playmate,
            Kith::Snowskin,
        ];
        assert(r@ =~= Self::all_spec());
        r
    }
}

impl From<Kith> for ZSplat {
    fn from(val: Kith) -> (r: Self) {
        ZSplat::Changeling(val)
    }
}

impl vstd::std_specs::convert::FromSpecImpl<Kith> for ZSplat {
    open spec fn obeys_from_spec() -> bool {
        true
    }

    open spec fn from_spec(v: Kith) -> Self {
        ZSplat::Changeling(v)
    }
}

#[derive(Debug)]
pub enum Regalia {
    Crown,
    Jewels,
    Mirror,
    Shield,
    Steed,
    Sword,
    _Custom(String),
}

impl Clone for Regalia {
    fn clone(&self) -> (r: Self)
        ensures
            r == *self,
    {
        match self {
            Regalia::Crown => Regalia::Crown,
            Regalia::Jewels => Regalia::Jewels,
            Regalia::Mirror => Regalia::Mirror,
            Regalia::Shield => Regalia::Shield,
            Regalia::Steed => Regalia::Steed,
            Regalia::Sword => Regalia::Sword,
            Regalia::_Custom(s) => Regalia::_Custom(s.clone()),
        }
    }
}

impl Regalia {
    pub open spec fn name_view(self) -> Seq<char> {
        match self {
            Regalia::Crown => "crown"@,
            Regalia::Jewels => "jewels"@,
            Regalia::Mirror => "mirror"@,
            Regalia::Shield => "shield"@,
            Regalia::Steed => "steed"@,
            Regalia::Sword => "sword"@,
            Regalia::_Custom(s) => s@,
        }
    }

    pub fn name(&self) -> (r: &str)
        ensures
            r@ == self.name_view(),
    {
        match self {
            Regalia::Crown => "crown",
            Regalia::Jewels => "jewels",
            Regalia::Mirror => "mirror",
            Regalia::Shield => "shield",
            Regalia::Steed => "steed",
            Regalia::Sword => "sword",
            Regalia::_Custom(s) => s.as_str(),
        }
    }

    pub open spec fn all_spec() -> Seq<Self> {
        seq![
                    Regalia::Crown,
                    Regalia::Jewels,
                    Regalia::Mirror,
                    Regalia::Shield,
                    Regalia::Steed,
                    Regalia::Sword,
                ]
    }

    pub fn all() -> (r: [Regalia; 6])
        ensures
            r@ == Self::all_spec(),
    {
        let r = [
            Regalia::Crown,
            Regalia::Jewels,
            Regalia::Mirror,
            Regalia::Shield,
            Regalia::Steed,
            Regalia::Sword,
        ];
        assert(r@ =~= seq![
            Regalia::Crown,
            Regalia::Jewels,
            Regalia::Mirror,
            Regalia::Shield,
            Regalia::Steed,
            Regalia::Sword,
        ]);
        r
    }
}

#[derive(Clone, Copy, Debug, PartialEq, Eq, Hash, Structural)]
pub enum ChangelingMerit {
    Mantle,
}

impl ChangelingMerit {
    /// Changeling merits can be taken by changelings only.
    pub fn is_available(&self, character: &Character) -> (r: bool)
        ensures
            r == (character.splat is Changeling),
    {
        matches!(character.splat, Splat::Changeling(..))
    }

    pub fn name(&self) -> (r: &'static str)
        ensures
            r@ == "mantle"@,
    {
        match self {
            ChangelingMerit::Mantle => "mantle",
        }
    }

    pub open spec fn all_spec() -> Seq<Self> {
        seq![ChangelingMerit::Mantle]
    }

    pub fn all() -> (r: [ChangelingMerit; 1])
        ensures
            r@ == Self::all_spec(),
    {
        let r = [ChangelingMerit::Mantle];
        assert(r@ =~= Self::all_spec());
        r
    }
}

impl From<ChangelingMerit> for Merit {
    fn from(merit: ChangelingMerit) -> (r: Self) {
        Merit::Changeling(merit)
    }
}

impl vstd::std_specs::convert::FromSpecImpl<ChangelingMerit> for Merit {
    open spec fn obeys_from_spec() -> bool {
        true
    }

    open spec fn from_spec(v: ChangelingMerit) -> Self {
        Merit::Changeling(v)
    }
}

/// A changeling contract and its terms.
#[derive(Debug)]
pub struct Contract {
    pub name: String,
    pub goblin: bool,
    pub cost: String,
    pub dice: String,
    pub action: String,
    pub duration: String,
    pub loophole: String,
    pub seeming_benefit: String,
}

impl Default for Contract {
    /// A contract with every entry empty, not a goblin contract.
    fn default() -> (r: Self)
        ensures
            r.name@.len() == 0,
            !r.goblin,
            r.cost@.len() == 0,
            r.dice@.len() == 0,
            r.action@.len() == 0,
            r.duration@.len() == 0,
            r.loophole@.len() == 0,
            r.seeming_benefit@.len() == 0,
    {
        Contract {
            name: String::new(),
            goblin: false,
            cost: String::new(),
            dice: String::new(),
            action: String::new(),
            duration: String::new(),
            loophole: String::new(),
            seeming_benefit: String::new(),
        }
    }
}

} // verus!
