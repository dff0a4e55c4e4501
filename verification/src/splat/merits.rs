use vstd::prelude::*;

use crate::character::modifier::{Modifier, ModifierOp, ModifierTarget, ModifierValue};
use crate::character::traits::{Skill, Trait};
use crate::character::Character;

use super::changeling::ChangelingMerit;
use super::is_universal_merit_list;
use super::mage::MageMerit;
use super::vampire::VampireMerit;
use super::werewolf::WerewolfMerit;

verus! {

broadcast use vstd::array::group_array_axioms;

/// A merit: a universal one, one of a splat, or a custom one known by its name.
#[derive(Debug, Hash)]
pub enum Merit {
    Status(String),
    FastTalking,
    ProfessionalTraining(String, Option<[Skill; 2]>, Option<Skill>),
    Contacts(String),
    SafePlace(String),
    Resources,
    SleightOfHand,
    StrikingLooks(String),
    Language(String),
    TrainedObserver,
    Giant,
    DefensiveCombat(bool, Option<Skill>),
    RelentlessAssault,
    Vampire(VampireMerit),
    Werewolf(WerewolfMerit),
    Mage(MageMerit),
    Changeling(ChangelingMerit),
    _Custom(String),
}

impl Clone for Merit {
    fn clone(&self) -> (r: Self)
        ensures
            r == *self,
    {
        match self {
            Merit::Status(s) => Merit::Status(s.clone()),
            Merit::FastTalking => Merit::FastTalking,
            Merit::ProfessionalTraining(s, a, b) => Merit::ProfessionalTraining(s.clone(), *a, *b),
            Merit::Contacts(s) => Merit::Contacts(s.clone()),
            Merit::SafePlace(s) => Merit::SafePlace(s.clone()),
            Merit::Resources => Merit::Resources,
            Merit::SleightOfHand => Merit::SleightOfHand,
            Merit::StrikingLooks(s) => Merit::StrikingLooks(s.clone()),
            Merit::Language(s) => Merit::Language(s.clone()),
            Merit::TrainedObserver => Merit::TrainedObserver,
            Merit::Giant => Merit::Giant,
            Merit::DefensiveCombat(b, s) => Merit::DefensiveCombat(*b, *s),
            Merit::RelentlessAssault => Merit::RelentlessAssault,
            Merit::Vampire(m) => Merit::Vampire(m.clone()),
            Merit::Werewolf(m) => Merit::Werewolf(*m),
            Merit::Mage(m) => Merit::Mage(*m),
            Merit::Changeling(m) => Merit::Changeling(*m),
            Merit::_Custom(s) => Merit::_Custom(s.clone()),
        }
    }
}

fn same_skill_pair(a: &Option<[Skill; 2]>, b: &Option<[Skill; 2]>) -> (r: bool)
    ensures
        r == (*a == *b),
{
    match a {
        Some(x) => match b {
            Some(y) => {
                let r = x[0] == y[0] && x[1] == y[1];
                assert(r ==> *x =~= *y);
                r
            },
            None => false,
        },
        None => match b {
            Some(_) => false,
            None => true,
        },
    }
}

fn same_skill(a: &Option<Skill>, b: &Option<Skill>) -> (r: bool)
    ensures
        r == (*a == *b),
{
    match a {
        Some(x) => match b {
            Some(y) => *x == *y,
            None => false,
        },
        None => match b {
            Some(_) => false,
            None => true,
        },
    }
}

impl PartialEq for Merit {
    fn eq(&self, other: &Self) -> (r: bool) {
        match self {
            Merit::Status(a) => match other {
                Merit::Status(b) => *a == *b,
                _ => false,
            },
            Merit::ProfessionalTraining(a, x, y) => match other {
                Merit::ProfessionalTraining(b, u, v) => *a == *b && same_skill_pair(x, u) && same_skill(
                    y,
                    v,
                ),
                _ => false,
            },
            Merit::Contacts(a) => match other {
                Merit::Contacts(b) => *a == *b,
                _ => false,
            },
            Merit::SafePlace(a) => match other {
                Merit::SafePlace(b) => *a == *b,
                _ => false,
            },
            Merit::StrikingLooks(a) => match other {
                Merit::StrikingLooks(b) => *a == *b,
                _ => false,
            },
            Merit::Language(a) => match other {
                Merit::Language(b) => *a == *b,
                _ => false,
            },
            Merit::DefensiveCombat(a, x) => match other {
                Merit::DefensiveCombat(b, y) => *a == *b && same_skill(x, y),
                _ => false,
            },
            Merit::Vampire(a) => match other {
                Merit::Vampire(b) => *a == *b,
                _ => false,
            },
            Merit::Werewolf(a) => match other {
                Merit::Werewolf(b) => *a == *b,
                _ => false,
            },
            Merit::_Custom(a) => match other {
                Merit::_Custom(b) => *a == *b,
                _ => false,
            },
            _ => self.tag() == other.tag(),
        }
    }
}

impl vstd::std_specs::cmp::PartialEqSpecImpl for Merit {
    open spec fn obeys_eq_spec() -> bool {
        true
    }

    open spec fn eq_spec(&self, other: &Merit) -> bool {
        self.same(*other)
    }
}

impl Eq for Merit {

}

/// An unconditional modifier.
pub open spec fn plain(target: ModifierTarget, value: ModifierValue, op: ModifierOp) -> Modifier {
    Modifier { target, value, op, condition: None }
}

impl Merit {
    /// A number for each variant.
    pub open spec fn tag_spec(self) -> u8 {
        match self {
            Merit::Status(_) => 0,
            Merit::FastTalking => 1,
            Merit::ProfessionalTraining(..) => 2,
            Merit::Contacts(_) => 3,
            Merit::SafePlace(_) => 4,
            Merit::Resources => 5,
            Merit::SleightOfHand => 6,
            Merit::StrikingLooks(_) => 7,
            Merit::Language(_) => 8,
            Merit::TrainedObserver => 9,
            Merit::Giant => 10,
            Merit::DefensiveCombat(..) => 11,
            Merit::RelentlessAssault => 12,
            Merit::Vampire(_) => 13,
            Merit::Werewolf(_) => 14,
            Merit::Mage(_) => 15,
            Merit::Changeling(_) => 16,
            Merit::_Custom(_) => 17,
        }
    }

    fn tag(&self) -> (r: u8)
        ensures
            r == self.tag_spec(),
    {
        match self {
            Merit::Status(_) => 0,
            Merit::FastTalking => 1,
            Merit::ProfessionalTraining(..) => 2,
            Merit::Contacts(_) => 3,
            Merit::SafePlace(_) => 4,
            Merit::Resources => 5,
            Merit::SleightOfHand => 6,
            Merit::StrikingLooks(_) => 7,
            Merit::Language(_) => 8,
            Merit::TrainedObserver => 9,
            Merit::Giant => 10,
            Merit::DefensiveCombat(..) => 11,
            Merit::RelentlessAssault => 12,
            Merit::Vampire(_) => 13,
            Merit::Werewolf(_) => 14,
            Merit::Mage(_) => 15,
            Merit::Changeling(_) => 16,
            Merit::_Custom(_) => 17,
        }
    }

    /// Merits are told apart by variant and payload; names are compared by their text.
    pub open spec fn same(self, other: Merit) -> bool {
        match (self, other) {
            (Merit::Status(a), Merit::Status(b)) => a@ == b@,
            (Merit::ProfessionalTraining(a, x, y), Merit::ProfessionalTraining(b, u, v)) => a@ == b@
                && x == u && y == v,
            (Merit::Contacts(a), Merit::Contacts(b)) => a@ == b@,
            (Merit::SafePlace(a), Merit::SafePlace(b)) => a@ == b@,
            (Merit::StrikingLooks(a), Merit::StrikingLooks(b)) => a@ == b@,
            (Merit::Language(a), Merit::Language(b)) => a@ == b@,
            (Merit::DefensiveCombat(a, x), Merit::DefensiveCombat(b, y)) => a == b && x == y,
            (Merit::Vampire(a), Merit::Vampire(b)) => a.same(b),
            (Merit::Werewolf(a), Merit::Werewolf(b)) => a == b,
            (Merit::Mage(a), Merit::Mage(b)) => a == b,
            (Merit::Changeling(a), Merit::Changeling(b)) => a == b,
            (Merit::_Custom(a), Merit::_Custom(b)) => a@ == b@,
            _ => self.tag_spec() == other.tag_spec(),
        }
    }

    /// The modifiers that a merit rated `value` grants: Giant adds one to Size, and
    /// Defensive Combat with a skill puts that skill in place of Athletics in Defense.
    pub open spec fn modifiers_spec(self, value: u16) -> Seq<Modifier> {
        match self {
            Merit::Giant => seq![
                plain(ModifierTarget::Trait(Trait::Size), ModifierValue::Num(1), ModifierOp::Add),
            ],
            Merit::DefensiveCombat(_, Some(skill)) => seq![
                plain(ModifierTarget::Trait(Trait::Defense), ModifierValue::Skill(skill), ModifierOp::Replace),
            ],
            _ => seq![],
        }
    }

    pub fn get_modifiers(&self, value: u16) -> (r: Vec<Modifier>)
        ensures
            r@ == self.modifiers_spec(value),
    {
        let r = match self {
            Merit::Giant => vec![
                Modifier::new(ModifierTarget::Trait(Trait::Size), ModifierValue::Num(1), ModifierOp::Add),
            ],
            Merit::DefensiveCombat(_, Some(skill)) => vec![
                Modifier::new(
                    ModifierTarget::Trait(Trait::Defense),
                    ModifierValue::Skill(*skill),
                    ModifierOp::Replace,
                ),
            ],
            _ => vec![],
        };
        assert(r@ =~= self.modifiers_spec(value));
        r
    }

    /// Splat merits are available to their splat only; the others to everyone.
    pub fn is_available(&self, character: &Character) -> (r: bool)
        ensures
            r == (match self {
                Merit::Vampire(_) => character.splat is Vampire,
                Merit::Werewolf(_) => character.splat is Werewolf,
                Merit::Mage(_) => character.splat is Mage,
                Merit::Changeling(_) => character.splat is Changeling,
                _ => true,
            }),
    {
        match self {
            Merit::Vampire(m) => m.is_available(character),
            Merit::Werewolf(m) => m.is_available(character),
            Merit::Mage(m) => m.is_available(character),
            Merit::Changeling(m) => m.is_available(character),
            _ => true,
        }
    }

    pub open spec fn name_view(self) -> Seq<char> {
        match self {
            Merit::Status(_) => "status"@,
            Merit::FastTalking => "fast_talking"@,
            Merit::ProfessionalTraining(..) => "professional_training"@,
            Merit::Contacts(_) => "contacts"@,
            Merit::SafePlace(_) => "safe_place"@,
            Merit::Resources => "resources"@,
            Merit::SleightOfHand => "sleight_of_hand"@,
            Merit::StrikingLooks(_) => "striking_looks"@,
            Merit::Language(_) => "language"@,
            Merit::TrainedObserver => "trained_observer"@,
            Merit::Giant => "giant"@,
            Merit::DefensiveCombat(..) => "defensive_combat"@,
            Merit::RelentlessAssault => "relentless_assault"@,
            Merit::Vampire(m) => m.name_view(),
            Merit::Werewolf(m) => m.name_view(),
            Merit::Mage(_) => "high_speech"@,
            Merit::Changeling(_) => "mantle"@,
            Merit::_Custom(s) => s@,
        }
    }

    /// The merit's name: the snake-case name of its variant, the name of a splat merit,
    /// or the text of a custom one.
    pub fn name(&self) -> (r: String)
        ensures
            r@ == self.name_view(),
    {
        match self {
            Merit::Status(_) => "status".to_owned(),
            Merit::FastTalking => "fast_talking".to_owned(),
            Merit::ProfessionalTraining(..) => "professional_training".to_owned(),
            Merit::Contacts(_) => "contacts".to_owned(),
            Merit::SafePlace(_) => "safe_place".to_owned(),
            Merit::Resources => "resources".to_owned(),
            Merit::SleightOfHand => "sleight_of_hand".to_owned(),
            Merit::StrikingLooks(_) => "striking_looks".to_owned(),
            Merit::Language(_) => "language".to_owned(),
            Merit::TrainedObserver => "trained_observer".to_owned(),
            Merit::Giant => "giant".to_owned(),
            Merit::DefensiveCombat(..) => "defensive_combat".to_owned(),
            Merit::RelentlessAssault => "relentless_assault".to_owned(),
            Merit::Vampire(m) => m.name().to_owned(),
            Merit::Werewolf(m) => m.name().to_owned(),
            Merit::Mage(m) => m.name().to_owned(),
            Merit::Changeling(m) => m.name().to_owned(),
            Merit::_Custom(s) => s.clone(),
        }
    }

    /// The universal mental merits, those that carry a name with an empty one.
    pub fn mental() -> (r: Vec<Merit>)
        ensures
            r@.len() == 3,
            r@[0] is TrainedObserver,
            r@[1] matches Merit::ProfessionalTraining(s, a, b) && s@.len() == 0 && a is None && b is None,
            r@[2] matches Merit::Language(s) && s@.len() == 0,
    {
        vec![Merit::TrainedObserver, Merit::ProfessionalTraining(String::new(), None, None), Merit::Language(String::new())]
    }

    /// The universal physical merits.
    pub fn physical() -> (r: Vec<Merit>)
        ensures
            r@ == seq![
                Merit::Giant,
                Merit::DefensiveCombat(false, None),
                Merit::RelentlessAssault,
                Merit::SleightOfHand,
            ],
    {
        let r = vec![Merit::Giant, Merit::DefensiveCombat(false, None), Merit::RelentlessAssault, Merit::SleightOfHand];
        assert(r@ =~= seq![
            Merit::Giant,
            Merit::DefensiveCombat(false, None),
            Merit::RelentlessAssault,
            Merit::SleightOfHand,
        ]);
        r
    }

    /// The universal social merits, those that carry a name with an empty one.
    pub fn social() -> (r: Vec<Merit>)
        ensures
            r@.len() == 6,
            r@[0] matches Merit::Status(s) && s@.len() == 0,
            r@[1] is FastTalking,
            r@[2] matches Merit::Contacts(s) && s@.len() == 0,
            r@[3] is Resources,
            r@[4] matches Merit::SafePlace(s) && s@.len() == 0,
            r@[5] matches Merit::StrikingLooks(s) && s@.len() == 0,
    {
        vec![
            Merit::Status(String::new()),
            Merit::FastTalking,
            Merit::Contacts(String::new()),
            Merit::Resources,
            Merit::SafePlace(String::new()),
            Merit::StrikingLooks(String::new()),
        ]
    }

    /// Every universal merit: the mental ones, then the physical, then the social.
    pub fn all() -> (r: Vec<Merit>)
        ensures
            is_universal_merit_list(r@),
    {
        let mut r = Merit::mental();
        let mut p = Merit::physical();
        let mut s = Merit::social();
        let ghost (m0, p0, s0) = (r@, p@, s@);
        r.append(&mut p);
        r.append(&mut s);
        assert(r@ =~= m0 + p0 + s0);
        assert(r@[3] == p0[0] && r@[4] == p0[1] && r@[5] == p0[2] && r@[6] == p0[3]);
        assert(r@[7] == s0[0] && r@[8] == s0[1] && r@[9] == s0[2]);
        assert(r@[10] == s0[3] && r@[11] == s0[4] && r@[12] == s0[5]);
        r
    }
}

} // verus!
