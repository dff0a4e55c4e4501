use vstd::prelude::*;

use super::Armor;

verus! {

/// The three rows of the attribute and skill grids.
#[derive(Clone, Copy, Debug, PartialEq, Eq, Structural)]
pub enum TraitCategory {
    Mental,
    Physical,
    Social,
}

impl TraitCategory {
    /// Dice penalty for rolling a skill of this category without any dots in it.
    pub fn unskilled(&self) -> (r: u16)
        ensures
            r == (match self {
                TraitCategory::Mental => 3u16,
                _ => 1u16,
            }),
    {
        match self {
            TraitCategory::Mental => 3,
            TraitCategory::Physical => 1,
            TraitCategory::Social => 1,
        }
    }

    pub fn name(&self) -> (r: &'static str)
        ensures
            r@ == (match self {
                TraitCategory::Mental => "mental"@,
                TraitCategory::Physical => "physical"@,
                TraitCategory::Social => "social"@,
            }),
    {
        match self {
            TraitCategory::Mental => "mental",
            TraitCategory::Physical => "physical",
            TraitCategory::Social => "social",
        }
    }
}

/// The three columns of the attribute grid.
#[derive(Clone, Copy, Debug, PartialEq, Eq, Structural)]
pub enum AttributeType {
    Power,
    Finesse,
    Resistance,
}

/// A way of picking out three attributes: by column or by row.
#[derive(Clone, Copy, Debug, PartialEq, Eq, Structural)]
pub enum AttributeCategory {
    Type(AttributeType),
    Trait(TraitCategory),
}

#[derive(Clone, Copy, Debug, Hash, PartialEq, Eq, Structural)]
pub enum Attribute {
    Intelligence,
    Wits,
    Resolve,
    Strength,
    Dexterity,
    Stamina,
    Presence,
    Manipulation,
    Composure,
}

/// The attribute standing in the given row and column of the grid.
pub open spec fn grid_attribute(row: TraitCategory, col: AttributeType) -> Attribute {
    match row {
        TraitCategory::Mental => match col {
            AttributeType::Power => Attribute::Intelligence,
            AttributeType::Finesse => Attribute::Wits,
            AttributeType::Resistance => Attribute::Resolve,
        },
        TraitCategory::Physical => match col {
            AttributeType::Power => Attribute::Strength,
            AttributeType::Finesse => Attribute::Dexterity,
            AttributeType::Resistance => Attribute::Stamina,
        },
        TraitCategory::Social => match col {
            AttributeType::Power => Attribute::Presence,
            AttributeType::Finesse => Attribute::Manipulation,
            AttributeType::Resistance => Attribute::Composure,
        },
    }
}

/// The row of the grid in which an attribute stands.
pub open spec fn attribute_row(a: Attribute) -> TraitCategory {
    match a {
        Attribute::Intelligence | Attribute::Wits | Attribute::Resolve => TraitCategory::Mental,
        Attribute::Strength | Attribute::Dexterity | Attribute::Stamina => TraitCategory::Physical,
        _ => TraitCategory::Social,
    }
}

/// The column of the grid in which an attribute stands.
pub open spec fn attribute_column(a: Attribute) -> AttributeType {
    match a {
        Attribute::Intelligence | Attribute::Strength | Attribute::Presence => AttributeType::Power,
        Attribute::Wits | Attribute::Dexterity | Attribute::Manipulation => AttributeType::Finesse,
        _ => AttributeType::Resistance,
    }
}

/// The attributes form a grid of three rows and three columns: each attribute stands in
/// exactly one cell, and each cell holds exactly one attribute.
pub proof fn lemma_attribute_grid(a: Attribute, row: TraitCategory, col: AttributeType)
    ensures
        grid_attribute(attribute_row(a), attribute_column(a)) == a,
        attribute_row(grid_attribute(row, col)) == row,
        attribute_column(grid_attribute(row, col)) == col,
{
}

/// Two different cells of the grid hold two different attributes, so the nine cells
/// hold all nine attributes.
pub proof fn lemma_grid_distinct(r1: TraitCategory, c1: AttributeType, r2: TraitCategory, c2: AttributeType)
    ensures
        (r1 != r2 || c1 != c2) ==> grid_attribute(r1, c1) != grid_attribute(r2, c2),
{
    lemma_attribute_grid(grid_attribute(r1, c1), r1, c1);
    lemma_attribute_grid(grid_attribute(r2, c2), r2, c2);
}

/// The attributes of a row, in grid order (power, finesse, resistance).
pub open spec fn row_attributes(row: TraitCategory) -> Seq<Attribute> {
    seq![
        grid_attribute(row, AttributeType::Power),
        grid_attribute(row, AttributeType::Finesse),
        grid_attribute(row, AttributeType::Resistance),
    ]
}

/// The attributes of a column, in grid order (mental, physical, social).
pub open spec fn column_attributes(col: AttributeType) -> Seq<Attribute> {
    seq![
        grid_attribute(TraitCategory::Mental, col),
        grid_attribute(TraitCategory::Physical, col),
        grid_attribute(TraitCategory::Social, col),
    ]
}

pub open spec fn category_attributes(cat: AttributeCategory) -> Seq<Attribute> {
    match cat {
        AttributeCategory::Type(t) => column_attributes(t),
        AttributeCategory::Trait(t) => row_attributes(t),
    }
}

impl Attribute {
    pub fn mental() -> (r: [Attribute; 3])
        ensures
            r@ == row_attributes(TraitCategory::Mental),
    {
        [Self::Intelligence, Self::Wits, Self::Resolve]
    }

    pub fn physical() -> (r: [Attribute; 3])
        ensures
            r@ == row_attributes(TraitCategory::Physical),
    {
        [Self::Strength, Self::Dexterity, Self::Stamina]
    }

    pub fn social() -> (r: [Attribute; 3])
        ensures
            r@ == row_attributes(TraitCategory::Social),
    {
        [Self::Presence, Self::Manipulation, Self::Composure]
    }

    pub fn power() -> (r: [Attribute; 3])
        ensures
            r@ == column_attributes(AttributeType::Power),
    {
        [Self::Intelligence, Self::Strength, Self::Presence]
    }

    pub fn finesse() -> (r: [Attribute; 3])
        ensures
            r@ == column_attributes(AttributeType::Finesse),
    {
        [Self::Wits, Self::Dexterity, Self::Manipulation]
    }

    pub fn resistance() -> (r: [Attribute; 3])
        ensures
            r@ == column_attributes(AttributeType::Resistance),
    {
        [Self::Resolve, Self::Stamina, Self::Composure]
    }

    /// The three attributes of a row or of a column.
    pub fn get(cat: AttributeCategory) -> (r: [Attribute; 3])
        ensures
            r@ == category_attributes(cat),
    {
        match cat {
            AttributeCategory::Type(_type) => match _type {
                AttributeType::Power => Self::power(),
                AttributeType::Finesse => Self::finesse(),
                AttributeType::Resistance => Self::resistance(),
            },
            AttributeCategory::Trait(_trait) => match _trait {
                TraitCategory::Mental => Self::mental(),
                TraitCategory::Physical => Self::physical(),
                TraitCategory::Social => Self::social(),
            },
        }
    }

    /// The attribute at the crossing of a row and a column.
    pub fn get_attr(_trait: &TraitCategory, _type: &AttributeType) -> (r: Attribute)
        ensures
            r == grid_attribute(*_trait, *_type),
            attribute_row(r) == *_trait,
            attribute_column(r) == *_type,
    {
        match _trait {
            TraitCategory::Mental => match _type {
                AttributeType::Power => Self::Intelligence,
                AttributeType::Finesse => Self::Wits,
                AttributeType::Resistance => Self::Resolve,
            },
            TraitCategory::Physical => match _type {
                AttributeType::Power => Self::Strength,
                AttributeType::Finesse => Self::Dexterity,
                AttributeType::Resistance => Self::Stamina,
            },
            TraitCategory::Social => match _type {
                AttributeType::Power => Self::Presence,
                AttributeType::Finesse => Self::Manipulation,
                AttributeType::Resistance => Self::Composure,
            },
        }
    }

    /// The column (power, finesse or resistance) of this attribute.
    pub fn get_type(&self) -> (r: AttributeType)
        ensures
            r == attribute_column(*self),
    {
        match self {
            Attribute::Intelligence => AttributeType::Power,
            Attribute::Wits => AttributeType::Finesse,
            Attribute::Resolve => AttributeType::Resistance,
            Attribute::Strength => AttributeType::Power,
            Attribute::Dexterity => AttributeType::Finesse,
            Attribute::Stamina => AttributeType::Resistance,
            Attribute::Presence => AttributeType::Power,
            Attribute::Manipulation => AttributeType::Finesse,
            Attribute::Composure => AttributeType::Resistance,
        }
    }

    /// Every attribute, in grid order.
    pub fn all() -> (r: [Attribute; 9])
        ensures
            r@ == row_attributes(TraitCategory::Mental) + row_attributes(TraitCategory::Physical)
                + row_attributes(TraitCategory::Social),
    {
        let r = [
            Self::Intelligence,
            Self::Wits,
            Self::Resolve,
            Self::Strength,
            Self::Dexterity,
            Self::Stamina,
            Self::Presence,
            Self::Manipulation,
            Self::Composure,
        ];
        assert(r@ =~= row_attributes(TraitCategory::Mental) + row_attributes(TraitCategory::Physical)
            + row_attributes(TraitCategory::Social));
        r
    }

    pub fn name(&self) -> (r: &'static str)
        ensures
            r@ == self.name_view(),
    {
        match self {
            Attribute::Intelligence => "intelligence",
            Attribute::Wits => "wits",
            Attribute::Resolve => "resolve",
            Attribute::Strength => "strength",
            Attribute::Dexterity => "dexterity",
            Attribute::Stamina => "stamina",
            Attribute::Presence => "presence",
            Attribute::Manipulation => "manipulation",
            Attribute::Composure => "composure",
        }
    }

    pub open spec fn name_view(self) -> Seq<char> {
        match self {
            Attribute::Intelligence => "intelligence"@,
            Attribute::Wits => "wits"@,
            Attribute::Resolve => "resolve"@,
            Attribute::Strength => "strength"@,
            Attribute::Dexterity => "dexterity"@,
            Attribute::Stamina => "stamina"@,
            Attribute::Presence => "presence"@,
            Attribute::Manipulation => "manipulation"@,
            Attribute::Composure => "composure"@,
        }
    }
}

#[derive(Clone, Copy, Debug, Hash, PartialEq, PartialOrd, Eq, Ord, Structural)]
pub enum Skill {
    Academics,
    Computer,
    Crafts,
    Investigation,
    Medicine,
    Occult,
    Politics,
    Science,
    Athletics,
    Brawl,
    Drive,
    Firearms,
    Larceny,
    Stealth,
    Survival,
    Weaponry,
    AnimalKen,
    Empathy,
    Expression,
    Intimidation,
    Persuasion,
    Socialize,
    Streetwise,
    Subterfuge,
}

/// The row of the skill grid in which a skill stands.
pub open spec fn skill_category(s: Skill) -> TraitCategory {
    match s {
        Skill::Academics | Skill::Computer | Skill::Crafts | Skill::Investigation
        | Skill::Medicine | Skill::Occult | Skill::Politics | Skill::Science => TraitCategory::Mental,
        Skill::Athletics | Skill::Brawl | Skill::Drive | Skill::Firearms | Skill::Larceny
        | Skill::Stealth | Skill::Survival | Skill::Weaponry => TraitCategory::Physical,
        _ => TraitCategory::Social,
    }
}

/// The skills of a row, in sheet order.
pub open spec fn category_skills(cat: TraitCategory) -> Seq<Skill> {
    match cat {
        TraitCategory::Mental => seq![
            Skill::Academics,
            Skill::Computer,
            Skill::Crafts,
            Skill::Investigation,
            Skill::Medicine,
            Skill::Occult,
            Skill::Politics,
            Skill::Science,
        ],
        TraitCategory::Physical => seq![
            Skill::Athletics,
            Skill::Brawl,
            Skill::Drive,
            Skill::Firearms,
            Skill::Larceny,
            Skill::Stealth,
            Skill::Survival,
            Skill::Weaponry,
        ],
        TraitCategory::Social => seq![
            Skill::AnimalKen,
            Skill::Empathy,
            Skill::Expression,
            Skill::Intimidation,
            Skill::Persuasion,
            Skill::Socialize,
            Skill::Streetwise,
            Skill::Subterfuge,
        ],
    }
}

/// Every skill stands in the row of its category and in no other.
pub proof fn lemma_skill_rows(s: Skill, cat: TraitCategory)
    ensures
        category_skills(cat).contains(s) <==> skill_category(s) == cat,
{
    let cs = category_skills(cat);
    if skill_category(s) == cat {
        assert(cs.contains(s)) by {
            match cat {
                TraitCategory::Mental => {
                    assert(cs[0] == Skill::Academics && cs[1] == Skill::Computer && cs[2] == Skill::Crafts
                        && cs[3] == Skill::Investigation && cs[4] == Skill::Medicine && cs[5] == Skill::Occult
                        && cs[6] == Skill::Politics && cs[7] == Skill::Science);
                },
                TraitCategory::Physical => {
                    assert(cs[0] == Skill::Athletics && cs[1] == Skill::Brawl && cs[2] == Skill::Drive
                        && cs[3] == Skill::Firearms && cs[4] == Skill::Larceny && cs[5] == Skill::Stealth
                        && cs[6] == Skill::Survival && cs[7] == Skill::Weaponry);
                },
                TraitCategory::Social => {
                    assert(cs[0] == Skill::AnimalKen && cs[1] == Skill::Empathy && cs[2] == Skill::Expression
                        && cs[3] == Skill::Intimidation && cs[4] == Skill::Persuasion && cs[5] == Skill::Socialize
                        && cs[6] == Skill::Streetwise && cs[7] == Skill::Subterfuge);
                },
            }
        }
    }
    if cs.contains(s) {
        let i = choose|i: int| 0 <= i < cs.len() && cs[i] == s;
        assert(0 <= i < 8);
        assert(skill_category(cs[i]) == cat);
    }
}

impl Skill {
    fn mental() -> (r: [Skill; 8])
        ensures
            r@ == category_skills(TraitCategory::Mental),
    {
        let r = [
            Self::Academics,
            Self::Computer,
            Self::Crafts,
            Self::Investigation,
            Self::Medicine,
            Self::Occult,
            Self::Politics,
            Self::Science,
        ];
        assert(r@ =~= category_skills(TraitCategory::Mental));
        r
    }

    fn physical() -> (r: [Skill; 8])
        ensures
            r@ == category_skills(TraitCategory::Physical),
    {
        let r = [
            Self::Athletics,
            Self::Brawl,
            Self::Drive,
            Self::Firearms,
            Self::Larceny,
            Self::Stealth,
            Self::Survival,
            Self::Weaponry,
        ];
        assert(r@ =~= category_skills(TraitCategory::Physical));
        r
    }

    fn social() -> (r: [Skill; 8])
        ensures
            r@ == category_skills(TraitCategory::Social),
    {
        let r = [
            Self::AnimalKen,
            Self::Empathy,
            Self::Expression,
            Self::Intimidation,
            Self::Persuasion,
            Self::Socialize,
            Self::Streetwise,
            Self::Subterfuge,
        ];
        assert(r@ =~= category_skills(TraitCategory::Social));
        r
    }

    /// The eight skills of a row, in sheet order.
    pub fn get(cat: &TraitCategory) -> (r: [Skill; 8])
        ensures
            r@ == category_skills(*cat),
            forall|i: int| 0 <= i < 8 ==> skill_category(#[trigger] r@[i]) == *cat,
    {
        match cat {
            TraitCategory::Mental => Self::mental(),
            TraitCategory::Physical => Self::physical(),
            TraitCategory::Social => Self::social(),
        }
    }

    /// Every skill, in sheet order.
    pub fn all() -> (r: [Skill; 24])
        ensures
            r@ == category_skills(TraitCategory::Mental) + category_skills(TraitCategory::Physical)
                + category_skills(TraitCategory::Social),
    {
        let r = [
            Self::Academics,
            Self::Computer,
            Self::Crafts,
            Self::Investigation,
            Self::Medicine,
            Self::Occult,
            Self::Politics,
            Self::Science,
            Self::Athletics,
            Self::Brawl,
            Self::Drive,
            Self::Firearms,
            Self::Larceny,
            Self::Stealth,
            Self::Survival,
            Self::Weaponry,
            Self::AnimalKen,
            Self::Empathy,
            Self::Expression,
            Self::Intimidation,
            Self::Persuasion,
            Self::Socialize,
            Self::Streetwise,
            Self::Subterfuge,
        ];
        assert(r@ =~= category_skills(TraitCategory::Mental) + category_skills(
            TraitCategory::Physical,
        ) + category_skills(TraitCategory::Social));
        r
    }

    pub open spec fn name_view(self) -> Seq<char> {
        match self {
            Skill::Academics => "academics"@,
            Skill::Computer => "computer"@,
            Skill::Crafts => "crafts"@,
            Skill::Investigation => "investigation"@,
            Skill::Medicine => "medicine"@,
            Skill::Occult => "occult"@,
            Skill::Politics => "politics"@,
            Skill::Science => "science"@,
            Skill::Athletics => "athletics"@,
            Skill::Brawl => "brawl"@,
            Skill::Drive => "drive"@,
            Skill::Firearms => "firearms"@,
            Skill::Larceny => "larceny"@,
            Skill::Stealth => "stealth"@,
            Skill::Survival => "survival"@,
            Skill::Weaponry => "weaponry"@,
            Skill::AnimalKen => "animal_ken"@,
            Skill::Empathy => "empathy"@,
            Skill::Expression => "expression"@,
            Skill::Intimidation => "intimidation"@,
            Skill::Persuasion => "persuasion"@,
            Skill::Socialize => "socialize"@,
            Skill::Streetwise => "streetwise"@,
            Skill::Subterfuge => "subterfuge"@,
        }
    }

    pub fn name(&self) -> (r: &'static str)
        ensures
            r@ == self.name_view(),
    {
        match self {
            Skill::Academics => "academics",
            Skill::Computer => "computer",
            Skill::Crafts => "crafts",
            Skill::Investigation => "investigation",
            Skill::Medicine => "medicine",
            Skill::Occult => "occult",
            Skill::Politics => "politics",
            Skill::Science => "science",
            Skill::Athletics => "athletics",
            Skill::Brawl => "brawl",
            Skill::Drive => "drive",
            Skill::Firearms => "firearms",
            Skill::Larceny => "larceny",
            Skill::Stealth => "stealth",
            Skill::Survival => "survival",
            Skill::Weaponry => "weaponry",
            Skill::AnimalKen => "animal_ken",
            Skill::Empathy => "empathy",
            Skill::Expression => "expression",
            Skill::Intimidation => "intimidation",
            Skill::Persuasion => "persuasion",
            Skill::Socialize => "socialize",
            Skill::Streetwise => "streetwise",
            Skill::Subterfuge => "subterfuge",
        }
    }
}

#[derive(Clone, Copy, Debug, Hash, PartialEq, Eq, Structural)]
pub enum Trait {
    Speed,
    Defense,
    Initative,
    Perception,
    Health,
    Size,
    Beats,
    AlternateBeats,
    Armor(Option<Armor>),
    Willpower,
    Power,
    Fuel,
    Integrity,
}

impl Trait {
    /// Whether the trait has a label of its own.
    pub open spec fn has_name(self) -> bool {
        !(self is Power || self is Fuel || self is Integrity || self is AlternateBeats)
    }

    /// The label of a trait that has one.
    pub open spec fn name_view(self) -> Seq<char> {
        match self {
            Trait::Speed => "speed"@,
            Trait::Defense => "defense"@,
            Trait::Initative => "initative"@,
            Trait::Perception => "perception"@,
            Trait::Health => "health"@,
            Trait::Size => "size"@,
            Trait::Beats => "beats"@,
            Trait::Armor(_) => "armor"@,
            _ => "willpower"@,
        }
    }

    /// The key under which the trait is labelled on a sheet, where it has one of its own.
    pub fn name(&self) -> (r: Option<&'static str>)
        ensures
            r.is_some() == self.has_name(),
            r.is_some() ==> r.unwrap()@ == self.name_view(),
    {
        match self {
            Trait::Speed => Some("speed"),
            Trait::Defense => Some("defense"),
            Trait::Initative => Some("initative"),
            Trait::Perception => Some("perception"),
            Trait::Health => Some("health"),
            Trait::Size => Some("size"),
            Trait::Beats => Some("beats"),
            Trait::Armor(_) => Some("armor"),
            Trait::Willpower => Some("willpower"),
            Trait::Power => None,
            Trait::Fuel => None,
            Trait::Integrity => None,
            Trait::AlternateBeats => None,
        }
    }
}

} // verus!
