use vstd::prelude::*;

use crate::character::modifier::ModifierTarget;
use crate::character::traits::{Attribute, Skill, Trait};
use crate::character::{in_i16, Character};
use crate::text::{chars_of, string_of};

verus! {

/// A pool of dice: a number, a rating of the character, or the smaller, larger, sum or
/// difference of two pools.
#[derive(Debug, PartialEq, Eq)]
pub enum DicePool {
    Mod(i16),
    Attribute(Attribute),
    Skill(Skill),
    Trait(Trait),
    Min(Box<DicePool>, Box<DicePool>),
    Max(Box<DicePool>, Box<DicePool>),
    Add(Box<DicePool>, Box<DicePool>),
    Sub(Box<DicePool>, Box<DicePool>),
}

pub open spec fn min_int(a: int, b: int) -> int {
    if a <= b {
        a
    } else {
        b
    }
}

pub open spec fn max_int(a: int, b: int) -> int {
    if a >= b {
        a
    } else {
        b
    }
}

/// The number of dice in a pool for a character: attributes and skills are the modified
/// ratings, traits the character's derived values, each read as an `i16`.
pub open spec fn pool_value(ch: Character, p: DicePool) -> int
    decreases p,
{
    match p {
        DicePool::Mod(v) => v as int,
        DicePool::Attribute(a) => ch.attributes_spec().get_spec(a) as i16 as int,
        DicePool::Skill(s) => ch.skills_spec().get_spec(s) as i16 as int,
        DicePool::Trait(t) => ch.trait_value(t) as u16 as i16 as int,
        DicePool::Min(a, b) => min_int(pool_value(ch, *a), pool_value(ch, *b)),
        DicePool::Max(a, b) => max_int(pool_value(ch, *a), pool_value(ch, *b)),
        DicePool::Add(a, b) => pool_value(ch, *a) + pool_value(ch, *b),
        DicePool::Sub(a, b) => pool_value(ch, *a) - pool_value(ch, *b),
    }
}

/// Evaluating a pool stays within `i16`, and every rating it reads can be computed.
pub open spec fn pool_ok(ch: Character, p: DicePool) -> bool
    decreases p,
{
    match p {
        DicePool::Mod(_) => true,
        DicePool::Attribute(_) => ch.attributes_in_range(),
        DicePool::Skill(_) => ch.skills_in_range(),
        DicePool::Trait(t) => ch.trait_ok(t),
        DicePool::Min(a, b) => pool_ok(ch, *a) && pool_ok(ch, *b),
        DicePool::Max(a, b) => pool_ok(ch, *a) && pool_ok(ch, *b),
        DicePool::Add(a, b) => pool_ok(ch, *a) && pool_ok(ch, *b) && in_i16(
            pool_value(ch, *a) + pool_value(ch, *b),
        ),
        DicePool::Sub(a, b) => pool_ok(ch, *a) && pool_ok(ch, *b) && in_i16(
            pool_value(ch, *a) - pool_value(ch, *b),
        ),
    }
}

/// Whether a pool reads no derived trait of the character.
pub open spec fn trait_free(p: DicePool) -> bool
    decreases p,
{
    match p {
        DicePool::Trait(_) => false,
        DicePool::Min(a, b) => trait_free(*a) && trait_free(*b),
        DicePool::Max(a, b) => trait_free(*a) && trait_free(*b),
        DicePool::Add(a, b) => trait_free(*a) && trait_free(*b),
        DicePool::Sub(a, b) => trait_free(*a) && trait_free(*b),
        _ => true,
    }
}

/// `pool_value` for a pool that reads no derived trait.
pub open spec fn flat_pool_value(ch: Character, p: DicePool) -> int
    decreases p,
{
    match p {
        DicePool::Mod(v) => v as int,
        DicePool::Attribute(a) => ch.attributes_spec().get_spec(a) as i16 as int,
        DicePool::Skill(s) => ch.skills_spec().get_spec(s) as i16 as int,
        DicePool::Trait(_) => 0,
        DicePool::Min(a, b) => min_int(flat_pool_value(ch, *a), flat_pool_value(ch, *b)),
        DicePool::Max(a, b) => max_int(flat_pool_value(ch, *a), flat_pool_value(ch, *b)),
        DicePool::Add(a, b) => flat_pool_value(ch, *a) + flat_pool_value(ch, *b),
        DicePool::Sub(a, b) => flat_pool_value(ch, *a) - flat_pool_value(ch, *b),
    }
}

/// `pool_ok` for a pool that reads no derived trait.
pub open spec fn flat_pool_ok(ch: Character, p: DicePool) -> bool
    decreases p,
{
    match p {
        DicePool::Mod(_) => true,
        DicePool::Attribute(_) => ch.attributes_in_range(),
        DicePool::Skill(_) => ch.skills_in_range(),
        DicePool::Trait(_) => false,
        DicePool::Min(a, b) => flat_pool_ok(ch, *a) && flat_pool_ok(ch, *b),
        DicePool::Max(a, b) => flat_pool_ok(ch, *a) && flat_pool_ok(ch, *b),
        DicePool::Add(a, b) => flat_pool_ok(ch, *a) && flat_pool_ok(ch, *b) && in_i16(
            flat_pool_value(ch, *a) + flat_pool_value(ch, *b),
        ),
        DicePool::Sub(a, b) => flat_pool_ok(ch, *a) && flat_pool_ok(ch, *b) && in_i16(
            flat_pool_value(ch, *a) - flat_pool_value(ch, *b),
        ),
    }
}

/// On a pool that reads no derived trait, both evaluations agree.
pub proof fn lemma_flat_pool(ch: Character, p: DicePool)
    requires
        trait_free(p),
    ensures
        flat_pool_value(ch, p) == pool_value(ch, p),
        flat_pool_ok(ch, p) == pool_ok(ch, p),
    decreases p,
{
    match p {
        DicePool::Min(a, b) => {
            lemma_flat_pool(ch, *a);
            lemma_flat_pool(ch, *b);
        },
        DicePool::Max(a, b) => {
            lemma_flat_pool(ch, *a);
            lemma_flat_pool(ch, *b);
        },
        DicePool::Add(a, b) => {
            lemma_flat_pool(ch, *a);
            lemma_flat_pool(ch, *b);
        },
        DicePool::Sub(a, b) => {
            lemma_flat_pool(ch, *a);
            lemma_flat_pool(ch, *b);
        },
        _ => {},
    }
}

fn min_i16(a: i16, b: i16) -> (r: i16)
    ensures
        r == min_int(a as int, b as int),
{
    if a <= b {
        a
    } else {
        b
    }
}

fn max_i16(a: i16, b: i16) -> (r: i16)
    ensures
        r == max_int(a as int, b as int),
{
    if a >= b {
        a
    } else {
        b
    }
}

impl DicePool {
    /// The number of dice in the pool for `character`.
    pub fn value(&self, character: &Character) -> (r: i16)
        requires
            pool_ok(*character, *self),
        ensures
            r == pool_value(*character, *self),
        decreases self,
    {
        match self {
            DicePool::Mod(val) => *val,
            DicePool::Attribute(attr) => *character.attributes().get(attr) as i16,
            DicePool::Skill(skill) => character.skills().get(*skill) as i16,
            DicePool::Trait(trait_) => character.get_trait(trait_) as i16,
            DicePool::Add(p1, p2) => p1.value(character) + p2.value(character),
            DicePool::Sub(p1, p2) => p1.value(character) - p2.value(character),
            DicePool::Max(p1, p2) => max_i16(p1.value(character), p2.value(character)),
            DicePool::Min(p1, p2) => min_i16(p1.value(character), p2.value(character)),
        }
    }

    /// `value` for a pool that reads no derived trait of the character.
    pub fn flat_value(&self, character: &Character) -> (r: i16)
        requires
            trait_free(*self),
            flat_pool_ok(*character, *self),
        ensures
            r == flat_pool_value(*character, *self),
        decreases self,
    {
        match self {
            DicePool::Mod(val) => *val,
            DicePool::Attribute(attr) => *character.attributes().get(attr) as i16,
            DicePool::Skill(skill) => character.skills().get(*skill) as i16,
            DicePool::Trait(_) => 0,
            DicePool::Add(p1, p2) => p1.flat_value(character) + p2.flat_value(character),
            DicePool::Sub(p1, p2) => p1.flat_value(character) - p2.flat_value(character),
            DicePool::Max(p1, p2) => max_i16(p1.flat_value(character), p2.flat_value(character)),
            DicePool::Min(p1, p2) => min_i16(p1.flat_value(character), p2.flat_value(character)),
        }
    }

    /// The smaller of two pools.
    pub fn min(p1: DicePool, p2: DicePool) -> (r: DicePool)
        ensures
            r == DicePool::Min(Box::new(p1), Box::new(p2)),
    {
        DicePool::Min(Box::new(p1), Box::new(p2))
    }

    /// The larger of two pools.
    pub fn max(p1: DicePool, p2: DicePool) -> (r: DicePool)
        ensures
            r == DicePool::Max(Box::new(p1), Box::new(p2)),
    {
        DicePool::Max(Box::new(p1), Box::new(p2))
    }
}

impl Clone for DicePool {
    fn clone(&self) -> (r: Self)
        ensures
            r == *self,
        decreases self,
    {
        match self {
            DicePool::Mod(v) => DicePool::Mod(*v),
            DicePool::Attribute(a) => DicePool::Attribute(*a),
            DicePool::Skill(s) => DicePool::Skill(*s),
            DicePool::Trait(t) => DicePool::Trait(*t),
            DicePool::Min(a, b) => DicePool::Min(Box::new((**a).clone()), Box::new((**b).clone())),
            DicePool::Max(a, b) => DicePool::Max(Box::new((**a).clone()), Box::new((**b).clone())),
            DicePool::Add(a, b) => DicePool::Add(Box::new((**a).clone()), Box::new((**b).clone())),
            DicePool::Sub(a, b) => DicePool::Sub(Box::new((**a).clone()), Box::new((**b).clone())),
        }
    }
}

impl Default for DicePool {
    fn default() -> (r: Self)
        ensures
            r == DicePool::Mod(0),
    {
        DicePool::Mod(0)
    }
}

impl std::ops::Add for DicePool {
    type Output = DicePool;

    fn add(self, rhs: Self) -> (r: Self::Output) {
        DicePool::Add(Box::new(self), Box::new(rhs))
    }
}

impl vstd::std_specs::ops::AddSpecImpl for DicePool {
    open spec fn obeys_add_spec() -> bool {
        true
    }

    open spec fn add_req(self, rhs: DicePool) -> bool {
        true
    }

    open spec fn add_spec(self, rhs: DicePool) -> DicePool {
        DicePool::Add(Box::new(self), Box::new(rhs))
    }
}

impl std::ops::Sub for DicePool {
    type Output = DicePool;

    fn sub(self, rhs: Self) -> (r: Self::Output) {
        DicePool::Sub(Box::new(self), Box::new(rhs))
    }
}

impl vstd::std_specs::ops::SubSpecImpl for DicePool {
    open spec fn obeys_sub_spec() -> bool {
        true
    }

    open spec fn sub_req(self, rhs: DicePool) -> bool {
        true
    }

    open spec fn sub_spec(self, rhs: DicePool) -> DicePool {
        DicePool::Sub(Box::new(self), Box::new(rhs))
    }
}

impl std::ops::Add<Skill> for DicePool {
    type Output = DicePool;

    fn add(self, rhs: Skill) -> (r: Self::Output) {
        DicePool::Add(Box::new(self), Box::new(DicePool::Skill(rhs)))
    }
}

impl vstd::std_specs::ops::AddSpecImpl<Skill> for DicePool {
    open spec fn obeys_add_spec() -> bool {
        true
    }

    open spec fn add_req(self, rhs: Skill) -> bool {
        true
    }

    open spec fn add_spec(self, rhs: Skill) -> DicePool {
        DicePool::Add(Box::new(self), Box::new(DicePool::Skill(rhs)))
    }
}

impl std::ops::Add for Attribute {
    type Output = DicePool;

    fn add(self, rhs: Self) -> (r: Self::Output) {
        DicePool::Add(Box::new(DicePool::Attribute(self)), Box::new(DicePool::Attribute(rhs)))
    }
}

impl vstd::std_specs::ops::AddSpecImpl for Attribute {
    open spec fn obeys_add_spec() -> bool {
        true
    }

    open spec fn add_req(self, rhs: Attribute) -> bool {
        true
    }

    open spec fn add_spec(self, rhs: Attribute) -> DicePool {
        DicePool::Add(Box::new(DicePool::Attribute(self)), Box::new(DicePool::Attribute(rhs)))
    }
}

impl std::ops::Add<Skill> for Attribute {
    type Output = DicePool;

    fn add(self, rhs: Skill) -> (r: Self::Output) {
        DicePool::Add(Box::new(DicePool::Attribute(self)), Box::new(DicePool::Skill(rhs)))
    }
}

impl vstd::std_specs::ops::AddSpecImpl<Skill> for Attribute {
    open spec fn obeys_add_spec() -> bool {
        true
    }

    open spec fn add_req(self, rhs: Skill) -> bool {
        true
    }

    open spec fn add_spec(self, rhs: Skill) -> DicePool {
        DicePool::Add(Box::new(DicePool::Attribute(self)), Box::new(DicePool::Skill(rhs)))
    }
}

impl From<Attribute> for DicePool {
    fn from(attr: Attribute) -> (r: Self) {
        DicePool::Attribute(attr)
    }
}

impl vstd::std_specs::convert::FromSpecImpl<Attribute> for DicePool {
    open spec fn obeys_from_spec() -> bool {
        true
    }

    open spec fn from_spec(v: Attribute) -> Self {
        DicePool::Attribute(v)
    }
}

impl From<Skill> for DicePool {
    fn from(skill: Skill) -> (r: Self) {
        DicePool::Skill(skill)
    }
}

impl vstd::std_specs::convert::FromSpecImpl<Skill> for DicePool {
    open spec fn obeys_from_spec() -> bool {
        true
    }

    open spec fn from_spec(v: Skill) -> Self {
        DicePool::Skill(v)
    }
}

impl From<Trait> for DicePool {
    fn from(trait_: Trait) -> (r: Self) {
        DicePool::Trait(trait_)
    }
}

impl vstd::std_specs::convert::FromSpecImpl<Trait> for DicePool {
    open spec fn obeys_from_spec() -> bool {
        true
    }

    open spec fn from_spec(v: Trait) -> Self {
        DicePool::Trait(v)
    }
}

impl From<i16> for DicePool {
    fn from(val: i16) -> (r: Self) {
        DicePool::Mod(val)
    }
}

impl vstd::std_specs::convert::FromSpecImpl<i16> for DicePool {
    open spec fn obeys_from_spec() -> bool {
        true
    }

    open spec fn from_spec(v: i16) -> Self {
        DicePool::Mod(v)
    }
}

/// The digit of a number below ten.
pub open spec fn digit(d: nat) -> char {
    if d == 0 {
        '0'
    } else if d == 1 {
        '1'
    } else if d == 2 {
        '2'
    } else if d == 3 {
        '3'
    } else if d == 4 {
        '4'
    } else if d == 5 {
        '5'
    } else if d == 6 {
        '6'
    } else if d == 7 {
        '7'
    } else if d == 8 {
        '8'
    } else {
        '9'
    }
}

/// The decimal digits of a natural number.
pub open spec fn digits(n: nat) -> Seq<char>
    decreases n,
{
    if n < 10 {
        seq![digit(n)]
    } else {
        digits(n / 10).push(digit(n % 10))
    }
}

/// A number written in decimal, with a minus sign where it is negative.
pub open spec fn decimal(v: int) -> Seq<char> {
    if v < 0 {
        seq!['-'] + digits((-v) as nat)
    } else {
        digits(v as nat)
    }
}

/// How a pool is written: numbers in decimal, ratings by their names, `min(..)` and
/// `max(..)` around two pools, and ` + ` or ` - ` between them.
pub open spec fn pool_text(p: DicePool) -> Seq<char>
    decreases p,
{
    match p {
        DicePool::Mod(v) => decimal(v as int),
        DicePool::Attribute(a) => a.name_view(),
        DicePool::Skill(s) => s.name_view(),
        DicePool::Trait(t) => t.name_view(),
        DicePool::Min(a, b) => "min("@ + pool_text(*a) + ", "@ + pool_text(*b) + ")"@,
        DicePool::Max(a, b) => "max("@ + pool_text(*a) + ", "@ + pool_text(*b) + ")"@,
        DicePool::Add(a, b) => pool_text(*a) + " + "@ + pool_text(*b),
        DicePool::Sub(a, b) => pool_text(*a) + " - "@ + pool_text(*b),
    }
}

/// Whether every trait in the pool has a label to be written with.
pub open spec fn pool_named(p: DicePool) -> bool
    decreases p,
{
    match p {
        DicePool::Trait(t) => t.has_name(),
        DicePool::Min(a, b) => pool_named(*a) && pool_named(*b),
        DicePool::Max(a, b) => pool_named(*a) && pool_named(*b),
        DicePool::Add(a, b) => pool_named(*a) && pool_named(*b),
        DicePool::Sub(a, b) => pool_named(*a) && pool_named(*b),
        _ => true,
    }
}

fn digit_char(d: u32) -> (c: char)
    requires
        d < 10,
    ensures
        c == digit(d as nat),
{
    if d == 0 {
        '0'
    } else if d == 1 {
        '1'
    } else if d == 2 {
        '2'
    } else if d == 3 {
        '3'
    } else if d == 4 {
        '4'
    } else if d == 5 {
        '5'
    } else if d == 6 {
        '6'
    } else if d == 7 {
        '7'
    } else if d == 8 {
        '8'
    } else {
        '9'
    }
}

fn push_digits(n: u32, out: &mut Vec<char>)
    ensures
        final(out)@ == old(out)@ + digits(n as nat),
    decreases n,
{
    if n >= 10 {
        push_digits(n / 10, out);
    }
    out.push(digit_char(n % 10));
}

fn decimal_chars(v: i16) -> (r: Vec<char>)
    ensures
        r@ == decimal(v as int),
{
    let mut r: Vec<char> = Vec::new();
    if v < 0 {
        r.push('-');
        let n: u32 = (0i32 - v as i32) as u32;
        push_digits(n, &mut r);
    } else {
        push_digits(v as u32, &mut r);
    }
    r
}

fn append_chars(a: &mut Vec<char>, b: &Vec<char>)
    ensures
        final(a)@ == old(a)@ + b@,
{
    let mut i: usize = 0;
    let ghost start = a@;
    while i < b.len()
        invariant
            i <= b@.len(),
            a@ == start + b@.take(i as int),
        decreases b@.len() - i,
    {
        a.push(b[i]);
        assert(b@.take(i + 1) =~= b@.take(i as int).push(b@[i as int]));
        i += 1;
    }
    assert(b@.take(b@.len() as int) =~= b@);
}

impl DicePool {
    /// The characters of `pool_text`.
    fn text_chars(&self) -> (r: Vec<char>)
        requires
            pool_named(*self),
        ensures
            r@ == pool_text(*self),
        decreases self,
    {
        match self {
            DicePool::Mod(val) => decimal_chars(*val),
            DicePool::Attribute(attr) => chars_of(attr.name()),
            DicePool::Skill(skill) => chars_of(skill.name()),
            DicePool::Trait(trait_) => match trait_.name() {
                Some(n) => chars_of(n),
                None => Vec::new(),
            },
            DicePool::Min(p1, p2) => {
                let mut r = chars_of("min(");
                append_chars(&mut r, &p1.text_chars());
                append_chars(&mut r, &chars_of(", "));
                append_chars(&mut r, &p2.text_chars());
                append_chars(&mut r, &chars_of(")"));
                r
            },
            DicePool::Max(p1, p2) => {
                let mut r = chars_of("max(");
                append_chars(&mut r, &p1.text_chars());
                append_chars(&mut r, &chars_of(", "));
                append_chars(&mut r, &p2.text_chars());
                append_chars(&mut r, &chars_of(")"));
                r
            },
            DicePool::Add(p1, p2) => {
                let mut r = p1.text_chars();
                append_chars(&mut r, &chars_of(" + "));
                append_chars(&mut r, &p2.text_chars());
                r
            },
            DicePool::Sub(p1, p2) => {
                let mut r = p1.text_chars();
                append_chars(&mut r, &chars_of(" - "));
                append_chars(&mut r, &p2.text_chars());
                r
            },
        }
    }

    /// The pool as it is written, as `pool_text` says.
    pub fn to_string(&self) -> (r: String)
        requires
            pool_named(*self),
        ensures
            r@ == pool_text(*self),
    {
        string_of(&self.text_chars())
    }
}

} // verus!
