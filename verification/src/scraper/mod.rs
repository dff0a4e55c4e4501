use vstd::prelude::*;

use convert_case::{Case, Casing};

pub mod page;
pub mod table;

use crate::text::{
    chars_of, contains_sub, find_from, find_pair_from, first_word, first_word_of, has_char, has_sub,
    last_word, last_word_of, occurs_at, remove_chars, replace_pair, replace_pair_of, same_chars,
    split_on, split_on_char, string_of, trim_chars, trimmed, without_chars,
};

verus! {

/// A gift as read from the tables of the wiki: its id, its kind, and its facets.
#[derive(Debug)]
pub struct Gift {
    pub name: String,
    pub type_: String,
    pub facets: Vec<Facet>,
}

/// A facet of a gift: a moon gift's, rated in dots, or another gift's, tied to a renown.
#[derive(Debug)]
pub enum Facet {
    Moon { name: String, level: u16 },
    Other { name: String, renown: String },
}

/// The kind of a merit, as the wiki groups them.
#[derive(Debug, Clone, Copy, PartialEq, Eq, Structural)]
pub enum MeritType {
    Mental,
    Physical,
    Social,
    Supernatural,
    Fightning,
}

/// What a merit costs: a number of dots, a range (the lengths of the two sides of "to" as
/// written in the cost), or a list of choices.
#[derive(Debug)]
pub enum MeritRating {
    Number(u8),
    Range(u8, u8),
    Vec(Vec<u8>),
}

/// A merit as read from the tables of the wiki.
#[derive(Debug)]
pub struct Merit {
    pub name: String,
    pub cost: MeritRating,
    pub requirements: Option<String>,
    pub type_: MeritType,
}

/// The text of a facet, by its views.
pub enum FacetView {
    Moon(Seq<char>, u16),
    Other(Seq<char>, Seq<char>),
}

/// The text of a gift, by its views.
pub struct GiftView {
    pub name: Seq<char>,
    pub type_: Seq<char>,
    pub facets: Seq<FacetView>,
}

impl View for Facet {
    type V = FacetView;

    open spec fn view(&self) -> FacetView {
        match *self {
            Facet::Moon { name, level } => FacetView::Moon(name@, level),
            Facet::Other { name, renown } => FacetView::Other(name@, renown@),
        }
    }
}

impl View for Gift {
    type V = GiftView;

    open spec fn view(&self) -> GiftView {
        GiftView { name: self.name@, type_: self.type_@, facets: self.facets@.map_values(|f: Facet| f@) }
    }
}

impl Gift {
    pub fn new(name: String, type_: String) -> (r: Self)
        ensures
            r.name == name,
            r.type_ == type_,
            r.facets@.len() == 0,
    {
        Self { name, type_, facets: Vec::new() }
    }
}

impl Facet {
    pub fn name(&self) -> (r: &String)
        ensures
            *r == match *self {
                Facet::Moon { name, .. } => name,
                Facet::Other { name, .. } => name,
            },
    {
        match self {
            Facet::Moon { name, .. } => name,
            Facet::Other { name, .. } => name,
        }
    }
}

impl Merit {
    pub fn new(name: String, cost: MeritRating, requirements: Option<String>, type_: MeritType) -> (r: Self)
        ensures
            r == (Merit { name, cost, requirements, type_ }),
    {
        Self { name, cost, requirements, type_ }
    }
}

/// The text in Pascal case that `convert_case` makes of `s`.
pub uninterp spec fn pascal_case(s: Seq<char>) -> Seq<char>;

/// Converts `s` to Pascal case with `convert_case`.
///
/// Calls `Casing::to_case` with `Case::Pascal`. What it returns (words split at spaces,
/// underscores, hyphens and case changes, each capitalised, joined without a delimiter) is
/// left to the name `pascal_case`: its result depends on `s` alone.
#[verifier::external_body]
fn to_pascal_case(s: &str) -> (r: String)
    ensures
        r@ == pascal_case(s@),
{
    s.to_case(Case::Pascal)
}

/// The cells of the rows of a table, by their views.
pub open spec fn rows_view(rows: Seq<Vec<String>>) -> Seq<Seq<Seq<char>>> {
    rows.map_values(|r: Vec<String>| r@.map_values(|s: String| s@))
}

/// The id of a gift named `name`: its last word where the name holds "of", else its
/// first word, without a final "'s" where that word has an apostrophe.
pub open spec fn gift_id(name: Seq<char>) -> Seq<char> {
    if has_sub(name, seq!['o', 'f']) {
        last_word(name)
    } else {
        let w = first_word(name);
        if w.contains('\'') {
            w.take(w.len() - 2)
        } else {
            w
        }
    }
}

/// Whether the id of a gift named `name` can be taken: a first word with an apostrophe
/// ends in "'s".
pub open spec fn gift_id_ok(name: Seq<char>) -> bool {
    let w = first_word(name);
    !has_sub(name, seq!['o', 'f']) && w.contains('\'') ==> w.len() >= 2 && w[w.len() - 2] == '\''
        && w[w.len() - 1] == 's'
}

/// The id of a facet named `name`: without apostrophes and commas, in Pascal case.
pub open spec fn facet_id(name: Seq<char>) -> Seq<char> {
    pascal_case(without_chars(name, seq!['\'', ',']))
}

/// The facet a row describes: a moon facet rated by its dots where the second cell holds
/// a dot, another facet with the second cell as its renown otherwise.
pub open spec fn facet_of(row: Seq<Seq<char>>) -> FacetView {
    if row[1].contains('•') {
        FacetView::Moon(facet_id(row[0]), row[1].len() as u16)
    } else {
        FacetView::Other(facet_id(row[0]), row[1])
    }
}

/// What reading one row does: a row of two cells closes the open gift and opens one named
/// by it, unless its name has a parenthesis; any other row adds a facet to the open gift.
pub open spec fn gift_step(state: (Seq<GiftView>, Option<GiftView>), row: Seq<Seq<char>>) -> (
    Seq<GiftView>,
    Option<GiftView>,
) {
    let (done, open) = state;
    if row.len() == 2 {
        let done2 = match open {
            Some(g) => done.push(g),
            None => done,
        };
        if row[0].contains('(') {
            (done2, None)
        } else {
            (done2, Some(GiftView { name: gift_id(row[0]), type_: first_word(row[1]), facets: seq![] }))
        }
    } else {
        match open {
            Some(g) => (done, Some(GiftView { facets: g.facets.push(facet_of(row)), ..g })),
            None => (done, None),
        }
    }
}

/// The gifts closed and the gift open after reading `rows`.
pub open spec fn gifts_state(rows: Seq<Seq<Seq<char>>>) -> (Seq<GiftView>, Option<GiftView>)
    decreases rows.len(),
{
    if rows.len() == 0 {
        (seq![], None)
    } else {
        gift_step(gifts_state(rows.drop_last()), rows.last())
    }
}

/// The gifts read from `rows`, in order.
pub open spec fn parsed_gifts(rows: Seq<Seq<Seq<char>>>) -> Seq<GiftView> {
    let (done, open) = gifts_state(rows);
    match open {
        Some(g) => done.push(g),
        None => done,
    }
}

/// Whether a row can be read: a gift's id can be taken from its name, and a facet row
/// has two cells.
pub open spec fn row_ok(open: Option<GiftView>, row: Seq<Seq<char>>) -> bool {
    if row.len() == 2 {
        !row[0].contains('(') ==> gift_id_ok(row[0])
    } else {
        open is Some ==> row.len() >= 2
    }
}

/// Whether every row can be read, given the gift open before it.
pub open spec fn gift_rows_ok(rows: Seq<Seq<Seq<char>>>) -> bool {
    forall|i: int| 0 <= i < rows.len() ==> #[trigger] row_ok(gifts_state(rows.take(i)).1, rows[i])
}

pub open spec fn gifts_view(gs: Seq<Gift>) -> Seq<GiftView> {
    gs.map_values(|g: Gift| g@)
}

pub open spec fn open_view(o: Option<Gift>) -> Option<GiftView> {
    match o {
        Some(g) => Some(g@),
        None => None,
    }
}

fn gift_name_to_id(name: &Vec<char>) -> (r: Vec<char>)
    requires
        gift_id_ok(name@),
    ensures
        r@ == gift_id(name@),
{
    let of = vec!['o', 'f'];
    assert(of@ =~= seq!['o', 'f']);
    if contains_sub(name, &of) {
        last_word_of(name)
    } else {
        let w = first_word_of(name);
        if has_char(&w, '\'') {
            let mut r: Vec<char> = Vec::new();
            let mut i: usize = 0;
            while i < w.len() - 2
                invariant
                    w@.len() >= 2,
                    i <= w@.len() - 2,
                    r@ == w@.take(i as int),
                decreases w@.len() - 2 - i,
            {
                r.push(w[i]);
                assert(w@.take(i + 1) =~= w@.take(i as int).push(w@[i as int]));
                i += 1;
            }
            r
        } else {
            w
        }
    }
}

fn facet_name_to_id(name: &str) -> (r: String)
    ensures
        r@ == facet_id(name@),
{
    let cs = chars_of(name);
    let drop = vec!['\'', ','];
    assert(drop@ =~= seq!['\'', ',']);
    let kept = remove_chars(&cs, &drop);
    let s = string_of(&kept);
    to_pascal_case(s.as_str())
}

/// Reads gifts from the rows of the wiki's gift tables: a row of two cells starts a gift
/// (name, kind), and the rows after it are its facets (name, dots or renown).
pub fn parse_gifts(vec: Vec<Vec<String>>) -> (r: Vec<Gift>)
    requires
        gift_rows_ok(rows_view(vec@)),
    ensures
        gifts_view(r@) == parsed_gifts(rows_view(vec@)),
{
    let ghost rows = rows_view(vec@);
    let mut gift: Option<Gift> = None;
    let mut gifts: Vec<Gift> = Vec::new();
    let n = vec.len();
    let mut i: usize = 0;
    while i < n
        invariant
            n == vec@.len(),
            i <= n,
            rows == rows_view(vec@),
            gift_rows_ok(rows),
            (gifts_view(gifts@), open_view(gift)) == gifts_state(rows.take(i as int)),
        decreases n - i,
    {
        proof {
            assert(rows.take(i + 1).drop_last() =~= rows.take(i as int));
            assert(rows.take(i + 1).last() == rows[i as int]);
            assert(row_ok(gifts_state(rows.take(i as int)).1, rows[i as int]));
        }
        let row = &vec[i];
        assert(rows[i as int] == row@.map_values(|s: String| s@));
        if row.len() == 2 {
            let prev = gift;
            gift = None;
            if let Some(g) = prev {
                let ghost before = gifts@;
                gifts.push(g);
                assert(gifts_view(gifts@) =~= gifts_view(before).push(g@));
            }
            let name = chars_of(row[0].as_str());
            if !has_char(&name, '(') {
                let id = gift_name_to_id(&name);
                let last = chars_of(row[1].as_str());
                let t = first_word_of(&last);
                let g = Gift::new(string_of(&id), string_of(&t));
                assert(g@.facets =~= seq![]);
                gift = Some(g);
            }
        } else if gift.is_some() {
            let id = facet_name_to_id(row[0].as_str());
            let s = row[1].clone();
            let cs = chars_of(s.as_str());
            let facet = if has_char(&cs, '•') {
                Facet::Moon { name: id, level: cs.len() as u16 }
            } else {
                Facet::Other { name: id, renown: s }
            };
            let prev = gift;
            gift = match prev {
                Some(mut g) => {
                    let ghost before = g@;
                    g.facets.push(facet);
                    assert(g@.facets =~= before.facets.push(facet@));
                    Some(g)
                },
                None => None,
            };
        }
        i += 1;
    }
    assert(rows.take(n as int) =~= rows);
    if let Some(g) = gift {
        let ghost before = gifts@;
        gifts.push(g);
        assert(gifts_view(gifts@) =~= gifts_view(before).push(g@));
    }
    gifts
}

/// The cost of a merit, by its views.
pub enum RatingView {
    Number(u8),
    Range(u8, u8),
    Vec(Seq<u8>),
}

/// A merit, by its views.
pub struct MeritView {
    pub name: Seq<char>,
    pub cost: RatingView,
    pub requirements: Option<Seq<char>>,
    pub type_: MeritType,
}

impl View for MeritRating {
    type V = RatingView;

    open spec fn view(&self) -> RatingView {
        match *self {
            MeritRating::Number(n) => RatingView::Number(n),
            MeritRating::Range(a, b) => RatingView::Range(a, b),
            MeritRating::Vec(v) => RatingView::Vec(v@),
        }
    }
}

impl View for Merit {
    type V = MeritView;

    open spec fn view(&self) -> MeritView {
        MeritView {
            name: self.name@,
            cost: self.cost@,
            requirements: match self.requirements {
                Some(r) => Some(r@),
                None => None,
            },
            type_: self.type_,
        }
    }
}

/// Whether every character of `s` is a dot.
pub open spec fn all_dots(s: Seq<char>) -> bool {
    forall|i: int| 0 <= i < s.len() ==> s[i] == '•'
}

/// The number of characters of each piece that is not blank once trimmed.
pub open spec fn piece_counts(ps: Seq<Seq<char>>) -> Seq<u8>
    decreases ps.len(),
{
    if ps.len() == 0 {
        seq![]
    } else {
        let rest = piece_counts(ps.drop_last());
        let t = trimmed(ps.last());
        if t.len() > 0 {
            rest.push(t.len() as u8)
        } else {
            rest
        }
    }
}

/// The pieces of a cost of the form "•• or •••": "or" read as a comma, split at commas.
pub open spec fn or_pieces(cost: Seq<char>) -> Seq<Seq<char>> {
    split_on(replace_pair(cost, 'o', 'r', ','), ',')
}

/// The length of the piece of a cost before its first "to".
pub open spec fn to_first(cost: Seq<char>) -> int {
    find_from(cost, seq!['t', 'o'], 0)
}

/// The length of the piece of a cost between its first "to" and the next one (or its end).
pub open spec fn to_second(cost: Seq<char>) -> int {
    find_from(cost, seq!['t', 'o'], to_first(cost) + 2) - (to_first(cost) + 2)
}

/// The rating that a trimmed cost stands for: a number of dots; a list of the dots of the
/// choices of a cost with "or"; for a cost with "to", the number of characters before the
/// first "to" and between it and the next "to" (or the end), spaces included, so that
/// "•• to ••••" gives the range from 3 to 5; and zero otherwise.
pub open spec fn rating_of(cost: Seq<char>) -> RatingView {
    if all_dots(cost) {
        RatingView::Number(cost.len() as u8)
    } else if has_sub(cost, seq!['o', 'r']) {
        let v = piece_counts(or_pieces(cost));
        if v.len() > 0 {
            RatingView::Vec(v)
        } else {
            RatingView::Number(0)
        }
    } else if has_sub(cost, seq!['t', 'o']) {
        RatingView::Range(to_first(cost) as u8, to_second(cost) as u8)
    } else {
        RatingView::Number(0)
    }
}

/// Every count a cost is read into fits a `u8`.
pub open spec fn rating_ok(cost: Seq<char>) -> bool {
    if all_dots(cost) {
        cost.len() <= 255
    } else if has_sub(cost, seq!['o', 'r']) {
        forall|i: int| 0 <= i < or_pieces(cost).len() ==> trimmed(#[trigger] or_pieces(cost)[i]).len() <= 255
    } else if has_sub(cost, seq!['t', 'o']) {
        to_first(cost) <= 255 && to_second(cost) <= 255
    } else {
        true
    }
}

/// The kind of merit that a table's title names.
pub open spec fn category_type(cat: Seq<char>) -> Option<MeritType> {
    if cat == "Mental Merits"@ {
        Some(MeritType::Mental)
    } else if cat == "Social Merits"@ {
        Some(MeritType::Social)
    } else if cat == "Physical Merits"@ {
        Some(MeritType::Physical)
    } else if cat == "Fighting Merits"@ {
        Some(MeritType::Fightning)
    } else if cat == "Supernatural Merits"@ {
        Some(MeritType::Supernatural)
    } else {
        None
    }
}

/// The merit a row of the table titled `cat` describes: its name in Pascal case, its
/// cost, its requirements where the cell is not empty, and the kind the title names.
pub open spec fn merit_of(cat: Seq<char>, row: Seq<Seq<char>>) -> MeritView {
    MeritView {
        name: pascal_case(row[0]),
        cost: rating_of(trimmed(row[1])),
        requirements: if row[2].len() == 0 {
            None
        } else {
            Some(row[2])
        },
        type_: category_type(cat)->0,
    }
}

/// Whether a row can be read: it has three cells, its table's title names a kind, and its
/// cost's counts fit.
pub open spec fn merit_row_ok(cat: Seq<char>, row: Seq<Seq<char>>) -> bool {
    &&& row.len() >= 3
    &&& category_type(cat) is Some
    &&& rating_ok(trimmed(row[1]))
}

/// The merits of the rows of one table.
pub open spec fn table_merits(cat: Seq<char>, rows: Seq<Seq<Seq<char>>>) -> Seq<MeritView> {
    rows.map_values(|row: Seq<Seq<char>>| merit_of(cat, row))
}

/// The merits of the tables, table by table and row by row.
pub open spec fn parsed_merits(tables: Seq<(Seq<char>, Seq<Seq<Seq<char>>>)>) -> Seq<MeritView>
    decreases tables.len(),
{
    if tables.len() == 0 {
        seq![]
    } else {
        parsed_merits(tables.drop_last()) + table_merits(tables.last().0, tables.last().1)
    }
}

/// Whether every row of every table can be read.
pub open spec fn merit_tables_ok(tables: Seq<(Seq<char>, Seq<Seq<Seq<char>>>)>) -> bool {
    forall|i: int, j: int|
        0 <= i < tables.len() && 0 <= j < tables[i].1.len() ==> merit_row_ok(tables[i].0, #[trigger] tables[i].1[j])
}

/// The tables, by their views.
pub open spec fn tables_view(tables: Seq<(String, Vec<Vec<String>>)>) -> Seq<(Seq<char>, Seq<Seq<Seq<char>>>)> {
    tables.map_values(|t: (String, Vec<Vec<String>>)| (t.0@, rows_view(t.1@)))
}

/// A table under its title, by the views of its cells.
pub type TableView = (Seq<char>, Seq<Seq<Seq<char>>>);

/// The tables after one more section: its rows go at the end of the table of its title,
/// or into a new table at the end where no table has that title yet.
pub open spec fn add_section(g: Seq<TableView>, t: Seq<char>, rows: Seq<Seq<Seq<char>>>) -> Seq<TableView> {
    if exists|i: int| 0 <= i < g.len() && (#[trigger] g[i]).0 == t {
        let i = choose|i: int| 0 <= i < g.len() && (#[trigger] g[i]).0 == t;
        g.update(i, (t, g[i].1 + rows))
    } else {
        g.push((t, rows))
    }
}

/// The sections of a page gathered by title, in the order the titles first come.
pub open spec fn grouped_sections(secs: Seq<TableView>) -> Seq<TableView>
    decreases secs.len(),
{
    if secs.len() == 0 {
        seq![]
    } else {
        add_section(grouped_sections(secs.drop_last()), secs.last().0, secs.last().1)
    }
}

/// No two tables have the same title.
pub open spec fn distinct_titles(g: Seq<TableView>) -> bool {
    forall|i: int, j: int| 0 <= i < j < g.len() ==> (#[trigger] g[i]).0 != (#[trigger] g[j]).0
}

/// Gathers the sections of a page by title: the rows of a section whose title came before
/// go at the end of that table, the others start a table of their own.
pub fn group_tables(sections: Vec<(String, Vec<Vec<String>>)>) -> (r: Vec<(String, Vec<Vec<String>>)>)
    ensures
        tables_view(r@) == grouped_sections(tables_view(sections@)),
        distinct_titles(tables_view(r@)),
{
    let ghost orig = sections@;
    let mut sections = sections;
    let mut tables: Vec<(String, Vec<Vec<String>>)> = Vec::new();
    let ghost mut k: int = 0;
    assert(orig.take(0) =~= Seq::<(String, Vec<Vec<String>>)>::empty());
    assert(tables_view(orig.take(0)) =~= Seq::<TableView>::empty());
    assert(tables_view(tables@) =~= Seq::<TableView>::empty());
    while sections.len() > 0
        invariant
            0 <= k <= orig.len(),
            sections@ == orig.skip(k),
            tables_view(tables@) == grouped_sections(tables_view(orig.take(k))),
            distinct_titles(tables_view(tables@)),
        decreases sections@.len(),
    {
        let ghost before = tables@;
        let (title, mut rows) = sections.remove(0);
        proof {
            assert(orig[k] == (title, rows));
            assert(sections@ =~= orig.skip(k + 1));
            assert(orig.take(k + 1).drop_last() =~= orig.take(k));
            assert(tables_view(orig.take(k + 1)).drop_last() =~= tables_view(orig.take(k)));
            assert(tables_view(orig.take(k + 1)).last() == (title@, rows_view(rows@)));
        }
        let mut found: Option<usize> = None;
        let mut j: usize = 0;
        while j < tables.len()
            invariant
                tables@ == before,
                j <= tables@.len(),
                found matches Some(f) ==> f < j && tables@[f as int].0@ == title@,
                found is None ==> forall|jj: int| 0 <= jj < j ==> (#[trigger] tables@[jj]).0@ != title@,
            decreases tables@.len() - j,
        {
            if found.is_none() && tables[j].0 == title {
                found = Some(j);
            }
            j += 1;
        }
        let ghost g = tables_view(before);
        let ghost rv = rows_view(rows@);
        match found {
            Some(f) => {
                let (t0, mut r0) = tables.remove(f);
                let ghost r0_rows = r0@;
                r0.append(&mut rows);
                tables.insert(f, (t0, r0));
                proof {
                    assert(tables@ =~= before.update(f as int, (t0, r0)));
                    assert(g[f as int].0 == title@);
                    let i = choose|i: int| 0 <= i < g.len() && (#[trigger] g[i]).0 == title@;
                    assert(i == f);
                    assert(rows_view(r0@) =~= rows_view(r0_rows) + rv);
                    assert(tables_view(tables@) =~= g.update(f as int, (title@, g[f as int].1 + rv)));
                }
            },
            None => {
                tables.push((title, rows));
                proof {
                    assert(!exists|i: int| 0 <= i < g.len() && (#[trigger] g[i]).0 == title@);
                    assert(tables_view(tables@) =~= g.push((title@, rv)));
                }
            },
        }
        proof {
            k = k + 1;
        }
    }
    assert(orig.take(orig.len() as int) =~= orig);
    tables
}

pub open spec fn merits_view(ms: Seq<Merit>) -> Seq<MeritView> {
    ms.map_values(|m: Merit| m@)
}

/// The rating a trimmed cost stands for, or `None` where one of its counts does not fit a
/// `u8`.
pub fn rating_checked(cost: &Vec<char>) -> (r: Option<MeritRating>)
    ensures
        r is Some <==> rating_ok(cost@),
        r matches Some(x) ==> x@ == rating_of(cost@),
{
    let mut all = true;
    let mut i: usize = 0;
    while i < cost.len()
        invariant
            i <= cost@.len(),
            all == forall|j: int| 0 <= j < i ==> cost@[j] == '•',
        decreases cost@.len() - i,
    {
        if cost[i] != '•' {
            all = false;
        }
        i += 1;
    }
    let or = vec!['o', 'r'];
    let to = vec!['t', 'o'];
    assert(or@ =~= seq!['o', 'r']);
    assert(to@ =~= seq!['t', 'o']);
    if all {
        if cost.len() > 255 {
            return None;
        }
        Some(MeritRating::Number(cost.len() as u8))
    } else if contains_sub(cost, &or) {
        let replaced = replace_pair_of(cost, 'o', 'r', ',');
        let pieces = split_on_char(&replaced, ',');
        let ghost ps = pieces@.map_values(|p: Vec<char>| p@);
        let mut v: Vec<u8> = Vec::new();
        let mut k: usize = 0;
        while k < pieces.len()
            invariant
                k <= pieces@.len(),
                ps == pieces@.map_values(|p: Vec<char>| p@),
                ps == or_pieces(cost@),
                !all,
                all == forall|j: int| 0 <= j < cost@.len() ==> cost@[j] == '•',
                has_sub(cost@, seq!['o', 'r']),
                v@ == piece_counts(ps.take(k as int)),
                forall|j: int| 0 <= j < k ==> trimmed(#[trigger] ps[j]).len() <= 255,
            decreases pieces@.len() - k,
        {
            proof {
                assert(ps.take(k + 1).drop_last() =~= ps.take(k as int));
                assert(ps[k as int] == pieces@[k as int]@);
            }
            let t = trim_chars(&pieces[k]);
            if t.len() > 255 {
                assert(trimmed(or_pieces(cost@)[k as int]).len() > 255);
                return None;
            }
            if t.len() > 0 {
                v.push(t.len() as u8);
            }
            k += 1;
        }
        assert(ps.take(pieces@.len() as int) =~= ps);
        if v.len() > 0 {
            Some(MeritRating::Vec(v))
        } else {
            Some(MeritRating::Number(0))
        }
    } else if contains_sub(cost, &to) {
        let k = find_pair_from(cost, 't', 'o', 0);
        assert(occurs_at(cost@, seq!['t', 'o'], k as int)) by {
            lemma_find_occurs(cost@, seq!['t', 'o'], 0);
        }
        let k2 = find_pair_from(cost, 't', 'o', k + 2);
        if k > 255 || k2 - (k + 2) > 255 {
            return None;
        }
        Some(MeritRating::Range(k as u8, (k2 - (k + 2)) as u8))
    } else {
        Some(MeritRating::Number(0))
    }
}

/// Where `t` occurs from `start` on, `find_from` finds an occurrence.
proof fn lemma_find_occurs(s: Seq<char>, t: Seq<char>, start: int)
    requires
        0 <= start,
        t.len() > 0,
        exists|i: int| start <= i && occurs_at(s, t, i),
    ensures
        occurs_at(s, t, find_from(s, t, start)),
        find_from(s, t, start) >= start,
    decreases s.len() - start,
{
    if start < s.len() && !occurs_at(s, t, start) {
        let i = choose|i: int| start <= i && occurs_at(s, t, i);
        assert(i != start);
        lemma_find_occurs(s, t, start + 1);
    } else if start >= s.len() {
        let i = choose|i: int| start <= i && occurs_at(s, t, i);
        assert(false);
    }
}

fn category_type_of(cat: &Vec<char>) -> (r: MeritType)
    requires
        category_type(cat@) is Some,
    ensures
        Some(r) == category_type(cat@),
{
    if same_chars(cat, &chars_of("Mental Merits")) {
        MeritType::Mental
    } else if same_chars(cat, &chars_of("Social Merits")) {
        MeritType::Social
    } else if same_chars(cat, &chars_of("Physical Merits")) {
        MeritType::Physical
    } else if same_chars(cat, &chars_of("Fighting Merits")) {
        MeritType::Fightning
    } else {
        MeritType::Supernatural
    }
}

/// Reads merits from the wiki's merit tables, given as (title, rows) pairs: each row
/// (name, cost, requirements) is one merit of the kind the title names.
pub fn parse_merits(map: Vec<(String, Vec<Vec<String>>)>) -> (r: Vec<Merit>)
    requires
        merit_tables_ok(tables_view(map@)),
    ensures
        merits_view(r@) == parsed_merits(tables_view(map@)),
{
    let ghost tables = tables_view(map@);
    let mut merits: Vec<Merit> = Vec::new();
    let n = map.len();
    let mut i: usize = 0;
    while i < n
        invariant
            n == map@.len(),
            i <= n,
            tables == tables_view(map@),
            merit_tables_ok(tables),
            merits_view(merits@) == parsed_merits(tables.take(i as int)),
        decreases n - i,
    {
        let cat = chars_of(map[i].0.as_str());
        let rows = &map[i].1;
        let ghost before = merits_view(merits@);
        proof {
            assert(tables.take(i + 1).drop_last() =~= tables.take(i as int));
            assert(tables[i as int].0 == cat@);
            assert(tables[i as int].1 == rows_view(rows@));
        }
        let m = rows.len();
        let mut j: usize = 0;
        while j < m
            invariant
                n == map@.len(),
                i < n,
                m == rows@.len(),
                j <= m,
                tables == tables_view(map@),
                merit_tables_ok(tables),
                tables[i as int].0 == cat@,
                tables[i as int].1 == rows_view(rows@),
                merits_view(merits@) == before + table_merits(cat@, tables[i as int].1.take(j as int)),
            decreases m - j,
        {
            let row = &rows[j];
            proof {
                assert(tables[i as int].1[j as int] == row@.map_values(|s: String| s@));
                assert(merit_row_ok(tables[i as int].0, tables[i as int].1[j as int]));
            }
            let cost = trim_chars(&chars_of(row[1].as_str()));
            let rating = match rating_checked(&cost) {
                Some(x) => x,
                None => MeritRating::Number(0),
            };
            let type_ = category_type_of(&cat);
            let name = to_pascal_case(row[0].as_str());
            let requirements = if row[2].as_str().is_empty() {
                None
            } else {
                Some(row[2].clone())
            };
            let merit = Merit::new(name, rating, requirements, type_);
            let ghost prev = merits@;
            merits.push(merit);
            proof {
                assert(merit@ == merit_of(cat@, tables[i as int].1[j as int]));
                assert(tables[i as int].1.take(j + 1) =~= tables[i as int].1.take(j as int).push(
                    tables[i as int].1[j as int],
                ));
                assert(merits_view(merits@) =~= merits_view(prev).push(merit@));
                assert(table_merits(cat@, tables[i as int].1.take(j + 1)) =~= table_merits(
                    cat@,
                    tables[i as int].1.take(j as int),
                ).push(merit_of(cat@, tables[i as int].1[j as int])));
            }
            j += 1;
        }
        proof {
            assert(tables[i as int].1.take(m as int) =~= tables[i as int].1);
        }
        i += 1;
    }
    assert(tables.take(n as int) =~= tables);
    merits
}

/// Whether every row of the tables can be read by `parse_merits`.
pub fn merit_tables_readable(map: &Vec<(String, Vec<Vec<String>>)>) -> (r: bool)
    ensures
        r == merit_tables_ok(tables_view(map@)),
{
    let ghost tables = tables_view(map@);
    let mut i: usize = 0;
    while i < map.len()
        invariant
            i <= map@.len(),
            tables == tables_view(map@),
            forall|a: int, b: int|
                0 <= a < i && 0 <= b < tables[a].1.len() ==> merit_row_ok(tables[a].0, #[trigger] tables[a].1[b]),
        decreases map@.len() - i,
    {
        let cat = chars_of(map[i].0.as_str());
        let rows = &map[i].1;
        let known = same_chars(&cat, &chars_of("Mental Merits")) || same_chars(&cat, &chars_of("Social Merits"))
            || same_chars(&cat, &chars_of("Physical Merits")) || same_chars(&cat, &chars_of("Fighting Merits"))
            || same_chars(&cat, &chars_of("Supernatural Merits"));
        assert(known == category_type(cat@) is Some);
        assert(tables[i as int].0 == cat@);
        assert(tables[i as int].1 == rows_view(rows@));
        let mut j: usize = 0;
        while j < rows.len()
            invariant
                i < map@.len(),
                j <= rows@.len(),
                tables == tables_view(map@),
                tables[i as int].0 == cat@,
                tables[i as int].1 == rows_view(rows@),
                known == category_type(cat@) is Some,
                forall|a: int, b: int|
                    0 <= a < i && 0 <= b < tables[a].1.len() ==> merit_row_ok(tables[a].0, #[trigger] tables[a].1[b]),
                forall|b: int| 0 <= b < j ==> merit_row_ok(tables[i as int].0, #[trigger] tables[i as int].1[b]),
            decreases rows@.len() - j,
        {
            let row = &rows[j];
            assert(tables[i as int].1[j as int] == row@.map_values(|s: String| s@));
            if row.len() < 3 || !known {
                assert(!merit_row_ok(tables[i as int].0, tables[i as int].1[j as int]));
                return false;
            }
            let cost = trim_chars(&chars_of(row[1].as_str()));
            if rating_checked(&cost).is_none() {
                assert(!merit_row_ok(tables[i as int].0, tables[i as int].1[j as int]));
                return false;
            }
            j += 1;
        }
        i += 1;
    }
    true
}

/// Whether every row can be read by `parse_gifts`.
pub fn gift_rows_readable(rows: &Vec<Vec<String>>) -> (r: bool)
    ensures
        r == gift_rows_ok(rows_view(rows@)),
{
    let ghost rs = rows_view(rows@);
    let mut open = false;
    let mut i: usize = 0;
    while i < rows.len()
        invariant
            i <= rows@.len(),
            rs == rows_view(rows@),
            open == gifts_state(rs.take(i as int)).1 is Some,
            forall|j: int| 0 <= j < i ==> #[trigger] row_ok(gifts_state(rs.take(j)).1, rs[j]),
        decreases rows@.len() - i,
    {
        proof {
            assert(rs.take(i + 1).drop_last() =~= rs.take(i as int));
            assert(rs.take(i + 1).last() == rs[i as int]);
        }
        let row = &rows[i];
        assert(rs[i as int] == row@.map_values(|s: String| s@));
        if row.len() == 2 {
            let name = chars_of(row[0].as_str());
            if has_char(&name, '(') {
                open = false;
            } else {
                let of = vec!['o', 'f'];
                assert(of@ =~= seq!['o', 'f']);
                if !contains_sub(&name, &of) {
                    let w = first_word_of(&name);
                    if has_char(&w, '\'') && !(w.len() >= 2 && w[w.len() - 2] == '\'' && w[w.len() - 1] == 's') {
                        assert(!row_ok(gifts_state(rs.take(i as int)).1, rs[i as int]));
                        return false;
                    }
                }
                open = true;
            }
        } else if open && row.len() < 2 {
            assert(!row_ok(gifts_state(rs.take(i as int)).1, rs[i as int]));
            return false;
        }
        i += 1;
    }
    assert(rs.take(rows@.len() as int) =~= rs);
    true
}

} // verus!
