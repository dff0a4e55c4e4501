//! Reading the tables of a wiki page out of its HTML.
//!
//! The document tree is built and walked by the `scraper` crate. Each element the walk
//! holds carries, as ghost state, the text of its page and the steps that reach it from
//! the page (the `n`-th match of a selector, the first match under it, its last child,
//! its `n`-th child element), so that what the crate reads of it is named as a function of
//! plain values: the page text and the steps. The walk itself is verified against those
//! names, and so is the reading of the walk's results into tables.
use vstd::prelude::*;

use super::{group_tables, grouped_sections, rows_view, tables_view, TableView};
use crate::text::{chars_of, string_of, trim_chars, trimmed};

verus! {

#[verifier::external_type_specification]
#[verifier::external_body]
pub struct ExHtml(::scraper::Html);

#[verifier::external_type_specification]
#[verifier::external_body]
pub struct ExSelector(::scraper::Selector);

#[verifier::external_type_specification]
#[verifier::external_body]
pub struct ExSelectorErrorKind(::scraper::error::SelectorErrorKind);

#[verifier::external_type_specification]
#[verifier::external_body]
pub struct ExElementRef<'a>(::scraper::ElementRef<'a>);

/// One step from the page, or from an element, to an element: a kind, an index and a
/// selector text.
pub type Step = (int, int, Seq<char>);

/// The `i`-th element of the page that matches selector `sel`, in document order.
pub open spec fn step_match(sel: Seq<char>, i: int) -> Step {
    (0, i, sel)
}

/// The first element under an element that matches selector `sel`.
pub open spec fn step_first(sel: Seq<char>) -> Step {
    (1, 0, sel)
}

/// The last child node of an element.
pub open spec fn step_last() -> Step {
    (2, 0, Seq::empty())
}

/// The `i`-th child of an element that is an element.
pub open spec fn step_child(i: int) -> Step {
    (3, i, Seq::empty())
}

/// Whether `scraper` reads `s` as a selector.
pub uninterp spec fn selector_parses(s: Seq<char>) -> bool;

/// How many elements of the page with HTML `text` match selector `sel`.
pub uninterp spec fn doc_match_count(text: Seq<char>, sel: Seq<char>) -> nat;

/// Whether some element under the element reached by `path` matches selector `sel`.
pub uninterp spec fn elem_has_match(text: Seq<char>, path: Seq<Step>, sel: Seq<char>) -> bool;

/// The last child node of the element reached by `path`: none, or whether it is an element.
pub uninterp spec fn elem_last_child(text: Seq<char>, path: Seq<Step>) -> Option<bool>;

/// How many children of the element reached by `path` are elements.
pub uninterp spec fn elem_child_count(text: Seq<char>, path: Seq<Step>) -> nat;

/// The last text node under the element reached by `path`, if any.
pub uninterp spec fn elem_last_text(text: Seq<char>, path: Seq<Step>) -> Option<Seq<char>>;

/// The HTML inside the element reached by `path`.
pub uninterp spec fn elem_inner_html(text: Seq<char>, path: Seq<Step>) -> Seq<char>;

/// A page's document tree, with the text it was built from.
pub struct Page {
    doc: ::scraper::Html,
    source: Ghost<Seq<char>>,
}

impl Page {
    pub closed spec fn source(&self) -> Seq<char> {
        self.source@
    }
}

/// A selector, with the text it was read from.
pub struct Sel {
    sel: ::scraper::Selector,
    source: Ghost<Seq<char>>,
}

impl Sel {
    pub closed spec fn source(&self) -> Seq<char> {
        self.source@
    }
}

/// An element of a page, with the page's text and the steps that reach it.
pub struct Elem<'a> {
    elem: ::scraper::ElementRef<'a>,
    page: Ghost<Seq<char>>,
    path: Ghost<Seq<Step>>,
}

impl<'a> Elem<'a> {
    pub closed spec fn page(&self) -> Seq<char> {
        self.page@
    }

    pub closed spec fn path(&self) -> Seq<Step> {
        self.path@
    }
}

/// `Html::parse_document`: the document tree of the page with HTML `text`.
#[verifier::external_body]
fn parse_page(text: &str) -> (r: Page)
    ensures
        r.source() == text@,
{
    Page { doc: ::scraper::Html::parse_document(text), source: Ghost(text@) }
}

/// `Selector::parse`: the selector written in `s`, where `scraper` reads it as one, or the
/// error that says why not. Which of the two comes back is named by `selector_parses`.
#[verifier::external_body]
fn parse_selector(s: &str) -> (r: Result<Sel, ::scraper::error::SelectorErrorKind>)
    ensures
        (r is Ok) == selector_parses(s@),
        r matches Ok(x) ==> x.source() == s@,
{
    match ::scraper::Selector::parse(s) {
        Ok(sel) => Ok(Sel { sel, source: Ghost(s@) }),
        Err(e) => Err(e),
    }
}

/// `Html::select`: the elements of the page that match the selector, in document order;
/// their number is named by `doc_match_count`.
#[verifier::external_body]
fn select_all<'a>(page: &'a Page, sel: &Sel) -> (r: Vec<Elem<'a>>)
    ensures
        r@.len() == doc_match_count(page.source(), sel.source()),
        forall|i: int|
            0 <= i < r@.len() ==> (#[trigger] r@[i]).page() == page.source() && r@[i].path() == seq![
                step_match(sel.source(), i),
            ],
{
    page.doc.select(&sel.sel).enumerate().map(
        |(i, elem)| Elem { elem, page: Ghost(page.source@), path: Ghost(seq![step_match(sel.source@, i as int)]) },
    ).collect()
}

/// `ElementRef::select`, first match: the first element under `e` that matches the
/// selector; whether there is one is named by `elem_has_match`.
#[verifier::external_body]
fn first_match<'a>(e: &Elem<'a>, sel: &Sel) -> (r: Option<Elem<'a>>)
    ensures
        (r is Some) == elem_has_match(e.page(), e.path(), sel.source()),
        r matches Some(x) ==> x.page() == e.page() && x.path() == e.path().push(step_first(sel.source())),
{
    e.elem.select(&sel.sel).next().map(
        |elem| Elem { elem, page: Ghost(e.page@), path: Ghost(e.path@.push(step_first(sel.source@))) },
    )
}

/// The last child node of `e` (from the node's `children`), told apart by
/// `ElementRef::wrap` into an element or another kind of node; which of the three comes
/// back is named by `elem_last_child`.
#[verifier::external_body]
fn last_child<'a>(e: &Elem<'a>) -> (r: Option<Option<Elem<'a>>>)
    ensures
        match elem_last_child(e.page(), e.path()) {
            None => r is None,
            Some(false) => r matches Some(None),
            Some(true) => r matches Some(Some(x)) && x.page() == e.page() && x.path() == e.path().push(
                step_last(),
            ),
        },
{
    e.elem.children().last().map(
        |node| ::scraper::ElementRef::wrap(node).map(
            |elem| Elem { elem, page: Ghost(e.page@), path: Ghost(e.path@.push(step_last())) },
        ),
    )
}

/// `ElementRef::child_elements`: the children of `e` that are elements, in order; their
/// number is named by `elem_child_count`.
#[verifier::external_body]
fn child_elements<'a>(e: &Elem<'a>) -> (r: Vec<Elem<'a>>)
    ensures
        r@.len() == elem_child_count(e.page(), e.path()),
        forall|i: int|
            0 <= i < r@.len() ==> (#[trigger] r@[i]).page() == e.page() && r@[i].path() == e.path().push(
                step_child(i),
            ),
{
    e.elem.child_elements().enumerate().map(
        |(i, elem)| Elem { elem, page: Ghost(e.page@), path: Ghost(e.path@.push(step_child(i as int))) },
    ).collect()
}

/// `ElementRef::text`, last piece: the last text node under `e`, named by `elem_last_text`.
#[verifier::external_body]
fn last_text<'a>(e: &Elem<'a>) -> (r: Option<String>)
    ensures
        match r {
            Some(s) => elem_last_text(e.page(), e.path()) == Some(s@),
            None => elem_last_text(e.page(), e.path()) is None,
        },
{
    e.elem.text().last().map(str::to_string)
}

/// `ElementRef::inner_html`: the HTML inside `e`, named by `elem_inner_html`.
#[verifier::external_body]
fn inner_html<'a>(e: &Elem<'a>) -> (r: String)
    ensures
        r@ == elem_inner_html(e.page(), e.path()),
{
    e.elem.inner_html()
}

/// Why the tables of a page could not be read.
#[derive(Debug, Clone, Copy, PartialEq, Eq, Structural)]
pub enum PageError {
    /// A selector of the walk was refused.
    Selector,
    /// A section header holds no text.
    HeaderWithoutText,
    /// A section holds no table.
    SectionWithoutTable,
    /// A table has no child to hold its rows.
    EmptyTable,
}

/// What the walk finds in the first table under a matched element.
pub enum RawTable {
    /// No table.
    Missing,
    /// A table without children.
    NoChild,
    /// A table whose last child is not an element (and so holds no rows).
    NotElement,
    /// The rows of the table's last child, each as the inner HTML of its cells.
    Rows(Vec<Vec<String>>),
}

/// What the walk finds at one matched element: its last text, and its first table.
pub struct RawMatch {
    pub title: Option<String>,
    pub table: RawTable,
}

/// `RawTable` by views.
pub enum RawTableView {
    Missing,
    NoChild,
    NotElement,
    Rows(Seq<Seq<Seq<char>>>),
}

pub open spec fn raw_table_view(t: RawTable) -> RawTableView {
    match t {
        RawTable::Missing => RawTableView::Missing,
        RawTable::NoChild => RawTableView::NoChild,
        RawTable::NotElement => RawTableView::NotElement,
        RawTable::Rows(rows) => RawTableView::Rows(rows_view(rows@)),
    }
}

/// A `RawMatch` by views.
pub open spec fn raw_match_view(m: RawMatch) -> (Option<Seq<char>>, RawTableView) {
    (
        match m.title {
            Some(t) => Some(t@),
            None => None,
        },
        raw_table_view(m.table),
    )
}

pub open spec fn raw_matches_view(ms: Seq<RawMatch>) -> Seq<(Option<Seq<char>>, RawTableView)> {
    ms.map_values(|m: RawMatch| raw_match_view(m))
}

/// The selector of the matches the walk pairs: the page's sections and its headers.
pub open spec fn section_selector() -> Seq<char> {
    ".mw-parser-output > section, h2"@
}

/// The selector of a table.
pub open spec fn table_selector() -> Seq<char> {
    "table"@
}

/// The cells of the `m`-th row element of the element reached by `body`.
pub open spec fn row_raw(text: Seq<char>, body: Seq<Step>, m: int) -> Seq<Seq<char>> {
    let row = body.push(step_child(m));
    Seq::new(elem_child_count(text, row), |n: int| elem_inner_html(text, row.push(step_child(n))))
}

/// What the walk finds in the first table under the element reached by `p`.
pub open spec fn table_raw(text: Seq<char>, p: Seq<Step>) -> RawTableView {
    if !elem_has_match(text, p, table_selector()) {
        RawTableView::Missing
    } else {
        let t = p.push(step_first(table_selector()));
        match elem_last_child(text, t) {
            None => RawTableView::NoChild,
            Some(false) => RawTableView::NotElement,
            Some(true) => {
                let body = t.push(step_last());
                RawTableView::Rows(Seq::new(elem_child_count(text, body), |m: int| row_raw(text, body, m)))
            },
        }
    }
}

/// What the walk finds at the `i`-th match of the section selector.
pub open spec fn match_raw(text: Seq<char>, i: int) -> (Option<Seq<char>>, RawTableView) {
    let p = seq![step_match(section_selector(), i)];
    (elem_last_text(text, p), table_raw(text, p))
}

/// What the walk finds at every match of the section selector of the page with HTML `text`.
pub open spec fn page_raw(text: Seq<char>) -> Seq<(Option<Seq<char>>, RawTableView)> {
    Seq::new(doc_match_count(text, section_selector()), |i: int| match_raw(text, i))
}

/// The rows of a table as read: the header row left out, each cell without white space at
/// either end.
pub open spec fn table_rows(rows: Seq<Seq<Seq<char>>>) -> Seq<Seq<Seq<char>>> {
    if rows.len() == 0 {
        seq![]
    } else {
        rows.skip(1).map_values(|r: Seq<Seq<char>>| r.map_values(|c: Seq<char>| trimmed(c)))
    }
}

/// The sections read from the matches, from the `k`-th pair on: the matches past the
/// first are taken two by two, a header and its section, and an odd one left at the end
/// is dropped; the first pair that cannot be read gives its error.
pub open spec fn sections_from(raw: Seq<(Option<Seq<char>>, RawTableView)>, k: nat) -> Result<Seq<TableView>, PageError>
    decreases raw.len() - 2 * k,
{
    if 2 * k + 2 >= raw.len() {
        Ok(seq![])
    } else {
        match raw[2 * k + 1 as int].0 {
            None => Err(PageError::HeaderWithoutText),
            Some(title) => match raw[2 * k + 2 as int].1 {
                RawTableView::Missing => Err(PageError::SectionWithoutTable),
                RawTableView::NoChild => Err(PageError::EmptyTable),
                RawTableView::NotElement => match sections_from(raw, k + 1) {
                    Ok(rest) => Ok(seq![(title, Seq::<Seq<Seq<char>>>::empty())] + rest),
                    Err(e) => Err(e),
                },
                RawTableView::Rows(rows) => match sections_from(raw, k + 1) {
                    Ok(rest) => Ok(seq![(title, table_rows(rows))] + rest),
                    Err(e) => Err(e),
                },
            },
        }
    }
}

/// The tables read from the matches: the sections, gathered by title.
pub open spec fn tables_spec(raw: Seq<(Option<Seq<char>>, RawTableView)>) -> Result<Seq<TableView>, PageError> {
    match sections_from(raw, 0) {
        Ok(secs) => Ok(grouped_sections(secs)),
        Err(e) => Err(e),
    }
}

/// The tables of the page with HTML `text`; `Selector` where `scraper` refuses one of the
/// walk's two selectors.
pub open spec fn page_tables_spec(text: Seq<char>) -> Result<Seq<TableView>, PageError> {
    if !selector_parses(section_selector()) || !selector_parses(table_selector()) {
        Err(PageError::Selector)
    } else {
        tables_spec(page_raw(text))
    }
}

/// A result of tables by views.
pub open spec fn tables_result_view(r: Result<Vec<(String, Vec<Vec<String>>)>, PageError>) -> Result<
    Seq<TableView>,
    PageError,
> {
    match r {
        Ok(t) => Ok(tables_view(t@)),
        Err(e) => Err(e),
    }
}

/// `r` with `a` put before what it holds, where it holds tables.
pub open spec fn prepend_tables(a: Seq<TableView>, r: Result<Seq<TableView>, PageError>) -> Result<
    Seq<TableView>,
    PageError,
> {
    match r {
        Ok(b) => Ok(a + b),
        Err(e) => Err(e),
    }
}

/// The rows of a table as read: the header row left out, each cell without white space
/// at either end.
fn read_rows(rows: &Vec<Vec<String>>) -> (r: Vec<Vec<String>>)
    ensures
        rows_view(r@) == table_rows(rows_view(rows@)),
{
    let mut out: Vec<Vec<String>> = Vec::new();
    let mut m: usize = 1;
    let ghost src = rows_view(rows@);
    while m < rows.len()
        invariant
            1 <= m,
            m <= rows@.len() || m == 1,
            src == rows_view(rows@),
            out@.len() == m - 1,
            forall|j: int|
                0 <= j < out@.len() ==> (#[trigger] out@[j])@.map_values(|c: String| c@) == src[j + 1].map_values(
                    |c: Seq<char>| trimmed(c),
                ),
        decreases rows@.len() - m,
    {
        let row = &rows[m];
        let mut cells: Vec<String> = Vec::new();
        let mut n: usize = 0;
        while n < row.len()
            invariant
                n <= row@.len(),
                cells@.len() == n,
                forall|j: int| 0 <= j < n ==> (#[trigger] cells@[j])@ == trimmed(row@[j]@),
            decreases row@.len() - n,
        {
            let t = trim_chars(&chars_of(row[n].as_str()));
            cells.push(string_of(&t));
            n += 1;
        }
        proof {
            assert(src[m as int] == row@.map_values(|c: String| c@));
            assert(cells@.map_values(|c: String| c@) =~= src[m as int].map_values(|c: Seq<char>| trimmed(c)));
        }
        out.push(cells);
        m += 1;
    }
    proof {
        if rows@.len() > 0 {
            assert(rows_view(out@) =~= src.skip(1).map_values(
                |r: Seq<Seq<char>>| r.map_values(|c: Seq<char>| trimmed(c)),
            )) by {
                assert forall|j: int| 0 <= j < out@.len() implies #[trigger] rows_view(out@)[j] == src.skip(1).map_values(
                    |r: Seq<Seq<char>>| r.map_values(|c: Seq<char>| trimmed(c)),
                )[j] by {
                    assert(out@[j]@.map_values(|c: String| c@) == src[j + 1].map_values(|c: Seq<char>| trimmed(c)));
                }
            }
        } else {
            assert(rows_view(out@) =~= Seq::<Seq<Seq<char>>>::empty());
        }
    }
    out
}

/// Reads the tables of a page from what the walk found at the matches of the section
/// selector: past the first match, the matches are taken two by two, a header and its
/// section, and an odd one left at the end is dropped. The title is the header's last
/// text, and the rows are those of the section's table past its header row, each cell
/// without white space at either end; a table whose last child is not an element has no
/// rows. The first pair that cannot be read gives its error; otherwise the sections are
/// gathered by title with `group_tables`.
pub fn tables_of(raw: Vec<RawMatch>) -> (r: Result<Vec<(String, Vec<Vec<String>>)>, PageError>)
    ensures
        tables_result_view(r) == tables_spec(raw_matches_view(raw@)),
{
    let ghost rv = raw_matches_view(raw@);
    let mut sections: Vec<(String, Vec<Vec<String>>)> = Vec::new();
    let mut j: usize = 0;
    let ghost mut k: int = 0;
    proof {
        assert(tables_view(sections@) =~= Seq::<TableView>::empty());
        match sections_from(rv, 0) {
            Ok(b) => assert(Seq::<TableView>::empty() + b =~= b),
            Err(_) => {},
        }
    }
    while j < raw.len() && raw.len() - j > 2
        invariant
            j == 2 * k,
            0 <= k,
            rv == raw_matches_view(raw@),
            sections_from(rv, 0) == prepend_tables(tables_view(sections@), sections_from(rv, k as nat)),
        decreases raw@.len() - j,
    {
        let ghost a = tables_view(sections@);
        let header = &raw[j + 1];
        let section = &raw[j + 2];
        proof {
            assert(rv[2 * k + 1] == raw_match_view(raw@[2 * k + 1]));
            assert(rv[2 * k + 2] == raw_match_view(raw@[2 * k + 2]));
        }
        let title = match &header.title {
            Some(t) => t.clone(),
            None => return Err(PageError::HeaderWithoutText),
        };
        let rows = match &section.table {
            RawTable::Missing => return Err(PageError::SectionWithoutTable),
            RawTable::NoChild => return Err(PageError::EmptyTable),
            RawTable::NotElement => Vec::new(),
            RawTable::Rows(rs) => read_rows(rs),
        };
        let ghost x = (title@, rows_view(rows@));
        proof {
            assert(rows_view(Seq::<Vec<String>>::empty()) =~= Seq::<Seq<Seq<char>>>::empty());
        }
        sections.push((title, rows));
        proof {
            assert(tables_view(sections@) =~= a.push(x));
            match sections_from(rv, (k + 1) as nat) {
                Ok(b) => {
                    assert(a.push(x) + b =~= a + (seq![x] + b));
                },
                Err(_) => {},
            }
        }
        j += 2;
        proof {
            k = k + 1;
        }
    }
    proof {
        assert(tables_view(sections@) + Seq::<TableView>::empty() =~= tables_view(sections@));
    }
    Ok(group_tables(sections))
}

/// The cells of a row element, each the HTML inside it.
fn row_of<'a>(row: &Elem<'a>) -> (r: Vec<String>)
    ensures
        r@.map_values(|c: String| c@) == Seq::new(
            elem_child_count(row.page(), row.path()),
            |n: int| elem_inner_html(row.page(), row.path().push(step_child(n))),
        ),
{
    let tds = child_elements(row);
    let mut cells: Vec<String> = Vec::new();
    let mut n: usize = 0;
    while n < tds.len()
        invariant
            n <= tds@.len(),
            tds@.len() == elem_child_count(row.page(), row.path()),
            forall|i: int|
                0 <= i < tds@.len() ==> (#[trigger] tds@[i]).page() == row.page() && tds@[i].path() == row.path().push(
                    step_child(i),
                ),
            cells@.len() == n,
            forall|j: int|
                0 <= j < n ==> (#[trigger] cells@[j])@ == elem_inner_html(row.page(), row.path().push(step_child(j))),
        decreases tds@.len() - n,
    {
        let html = inner_html(&tds[n]);
        cells.push(html);
        n += 1;
    }
    assert(cells@.map_values(|c: String| c@) =~= Seq::new(
        elem_child_count(row.page(), row.path()),
        |n: int| elem_inner_html(row.page(), row.path().push(step_child(n))),
    ));
    cells
}

/// The rows of a table body element, each as its cells.
fn rows_of<'a>(body: &Elem<'a>) -> (r: Vec<Vec<String>>)
    ensures
        rows_view(r@) == Seq::new(
            elem_child_count(body.page(), body.path()),
            |m: int| row_raw(body.page(), body.path(), m),
        ),
{
    let trs = child_elements(body);
    let mut rows: Vec<Vec<String>> = Vec::new();
    let mut m: usize = 0;
    while m < trs.len()
        invariant
            m <= trs@.len(),
            trs@.len() == elem_child_count(body.page(), body.path()),
            forall|i: int|
                0 <= i < trs@.len() ==> (#[trigger] trs@[i]).page() == body.page() && trs@[i].path() == body.path().push(
                    step_child(i),
                ),
            rows@.len() == m,
            forall|j: int| 0 <= j < m ==> (#[trigger] rows@[j])@.map_values(|c: String| c@) == row_raw(body.page(), body.path(), j),
        decreases trs@.len() - m,
    {
        let cells = row_of(&trs[m]);
        proof {
            assert(cells@.map_values(|c: String| c@) =~= row_raw(body.page(), body.path(), m as int));
        }
        rows.push(cells);
        m += 1;
    }
    assert(rows_view(rows@) =~= Seq::new(
        elem_child_count(body.page(), body.path()),
        |m: int| row_raw(body.page(), body.path(), m),
    ));
    rows
}

/// What the walk finds in the first table under `e`.
fn table_of<'a>(e: &Elem<'a>, table: &Sel) -> (r: RawTable)
    requires
        table.source() == table_selector(),
    ensures
        raw_table_view(r) == table_raw(e.page(), e.path()),
{
    match first_match(e, table) {
        None => RawTable::Missing,
        Some(t) => match last_child(&t) {
            None => RawTable::NoChild,
            Some(None) => RawTable::NotElement,
            Some(Some(body)) => RawTable::Rows(rows_of(&body)),
        },
    }
}

/// What the walk finds at every match of the section selector of a page.
fn raw_of_page(page: &Page, sections: &Sel, table: &Sel) -> (r: Vec<RawMatch>)
    requires
        sections.source() == section_selector(),
        table.source() == table_selector(),
    ensures
        raw_matches_view(r@) == page_raw(page.source()),
{
    let elements = select_all(page, sections);
    let mut raw: Vec<RawMatch> = Vec::new();
    let mut i: usize = 0;
    while i < elements.len()
        invariant
            i <= elements@.len(),
            table.source() == table_selector(),
            sections.source() == section_selector(),
            elements@.len() == doc_match_count(page.source(), section_selector()),
            forall|j: int|
                0 <= j < elements@.len() ==> (#[trigger] elements@[j]).page() == page.source() && elements@[j].path()
                    == seq![step_match(section_selector(), j)],
            raw@.len() == i,
            forall|j: int| 0 <= j < i ==> raw_match_view(#[trigger] raw@[j]) == match_raw(page.source(), j),
        decreases elements@.len() - i,
    {
        let e = &elements[i];
        let title = last_text(e);
        let t = table_of(e, table);
        let m = RawMatch { title, table: t };
        proof {
            assert(raw_match_view(m) == match_raw(page.source(), i as int));
        }
        raw.push(m);
        i += 1;
    }
    assert(raw_matches_view(raw@) =~= page_raw(page.source()));
    raw
}

/// The tables of the wiki page with HTML `text`, as `tables_of` reads them from what the
/// walk over the page finds; `Selector` where `scraper` refuses one of the walk's two
/// selectors.
pub fn page_tables(text: &str) -> (r: Result<Vec<(String, Vec<Vec<String>>)>, PageError>)
    ensures
        tables_result_view(r) == page_tables_spec(text@),
{
    let page = parse_page(text);
    let sections = match parse_selector(".mw-parser-output > section, h2") {
        Ok(s) => s,
        Err(_) => return Err(PageError::Selector),
    };
    let table = match parse_selector("table") {
        Ok(s) => s,
        Err(_) => return Err(PageError::Selector),
    };
    let raw = raw_of_page(&page, &sections, &table);
    tables_of(raw)
}

} // verus!
