use cofd::scraper::page::{page_tables, tables_of, PageError, RawMatch, RawTable};
use cofd::scraper::table::{Data, Facet as TableFacet, Gift as TableGift};
use cofd::text::{chars_of, string_of, trim_chars};
use cofd::scraper::{
    gift_rows_readable, merit_tables_readable, parse_gifts, parse_merits, rating_checked, Facet, Gift, Merit,
    MeritRating, MeritType,
};

fn row(cells: &[&str]) -> Vec<String> {
    cells.iter().map(|c| c.to_string()).collect()
}

#[test]
fn gifts_are_read_from_rows() {
    let rows = vec![
        row(&["Gift of Death", "Shadow Gift"]),
        row(&["Cold Embrace", "Purity", "x"]),
        row(&["Eyes of the Dead", "Glory", "x"]),
        row(&["Luna's Gift", "Moon Gift"]),
        row(&["Mother Luna's, Grace", "••", ""]),
        row(&["Wolf (Special)", "Wolf Gift"]),
        row(&["Ignored Facet", "Honor", "y"]),
    ];
    assert!(gift_rows_readable(&rows));
    let gifts = parse_gifts(rows);
    assert_eq!(gifts.len(), 2);

    assert_eq!(gifts[0].name, "Death");
    assert_eq!(gifts[0].type_, "Shadow");
    assert_eq!(gifts[0].facets.len(), 2);
    match &gifts[0].facets[0] {
        Facet::Other { name, renown } => {
            assert_eq!(name, "ColdEmbrace");
            assert_eq!(renown, "Purity");
        }
        other => panic!("unexpected facet {:?}", other),
    }
    assert_eq!(gifts[0].facets[1].name(), "EyesOfTheDead");

    assert_eq!(gifts[1].name, "Luna");
    assert_eq!(gifts[1].type_, "Moon");
    assert_eq!(gifts[1].facets.len(), 1);
    match &gifts[1].facets[0] {
        Facet::Moon { name, level } => {
            assert_eq!(name, "MotherLunasGrace");
            assert_eq!(*level, 2);
        }
        other => panic!("unexpected facet {:?}", other),
    }
}

#[test]
fn gift_rows_that_would_panic_are_refused() {
    // An apostrophe in the first word that does not end in "'s".
    let rows = vec![row(&["Luna' Gift", "Moon Gift"])];
    assert!(!gift_rows_readable(&rows));
    // A facet row with one cell while a gift is open.
    let rows = vec![row(&["Gift of Death", "Shadow Gift"]), row(&["lonely"])];
    assert!(!gift_rows_readable(&rows));
    // The same row before any gift is harmless.
    let rows = vec![row(&["lonely"]), row(&["Gift of Death", "Shadow Gift"])];
    assert!(gift_rows_readable(&rows));
    assert_eq!(parse_gifts(rows).len(), 1);
}

#[test]
fn empty_rows_give_no_gifts() {
    let rows: Vec<Vec<String>> = vec![];
    assert!(gift_rows_readable(&rows));
    assert!(parse_gifts(rows).is_empty());
}

#[test]
fn merits_are_read_from_tables() {
    let tables = vec![
        (
            "Mental Merits".to_string(),
            vec![row(&["area of expertise", "•", "Resolve ••"]), row(&["common sense", " ••• ", ""])],
        ),
        (
            "Physical Merits".to_string(),
            vec![row(&["fleet of foot", "• to •••", "Athletics ••"]), row(&["stunt driver", "• or •••", ""])],
        ),
        ("Fighting Merits".to_string(), vec![row(&["iron skin", "special", ""])]),
    ];
    assert!(merit_tables_readable(&tables));
    let merits: Vec<Merit> = parse_merits(tables);
    assert_eq!(merits.len(), 5);

    assert_eq!(merits[0].name, "AreaOfExpertise");
    assert!(matches!(merits[0].cost, MeritRating::Number(1)));
    assert_eq!(merits[0].requirements.as_deref(), Some("Resolve ••"));
    assert_eq!(merits[0].type_, MeritType::Mental);

    assert_eq!(merits[1].name, "CommonSense");
    assert!(matches!(merits[1].cost, MeritRating::Number(3)));
    assert_eq!(merits[1].requirements, None);

    // The pieces around "to" are counted as they stand, spaces included.
    assert_eq!(merits[2].name, "FleetOfFoot");
    assert!(matches!(merits[2].cost, MeritRating::Range(2, 4)));
    assert_eq!(merits[2].type_, MeritType::Physical);

    match &merits[3].cost {
        MeritRating::Vec(v) => assert_eq!(v, &vec![1u8, 3]),
        other => panic!("unexpected rating {:?}", other),
    }

    assert!(matches!(merits[4].cost, MeritRating::Number(0)));
    assert_eq!(merits[4].type_, MeritType::Fightning);
}

#[test]
fn merit_tables_that_would_panic_are_refused() {
    let unknown = vec![("Odd Merits".to_string(), vec![row(&["x", "•", ""])])];
    assert!(!merit_tables_readable(&unknown));
    let short = vec![("Social Merits".to_string(), vec![row(&["x", "•"])])];
    assert!(!merit_tables_readable(&short));
    let empty_table = vec![("Odd Merits".to_string(), vec![])];
    assert!(merit_tables_readable(&empty_table));
    assert!(parse_merits(empty_table).is_empty());
}

#[test]
fn ratings_that_do_not_fit_are_refused() {
    let long: String = std::iter::repeat('•').take(256).collect();
    assert!(rating_checked(&chars_of(&long)).is_none());
    let fits: String = std::iter::repeat('•').take(255).collect();
    assert!(matches!(rating_checked(&chars_of(&fits)), Some(MeritRating::Number(255))));
    assert!(matches!(rating_checked(&chars_of("")), Some(MeritRating::Number(0))));
    assert!(matches!(rating_checked(&chars_of("or")), Some(MeritRating::Number(0))));
}

#[test]
fn text_helpers() {
    assert_eq!(string_of(&vec!['a', 'b']), "ab");
    assert_eq!(string_of(&trim_chars(&chars_of("\t a b \n"))), "a b");
    assert_eq!(chars_of("é•"), vec!['é', '•']);
}

#[test]
fn table_records() {
    let g = TableGift::new("Death".to_string(), "Shadow".to_string());
    assert_eq!(g.name, "Death");
    assert_eq!(g.typek, "Shadow");
    assert!(g.facets.is_empty());
    let f = TableFacet::new("ColdEmbrace".to_string(), "Purity".to_string());
    assert_eq!(f.name, "ColdEmbrace");
    assert_eq!(f.f, "Purity");
    assert!(matches!(Data::Facet(f), Data::Facet(_)));
    let gift = Gift::new("Death".to_string(), "Shadow".to_string());
    assert!(gift.facets.is_empty());
    let m = Merit::new("X".to_string(), MeritRating::Range(1, 2), None, MeritType::Social);
    assert_eq!(m.name, "X");
}

#[test]
fn sections_with_one_title_are_gathered() {
    let row = |s: &str| vec![s.to_string()];
    let sections = vec![
        ("Mental".to_string(), vec![row("a1")]),
        ("Social".to_string(), vec![row("b1"), row("b2")]),
        ("Mental".to_string(), vec![row("a2")]),
        ("Physical".to_string(), vec![]),
    ];
    let tables = cofd::scraper::group_tables(sections);
    assert_eq!(tables.len(), 3);
    assert_eq!(tables[0], ("Mental".to_string(), vec![row("a1"), row("a2")]));
    assert_eq!(tables[1], ("Social".to_string(), vec![row("b1"), row("b2")]));
    assert_eq!(tables[2], ("Physical".to_string(), vec![]));
    assert!(cofd::scraper::group_tables(vec![]).is_empty());
}

#[test]
fn ranges_count_the_sides_of_to_as_written() {
    let tables = vec![(
        "Social Merits".to_string(),
        vec![row(&["allies", "•• to ••••", ""]), row(&["barfly", "•to•••", ""])],
    )];
    assert!(merit_tables_readable(&tables));
    let merits = parse_merits(tables);
    assert!(matches!(merits[0].cost, MeritRating::Range(3, 5)));
    assert!(matches!(merits[1].cost, MeritRating::Range(1, 3)));
}

#[test]
fn page_tables_are_read_from_html() {
    let html = "<html><body><div class=\"mw-parser-output\">\
        <section><p>intro</p></section>\
        <h2>Mental Merits</h2>\
        <section><table><tbody><tr><th>Merit</th><th>Cost</th><th>Requirements</th></tr>\
        <tr><td> area of expertise </td><td>•</td><td>Resolve ••</td></tr></tbody></table></section>\
        <h2>Social Merits</h2>\
        <section><table><tbody><tr><th>Merit</th></tr><tr><td>allies</td><td>•• to ••••</td><td></td></tr></tbody></table></section>\
        <h2>Mental Merits</h2>\
        <section><table><tbody><tr><th>Merit</th></tr><tr><td>common sense</td><td>•••</td><td></td></tr></tbody></table></section>\
        </div></body></html>";
    let tables = page_tables(html).unwrap();
    assert_eq!(tables.len(), 2);
    assert_eq!(tables[0].0, "Mental Merits");
    assert_eq!(
        tables[0].1,
        vec![row(&["area of expertise", "•", "Resolve ••"]), row(&["common sense", "•••", ""])]
    );
    assert_eq!(tables[1].0, "Social Merits");
    assert_eq!(tables[1].1, vec![row(&["allies", "•• to ••••", ""])]);
    assert!(merit_tables_readable(&tables));
    assert_eq!(parse_merits(tables).len(), 3);
}

#[test]
fn pages_that_cannot_be_read() {
    let no_text = "<div class=\"mw-parser-output\"><section></section><h2></h2><section><table><tbody><tr><td>x</td></tr></tbody></table></section></div>";
    assert_eq!(page_tables(no_text).unwrap_err(), PageError::HeaderWithoutText);
    let no_table = "<div class=\"mw-parser-output\"><section></section><h2>Title</h2><section><p>none</p></section></div>";
    assert_eq!(page_tables(no_table).unwrap_err(), PageError::SectionWithoutTable);
    let empty = "<div class=\"mw-parser-output\"><section></section></div>";
    assert!(page_tables(empty).unwrap().is_empty());
}

fn raw(title: Option<&str>, table: RawTable) -> RawMatch {
    RawMatch { title: title.map(|t| t.to_string()), table }
}

#[test]
fn tables_are_read_from_the_matches_of_a_page() {
    let matches = vec![
        raw(Some("Contents"), RawTable::Missing),
        raw(Some("Mental Merits"), RawTable::Missing),
        raw(None, RawTable::Rows(vec![row(&["Merit", "Cost"]), row(&[" area of expertise ", "\n•"])])),
        raw(Some("Social Merits"), RawTable::Missing),
        raw(Some("x"), RawTable::NotElement),
        raw(Some("Mental Merits"), RawTable::Missing),
        raw(Some("y"), RawTable::Rows(vec![row(&["Merit"]), row(&["common sense", "•••"])])),
        raw(None, RawTable::Missing),
    ];
    let tables = tables_of(matches).unwrap();
    assert_eq!(tables.len(), 2);
    assert_eq!(tables[0].0, "Mental Merits");
    assert_eq!(tables[0].1, vec![row(&["area of expertise", "•"]), row(&["common sense", "•••"])]);
    assert_eq!(tables[1], ("Social Merits".to_string(), vec![]));

    let no_title = vec![raw(None, RawTable::Missing), raw(None, RawTable::Missing), raw(None, RawTable::Missing)];
    assert_eq!(tables_of(no_title).unwrap_err(), PageError::HeaderWithoutText);
    let no_table = vec![raw(None, RawTable::Missing), raw(Some("t"), RawTable::Missing), raw(None, RawTable::Missing)];
    assert_eq!(tables_of(no_table).unwrap_err(), PageError::SectionWithoutTable);
    let empty = vec![raw(None, RawTable::Missing), raw(Some("t"), RawTable::Missing), raw(None, RawTable::NoChild)];
    assert_eq!(tables_of(empty).unwrap_err(), PageError::EmptyTable);
    let odd = vec![raw(None, RawTable::Missing), raw(None, RawTable::Missing)];
    assert!(tables_of(odd).unwrap().is_empty());
    assert!(tables_of(vec![]).unwrap().is_empty());
}
