use stoic_wisdom_api::dialect::{
    bind_values, decimal_text, placeholder_text, render_fragments, Bind, Dialect, Fragment,
};
use stoic_wisdom_api::models::QuoteSearchParams;
use stoic_wisdom_api::query::{
    build_lookup_query, build_quote_query, listing_sql, Listing, Lookup, QUOTE_PROJECTION,
};

fn text_binds(binds: &[Bind]) -> Vec<String> {
    binds
        .iter()
        .map(|b| match b {
            Bind::Text(s) => s.clone(),
            Bind::Int(i) => format!("int:{}", i),
        })
        .collect()
}

fn params(theme: Option<&str>, philosopher: Option<&str>, search: Option<&str>) -> QuoteSearchParams {
    QuoteSearchParams::new(
        theme.map(|s| s.to_string()),
        philosopher.map(|s| s.to_string()),
        search.map(|s| s.to_string()),
    )
}

#[test]
fn unfiltered_listing_has_no_where_clause() {
    for d in [Dialect::Postgres, Dialect::Sqlite] {
        let q = build_quote_query(&QuoteSearchParams::unfiltered(), d);
        assert_eq!(q.sql, format!("{} ORDER BY q.id", QUOTE_PROJECTION));
        assert!(!q.sql.contains("WHERE"));
        assert!(q.sql.ends_with(" ORDER BY q.id"));
        assert!(q.binds.is_empty());
    }
}

#[test]
fn philosopher_filter_in_each_dialect() {
    let p = params(None, Some("aurelius"), None);
    let pg = build_quote_query(&p, Dialect::Postgres);
    assert_eq!(
        pg.sql,
        format!("{} WHERE p.name ILIKE $1 ORDER BY q.id", QUOTE_PROJECTION)
    );
    let lite = build_quote_query(&p, Dialect::Sqlite);
    assert_eq!(
        lite.sql,
        format!("{} WHERE p.name LIKE ? ORDER BY q.id", QUOTE_PROJECTION)
    );
    assert_eq!(text_binds(&pg.binds), vec!["%aurelius%".to_string()]);
    assert_eq!(text_binds(&lite.binds), vec!["%aurelius%".to_string()]);
}

#[test]
fn all_filters_numbered_in_declaration_order() {
    let p = params(Some("virtue"), Some("seneca"), Some("mind"));
    let pg = build_quote_query(&p, Dialect::Postgres);
    let expected = format!(
        "{} WHERE q.id IN (SELECT quote_id FROM quote_themes qt JOIN themes t ON qt.theme_id = t.id WHERE t.name ILIKE $1) AND p.name ILIKE $2 AND (q.text ILIKE $3 OR q.modern_interpretation ILIKE $4) ORDER BY q.id",
        QUOTE_PROJECTION
    );
    assert_eq!(pg.sql, expected);
    assert_eq!(
        text_binds(&pg.binds),
        vec!["%virtue%", "%seneca%", "%mind%", "%mind%"]
    );
    let lite = build_quote_query(&p, Dialect::Sqlite);
    assert_eq!(lite.sql, expected.replace("ILIKE", "LIKE").replace("$1", "?").replace("$2", "?").replace("$3", "?").replace("$4", "?"));
    assert_eq!(text_binds(&lite.binds), text_binds(&pg.binds));
}

#[test]
fn search_pattern_is_bound_twice() {
    let p = params(None, None, Some("mind"));
    let q = build_quote_query(&p, Dialect::Sqlite);
    assert_eq!(
        q.sql,
        format!(
            "{} WHERE (q.text LIKE ? OR q.modern_interpretation LIKE ?) ORDER BY q.id",
            QUOTE_PROJECTION
        )
    );
    assert_eq!(text_binds(&q.binds), vec!["%mind%", "%mind%"]);
}

#[test]
fn placeholder_count_matches_binds_for_every_combination() {
    for mask in 0..8u32 {
        let p = params(
            if mask & 1 != 0 { Some("a") } else { None },
            if mask & 2 != 0 { Some("b") } else { None },
            if mask & 4 != 0 { Some("c") } else { None },
        );
        let pg = build_quote_query(&p, Dialect::Postgres);
        let lite = build_quote_query(&p, Dialect::Sqlite);
        assert_eq!(lite.sql.matches('?').count(), lite.binds.len());
        assert_eq!(pg.sql.matches('$').count(), pg.binds.len());
        for k in 1..=pg.binds.len() {
            assert!(pg.sql.contains(&format!("${}", k)));
        }
        assert_eq!(text_binds(&pg.binds), text_binds(&lite.binds));
        if mask == 0 {
            assert_eq!(pg.sql, lite.sql);
        } else {
            assert_ne!(pg.sql, lite.sql);
        }
    }
}

#[test]
fn twelve_placeholders_keep_all_digits() {
    let mut fs: Vec<Fragment> = Vec::new();
    fs.push(Fragment::Text("SELECT".to_string()));
    for i in 0..12i64 {
        fs.push(Fragment::Text(if i == 0 { " " } else { ", " }.to_string()));
        fs.push(Fragment::Slot(Bind::Int(i * 10)));
    }
    let pg = render_fragments(Dialect::Postgres, &fs);
    assert_eq!(
        pg,
        "SELECT $1, $2, $3, $4, $5, $6, $7, $8, $9, $10, $11, $12"
    );
    let lite = render_fragments(Dialect::Sqlite, &fs);
    assert_eq!(lite, "SELECT ?, ?, ?, ?, ?, ?, ?, ?, ?, ?, ?, ?");
    let binds = bind_values(&fs);
    assert_eq!(binds.len(), 12);
    for (i, b) in binds.iter().enumerate() {
        match b {
            Bind::Int(v) => assert_eq!(*v, i as i64 * 10),
            Bind::Text(_) => panic!("expected an integer"),
        }
    }
}

#[test]
fn match_operator_per_dialect() {
    let fs = vec![
        Fragment::Text("name ".to_string()),
        Fragment::Match,
        Fragment::Text(" ".to_string()),
        Fragment::Slot(Bind::Text("%x%".to_string())),
    ];
    assert_eq!(render_fragments(Dialect::Postgres, &fs), "name ILIKE $1");
    assert_eq!(render_fragments(Dialect::Sqlite, &fs), "name LIKE ?");
}

#[test]
fn decimal_rendering() {
    assert_eq!(decimal_text(0), "0");
    assert_eq!(decimal_text(7), "7");
    assert_eq!(decimal_text(10), "10");
    assert_eq!(decimal_text(12345), "12345");
    assert_eq!(decimal_text(usize::MAX), usize::MAX.to_string());
    assert_eq!(placeholder_text(Dialect::Postgres, 105), "$105");
    assert_eq!(placeholder_text(Dialect::Sqlite, 105), "?");
}

#[test]
fn lookups_per_dialect() {
    let pg = build_lookup_query(Lookup::PhilosopherById, 7, Dialect::Postgres);
    assert_eq!(pg.sql, "SELECT * FROM philosophers WHERE id = $1");
    assert_eq!(text_binds(&pg.binds), vec!["int:7"]);
    let lite = build_lookup_query(Lookup::QuotesOfPhilosopher, 3, Dialect::Sqlite);
    assert_eq!(lite.sql, "SELECT * FROM quotes WHERE philosopher_id = ?");
    assert_eq!(text_binds(&lite.binds), vec!["int:3"]);
    let theme = build_lookup_query(Lookup::ThemeById, -1, Dialect::Postgres);
    assert_eq!(theme.sql, "SELECT * FROM themes WHERE id = $1");
    let incident = build_lookup_query(Lookup::IncidentById, 2, Dialect::Sqlite);
    assert!(incident.sql.ends_with("WHERE i.id = ?"));
}

#[test]
fn listings() {
    assert_eq!(
        listing_sql(Listing::Philosophers),
        "SELECT * FROM philosophers ORDER BY name"
    );
    assert_eq!(listing_sql(Listing::Timeline), "SELECT * FROM timeline ORDER BY year");
    assert!(listing_sql(Listing::Incidents).ends_with("ORDER BY i.year"));
    assert_eq!(listing_sql(Listing::Themes), "SELECT * FROM themes ORDER BY name");
}
