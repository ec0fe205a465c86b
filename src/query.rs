use vstd::prelude::*;

use crate::dialect::{
    bind_values, bind_values_of, has_operator, lemma_render_lengths, lemma_slot_count_bound, lemma_slot_values_append,
    lemma_slot_values_push, pieces_of, render, render_fragments, slot_count, slot_values, Bind,
    BindValue, Dialect, Fragment, Piece,
};
use crate::models::{QuoteSearchParams, SearchFilters};

verus! {

/// Columns of a quote listing: quotes joined to their philosophers.
pub const QUOTE_PROJECTION: &'static str = "SELECT q.id, q.philosopher_id, p.name as philosopher_name, q.text, q.source, q.context, q.modern_interpretation, q.full_text FROM quotes q JOIN philosophers p ON q.philosopher_id = p.id";

pub const THEME_FILTER_HEAD: &'static str = "q.id IN (SELECT quote_id FROM quote_themes qt JOIN themes t ON qt.theme_id = t.id WHERE t.name ";

pub const PHILOSOPHER_FILTER_HEAD: &'static str = "p.name ";

pub const SEARCH_FILTER_HEAD: &'static str = "(q.text ";

pub const SEARCH_FILTER_MIDDLE: &'static str = " OR q.modern_interpretation ";

pub const SPACE: &'static str = " ";

pub const CLOSE: &'static str = ")";

pub const WHERE_KEYWORD: &'static str = " WHERE ";

pub const AND_KEYWORD: &'static str = " AND ";

pub const ORDER_BY_ID: &'static str = " ORDER BY q.id";

/// A statement ready to run: its SQL text and the values for its
/// placeholders, in order.
#[derive(Debug)]
pub struct SqlQuery {
    pub sql: String,
    pub binds: Vec<Bind>,
}

/// The value bound for a substring filter: the pattern wrapped in `%`.
pub open spec fn like_pattern(v: Seq<char>) -> BindValue {
    BindValue::Text(seq!['%'] + v + seq!['%'])
}

/// Quotes filed under a theme whose name contains `v`.
pub open spec fn theme_condition(v: Seq<char>) -> Seq<Piece> {
    seq![
        Piece::Text(THEME_FILTER_HEAD@),
        Piece::Match,
        Piece::Text(SPACE@),
        Piece::Slot(like_pattern(v)),
        Piece::Text(CLOSE@),
    ]
}

/// Quotes whose philosopher's name contains `v`.
pub open spec fn philosopher_condition(v: Seq<char>) -> Seq<Piece> {
    seq![
        Piece::Text(PHILOSOPHER_FILTER_HEAD@),
        Piece::Match,
        Piece::Text(SPACE@),
        Piece::Slot(like_pattern(v)),
    ]
}

/// Quotes whose text or modern interpretation contains `v`; the pattern is
/// bound twice.
pub open spec fn search_condition(v: Seq<char>) -> Seq<Piece> {
    seq![
        Piece::Text(SEARCH_FILTER_HEAD@),
        Piece::Match,
        Piece::Text(SPACE@),
        Piece::Slot(like_pattern(v)),
        Piece::Text(SEARCH_FILTER_MIDDLE@),
        Piece::Match,
        Piece::Text(SPACE@),
        Piece::Slot(like_pattern(v)),
        Piece::Text(CLOSE@),
    ]
}

/// The conditions of the filters that are set, in the order theme,
/// philosopher, search.
pub open spec fn conditions(f: SearchFilters) -> Seq<Seq<Piece>> {
    (match f.theme {
        Some(v) => seq![theme_condition(v)],
        None => seq![],
    }) + (match f.philosopher {
        Some(v) => seq![philosopher_condition(v)],
        None => seq![],
    }) + (match f.search {
        Some(v) => seq![search_condition(v)],
        None => seq![],
    })
}

/// ` WHERE c1 AND c2 ...`, or nothing when there is no condition.
pub open spec fn where_clause(conds: Seq<Seq<Piece>>) -> Seq<Piece>
    decreases conds.len(),
{
    if conds.len() == 0 {
        seq![]
    } else if conds.len() == 1 {
        seq![Piece::Text(WHERE_KEYWORD@)] + conds[0]
    } else {
        where_clause(conds.drop_last()) + seq![Piece::Text(AND_KEYWORD@)] + conds.last()
    }
}

/// The dialect-neutral statement of a filtered quote listing, ordered by
/// quote id.
pub open spec fn quote_statement(f: SearchFilters) -> Seq<Piece> {
    seq![Piece::Text(QUOTE_PROJECTION@)] + where_clause(conditions(f)) + seq![
        Piece::Text(ORDER_BY_ID@),
    ]
}

/// The values bound for the filters that are set, in the order theme,
/// philosopher, search; the search pattern twice.
pub open spec fn quote_binds(f: SearchFilters) -> Seq<BindValue> {
    (match f.theme {
        Some(v) => seq![like_pattern(v)],
        None => seq![],
    }) + (match f.philosopher {
        Some(v) => seq![like_pattern(v)],
        None => seq![],
    }) + (match f.search {
        Some(v) => seq![like_pattern(v), like_pattern(v)],
        None => seq![],
    })
}

pub open spec fn no_filter(f: SearchFilters) -> bool {
    f.theme is None && f.philosopher is None && f.search is None
}

fn text(s: &str) -> (r: Fragment)
    ensures
        r@ == Piece::Text(s@),
{
    Fragment::Text(String::from_str(s))
}

fn like_bind(v: &String) -> (r: Bind)
    ensures
        r@ == like_pattern(v@),
{
    proof {
        reveal_strlit("%");
    }
    let mut s = String::from_str("%");
    s.append(v.as_str());
    s.append("%");
    assert(s@ =~= seq!['%'] + v@ + seq!['%']);
    Bind::Text(s)
}

proof fn lemma_pieces_push(fs: Seq<Fragment>, f: Fragment)
    ensures
        pieces_of(fs.push(f)) == pieces_of(fs).push(f@),
{
    assert(pieces_of(fs.push(f)) =~= pieces_of(fs).push(f@));
}

proof fn lemma_pieces_append(a: Seq<Fragment>, b: Seq<Fragment>)
    ensures
        pieces_of(a + b) == pieces_of(a) + pieces_of(b),
{
    assert(pieces_of(a + b) =~= pieces_of(a) + pieces_of(b));
}

fn push_fragment(fs: &mut Vec<Fragment>, f: Fragment)
    ensures
        pieces_of(final(fs)@) == pieces_of(old(fs)@).push(f@),
{
    proof {
        lemma_pieces_push(fs@, f);
    }
    fs.push(f);
}

fn theme_fragments(v: &String) -> (r: Vec<Fragment>)
    ensures
        pieces_of(r@) == theme_condition(v@),
{
    let mut r: Vec<Fragment> = Vec::new();
    push_fragment(&mut r, text(THEME_FILTER_HEAD));
    push_fragment(&mut r, Fragment::Match);
    push_fragment(&mut r, text(SPACE));
    push_fragment(&mut r, Fragment::Slot(like_bind(v)));
    push_fragment(&mut r, text(CLOSE));
    assert(pieces_of(r@) =~= theme_condition(v@));
    r
}

fn philosopher_fragments(v: &String) -> (r: Vec<Fragment>)
    ensures
        pieces_of(r@) == philosopher_condition(v@),
{
    let mut r: Vec<Fragment> = Vec::new();
    push_fragment(&mut r, text(PHILOSOPHER_FILTER_HEAD));
    push_fragment(&mut r, Fragment::Match);
    push_fragment(&mut r, text(SPACE));
    push_fragment(&mut r, Fragment::Slot(like_bind(v)));
    assert(pieces_of(r@) =~= philosopher_condition(v@));
    r
}

fn search_fragments(v: &String) -> (r: Vec<Fragment>)
    ensures
        pieces_of(r@) == search_condition(v@),
{
    let mut r: Vec<Fragment> = Vec::new();
    push_fragment(&mut r, text(SEARCH_FILTER_HEAD));
    push_fragment(&mut r, Fragment::Match);
    push_fragment(&mut r, text(SPACE));
    push_fragment(&mut r, Fragment::Slot(like_bind(v)));
    push_fragment(&mut r, text(SEARCH_FILTER_MIDDLE));
    push_fragment(&mut r, Fragment::Match);
    push_fragment(&mut r, text(SPACE));
    push_fragment(&mut r, Fragment::Slot(like_bind(v)));
    push_fragment(&mut r, text(CLOSE));
    assert(pieces_of(r@) =~= search_condition(v@));
    r
}

proof fn lemma_where_clause_push(conds: Seq<Seq<Piece>>, c: Seq<Piece>)
    ensures
        where_clause(conds.push(c)) == where_clause(conds) + seq![
            Piece::Text(if conds.len() == 0 { WHERE_KEYWORD@ } else { AND_KEYWORD@ }),
        ] + c,
{
    let n = conds.push(c);
    assert(n.drop_last() =~= conds);
    if conds.len() == 0 {
        assert(where_clause(conds) =~= Seq::<Piece>::empty());
        assert(n[0] == c);
        assert(where_clause(n) =~= where_clause(conds) + seq![Piece::Text(WHERE_KEYWORD@)] + c);
    }
}

/// Adds one condition to a statement that so far holds the projection and the
/// where clause of `conds`.
fn add_condition(
    fs: &mut Vec<Fragment>,
    cond: Vec<Fragment>,
    Ghost(conds): Ghost<Seq<Seq<Piece>>>,
)
    requires
        pieces_of(old(fs)@) == seq![Piece::Text(QUOTE_PROJECTION@)] + where_clause(conds),
    ensures
        pieces_of(final(fs)@) == seq![Piece::Text(QUOTE_PROJECTION@)] + where_clause(
            conds.push(pieces_of(cond@)),
        ),
{
    let ghost cp = pieces_of(cond@);
    let first = fs.len() == 1;
    proof {
        lemma_where_clause_push(conds, pieces_of(cond@));
        if conds.len() > 0 {
            lemma_where_clause_nonempty(conds);
        }
    }
    if first {
        push_fragment(fs, text(WHERE_KEYWORD));
    } else {
        push_fragment(fs, text(AND_KEYWORD));
    }
    let mut cond = cond;
    proof {
        lemma_pieces_append(fs@, cond@);
    }
    fs.append(&mut cond);
    assert(pieces_of(fs@) =~= seq![Piece::Text(QUOTE_PROJECTION@)] + where_clause(conds.push(cp)));
}

proof fn lemma_where_clause_nonempty(conds: Seq<Seq<Piece>>)
    requires
        conds.len() > 0,
    ensures
        where_clause(conds).len() > 0,
    decreases conds.len(),
{
}

/// The dialect-neutral statement of a filtered quote listing.
pub fn quote_fragments(params: &QuoteSearchParams) -> (r: Vec<Fragment>)
    ensures
        pieces_of(r@) == quote_statement(params@),
{
    let ghost f = params@;
    let mut fs: Vec<Fragment> = Vec::new();
    push_fragment(&mut fs, text(QUOTE_PROJECTION));
    let ghost mut conds: Seq<Seq<Piece>> = seq![];
    assert(pieces_of(fs@) =~= seq![Piece::Text(QUOTE_PROJECTION@)] + where_clause(conds));
    match &params.theme {
        Some(v) => {
            let c = theme_fragments(v);
            add_condition(&mut fs, c, Ghost(conds));
            proof {
                conds = conds.push(theme_condition(v@));
            }
        },
        None => {},
    }
    match &params.philosopher {
        Some(v) => {
            let c = philosopher_fragments(v);
            add_condition(&mut fs, c, Ghost(conds));
            proof {
                conds = conds.push(philosopher_condition(v@));
            }
        },
        None => {},
    }
    match &params.search {
        Some(v) => {
            let c = search_fragments(v);
            add_condition(&mut fs, c, Ghost(conds));
            proof {
                conds = conds.push(search_condition(v@));
            }
        },
        None => {},
    }
    assert(conds =~= conditions(f));
    push_fragment(&mut fs, text(ORDER_BY_ID));
    fs
}

/// The values bound by a sequence of conditions, condition by condition.
pub open spec fn condition_binds(conds: Seq<Seq<Piece>>) -> Seq<BindValue>
    decreases conds.len(),
{
    if conds.len() == 0 {
        seq![]
    } else {
        condition_binds(conds.drop_last()) + slot_values(conds.last())
    }
}

proof fn lemma_condition_binds_append(a: Seq<Seq<Piece>>, b: Seq<Seq<Piece>>)
    ensures
        condition_binds(a + b) == condition_binds(a) + condition_binds(b),
    decreases b.len(),
{
    if b.len() == 0 {
        assert(a + b =~= a);
        assert(condition_binds(a) + condition_binds(b) =~= condition_binds(a));
    } else {
        lemma_condition_binds_append(a, b.drop_last());
        assert((a + b).drop_last() =~= a + b.drop_last());
        assert((a + b).last() == b.last());
        assert(condition_binds(a + b) =~= condition_binds(a) + condition_binds(b));
    }
}

proof fn lemma_condition_binds_single(c: Seq<Piece>)
    ensures
        condition_binds(seq![c]) == slot_values(c),
{
    assert(seq![c].drop_last() =~= Seq::<Seq<Piece>>::empty());
    assert(seq![c].last() == c);
    assert(condition_binds(Seq::<Seq<Piece>>::empty()) =~= Seq::<BindValue>::empty());
    assert(Seq::<BindValue>::empty() + slot_values(c) =~= slot_values(c));
}

proof fn lemma_where_clause_binds(conds: Seq<Seq<Piece>>)
    ensures
        slot_values(where_clause(conds)) == condition_binds(conds),
    decreases conds.len(),
{
    if conds.len() == 1 {
        let w = seq![Piece::Text(WHERE_KEYWORD@)];
        lemma_slot_values_append(w, conds[0]);
        lemma_slot_values_push(Seq::<Piece>::empty(), Piece::Text(WHERE_KEYWORD@));
        assert(seq![Piece::Text(WHERE_KEYWORD@)] =~= Seq::<Piece>::empty().push(
            Piece::Text(WHERE_KEYWORD@),
        ));
        assert(conds.drop_last() =~= Seq::<Seq<Piece>>::empty());
        assert(conds.last() == conds[0]);
        assert(condition_binds(Seq::<Seq<Piece>>::empty()) =~= Seq::<BindValue>::empty());
        assert(slot_values(Seq::<Piece>::empty()) =~= Seq::<BindValue>::empty());
        assert(slot_values(where_clause(conds)) =~= condition_binds(conds));
    } else if conds.len() > 1 {
        let a = seq![Piece::Text(AND_KEYWORD@)];
        lemma_where_clause_binds(conds.drop_last());
        lemma_slot_values_append(where_clause(conds.drop_last()), a);
        lemma_slot_values_append(where_clause(conds.drop_last()) + a, conds.last());
        lemma_slot_values_push(Seq::<Piece>::empty(), Piece::Text(AND_KEYWORD@));
        assert(a =~= Seq::<Piece>::empty().push(Piece::Text(AND_KEYWORD@)));
        assert(slot_values(where_clause(conds)) =~= condition_binds(conds));
    }
}

proof fn lemma_take_step(ps: Seq<Piece>, k: int)
    requires
        0 <= k < ps.len(),
    ensures
        slot_values(ps.take(k + 1)) == slot_values(ps.take(k)) + match ps[k] {
            Piece::Slot(v) => seq![v],
            _ => Seq::<BindValue>::empty(),
        },
{
    lemma_slot_values_push(ps.take(k), ps[k]);
    assert(ps.take(k + 1) =~= ps.take(k).push(ps[k]));
}

proof fn lemma_condition_slot_values(v: Seq<char>)
    ensures
        slot_values(theme_condition(v)) == seq![like_pattern(v)],
        slot_values(philosopher_condition(v)) == seq![like_pattern(v)],
        slot_values(search_condition(v)) == seq![like_pattern(v), like_pattern(v)],
{
    let e = Seq::<BindValue>::empty();
    let w = like_pattern(v);
    let t = theme_condition(v);
    assert(t.take(0) =~= Seq::<Piece>::empty());
    lemma_take_step(t, 0);
    lemma_take_step(t, 1);
    lemma_take_step(t, 2);
    lemma_take_step(t, 3);
    lemma_take_step(t, 4);
    assert(slot_values(t.take(3)) =~= e);
    assert(slot_values(t.take(5)) =~= seq![w]);
    assert(t.take(5) =~= t);
    let p = philosopher_condition(v);
    assert(p.take(0) =~= Seq::<Piece>::empty());
    lemma_take_step(p, 0);
    lemma_take_step(p, 1);
    lemma_take_step(p, 2);
    lemma_take_step(p, 3);
    assert(slot_values(p.take(3)) =~= e);
    assert(slot_values(p.take(4)) =~= seq![w]);
    assert(p.take(4) =~= p);
    let s = search_condition(v);
    assert(s.take(0) =~= Seq::<Piece>::empty());
    lemma_take_step(s, 0);
    lemma_take_step(s, 1);
    lemma_take_step(s, 2);
    lemma_take_step(s, 3);
    lemma_take_step(s, 4);
    lemma_take_step(s, 5);
    lemma_take_step(s, 6);
    lemma_take_step(s, 7);
    lemma_take_step(s, 8);
    assert(slot_values(s.take(3)) =~= e);
    assert(slot_values(s.take(4)) =~= seq![w]);
    assert(slot_values(s.take(7)) =~= seq![w]);
    assert(slot_values(s.take(8)) =~= seq![w, w]);
    assert(slot_values(s.take(9)) =~= seq![w, w]);
    assert(s.take(9) =~= s);
}

/// Placeholders and bound values correspond one to one and in order, for
/// every combination of filters: the values bound to the statement's
/// placeholders, left to right, are the filters' patterns in the order theme,
/// philosopher, search, with the search pattern twice.
pub proof fn lemma_placeholders_match_binds(f: SearchFilters)
    ensures
        slot_values(quote_statement(f)) == quote_binds(f),
        slot_count(quote_statement(f)) == quote_binds(f).len(),
{
    let conds = conditions(f);
    let head = seq![Piece::Text(QUOTE_PROJECTION@)];
    let tail = seq![Piece::Text(ORDER_BY_ID@)];
    lemma_slot_values_push(Seq::<Piece>::empty(), Piece::Text(QUOTE_PROJECTION@));
    lemma_slot_values_push(Seq::<Piece>::empty(), Piece::Text(ORDER_BY_ID@));
    assert(head =~= Seq::<Piece>::empty().push(Piece::Text(QUOTE_PROJECTION@)));
    assert(tail =~= Seq::<Piece>::empty().push(Piece::Text(ORDER_BY_ID@)));
    lemma_slot_values_append(head, where_clause(conds));
    lemma_slot_values_append(head + where_clause(conds), tail);
    lemma_where_clause_binds(conds);
    let a: Seq<Seq<Piece>> = match f.theme {
        Some(v) => seq![theme_condition(v)],
        None => seq![],
    };
    let b: Seq<Seq<Piece>> = match f.philosopher {
        Some(v) => seq![philosopher_condition(v)],
        None => seq![],
    };
    let c: Seq<Seq<Piece>> = match f.search {
        Some(v) => seq![search_condition(v)],
        None => seq![],
    };
    lemma_condition_binds_append(a, b);
    lemma_condition_binds_append(a + b, c);
    match f.theme {
        Some(v) => {
            lemma_condition_slot_values(v);
            lemma_condition_binds_single(theme_condition(v));
        },
        None => {},
    }
    match f.philosopher {
        Some(v) => {
            lemma_condition_slot_values(v);
            lemma_condition_binds_single(philosopher_condition(v));
        },
        None => {},
    }
    match f.search {
        Some(v) => {
            lemma_condition_slot_values(v);
            lemma_condition_binds_single(search_condition(v));
        },
        None => {},
    }
    assert(slot_values(quote_statement(f)) =~= quote_binds(f));
    lemma_slot_count_bound(quote_statement(f));
}

/// Builds the filtered quote listing for dialect `d`: its SQL text, and the
/// filters' `%`-wrapped patterns bound in the order theme, philosopher,
/// search (the search pattern twice).
pub fn build_quote_query(params: &QuoteSearchParams, d: Dialect) -> (r: SqlQuery)
    ensures
        r.sql@ == render(d, quote_statement(params@)),
        bind_values_of(r.binds@) == quote_binds(params@),
{
    let fs = quote_fragments(params);
    let sql = render_fragments(d, &fs);
    let binds = bind_values(&fs);
    proof {
        lemma_placeholders_match_binds(params@);
    }
    SqlQuery { sql, binds }
}

proof fn lemma_where_clause_ends(conds: Seq<Seq<Piece>>)
    requires
        conds.len() > 0,
    ensures
        exists|x: Seq<Piece>| where_clause(conds) == x + conds.last(),
{
    if conds.len() == 1 {
        assert(conds.last() == conds[0]);
        assert(where_clause(conds) == seq![Piece::Text(WHERE_KEYWORD@)] + conds.last());
    } else {
        let x = where_clause(conds.drop_last()) + seq![Piece::Text(AND_KEYWORD@)];
        assert(where_clause(conds) == x + conds.last());
    }
}

/// Without any filter the statement has no `WHERE` clause and binds nothing:
/// in every dialect it is the projection followed by the ordering by quote id.
pub proof fn lemma_unfiltered_statement(f: SearchFilters, d: Dialect)
    requires
        no_filter(f),
    ensures
        quote_statement(f) == seq![Piece::Text(QUOTE_PROJECTION@), Piece::Text(ORDER_BY_ID@)],
        render(d, quote_statement(f)) == QUOTE_PROJECTION@ + ORDER_BY_ID@,
        quote_binds(f).len() == 0,
{
    let st = quote_statement(f);
    assert(conditions(f) =~= Seq::<Seq<Piece>>::empty());
    assert(st =~= seq![Piece::Text(QUOTE_PROJECTION@), Piece::Text(ORDER_BY_ID@)]);
    assert(st.drop_last() =~= seq![Piece::Text(QUOTE_PROJECTION@)]);
    assert(st.drop_last().drop_last() =~= Seq::<Piece>::empty());
    assert(render(d, Seq::<Piece>::empty()) =~= Seq::<char>::empty());
    assert(st.drop_last().last() == Piece::Text(QUOTE_PROJECTION@));
    assert(render(d, st.drop_last()) =~= QUOTE_PROJECTION@);
    assert(render(d, st) =~= QUOTE_PROJECTION@ + ORDER_BY_ID@);
    assert(quote_binds(f) =~= Seq::<BindValue>::empty());
}

/// With at least one filter set, the Postgres and SQLite texts of the listing
/// differ (operator and placeholder syntax), while both render the one
/// dialect-neutral statement and bind the same values.
pub proof fn lemma_dialects_differ_in_syntax_only(f: SearchFilters)
    requires
        !no_filter(f),
    ensures
        render(Dialect::Postgres, quote_statement(f)) != render(
            Dialect::Sqlite,
            quote_statement(f),
        ),
        has_operator(quote_statement(f)),
        slot_values(quote_statement(f)) == quote_binds(f),
{
    let conds = conditions(f);
    let st = quote_statement(f);
    assert(conds.len() > 0);
    lemma_where_clause_ends(conds);
    let x = choose|x: Seq<Piece>| where_clause(conds) == x + conds.last();
    let c = conds.last();
    assert(c[1] is Match);
    let i: int = x.len() as int + 2;
    assert(st[i] == c[1]);
    assert(has_operator(st));
    lemma_render_lengths(st);
    lemma_placeholders_match_binds(f);
}

/// A record, or set of records, fetched by one integer identity.
#[derive(Clone, Copy, Debug, PartialEq, Eq, Structural)]
pub enum Lookup {
    PhilosopherById,
    QuotesOfPhilosopher,
    ThemeById,
    IncidentById,
}

pub const PHILOSOPHER_BY_ID: &'static str = "SELECT * FROM philosophers WHERE id = ";

pub const QUOTES_OF_PHILOSOPHER: &'static str = "SELECT * FROM quotes WHERE philosopher_id = ";

pub const THEME_BY_ID: &'static str = "SELECT * FROM themes WHERE id = ";

pub const INCIDENT_BY_ID: &'static str = "SELECT i.*, p.name as philosopher_name FROM incidents i LEFT JOIN philosophers p ON i.philosopher_id = p.id WHERE i.id = ";

pub open spec fn lookup_head(l: Lookup) -> Seq<char> {
    match l {
        Lookup::PhilosopherById => PHILOSOPHER_BY_ID@,
        Lookup::QuotesOfPhilosopher => QUOTES_OF_PHILOSOPHER@,
        Lookup::ThemeById => THEME_BY_ID@,
        Lookup::IncidentById => INCIDENT_BY_ID@,
    }
}

/// The dialect-neutral statement of a lookup by `id`.
pub open spec fn lookup_statement(l: Lookup, id: int) -> Seq<Piece> {
    seq![Piece::Text(lookup_head(l)), Piece::Slot(BindValue::Int(id))]
}

fn lookup_head_text(l: Lookup) -> (r: &'static str)
    ensures
        r@ == lookup_head(l),
{
    match l {
        Lookup::PhilosopherById => PHILOSOPHER_BY_ID,
        Lookup::QuotesOfPhilosopher => QUOTES_OF_PHILOSOPHER,
        Lookup::ThemeById => THEME_BY_ID,
        Lookup::IncidentById => INCIDENT_BY_ID,
    }
}

/// Builds the lookup by `id` for dialect `d`: one placeholder, bound to `id`.
pub fn build_lookup_query(l: Lookup, id: i64, d: Dialect) -> (r: SqlQuery)
    ensures
        r.sql@ == render(d, lookup_statement(l, id as int)),
        bind_values_of(r.binds@) == seq![BindValue::Int(id as int)],
{
    let mut fs: Vec<Fragment> = Vec::new();
    push_fragment(&mut fs, text(lookup_head_text(l)));
    push_fragment(&mut fs, Fragment::Slot(Bind::Int(id)));
    assert(pieces_of(fs@) =~= lookup_statement(l, id as int));
    let sql = render_fragments(d, &fs);
    let binds = bind_values(&fs);
    proof {
        let st = lookup_statement(l, id as int);
        lemma_take_step(st, 0);
        lemma_take_step(st, 1);
        assert(st.take(0) =~= Seq::<Piece>::empty());
        assert(st.take(2) =~= st);
        assert(slot_values(st) =~= seq![BindValue::Int(id as int)]);
    }
    SqlQuery { sql, binds }
}

/// A whole table, in its fixed order.
#[derive(Clone, Copy, Debug, PartialEq, Eq, Structural)]
pub enum Listing {
    Philosophers,
    Themes,
    Timeline,
    Incidents,
}

pub const ALL_PHILOSOPHERS: &'static str = "SELECT * FROM philosophers ORDER BY name";

pub const ALL_THEMES: &'static str = "SELECT * FROM themes ORDER BY name";

pub const ALL_TIMELINE_EVENTS: &'static str = "SELECT * FROM timeline ORDER BY year";

pub const ALL_INCIDENTS: &'static str = "SELECT i.*, p.name as philosopher_name FROM incidents i LEFT JOIN philosophers p ON i.philosopher_id = p.id ORDER BY i.year";

pub open spec fn listing_text(l: Listing) -> Seq<char> {
    match l {
        Listing::Philosophers => ALL_PHILOSOPHERS@,
        Listing::Themes => ALL_THEMES@,
        Listing::Timeline => ALL_TIMELINE_EVENTS@,
        Listing::Incidents => ALL_INCIDENTS@,
    }
}

/// The statement of a listing; it has no placeholder, so it reads the same in
/// both dialects.
pub fn listing_sql(l: Listing) -> (r: &'static str)
    ensures
        r@ == listing_text(l),
{
    match l {
        Listing::Philosophers => ALL_PHILOSOPHERS,
        Listing::Themes => ALL_THEMES,
        Listing::Timeline => ALL_TIMELINE_EVENTS,
        Listing::Incidents => ALL_INCIDENTS,
    }
}

} // verus!
