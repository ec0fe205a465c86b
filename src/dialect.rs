use vstd::prelude::*;

verus! {

/// The SQL dialect a statement is rendered for.
#[derive(Clone, Copy, Debug, PartialEq, Eq, Structural)]
pub enum Dialect {
    /// `$1, $2, ...` placeholders and `ILIKE`.
    Postgres,
    /// Positional `?` placeholders and `LIKE`.
    Sqlite,
}

/// A value bound to one placeholder of a statement.
#[derive(Debug)]
pub enum Bind {
    Text(String),
    Int(i64),
}

/// Mathematical value of a `Bind`.
pub enum BindValue {
    Text(Seq<char>),
    Int(int),
}

impl View for Bind {
    type V = BindValue;

    open spec fn view(&self) -> BindValue {
        match self {
            Bind::Text(s) => BindValue::Text(s@),
            Bind::Int(i) => BindValue::Int(*i as int),
        }
    }
}

impl Bind {
    /// A copy of the value.
    pub fn duplicate(&self) -> (r: Bind)
        ensures
            r@ == self@,
    {
        match self {
            Bind::Text(s) => Bind::Text(s.clone()),
            Bind::Int(i) => Bind::Int(*i),
        }
    }
}

/// One piece of a dialect-neutral statement: literal text, the
/// case-insensitive match operator, or a placeholder with the value bound to it.
#[derive(Debug)]
pub enum Fragment {
    Text(String),
    Match,
    Slot(Bind),
}

/// Mathematical value of a `Fragment`.
pub enum Piece {
    Text(Seq<char>),
    Match,
    Slot(BindValue),
}

impl View for Fragment {
    type V = Piece;

    open spec fn view(&self) -> Piece {
        match self {
            Fragment::Text(s) => Piece::Text(s@),
            Fragment::Match => Piece::Match,
            Fragment::Slot(b) => Piece::Slot(b@),
        }
    }
}

pub open spec fn pieces_of(fs: Seq<Fragment>) -> Seq<Piece> {
    fs.map_values(|f: Fragment| f@)
}

pub open spec fn bind_values_of(bs: Seq<Bind>) -> Seq<BindValue> {
    bs.map_values(|b: Bind| b@)
}

/// Number of placeholders among the pieces.
pub open spec fn slot_count(ps: Seq<Piece>) -> nat
    decreases ps.len(),
{
    if ps.len() == 0 {
        0
    } else {
        slot_count(ps.drop_last()) + if ps.last() is Slot {
            1nat
        } else {
            0nat
        }
    }
}

/// The values bound to the placeholders, left to right.
pub open spec fn slot_values(ps: Seq<Piece>) -> Seq<BindValue>
    decreases ps.len(),
{
    if ps.len() == 0 {
        seq![]
    } else {
        match ps.last() {
            Piece::Slot(v) => slot_values(ps.drop_last()).push(v),
            _ => slot_values(ps.drop_last()),
        }
    }
}

pub open spec fn digit_char(d: nat) -> char {
    if d == 0 {
        '0'
    } else if d == 1 {
        '1'
    } else if d == 2 {
        '2'
    } else if d == 3 {
        '3'
    } else if d == 4 {
        '4'
    } else if d == 5 {
        '5'
    } else if d == 6 {
        '6'
    } else if d == 7 {
        '7'
    } else if d == 8 {
        '8'
    } else {
        '9'
    }
}

/// Value of a decimal digit, or -1 for any other character.
pub open spec fn digit_value(c: char) -> int {
    if c == '0' {
        0
    } else if c == '1' {
        1
    } else if c == '2' {
        2
    } else if c == '3' {
        3
    } else if c == '4' {
        4
    } else if c == '5' {
        5
    } else if c == '6' {
        6
    } else if c == '7' {
        7
    } else if c == '8' {
        8
    } else if c == '9' {
        9
    } else {
        -1
    }
}

/// Decimal notation of `n`, most significant digit first, without leading zeros.
pub open spec fn decimal_digits(n: nat) -> Seq<char>
    decreases n,
{
    if n < 10 {
        seq![digit_char(n)]
    } else {
        decimal_digits(n / 10).push(digit_char(n % 10))
    }
}

/// The number that a string of decimal digits denotes.
pub open spec fn value_of_digits(s: Seq<char>) -> int
    decreases s.len(),
{
    if s.len() == 0 {
        0
    } else {
        value_of_digits(s.drop_last()) * 10 + digit_value(s.last())
    }
}

pub open spec fn match_operator(d: Dialect) -> Seq<char> {
    match d {
        Dialect::Postgres => "ILIKE"@,
        Dialect::Sqlite => "LIKE"@,
    }
}

/// The placeholder for the `k`-th bound value of a statement (counted from 1).
pub open spec fn placeholder(d: Dialect, k: nat) -> Seq<char> {
    match d {
        Dialect::Postgres => seq!['$'] + decimal_digits(k),
        Dialect::Sqlite => seq!['?'],
    }
}

/// Text of one piece, where `k` is the number its placeholder would carry.
pub open spec fn render_piece(d: Dialect, p: Piece, k: nat) -> Seq<char> {
    match p {
        Piece::Text(t) => t,
        Piece::Match => match_operator(d),
        Piece::Slot(_) => placeholder(d, k),
    }
}

/// Text of a statement in dialect `d`: the pieces in order, placeholders
/// numbered from 1 across the whole statement.
pub open spec fn render(d: Dialect, ps: Seq<Piece>) -> Seq<char>
    decreases ps.len(),
{
    if ps.len() == 0 {
        seq![]
    } else {
        render(d, ps.drop_last()) + render_piece(d, ps.last(), slot_count(ps.drop_last()) + 1)
    }
}

pub proof fn lemma_slot_count_bound(ps: Seq<Piece>)
    ensures
        slot_count(ps) <= ps.len(),
        slot_values(ps).len() == slot_count(ps),
    decreases ps.len(),
{
    if ps.len() > 0 {
        lemma_slot_count_bound(ps.drop_last());
    }
}

proof fn lemma_digit_round_trip(d: nat)
    requires
        d < 10,
    ensures
        digit_value(digit_char(d)) == d,
        0 <= digit_value(digit_char(d)) <= 9,
{
}

pub proof fn lemma_slot_values_push(ps: Seq<Piece>, p: Piece)
    ensures
        slot_values(ps.push(p)) == slot_values(ps) + match p {
            Piece::Slot(v) => seq![v],
            _ => Seq::<BindValue>::empty(),
        },
{
    assert(ps.push(p).drop_last() =~= ps);
    assert(ps.push(p).last() == p);
    match p {
        Piece::Slot(v) => {
            assert(slot_values(ps).push(v) =~= slot_values(ps) + seq![v]);
        },
        _ => {
            assert(slot_values(ps) =~= slot_values(ps) + Seq::<BindValue>::empty());
        },
    }
}

pub proof fn lemma_slot_values_append(a: Seq<Piece>, b: Seq<Piece>)
    ensures
        slot_values(a + b) == slot_values(a) + slot_values(b),
    decreases b.len(),
{
    if b.len() == 0 {
        assert(a + b =~= a);
        assert(slot_values(a) + slot_values(b) =~= slot_values(a));
    } else {
        lemma_slot_values_append(a, b.drop_last());
        assert((a + b).drop_last() =~= a + b.drop_last());
        assert((a + b).last() == b.last());
        match b.last() {
            Piece::Slot(v) => {
                assert(slot_values(a + b) =~= slot_values(a) + slot_values(b));
            },
            _ => {},
        }
    }
}

/// Whether the statement holds a match operator.
pub open spec fn has_operator(ps: Seq<Piece>) -> bool {
    exists|i: int| 0 <= i < ps.len() && ps[i] is Match
}

/// A Postgres rendering is never shorter than the SQLite rendering of the
/// same statement, and strictly longer where the statement matches anything.
pub proof fn lemma_render_lengths(ps: Seq<Piece>)
    ensures
        render(Dialect::Sqlite, ps).len() <= render(Dialect::Postgres, ps).len(),
        has_operator(ps) ==> render(Dialect::Sqlite, ps).len() < render(
            Dialect::Postgres,
            ps,
        ).len(),
    decreases ps.len(),
{
    if ps.len() > 0 {
        let init = ps.drop_last();
        lemma_render_lengths(init);
        reveal_strlit("ILIKE");
        reveal_strlit("LIKE");
        lemma_decimal_digits(slot_count(init) + 1);
        if has_operator(ps) && !(ps.last() is Match) {
            let i = choose|i: int| 0 <= i < ps.len() && ps[i] is Match;
            assert(i < ps.len() - 1);
            assert(init[i] is Match);
        }
    }
}

/// Decimal notation loses no digit: it is made of digits only, denotes `n`,
/// and has two or more digits from 10 on.
pub proof fn lemma_decimal_digits(n: nat)
    ensures
        value_of_digits(decimal_digits(n)) == n,
        forall|i: int|
            0 <= i < decimal_digits(n).len() ==> 0 <= #[trigger] digit_value(decimal_digits(n)[i]) <= 9,
        decimal_digits(n).len() >= 1,
        n >= 10 ==> decimal_digits(n).len() >= 2,
    decreases n,
{
    let s = decimal_digits(n);
    if n < 10 {
        lemma_digit_round_trip(n);
        assert(s.drop_last() =~= Seq::<char>::empty());
        assert(value_of_digits(s.drop_last()) == 0);
    } else {
        lemma_digit_round_trip(n % 10);
        lemma_decimal_digits(n / 10);
        let p = decimal_digits(n / 10);
        assert(s.drop_last() =~= p);
        assert forall|i: int| 0 <= i < s.len() implies 0 <= #[trigger] digit_value(s[i]) <= 9 by {
            if i < p.len() {
                assert(s[i] == p[i]);
            }
        }
    }
}

fn digit_text(d: usize) -> (r: &'static str)
    requires
        d < 10,
    ensures
        r@ == seq![digit_char(d as nat)],
{
    proof {
        reveal_strlit("0");
        reveal_strlit("1");
        reveal_strlit("2");
        reveal_strlit("3");
        reveal_strlit("4");
        reveal_strlit("5");
        reveal_strlit("6");
        reveal_strlit("7");
        reveal_strlit("8");
        reveal_strlit("9");
    }
    let r = if d == 0 {
        "0"
    } else if d == 1 {
        "1"
    } else if d == 2 {
        "2"
    } else if d == 3 {
        "3"
    } else if d == 4 {
        "4"
    } else if d == 5 {
        "5"
    } else if d == 6 {
        "6"
    } else if d == 7 {
        "7"
    } else if d == 8 {
        "8"
    } else {
        "9"
    };
    assert(r@ =~= seq![digit_char(d as nat)]);
    r
}

/// Decimal notation of `n`.
pub fn decimal_text(n: usize) -> (r: String)
    ensures
        r@ == decimal_digits(n as nat),
    decreases n,
{
    if n < 10 {
        String::from_str(digit_text(n))
    } else {
        let mut s = decimal_text(n / 10);
        s.append(digit_text(n % 10));
        s
    }
}

/// The dialect's case-insensitive match operator.
pub fn match_operator_text(d: Dialect) -> (r: &'static str)
    ensures
        r@ == match_operator(d),
{
    match d {
        Dialect::Postgres => "ILIKE",
        Dialect::Sqlite => "LIKE",
    }
}

/// The placeholder for the `k`-th bound value of a statement.
pub fn placeholder_text(d: Dialect, k: usize) -> (r: String)
    ensures
        r@ == placeholder(d, k as nat),
{
    proof {
        reveal_strlit("$");
        reveal_strlit("?");
    }
    match d {
        Dialect::Postgres => {
            let mut s = String::from_str("$");
            let digits = decimal_text(k);
            s.append(digits.as_str());
            s
        },
        Dialect::Sqlite => String::from_str("?"),
    }
}

/// Renders a dialect-neutral statement as SQL text for dialect `d`.
pub fn render_fragments(d: Dialect, fs: &Vec<Fragment>) -> (r: String)
    ensures
        r@ == render(d, pieces_of(fs@)),
{
    let ghost ps = pieces_of(fs@);
    let mut out = String::new();
    let mut slots: usize = 0;
    let n = fs.len();
    for i in 0..n
        invariant
            n == fs@.len(),
            ps == pieces_of(fs@),
            out@ == render(d, ps.take(i as int)),
            slots == slot_count(ps.take(i as int)),
            slots <= i,
    {
        proof {
            lemma_slot_count_bound(ps.take(i as int));
            assert(ps.take(i + 1).drop_last() =~= ps.take(i as int));
            assert(ps.take(i + 1).last() == fs@[i as int]@);
        }
        match &fs[i] {
            Fragment::Text(t) => {
                out.append(t.as_str());
            },
            Fragment::Match => {
                out.append(match_operator_text(d));
            },
            Fragment::Slot(_) => {
                slots = slots + 1;
                let p = placeholder_text(d, slots);
                out.append(p.as_str());
            },
        }
    }
    assert(ps.take(n as int) =~= ps);
    out
}

/// The values bound to the statement's placeholders, left to right.
pub fn bind_values(fs: &Vec<Fragment>) -> (r: Vec<Bind>)
    ensures
        bind_values_of(r@) == slot_values(pieces_of(fs@)),
{
    let ghost ps = pieces_of(fs@);
    let mut out: Vec<Bind> = Vec::new();
    let n = fs.len();
    for i in 0..n
        invariant
            n == fs@.len(),
            ps == pieces_of(fs@),
            bind_values_of(out@) == slot_values(ps.take(i as int)),
    {
        proof {
            assert(ps.take(i + 1).drop_last() =~= ps.take(i as int));
            assert(ps.take(i + 1).last() == fs@[i as int]@);
        }
        match &fs[i] {
            Fragment::Slot(b) => {
                let c = b.duplicate();
                out.push(c);
                assert(bind_values_of(out@) =~= slot_values(ps.take(i as int)).push(c@));
            },
            _ => {},
        }
    }
    assert(ps.take(n as int) =~= ps);
    out
}

} // verus!
