use vstd::prelude::*;

use crate::dialect::Dialect;

verus! {

/// Pool size for persistent storage.
pub const PERSISTENT_POOL_SIZE: u32 = 5;

/// Pool size for memory-resident storage: each physical connection of the
/// embedded engine would see a database of its own.
pub const MEMORY_POOL_SIZE: u32 = 1;

/// Storage opened when the configured one cannot be reached.
pub const FALLBACK_DATABASE_URL: &'static str = "sqlite:file::memory:?cache=shared";

/// Storage used when no connection string is configured.
pub const DEFAULT_DATABASE_URL: &'static str = "sqlite:stoic_wisdom.db";

/// URL prefix that selects the Postgres engine.
pub const POSTGRES_SCHEME: &'static str = "postgres";

/// Marker of memory-resident storage, matched regardless of ASCII case.
pub const MEMORY_MARKER: &'static str = "memory";

/// One handle over whichever of the two engines is in use: `S` is the
/// embedded engine's pool, `P` the Postgres pool.
#[derive(Clone, Debug)]
pub enum DbPool<S, P> {
    Sqlite(S),
    Postgres(P),
}

impl<S, P> DbPool<S, P> {
    /// The dialect that statements for this pool are rendered in.
    pub fn dialect(&self) -> (r: Dialect)
        ensures
            r == (match self {
                DbPool::Sqlite(_) => Dialect::Sqlite,
                DbPool::Postgres(_) => Dialect::Postgres,
            }),
    {
        match self {
            DbPool::Sqlite(_) => Dialect::Sqlite,
            DbPool::Postgres(_) => Dialect::Postgres,
        }
    }

    /// The embedded engine's pool, where that engine is in use.
    pub fn sqlite_pool(&self) -> (r: Option<&S>)
        ensures
            r is Some <==> self is Sqlite,
            self matches DbPool::Sqlite(p) ==> r == Some(p),
    {
        match self {
            DbPool::Sqlite(pool) => Some(pool),
            _ => None,
        }
    }

    /// The Postgres pool, where that engine is in use.
    pub fn postgres_pool(&self) -> (r: Option<&P>)
        ensures
            r is Some <==> self is Postgres,
            self matches DbPool::Postgres(p) ==> r == Some(p),
    {
        match self {
            DbPool::Postgres(pool) => Some(pool),
            _ => None,
        }
    }
}

/// How a pool is to be opened.
#[derive(Debug)]
pub struct PoolSettings {
    pub dialect: Dialect,
    pub url: String,
    pub max_connections: u32,
}

/// `c` with ASCII upper-case letters made lower-case.
pub open spec fn ascii_lower(c: char) -> char {
    if 'A' <= c && c <= 'Z' {
        (((c as u8) + 32) as u8) as char
    } else {
        c
    }
}

/// Whether `s` contains `lower` at position `i`, ignoring ASCII case in `s`.
pub open spec fn matches_at(s: Seq<char>, lower: Seq<char>, i: int) -> bool {
    &&& 0 <= i
    &&& i + lower.len() <= s.len()
    &&& forall|j: int| 0 <= j < lower.len() ==> ascii_lower(#[trigger] s[i + j]) == lower[j]
}

/// Whether the storage a connection string names is memory-resident.
pub open spec fn is_memory_resident(url: Seq<char>) -> bool {
    exists|i: int| matches_at(url, MEMORY_MARKER@, i)
}

/// The engine a connection string selects.
pub open spec fn engine_for(url: Seq<char>) -> Dialect {
    if POSTGRES_SCHEME@.is_prefix_of(url) {
        Dialect::Postgres
    } else {
        Dialect::Sqlite
    }
}

/// Pool size for a connection string: one connection for memory-resident
/// storage of the embedded engine, a fixed larger pool otherwise.
pub open spec fn pool_size_for(url: Seq<char>) -> u32 {
    if engine_for(url) == Dialect::Sqlite && is_memory_resident(url) {
        MEMORY_POOL_SIZE
    } else {
        PERSISTENT_POOL_SIZE
    }
}

fn char_at(s: &str, i: usize) -> (c: char)
    requires
        i < s@.len(),
    ensures
        c == s@[i as int],
{
    s.get_char(i)
}

fn lower_char(c: char) -> (r: char)
    ensures
        r == ascii_lower(c),
{
    if 'A' <= c && c <= 'Z' {
        ((c as u8) + 32) as char
    } else {
        c
    }
}

/// Whether `s` begins with `prefix`.
pub fn has_prefix(s: &str, prefix: &str) -> (r: bool)
    ensures
        r == prefix@.is_prefix_of(s@),
{
    let n = s.unicode_len();
    let m = prefix.unicode_len();
    if m > n {
        return false;
    }
    let mut j: usize = 0;
    while j < m
        invariant
            m == prefix@.len(),
            n == s@.len(),
            m <= n,
            j <= m,
            forall|k: int| 0 <= k < j ==> prefix@[k] == s@[k],
        decreases m - j,
    {
        if char_at(prefix, j) != char_at(s, j) {
            return false;
        }
        j = j + 1;
    }
    true
}

/// Whether `s` contains `lower` ignoring ASCII case in `s`; `lower` is
/// expected in lower case.
pub fn contains_ignore_ascii_case(s: &str, lower: &str) -> (r: bool)
    ensures
        r == exists|i: int| matches_at(s@, lower@, i),
{
    let n = s.unicode_len();
    let m = lower.unicode_len();
    if m > n {
        return false;
    }
    let mut i: usize = 0;
    while i <= n - m
        invariant
            m == lower@.len(),
            n == s@.len(),
            m <= n,
            i <= n - m + 1,
            forall|k: int| 0 <= k < i ==> !matches_at(s@, lower@, k),
        decreases n - i,
    {
        let mut j: usize = 0;
        let mut all = true;
        while j < m
            invariant
                m == lower@.len(),
                n == s@.len(),
                i + m <= n,
                j <= m,
                all == forall|k: int| 0 <= k < j ==> ascii_lower(#[trigger] s@[i + k]) == lower@[k],
            decreases m - j,
        {
            if lower_char(char_at(s, i + j)) != char_at(lower, j) {
                all = false;
            }
            j = j + 1;
        }
        if all {
            assert(matches_at(s@, lower@, i as int));
            return true;
        }
        i = i + 1;
    }
    assert forall|k: int| matches_at(s@, lower@, k) implies false by {
        assert(k < i);
    }
    false
}

/// Whether a connection string names memory-resident storage.
pub fn memory_resident(url: &str) -> (r: bool)
    ensures
        r == is_memory_resident(url@),
{
    contains_ignore_ascii_case(url, MEMORY_MARKER)
}

/// How to open the pool for a connection string: the engine its scheme
/// selects, and one connection for memory-resident embedded storage.
pub fn pool_settings(url: &str) -> (r: PoolSettings)
    ensures
        r.dialect == engine_for(url@),
        r.url@ == url@,
        r.max_connections == pool_size_for(url@),
{
    let dialect = if has_prefix(url, POSTGRES_SCHEME) {
        Dialect::Postgres
    } else {
        Dialect::Sqlite
    };
    let max_connections = if dialect == Dialect::Sqlite && memory_resident(url) {
        MEMORY_POOL_SIZE
    } else {
        PERSISTENT_POOL_SIZE
    };
    PoolSettings { dialect, url: String::from_str(url), max_connections }
}

/// The connection string in use: the configured one, or the default
/// embedded file.
pub fn database_url(configured: Option<String>) -> (r: String)
    ensures
        configured matches Some(u) ==> r@ == u@,
        configured is None ==> r@ == DEFAULT_DATABASE_URL@,
{
    match configured {
        Some(u) => u,
        None => String::from_str(DEFAULT_DATABASE_URL),
    }
}

/// Whether the first connection attempt or the fallback is being made.
#[derive(Clone, Copy, Debug, PartialEq, Eq, Structural)]
pub enum ConnectStage {
    Configured,
    Fallback,
}

/// What to do after a connection attempt.
#[derive(Debug)]
pub enum ConnectStep {
    /// Serve with the pool that was opened.
    Proceed,
    /// Degraded mode: open this memory-resident storage instead, and report it.
    OpenFallback(PoolSettings),
    /// Startup cannot go on.
    Fatal,
}

/// The fallback: a memory-resident embedded database on one connection.
pub fn fallback_settings() -> (r: PoolSettings)
    ensures
        r.dialect == Dialect::Sqlite,
        r.url@ == FALLBACK_DATABASE_URL@,
        r.max_connections == MEMORY_POOL_SIZE,
{
    PoolSettings {
        dialect: Dialect::Sqlite,
        url: String::from_str(FALLBACK_DATABASE_URL),
        max_connections: MEMORY_POOL_SIZE,
    }
}

/// Decides on the result of a connection attempt: go on after a success;
/// after the configured storage fails, fall back once to memory-resident
/// storage; when the fallback fails too, stop.
pub fn after_connect(stage: ConnectStage, connected: bool) -> (r: ConnectStep)
    ensures
        connected ==> r is Proceed,
        !connected && stage == ConnectStage::Configured ==> (r matches ConnectStep::OpenFallback(s)
            && s.dialect == Dialect::Sqlite && s.url@ == FALLBACK_DATABASE_URL@
            && s.max_connections == MEMORY_POOL_SIZE),
        !connected && stage == ConnectStage::Fallback ==> r is Fatal,
{
    if connected {
        ConnectStep::Proceed
    } else {
        match stage {
            ConnectStage::Configured => ConnectStep::OpenFallback(fallback_settings()),
            ConnectStage::Fallback => ConnectStep::Fatal,
        }
    }
}

} // verus!
