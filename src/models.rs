use vstd::prelude::*;

verus! {

/// An author of quotes.
#[derive(Clone, Debug)]
pub struct Philosopher {
    pub id: i64,
    pub name: String,
    pub era: String,
    pub birth_year: Option<i64>,
    pub death_year: Option<i64>,
    pub biography: String,
    pub key_works: Option<String>,
    pub core_teachings: Option<String>,
}

/// A quote; `philosopher_id` names its author.
#[derive(Clone, Debug)]
pub struct Quote {
    pub id: i64,
    pub philosopher_id: i64,
    pub text: String,
    pub source: String,
    pub context: Option<String>,
    pub modern_interpretation: Option<String>,
}

/// A quote together with its author's name.
#[derive(Clone, Debug)]
pub struct QuoteWithPhilosopher {
    pub id: i64,
    pub philosopher_id: i64,
    pub philosopher_name: String,
    pub text: String,
    pub source: String,
    pub context: Option<String>,
    pub modern_interpretation: Option<String>,
}

/// A theme that quotes are filed under.
#[derive(Clone, Debug)]
pub struct Theme {
    pub id: i64,
    pub name: String,
    pub description: String,
    pub principle: String,
    pub scientific_connection: Option<String>,
    pub cbt_connection: Option<String>,
    pub neuroscience_connection: Option<String>,
    pub psychology_connection: Option<String>,
}

/// An event of the historical timeline.
#[derive(Clone, Debug)]
pub struct TimelineEvent {
    pub id: i64,
    pub year: i64,
    pub title: String,
    pub description: String,
    pub significance: Option<String>,
}

/// A historical incident, possibly tied to a philosopher.
#[derive(Clone, Debug)]
pub struct Incident {
    pub id: i64,
    pub title: String,
    pub philosopher_id: Option<i64>,
    pub year: Option<i64>,
    pub description: String,
    pub lesson: String,
    pub modern_relevance: Option<String>,
}

/// An incident together with its philosopher's name, where it has one.
#[derive(Clone, Debug)]
pub struct IncidentWithPhilosopher {
    pub id: i64,
    pub title: String,
    pub philosopher_id: Option<i64>,
    pub philosopher_name: Option<String>,
    pub year: Option<i64>,
    pub description: String,
    pub lesson: String,
    pub modern_relevance: Option<String>,
}

/// A philosopher with all of their quotes.
#[derive(Clone, Debug)]
pub struct PhilosopherWithQuotes {
    pub philosopher: Philosopher,
    pub quotes: Vec<Quote>,
}

/// The optional filters of a quote listing: a theme name, a philosopher name
/// and a free-text pattern, each matched as a case-insensitive substring.
#[derive(Clone, Debug)]
pub struct QuoteSearchParams {
    pub theme: Option<String>,
    pub philosopher: Option<String>,
    pub search: Option<String>,
}

/// Mathematical value of `QuoteSearchParams`.
pub struct SearchFilters {
    pub theme: Option<Seq<char>>,
    pub philosopher: Option<Seq<char>>,
    pub search: Option<Seq<char>>,
}

pub open spec fn opt_text(o: Option<String>) -> Option<Seq<char>> {
    match o {
        Some(s) => Some(s@),
        None => None,
    }
}

impl View for QuoteSearchParams {
    type V = SearchFilters;

    open spec fn view(&self) -> SearchFilters {
        SearchFilters {
            theme: opt_text(self.theme),
            philosopher: opt_text(self.philosopher),
            search: opt_text(self.search),
        }
    }
}

impl QuoteSearchParams {
    pub fn new(
        theme: Option<String>,
        philosopher: Option<String>,
        search: Option<String>,
    ) -> (r: QuoteSearchParams)
        ensures
            r.theme == theme,
            r.philosopher == philosopher,
            r.search == search,
    {
        QuoteSearchParams { theme, philosopher, search }
    }

    /// No filter at all: the whole listing.
    pub fn unfiltered() -> (r: QuoteSearchParams)
        ensures
            r.theme is None,
            r.philosopher is None,
            r.search is None,
    {
        QuoteSearchParams { theme: None, philosopher: None, search: None }
    }
}

impl PhilosopherWithQuotes {
    /// Pairs a philosopher with their quotes.
    pub fn new(philosopher: Philosopher, quotes: Vec<Quote>) -> (r: PhilosopherWithQuotes)
        ensures
            r.philosopher == philosopher,
            r.quotes == quotes,
    {
        PhilosopherWithQuotes { philosopher, quotes }
    }
}

} // verus!
