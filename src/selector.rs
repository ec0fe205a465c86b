use vstd::prelude::*;
use rand::seq::SliceRandom;
use chrono::Datelike;

use crate::errors::{ApiError, Entity};

verus! {

/// Position of the day's pick among `n` candidates on day `day_of_year`
/// (counted from 1).
pub open spec fn daily_index(day_of_year: int, n: int) -> int
    recommends
        n > 0,
{
    (day_of_year - 1) % n
}

/// Picks the quote for a day: the candidate at `(day_of_year - 1) mod n`, or
/// `NotFound` when there is no candidate.
pub fn select_daily<T>(candidates: &[T], day_of_year: u32) -> (r: Result<&T, ApiError>)
    requires
        1 <= day_of_year <= 366,
    ensures
        candidates@.len() == 0 <==> r is Err,
        r is Err ==> r == Err::<&T, ApiError>(ApiError::NotFound(Entity::Quote)),
        r matches Ok(q) ==> *q == candidates@[daily_index(day_of_year as int, candidates@.len() as int)],
{
    let n = candidates.len();
    if n == 0 {
        return Err(ApiError::NotFound(Entity::Quote));
    }
    let index = (day_of_year as usize - 1) % n;
    Ok(&candidates[index])
}

/// Relies on `rand::seq::SliceRandom::choose` with the thread-local generator:
/// `None` on an empty slice, otherwise a reference to one of its elements.
#[verifier::external_body]
fn choose_any<T>(candidates: &[T]) -> (r: Option<&T>)
    ensures
        r is None <==> candidates@.len() == 0,
        r matches Some(q) ==> exists|i: int| 0 <= i < candidates@.len() && candidates@[i] == *q,
{
    candidates.choose(&mut rand::thread_rng())
}

/// Relies on `chrono::Utc::now` and `chrono::Datelike::ordinal`: today's day of
/// the year in UTC, which ranges from 1 to 366.
#[verifier::external_body]
fn utc_day_of_year() -> (r: u32)
    ensures
        1 <= r <= 366,
{
    chrono::Utc::now().ordinal()
}

/// Picks one candidate at random, or `NotFound` when there is none.
pub fn random_quote<T>(candidates: &[T]) -> (r: Result<&T, ApiError>)
    ensures
        candidates@.len() == 0 <==> r is Err,
        r is Err ==> r == Err::<&T, ApiError>(ApiError::NotFound(Entity::Quote)),
        r matches Ok(q) ==> exists|i: int| 0 <= i < candidates@.len() && candidates@[i] == *q,
{
    match choose_any(candidates) {
        Some(q) => Ok(q),
        None => Err(ApiError::NotFound(Entity::Quote)),
    }
}

/// Picks today's quote (by the UTC calendar): the pick of `select_daily` for
/// some day of the year, or `NotFound` when there is no candidate.
pub fn daily_quote<T>(candidates: &[T]) -> (r: Result<&T, ApiError>)
    ensures
        candidates@.len() == 0 <==> r is Err,
        r is Err ==> r == Err::<&T, ApiError>(ApiError::NotFound(Entity::Quote)),
        r matches Ok(q) ==> exists|d: int|
            1 <= d <= 366 && *q == candidates@[daily_index(d, candidates@.len() as int)],
{
    let day = utc_day_of_year();
    select_daily(candidates, day)
}

/// The day's pick depends on the day and the candidates alone, and repeats
/// every `n` days: days `d` and `d + k * n` give the same position, which
/// lies within the candidates.
pub proof fn lemma_daily_index_periodic(d: int, k: nat, n: int)
    requires
        d >= 1,
        n > 0,
    ensures
        daily_index(d, n) == daily_index(d + k * n, n),
        0 <= daily_index(d, n) < n,
{
    vstd::arithmetic::div_mod::lemma_mod_multiples_vanish(k as int, d - 1, n);
    assert(d + k * n - 1 == k * n + (d - 1));
}

} // verus!
