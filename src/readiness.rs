use vstd::prelude::*;

verus! {

/// Migration attempts made before startup gives up.
pub const MAX_MIGRATION_ATTEMPTS: u32 = 3;

/// Pause between two migration attempts, in milliseconds.
pub const MIGRATION_RETRY_DELAY_MS: u64 = 500;

/// Where schema migration stands.
#[derive(Clone, Copy, Debug, PartialEq, Eq, Structural)]
pub enum MigrationPhase {
    NotReady,
    Migrating,
    Ready,
    /// Every attempt failed: the process must stop.
    Aborted,
}

/// What startup is to do next.
#[derive(Clone, Copy, Debug, PartialEq, Eq, Structural)]
pub enum MigrationAction {
    /// Apply the pending migrations, then report the outcome.
    RunMigrations,
    /// Wait this many milliseconds, apply the migrations again, then report.
    RetryAfter(u64),
    /// Migrations are applied: set the readiness flag and serve.
    MarkReady,
    /// Give up: terminate the process.
    Terminate,
}

/// Mathematical value of the controller.
pub struct MigrationState {
    pub phase: MigrationPhase,
    pub attempts: nat,
}

pub open spec fn initial_state() -> MigrationState {
    MigrationState { phase: MigrationPhase::NotReady, attempts: 0 }
}

/// The state once the first attempt has begun.
pub open spec fn started_state() -> MigrationState {
    MigrationState { phase: MigrationPhase::Migrating, attempts: 1 }
}

/// The state after the outcome of the attempt under way is known; outside
/// `Migrating` nothing changes.
pub open spec fn next_state(s: MigrationState, succeeded: bool) -> MigrationState {
    if s.phase != MigrationPhase::Migrating {
        s
    } else if succeeded {
        MigrationState { phase: MigrationPhase::Ready, attempts: s.attempts }
    } else if s.attempts < MAX_MIGRATION_ATTEMPTS {
        MigrationState { phase: MigrationPhase::Migrating, attempts: s.attempts + 1 }
    } else {
        MigrationState { phase: MigrationPhase::Aborted, attempts: s.attempts }
    }
}

/// The action that goes with entering state `s`.
pub open spec fn action_for(s: MigrationState) -> MigrationAction {
    match s.phase {
        MigrationPhase::Ready => MigrationAction::MarkReady,
        MigrationPhase::Aborted => MigrationAction::Terminate,
        _ => MigrationAction::RetryAfter(MIGRATION_RETRY_DELAY_MS),
    }
}

/// The state reached from `s` by the outcomes of successive attempts.
pub open spec fn run_from(s: MigrationState, outcomes: Seq<bool>) -> MigrationState
    decreases outcomes.len(),
{
    if outcomes.len() == 0 {
        s
    } else {
        next_state(run_from(s, outcomes.drop_last()), outcomes.last())
    }
}

/// `n` failed attempts.
pub open spec fn failures(n: nat) -> Seq<bool> {
    Seq::new(n, |i: int| false)
}

/// Runs schema migrations with a bounded number of attempts and gates
/// readiness on their success. Once `Ready` or `Aborted` it never changes.
#[derive(Debug)]
pub struct MigrationController {
    phase: MigrationPhase,
    attempts: u32,
}

impl View for MigrationController {
    type V = MigrationState;

    closed spec fn view(&self) -> MigrationState {
        MigrationState { phase: self.phase, attempts: self.attempts as nat }
    }
}

impl MigrationController {
    pub closed spec fn wf(&self) -> bool {
        &&& self.attempts <= MAX_MIGRATION_ATTEMPTS
        &&& self.phase == MigrationPhase::NotReady <==> self.attempts == 0
    }

    pub fn new() -> (r: MigrationController)
        ensures
            r.wf(),
            r@ == initial_state(),
    {
        MigrationController { phase: MigrationPhase::NotReady, attempts: 0 }
    }

    /// Begins the first attempt.
    pub fn start(&mut self) -> (r: MigrationAction)
        requires
            old(self).wf(),
            old(self)@ == initial_state(),
        ensures
            final(self).wf(),
            final(self)@ == started_state(),
            r == MigrationAction::RunMigrations,
    {
        self.phase = MigrationPhase::Migrating;
        self.attempts = 1;
        MigrationAction::RunMigrations
    }

    /// Takes the outcome of the attempt under way: `Ready` on success; on
    /// failure another attempt after the fixed delay, until the attempts are
    /// spent, then `Aborted`.
    pub fn on_attempt_result(&mut self, succeeded: bool) -> (r: MigrationAction)
        requires
            old(self).wf(),
            old(self)@.phase == MigrationPhase::Migrating,
        ensures
            final(self).wf(),
            final(self)@ == next_state(old(self)@, succeeded),
            r == action_for(final(self)@),
    {
        if succeeded {
            self.phase = MigrationPhase::Ready;
            MigrationAction::MarkReady
        } else if self.attempts < MAX_MIGRATION_ATTEMPTS {
            self.attempts = self.attempts + 1;
            MigrationAction::RetryAfter(MIGRATION_RETRY_DELAY_MS)
        } else {
            self.phase = MigrationPhase::Aborted;
            MigrationAction::Terminate
        }
    }

    pub fn phase(&self) -> (r: MigrationPhase)
        ensures
            r == self@.phase,
    {
        self.phase
    }

    /// Attempts begun so far.
    pub fn attempts(&self) -> (r: u32)
        ensures
            r as nat == self@.attempts,
    {
        self.attempts
    }

    /// Whether migrations have been applied.
    pub fn is_ready(&self) -> (r: bool)
        ensures
            r == (self@.phase == MigrationPhase::Ready),
    {
        self.phase == MigrationPhase::Ready
    }
}

proof fn lemma_failures_push(n: nat)
    ensures
        failures(n + 1).drop_last() == failures(n),
        failures(n + 1).last() == false,
{
    assert(failures(n + 1).drop_last() =~= failures(n));
}

/// After `k` failures from the start, with `k` below the bound, the next
/// attempt is under way and none has been counted a success.
pub proof fn lemma_failures_keep_migrating(k: nat)
    requires
        k < MAX_MIGRATION_ATTEMPTS,
    ensures
        run_from(started_state(), failures(k)) == (MigrationState {
            phase: MigrationPhase::Migrating,
            attempts: k + 1,
        }),
    decreases k,
{
    if k == 0 {
        assert(failures(0) =~= Seq::<bool>::empty());
    } else {
        lemma_failures_keep_migrating((k - 1) as nat);
        lemma_failures_push((k - 1) as nat);
    }
}

/// Transient failures clear: when the first `n` attempts fail and the next
/// one succeeds, with `n` below the bound, migration ends `Ready` on attempt
/// `n + 1`, and no earlier attempt was taken for a success.
pub proof fn lemma_ready_after_transient_failures(n: nat)
    requires
        n < MAX_MIGRATION_ATTEMPTS,
    ensures
        run_from(started_state(), failures(n).push(true)) == (MigrationState {
            phase: MigrationPhase::Ready,
            attempts: n + 1,
        }),
        action_for(run_from(started_state(), failures(n).push(true))) == MigrationAction::MarkReady,
        forall|k: nat|
            k <= n ==> #[trigger] run_from(started_state(), failures(k)).phase
                == MigrationPhase::Migrating,
{
    lemma_failures_keep_migrating(n);
    assert(failures(n).push(true).drop_last() =~= failures(n));
    assert forall|k: nat| k <= n implies #[trigger] run_from(started_state(), failures(k)).phase
        == MigrationPhase::Migrating by {
        lemma_failures_keep_migrating(k);
    }
}

/// When every attempt fails, migration ends `Aborted` after the bounded
/// number of attempts, asks for termination, and is never `Ready` on the way.
pub proof fn lemma_aborts_when_attempts_exhausted()
    ensures
        run_from(started_state(), failures(MAX_MIGRATION_ATTEMPTS as nat)) == (MigrationState {
            phase: MigrationPhase::Aborted,
            attempts: MAX_MIGRATION_ATTEMPTS as nat,
        }),
        action_for(run_from(started_state(), failures(MAX_MIGRATION_ATTEMPTS as nat)))
            == MigrationAction::Terminate,
        forall|k: nat|
            k <= MAX_MIGRATION_ATTEMPTS ==> #[trigger] run_from(started_state(), failures(k)).phase
                != MigrationPhase::Ready,
{
    let m = MAX_MIGRATION_ATTEMPTS as nat;
    lemma_failures_keep_migrating((m - 1) as nat);
    lemma_failures_push((m - 1) as nat);
    assert forall|k: nat| k <= MAX_MIGRATION_ATTEMPTS implies #[trigger] run_from(
        started_state(),
        failures(k),
    ).phase != MigrationPhase::Ready by {
        if k < m {
            lemma_failures_keep_migrating(k);
        }
    }
}

/// Readiness never reverts: from `Ready` (or `Aborted`) no outcome changes
/// the state.
pub proof fn lemma_final_phases_stay(s: MigrationState, outcomes: Seq<bool>)
    requires
        s.phase == MigrationPhase::Ready || s.phase == MigrationPhase::Aborted,
    ensures
        run_from(s, outcomes) == s,
    decreases outcomes.len(),
{
    if outcomes.len() > 0 {
        lemma_final_phases_stay(s, outcomes.drop_last());
    }
}

/// Body of the readiness probe.
pub open spec fn readiness_text(ready: bool) -> Seq<char> {
    if ready {
        "READY"@
    } else {
        "NOT_READY"@
    }
}

/// Answers the readiness probe from the readiness flag.
pub fn readiness_response(ready: bool) -> (r: &'static str)
    ensures
        r@ == readiness_text(ready),
{
    if ready {
        "READY"
    } else {
        "NOT_READY"
    }
}

/// Status code of a failed health probe.
pub const HEALTH_FAILURE_STATUS: u16 = 500;

/// Answers the health probe from the outcome of its live query: `OK`, or
/// the failure status.
pub fn health_response(query_succeeded: bool) -> (r: Result<String, u16>)
    ensures
        query_succeeded ==> (r matches Ok(body) && body@ == "OK"@),
        !query_succeeded ==> r == Err::<String, u16>(HEALTH_FAILURE_STATUS),
{
    if query_succeeded {
        Ok(String::from_str("OK"))
    } else {
        Err(HEALTH_FAILURE_STATUS)
    }
}

} // verus!
