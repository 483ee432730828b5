//! The evaluation pipeline protocol: a state machine over the flat hook
//! chain (global, then client, then invocation, then provider hooks).
//!
//! Each state of one evaluation calls for exactly one action; the outcome of
//! that action picks the next state. The before stage walks the chain
//! forward; a failure there, or in the resolution, or in an after stage,
//! routes to the error stage; after, error and finally stages walk the chain
//! in reverse; the finally stage always runs in full. The driver in the
//! client performs the actions; the laws at the end of this module pin down
//! the exact order of every run.

use vstd::prelude::*;

verus! {

/// Where one evaluation stands, over a hook chain of `n` hooks.
#[derive(Clone, Copy, PartialEq, Eq, Structural, Debug)]
pub enum PipelineState {
    /// The next before stage to run is that of hook `next`, walking the
    /// chain forward; with `next` equal to the chain's length, the
    /// resolution itself is next.
    Before { next: usize },
    /// The next after stage to run is that of the hook `next_rev` places
    /// from the chain's end.
    After { next_rev: usize },
    /// The next error stage to run is that of the hook `next_rev` places
    /// from the chain's end.
    ErrorStage { next_rev: usize },
    /// The next finally stage to run is that of the hook `next_rev` places
    /// from the chain's end.
    Finally { next_rev: usize },
    /// The evaluation is over.
    Done,
}

/// What one evaluation does next.
#[derive(Clone, Copy, PartialEq, Eq, Structural, Debug)]
pub enum PipelineAction {
    /// Run the before stage of the hook at this position in the chain.
    CallBefore(usize),
    /// Resolve the flag through the provider.
    CallResolve,
    /// Run the after stage of the hook at this position in the chain.
    CallAfter(usize),
    /// Run the error stage of the hook at this position in the chain.
    CallError(usize),
    /// Run the finally stage of the hook at this position in the chain.
    CallFinally(usize),
}

/// How the action went. For error and finally stages the distinction is
/// ignored: a failure there never stops the remaining stages.
#[derive(Clone, Copy, PartialEq, Eq, Structural, Debug)]
pub enum PipelineEvent {
    Succeeded,
    Failed,
}

/// Whether a state makes sense over a chain of `n` hooks.
pub open spec fn state_valid(n: int, s: PipelineState) -> bool {
    match s {
        PipelineState::Before { next } => next <= n,
        PipelineState::After { next_rev } => next_rev < n,
        PipelineState::ErrorStage { next_rev } => next_rev < n,
        PipelineState::Finally { next_rev } => next_rev < n,
        PipelineState::Done => true,
    }
}

/// The state that begins the finally stage: with no hooks there is nothing
/// to run.
pub open spec fn spec_finally_start(n: int) -> PipelineState {
    if n > 0 {
        PipelineState::Finally { next_rev: 0 }
    } else {
        PipelineState::Done
    }
}

/// The state that begins the error stage at reverse position `j`: past the
/// chain's end, the error stage is over and the finally stage begins.
pub open spec fn spec_error_start(n: int, j: int) -> PipelineState {
    if j < n {
        PipelineState::ErrorStage { next_rev: j as usize }
    } else {
        spec_finally_start(n)
    }
}

/// The action a state calls for.
pub open spec fn spec_action(n: int, s: PipelineState) -> PipelineAction
    recommends
        state_valid(n, s),
        !(s is Done),
{
    match s {
        PipelineState::Before { next } => if next < n {
            PipelineAction::CallBefore(next)
        } else {
            PipelineAction::CallResolve
        },
        PipelineState::After { next_rev } => PipelineAction::CallAfter((n - 1 - next_rev) as usize),
        PipelineState::ErrorStage { next_rev } => PipelineAction::CallError(
            (n - 1 - next_rev) as usize,
        ),
        PipelineState::Finally { next_rev } => PipelineAction::CallFinally(
            (n - 1 - next_rev) as usize,
        ),
        PipelineState::Done => PipelineAction::CallResolve,
    }
}

/// The state after performing a state's action with the given outcome.
pub open spec fn spec_step(n: int, s: PipelineState, e: PipelineEvent) -> PipelineState
    recommends
        state_valid(n, s),
        !(s is Done),
{
    match s {
        PipelineState::Before { next } => if next < n {
            match e {
                PipelineEvent::Succeeded => PipelineState::Before { next: (next + 1) as usize },
                PipelineEvent::Failed => spec_error_start(n, 0),
            }
        } else {
            match e {
                PipelineEvent::Succeeded => if n > 0 {
                    PipelineState::After { next_rev: 0 }
                } else {
                    PipelineState::Done
                },
                PipelineEvent::Failed => spec_error_start(n, 0),
            }
        },
        PipelineState::After { next_rev } => match e {
            PipelineEvent::Succeeded => if next_rev + 1 < n {
                PipelineState::After { next_rev: (next_rev + 1) as usize }
            } else {
                spec_finally_start(n)
            },
            PipelineEvent::Failed => spec_error_start(n, next_rev + 1),
        },
        PipelineState::ErrorStage { next_rev } => if next_rev + 1 < n {
            PipelineState::ErrorStage { next_rev: (next_rev + 1) as usize }
        } else {
            spec_finally_start(n)
        },
        PipelineState::Finally { next_rev } => if next_rev + 1 < n {
            PipelineState::Finally { next_rev: (next_rev + 1) as usize }
        } else {
            PipelineState::Done
        },
        PipelineState::Done => PipelineState::Done,
    }
}

/// How many actions a run from `s` still performs: the step function
/// strictly decreases it, so every evaluation ends.
pub open spec fn state_measure(n: int, s: PipelineState) -> int {
    match s {
        PipelineState::Before { next } => 3 * n + 1 + n - next,
        PipelineState::After { next_rev } => 3 * n - next_rev,
        PipelineState::ErrorStage { next_rev } => 2 * n - next_rev,
        PipelineState::Finally { next_rev } => n - next_rev,
        PipelineState::Done => 0,
    }
}

/// Every step strictly decreases the measure, which stays non-negative.
pub proof fn lemma_step_decreases(n: int, s: PipelineState, e: PipelineEvent)
    requires
        0 <= n <= usize::MAX,
        state_valid(n, s),
        !(s is Done),
    ensures
        state_valid(n, spec_step(n, s, e)),
        0 <= state_measure(n, spec_step(n, s, e)) < state_measure(n, s),
{
}

/// The state an evaluation starts in.
pub fn pipeline_start() -> (r: PipelineState)
    ensures
        r == (PipelineState::Before { next: 0usize }),
{
    PipelineState::Before { next: 0 }
}

/// The action the given state calls for.
pub fn pipeline_action(n: usize, s: &PipelineState) -> (r: PipelineAction)
    requires
        state_valid(n as int, *s),
        !(*s is Done),
    ensures
        r == spec_action(n as int, *s),
{
    match s {
        PipelineState::Before { next } => if *next < n {
            PipelineAction::CallBefore(*next)
        } else {
            PipelineAction::CallResolve
        },
        PipelineState::After { next_rev } => PipelineAction::CallAfter(n - 1 - *next_rev),
        PipelineState::ErrorStage { next_rev } => PipelineAction::CallError(n - 1 - *next_rev),
        PipelineState::Finally { next_rev } => PipelineAction::CallFinally(n - 1 - *next_rev),
        PipelineState::Done => PipelineAction::CallResolve,
    }
}

/// The state after performing the given state's action with the given
/// outcome.
pub fn pipeline_step(n: usize, s: &PipelineState, e: PipelineEvent) -> (r: PipelineState)
    requires
        state_valid(n as int, *s),
        !(*s is Done),
    ensures
        r == spec_step(n as int, *s, e),
        state_valid(n as int, r),
        state_measure(n as int, r) < state_measure(n as int, *s),
{
    proof {
        lemma_step_decreases(n as int, *s, e);
    }
    let finally_start: PipelineState = if n > 0 {
        PipelineState::Finally { next_rev: 0 }
    } else {
        PipelineState::Done
    };
    match s {
        PipelineState::Before { next } => match e {
            PipelineEvent::Succeeded => {
                if *next < n {
                    PipelineState::Before { next: *next + 1 }
                } else if n > 0 {
                    PipelineState::After { next_rev: 0 }
                } else {
                    PipelineState::Done
                }
            },
            PipelineEvent::Failed => {
                if n > 0 {
                    PipelineState::ErrorStage { next_rev: 0 }
                } else {
                    finally_start
                }
            },
        },
        PipelineState::After { next_rev } => match e {
            PipelineEvent::Succeeded => {
                if *next_rev + 1 < n {
                    PipelineState::After { next_rev: *next_rev + 1 }
                } else {
                    finally_start
                }
            },
            PipelineEvent::Failed => {
                if *next_rev + 1 < n {
                    PipelineState::ErrorStage { next_rev: *next_rev + 1 }
                } else {
                    finally_start
                }
            },
        },
        PipelineState::ErrorStage { next_rev } => {
            if *next_rev + 1 < n {
                PipelineState::ErrorStage { next_rev: *next_rev + 1 }
            } else {
                finally_start
            }
        },
        PipelineState::Finally { next_rev } => {
            if *next_rev + 1 < n {
                PipelineState::Finally { next_rev: *next_rev + 1 }
            } else {
                PipelineState::Done
            }
        },
        PipelineState::Done => PipelineState::Done,
    }
}

/// The outcome of a call, as an event.
pub open spec fn outcome_event(ok: bool) -> PipelineEvent {
    if ok {
        PipelineEvent::Succeeded
    } else {
        PipelineEvent::Failed
    }
}

/// The event the given state's action produces, when the before stages'
/// outcomes are `before_ok` (by chain position), the resolution's is
/// `resolve_ok`, and the after stages' are `after_ok` (by reverse
/// position). Error and finally stages produce no outcome of consequence.
pub open spec fn event_at(
    n: int,
    s: PipelineState,
    before_ok: Seq<bool>,
    resolve_ok: bool,
    after_ok: Seq<bool>,
) -> PipelineEvent {
    match s {
        PipelineState::Before { next } => if next < n {
            outcome_event(before_ok[next as int])
        } else {
            outcome_event(resolve_ok)
        },
        PipelineState::After { next_rev } => outcome_event(after_ok[next_rev as int]),
        _ => PipelineEvent::Succeeded,
    }
}

/// The actions one evaluation performs from state `s` on, given every
/// call's outcome.
pub open spec fn run_from(
    n: int,
    s: PipelineState,
    before_ok: Seq<bool>,
    resolve_ok: bool,
    after_ok: Seq<bool>,
) -> Seq<PipelineAction>
    decreases state_measure(n, s),
        when 0 <= n <= usize::MAX && state_valid(n, s)
{
    if s is Done {
        Seq::empty()
    } else {
        let e = event_at(n, s, before_ok, resolve_ok, after_ok);
        seq![spec_action(n, s)] + run_from(
            n,
            spec_step(n, s, e),
            before_ok,
            resolve_ok,
            after_ok,
        )
    }
}

/// The actions one whole evaluation performs, given every call's outcome.
pub open spec fn pipeline_trace(
    n: int,
    before_ok: Seq<bool>,
    resolve_ok: bool,
    after_ok: Seq<bool>,
) -> Seq<PipelineAction> {
    run_from(n, PipelineState::Before { next: 0 }, before_ok, resolve_ok, after_ok)
}

/// The before actions for chain positions `i` up to, excluding, `k`.
pub open spec fn before_actions(i: int, k: int) -> Seq<PipelineAction> {
    Seq::new((k - i) as nat, |t: int| PipelineAction::CallBefore((i + t) as usize))
}

/// The after actions from reverse position `j` up to, excluding, reverse
/// position `m`, walking the chain of `n` hooks backwards.
pub open spec fn after_actions(n: int, j: int, m: int) -> Seq<PipelineAction> {
    Seq::new((m - j) as nat, |t: int| PipelineAction::CallAfter((n - 1 - j - t) as usize))
}

/// The error actions from reverse position `j` on, walking the chain of `n`
/// hooks backwards to its front.
pub open spec fn error_actions(n: int, j: int) -> Seq<PipelineAction> {
    Seq::new((n - j) as nat, |t: int| PipelineAction::CallError((n - 1 - j - t) as usize))
}

/// The finally actions: the whole chain of `n` hooks, walked backwards.
pub open spec fn finally_actions(n: int) -> Seq<PipelineAction> {
    Seq::new(n as nat, |t: int| PipelineAction::CallFinally((n - 1 - t) as usize))
}

/// The first position at or after `j` whose outcome is a failure, or the
/// sequence's length if every one from `j` on succeeds.
pub open spec fn first_failure_from(ok: Seq<bool>, j: int) -> int
    decreases ok.len() - j,
        when 0 <= j <= ok.len()
{
    if j >= ok.len() {
        j
    } else if !ok[j] {
        j
    } else {
        first_failure_from(ok, j + 1)
    }
}

/// Bounds of [`first_failure_from`]: it lies between `j` and the length,
/// every outcome before it (from `j` on) succeeded, and it points at a
/// failure unless it is the length.
pub proof fn lemma_first_failure_from(ok: Seq<bool>, j: int)
    requires
        0 <= j <= ok.len(),
    ensures
        j <= first_failure_from(ok, j) <= ok.len(),
        forall|t: int| j <= t < first_failure_from(ok, j) ==> ok[t],
        first_failure_from(ok, j) < ok.len() ==> !ok[first_failure_from(ok, j)],
    decreases ok.len() - j,
{
    if j < ok.len() && ok[j] {
        lemma_first_failure_from(ok, j + 1);
    }
}

/// A run of the finally stage performs exactly the finally actions of the
/// not-yet-visited tail of the reverse chain, and nothing more.
proof fn lemma_run_finally(
    n: int,
    j: int,
    before_ok: Seq<bool>,
    resolve_ok: bool,
    after_ok: Seq<bool>,
)
    requires
        0 < n <= usize::MAX,
        0 <= j < n,
    ensures
        run_from(n, PipelineState::Finally { next_rev: j as usize }, before_ok, resolve_ok,
        after_ok) == Seq::new((n - j) as nat, |t: int| PipelineAction::CallFinally(
            (n - 1 - j - t) as usize,
        )),
    decreases n - j,
{
    reveal_with_fuel(run_from, 2);
    let s = PipelineState::Finally { next_rev: j as usize };
    let goal = Seq::new((n - j) as nat, |t: int| PipelineAction::CallFinally(
        (n - 1 - j - t) as usize,
    ));
    if j + 1 < n {
        lemma_run_finally(n, j + 1, before_ok, resolve_ok, after_ok);
        assert(run_from(n, s, before_ok, resolve_ok, after_ok) =~= goal);
    } else {
        assert(run_from(n, s, before_ok, resolve_ok, after_ok) =~= goal);
    }
}

/// A run that enters the finally stage performs the whole reverse chain of
/// finally actions.
proof fn lemma_run_finally_start(
    n: int,
    before_ok: Seq<bool>,
    resolve_ok: bool,
    after_ok: Seq<bool>,
)
    requires
        0 <= n <= usize::MAX,
    ensures
        run_from(n, spec_finally_start(n), before_ok, resolve_ok, after_ok) == finally_actions(n),
{
    reveal_with_fuel(run_from, 2);
    if n > 0 {
        lemma_run_finally(n, 0, before_ok, resolve_ok, after_ok);
        assert(run_from(n, spec_finally_start(n), before_ok, resolve_ok, after_ok)
            =~= finally_actions(n));
    } else {
        assert(run_from(n, spec_finally_start(n), before_ok, resolve_ok, after_ok)
            =~= finally_actions(n));
    }
}

/// A run that enters the error stage at reverse position `j` performs the
/// error actions of the rest of the reverse chain, then the whole finally
/// stage.
proof fn lemma_run_error(
    n: int,
    j: int,
    before_ok: Seq<bool>,
    resolve_ok: bool,
    after_ok: Seq<bool>,
)
    requires
        0 <= n <= usize::MAX,
        0 <= j <= n,
    ensures
        run_from(n, spec_error_start(n, j), before_ok, resolve_ok, after_ok) == error_actions(n, j)
            + finally_actions(n),
    decreases n - j,
{
    reveal_with_fuel(run_from, 2);
    if j < n {
        lemma_run_error(n, j + 1, before_ok, resolve_ok, after_ok);
        assert(run_from(n, spec_error_start(n, j), before_ok, resolve_ok, after_ok)
            =~= error_actions(n, j) + finally_actions(n));
    } else {
        lemma_run_finally_start(n, before_ok, resolve_ok, after_ok);
        assert(run_from(n, spec_error_start(n, j), before_ok, resolve_ok, after_ok)
            =~= error_actions(n, j) + finally_actions(n));
    }
}

/// A run of the after stage from reverse position `j`: if every remaining
/// after stage succeeds, it performs them all and then the finally stage;
/// otherwise it stops with the first failing one and routes the rest of the
/// reverse chain to the error stage, then the finally stage.
#[verifier::rlimit(100)]
proof fn lemma_run_after(
    n: int,
    j: int,
    before_ok: Seq<bool>,
    resolve_ok: bool,
    after_ok: Seq<bool>,
)
    requires
        0 < n <= usize::MAX,
        0 <= j < n,
        after_ok.len() == n,
    ensures
        ({
            let m = first_failure_from(after_ok, j);
            run_from(n, PipelineState::After { next_rev: j as usize }, before_ok, resolve_ok,
            after_ok) == (if m == n {
                after_actions(n, j, n) + finally_actions(n)
            } else {
                after_actions(n, j, m + 1) + error_actions(n, m + 1) + finally_actions(n)
            })
        }),
    decreases n - j,
{
    reveal_with_fuel(run_from, 2);
    let s = PipelineState::After { next_rev: j as usize };
    let m = first_failure_from(after_ok, j);
    lemma_first_failure_from(after_ok, j);
    if after_ok[j] {
        if j + 1 < n {
            lemma_run_after(n, j + 1, before_ok, resolve_ok, after_ok);
            if m == n {
                assert(run_from(n, s, before_ok, resolve_ok, after_ok) =~= after_actions(n, j, n)
                    + finally_actions(n));
            } else {
                assert(run_from(n, s, before_ok, resolve_ok, after_ok) =~= after_actions(
                    n,
                    j,
                    m + 1,
                ) + error_actions(n, m + 1) + finally_actions(n));
            }
        } else {
            lemma_run_finally_start(n, before_ok, resolve_ok, after_ok);
            assert(m == n);
            assert(run_from(n, s, before_ok, resolve_ok, after_ok) =~= after_actions(n, j, n)
                + finally_actions(n));
        }
    } else {
        assert(m == j);
        lemma_run_error(n, j + 1, before_ok, resolve_ok, after_ok);
        assert(run_from(n, s, before_ok, resolve_ok, after_ok) =~= after_actions(n, j, j + 1)
            + error_actions(n, j + 1) + finally_actions(n));
    }
}

/// A run of the before stage from position `i` on: if every remaining
/// before stage succeeds, the resolution runs, and then the after stage (on
/// success) or the whole error stage (on failure); if a before stage fails,
/// the resolution never runs and the whole reverse chain goes through the
/// error stage; the finally stage runs in full in every case.
#[verifier::rlimit(100)]
proof fn lemma_run_before(
    n: int,
    i: int,
    before_ok: Seq<bool>,
    resolve_ok: bool,
    after_ok: Seq<bool>,
)
    requires
        0 <= n <= usize::MAX,
        0 <= i <= n,
        before_ok.len() == n,
        after_ok.len() == n,
    ensures
        ({
            let k = first_failure_from(before_ok, i);
            let m = first_failure_from(after_ok, 0);
            run_from(n, PipelineState::Before { next: i as usize }, before_ok, resolve_ok,
            after_ok) == (if k < n {
                before_actions(i, k + 1) + error_actions(n, 0) + finally_actions(n)
            } else if !resolve_ok {
                before_actions(i, n) + seq![PipelineAction::CallResolve] + error_actions(n, 0)
                    + finally_actions(n)
            } else if n == 0 {
                seq![PipelineAction::CallResolve]
            } else if m == n {
                before_actions(i, n) + seq![PipelineAction::CallResolve] + after_actions(n, 0, n)
                    + finally_actions(n)
            } else {
                before_actions(i, n) + seq![PipelineAction::CallResolve] + after_actions(
                    n,
                    0,
                    m + 1,
                ) + error_actions(n, m + 1) + finally_actions(n)
            })
        }),
    decreases n - i + 1,
{
    reveal_with_fuel(run_from, 2);
    let s = PipelineState::Before { next: i as usize };
    let k = first_failure_from(before_ok, i);
    let m = first_failure_from(after_ok, 0);
    lemma_first_failure_from(before_ok, i);
    if i < n {
        if before_ok[i] {
            lemma_run_before(n, i + 1, before_ok, resolve_ok, after_ok);
            if k < n {
                assert(run_from(n, s, before_ok, resolve_ok, after_ok) =~= before_actions(i, k + 1)
                    + error_actions(n, 0) + finally_actions(n));
            } else if !resolve_ok {
                assert(run_from(n, s, before_ok, resolve_ok, after_ok) =~= before_actions(i, n)
                    + seq![PipelineAction::CallResolve] + error_actions(n, 0) + finally_actions(n));
            } else if m == n {
                assert(run_from(n, s, before_ok, resolve_ok, after_ok) =~= before_actions(i, n)
                    + seq![PipelineAction::CallResolve] + after_actions(n, 0, n) + finally_actions(
                    n,
                ));
            } else {
                assert(run_from(n, s, before_ok, resolve_ok, after_ok) =~= before_actions(i, n)
                    + seq![PipelineAction::CallResolve] + after_actions(n, 0, m + 1)
                    + error_actions(n, m + 1) + finally_actions(n));
            }
        } else {
            assert(k == i);
            lemma_run_error(n, 0, before_ok, resolve_ok, after_ok);
            assert(run_from(n, s, before_ok, resolve_ok, after_ok) =~= before_actions(i, i + 1)
                + error_actions(n, 0) + finally_actions(n));
        }
    } else {
        assert(k == n);
        if !resolve_ok {
            lemma_run_error(n, 0, before_ok, resolve_ok, after_ok);
            assert(run_from(n, s, before_ok, resolve_ok, after_ok) =~= before_actions(i, n)
                + seq![PipelineAction::CallResolve] + error_actions(n, 0) + finally_actions(n));
        } else if n == 0 {
            assert(run_from(n, s, before_ok, resolve_ok, after_ok)
                =~= seq![PipelineAction::CallResolve]);
        } else {
            lemma_run_after(n, 0, before_ok, resolve_ok, after_ok);
            if m == n {
                assert(run_from(n, s, before_ok, resolve_ok, after_ok) =~= before_actions(i, n)
                    + seq![PipelineAction::CallResolve] + after_actions(n, 0, n) + finally_actions(
                    n,
                ));
            } else {
                assert(run_from(n, s, before_ok, resolve_ok, after_ok) =~= before_actions(i, n)
                    + seq![PipelineAction::CallResolve] + after_actions(n, 0, m + 1)
                    + error_actions(n, m + 1) + finally_actions(n));
            }
        }
    }
}

/// For every evaluation whose before stages and resolution succeed, the
/// actions are exactly: the before stage of each hook in chain order, the
/// resolution, the after stage of each hook in reverse order, and the
/// finally stage of each hook in reverse order. If the resolution fails
/// instead, the error stage of each hook replaces the after stage, in the
/// same reverse order, and the finally stage still runs in full.
pub proof fn lemma_hook_stage_order(
    n: int,
    before_ok: Seq<bool>,
    resolve_ok: bool,
    after_ok: Seq<bool>,
)
    requires
        0 < n <= usize::MAX,
        before_ok.len() == n,
        after_ok.len() == n,
        forall|t: int| 0 <= t < n ==> before_ok[t],
        forall|t: int| 0 <= t < n ==> after_ok[t],
    ensures
        resolve_ok ==> pipeline_trace(n, before_ok, resolve_ok, after_ok) == before_actions(0, n)
            + seq![PipelineAction::CallResolve] + after_actions(n, 0, n) + finally_actions(n),
        !resolve_ok ==> pipeline_trace(n, before_ok, resolve_ok, after_ok) == before_actions(0, n)
            + seq![PipelineAction::CallResolve] + error_actions(n, 0) + finally_actions(n),
{
    lemma_first_failure_from(before_ok, 0);
    lemma_first_failure_from(after_ok, 0);
    assert(first_failure_from(before_ok, 0) == n) by {
        lemma_first_failure_from(before_ok, 0);
        if first_failure_from(before_ok, 0) < n {
            assert(!before_ok[first_failure_from(before_ok, 0)]);
        }
    }
    assert(first_failure_from(after_ok, 0) == n) by {
        lemma_first_failure_from(after_ok, 0);
        if first_failure_from(after_ok, 0) < n {
            assert(!after_ok[first_failure_from(after_ok, 0)]);
        }
    }
    lemma_run_before(n, 0, before_ok, resolve_ok, after_ok);
}

/// If a before stage fails, the actions are exactly: the before stages up
/// to and including the failing one, the error stage of every hook in
/// reverse order, and the finally stage of every hook in reverse order. In
/// particular the resolution never runs — the provider is never invoked —
/// and no later before stage runs.
pub proof fn lemma_before_failure_stops_pipeline(
    n: int,
    before_ok: Seq<bool>,
    resolve_ok: bool,
    after_ok: Seq<bool>,
)
    requires
        0 < n <= usize::MAX,
        before_ok.len() == n,
        after_ok.len() == n,
        first_failure_from(before_ok, 0) < n,
    ensures
        ({
            let k = first_failure_from(before_ok, 0);
            let trace = pipeline_trace(n, before_ok, resolve_ok, after_ok);
            &&& trace == before_actions(0, k + 1) + error_actions(n, 0) + finally_actions(n)
            &&& forall|t: int| 0 <= t < trace.len() ==> !(#[trigger] trace[t] is CallResolve)
            &&& forall|t: int|
                0 <= t < trace.len() ==> (#[trigger] trace[t] is CallBefore ==> trace[t]->CallBefore_0
                    <= k)
        }),
{
    let k = first_failure_from(before_ok, 0);
    lemma_first_failure_from(before_ok, 0);
    lemma_run_before(n, 0, before_ok, resolve_ok, after_ok);
    let trace = pipeline_trace(n, before_ok, resolve_ok, after_ok);
    assert(trace == before_actions(0, k + 1) + error_actions(n, 0) + finally_actions(n));
    assert forall|t: int| 0 <= t < trace.len() implies !(#[trigger] trace[t] is CallResolve) && (
    trace[t] is CallBefore ==> trace[t]->CallBefore_0 <= k) by {
        if t < k + 1 {
            assert(trace[t] == before_actions(0, k + 1)[t]);
        } else if t < k + 1 + n {
            assert(trace[t] == error_actions(n, 0)[t - (k + 1)]);
        } else {
            assert(trace[t] == finally_actions(n)[t - (k + 1) - n]);
        }
    }
}

/// If every before stage and the resolution succeed but an after stage
/// fails, the actions are exactly: every before stage in chain order, the
/// resolution, the after stages down to and including the failing one, the
/// error stage of the remaining (not yet run) hooks in the same reverse
/// order, and the finally stage of every hook in reverse order.
pub proof fn lemma_after_failure_routes_to_error_stage(
    n: int,
    before_ok: Seq<bool>,
    after_ok: Seq<bool>,
)
    requires
        0 < n <= usize::MAX,
        before_ok.len() == n,
        after_ok.len() == n,
        forall|t: int| 0 <= t < n ==> before_ok[t],
        first_failure_from(after_ok, 0) < n,
    ensures
        ({
            let m = first_failure_from(after_ok, 0);
            pipeline_trace(n, before_ok, true, after_ok) == before_actions(0, n)
                + seq![PipelineAction::CallResolve] + after_actions(n, 0, m + 1) + error_actions(
                n,
                m + 1,
            ) + finally_actions(n)
        }),
{
    lemma_first_failure_from(before_ok, 0);
    assert(first_failure_from(before_ok, 0) == n) by {
        if first_failure_from(before_ok, 0) < n {
            assert(!before_ok[first_failure_from(before_ok, 0)]);
        }
    }
    lemma_run_before(n, 0, before_ok, true, after_ok);
}

} // verus!
