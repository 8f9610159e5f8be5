//! Claiming a database: the decisions of the allocation, one reply at a time.
//!
//! Candidates are the indices from 1 up to, and not including, the number of
//! databases; index 0 is shared by all and never claimed. They are tried in
//! increasing order. A candidate is first probed; one that looks free is
//! selected, and the first acknowledged selection ends the allocation. A
//! refused selection is no failure: another process may have been faster,
//! so the next candidate is tried.

use vstd::prelude::*;
use crate::command::Command;
use crate::context::RedisCtx;
use crate::error::{DbError, NO_FREE_DATABASE};

verus! {

/// Where an allocation stands.
#[derive(Clone, Copy, Debug, PartialEq, Eq, Structural)]
pub enum AllocState {
    /// No database claimed, nothing under way.
    Unbound,
    /// The number of databases has been asked for.
    Counting,
    /// The candidate is being probed.
    Probing(u32),
    /// The candidate looked free and its selection has been sent.
    Selecting(u32),
    /// The connection is bound to this database.
    Bound(u32),
    /// Every candidate was tried and none could be claimed.
    Exhausted,
}

/// What happened since the last step.
#[derive(Debug)]
pub enum AllocEvent {
    /// The caller wants a database.
    Start,
    /// The answer to `Command::ConfigGetDatabases`.
    Count(Result<Vec<String>, redis::RedisError>),
    /// Whether the probed candidate looked free.
    Probed(bool),
    /// The answer to `Command::Select`.
    Selected(Result<String, redis::RedisError>),
}

/// What the owner of the connection has to do next.
#[derive(Debug, PartialEq, Eq)]
pub enum AllocAction {
    /// Send the command and report its reply.
    Send(Command),
    /// Find out whether this candidate looks free and report it.
    Probe(u32),
    /// Nothing: the allocation is at rest.
    Stop,
}

/// A step's result.
pub struct AllocStep {
    /// The context after the step.
    pub ctx: RedisCtx,
    /// The state after the step.
    pub state: AllocState,
    /// What has to be done next.
    pub action: AllocAction,
}

/// Goes on with candidate `i`: probes it if there is such a database, and
/// gives up if there is not.
pub open spec fn try_candidate(ctx: RedisCtx, i: int) -> AllocStep {
    if i < ctx.maxdb {
        AllocStep { ctx, state: AllocState::Probing(i as u32), action: AllocAction::Probe(i as u32) }
    } else {
        AllocStep { ctx, state: AllocState::Exhausted, action: AllocAction::Stop }
    }
}

/// Begins an allocation. A connection that is bound stays bound; a known
/// count is not asked for again.
pub open spec fn begin(ctx: RedisCtx) -> AllocStep {
    if ctx.db != 0 {
        AllocStep { ctx, state: AllocState::Bound(ctx.db), action: AllocAction::Stop }
    } else if ctx.maxdb > 0 {
        try_candidate(ctx, 1)
    } else {
        AllocStep {
            ctx,
            state: AllocState::Counting,
            action: AllocAction::Send(Command::ConfigGetDatabases),
        }
    }
}

/// The action that a state is waiting on; `Stop` for a state at rest.
pub open spec fn pending(state: AllocState) -> AllocAction {
    match state {
        AllocState::Counting => AllocAction::Send(Command::ConfigGetDatabases),
        AllocState::Probing(i) => AllocAction::Probe(i),
        AllocState::Selecting(i) => AllocAction::Send(Command::Select(i)),
        _ => AllocAction::Stop,
    }
}

/// One step of the allocation. An event that does not answer what the state
/// is waiting on changes nothing, and the pending action is asked for again.
pub open spec fn select_database_step(ctx: RedisCtx, state: AllocState, event: AllocEvent) -> AllocStep {
    match (state, event) {
        (AllocState::Unbound, AllocEvent::Start)
        | (AllocState::Bound(_), AllocEvent::Start)
        | (AllocState::Exhausted, AllocEvent::Start) => begin(ctx),
        (AllocState::Counting, AllocEvent::Count(reply)) => {
            let counted = ctx.after_count(Some(reply));
            if ctx.count_reported(Some(reply)) is None {
                AllocStep { ctx: counted, state: AllocState::Unbound, action: AllocAction::Stop }
            } else {
                try_candidate(counted, 1)
            }
        },
        (AllocState::Probing(i), AllocEvent::Probed(free)) => {
            if free {
                AllocStep {
                    ctx,
                    state: AllocState::Selecting(i),
                    action: AllocAction::Send(Command::Select(i)),
                }
            } else {
                try_candidate(ctx, i + 1)
            }
        },
        (AllocState::Selecting(i), AllocEvent::Selected(reply)) => {
            if reply is Ok {
                AllocStep {
                    ctx: ctx.after_select(i, reply),
                    state: AllocState::Bound(i),
                    action: AllocAction::Stop,
                }
            } else {
                try_candidate(ctx, i + 1)
            }
        },
        _ => AllocStep { ctx, state, action: pending(state) },
    }
}

/// The state belongs to the context: a bound state names the selected
/// database, and while candidates are tried nothing is selected and each
/// candidate is a claimable database of the store.
pub open spec fn consistent(ctx: RedisCtx, state: AllocState) -> bool {
    match state {
        AllocState::Unbound => true,
        AllocState::Counting => ctx.db == 0 && ctx.maxdb == 0,
        AllocState::Probing(i) => ctx.db == 0 && 1 <= i < ctx.maxdb,
        AllocState::Selecting(i) => ctx.db == 0 && 1 <= i < ctx.maxdb,
        AllocState::Bound(i) => ctx.db == i && i >= 1,
        AllocState::Exhausted => ctx.db == 0,
    }
}

fn next_candidate(ctx: &RedisCtx, i: u32) -> (r: (AllocState, AllocAction))
    ensures
        r.0 == try_candidate(*ctx, i + 1).state,
        r.1 == try_candidate(*ctx, i + 1).action,
{
    if i < u32::MAX && i + 1 < ctx.maxdb {
        (AllocState::Probing(i + 1), AllocAction::Probe(i + 1))
    } else {
        (AllocState::Exhausted, AllocAction::Stop)
    }
}

fn first_candidate(ctx: &RedisCtx) -> (r: (AllocState, AllocAction))
    ensures
        r.0 == try_candidate(*ctx, 1).state,
        r.1 == try_candidate(*ctx, 1).action,
{
    next_candidate(ctx, 0)
}

impl RedisCtx {
    /// Takes the allocation one step further: given the state and what
    /// happened, returns the next state and what to do next. Sending,
    /// probing and waiting are the caller's; the decisions are made here.
    pub fn select_database(&mut self, state: AllocState, event: AllocEvent) -> (r: (
        AllocState,
        AllocAction,
    ))
        ensures
            *final(self) == select_database_step(*old(self), state, event).ctx,
            r.0 == select_database_step(*old(self), state, event).state,
            r.1 == select_database_step(*old(self), state, event).action,
            old(self).maxdb > 0 ==> final(self).maxdb == old(self).maxdb,
            consistent(*old(self), state) ==> consistent(*final(self), r.0),
    {
        match (state, event) {
            (AllocState::Unbound, AllocEvent::Start)
            | (AllocState::Bound(_), AllocEvent::Start)
            | (AllocState::Exhausted, AllocEvent::Start) => {
                if self.db != 0 {
                    (AllocState::Bound(self.db), AllocAction::Stop)
                } else if self.maxdb > 0 {
                    first_candidate(self)
                } else {
                    (AllocState::Counting, AllocAction::Send(Command::ConfigGetDatabases))
                }
            },
            (AllocState::Counting, AllocEvent::Count(reply)) => {
                match self.max_db_index(Some(reply)) {
                    Ok(_) => first_candidate(self),
                    Err(_) => (AllocState::Unbound, AllocAction::Stop),
                }
            },
            (AllocState::Probing(i), AllocEvent::Probed(free)) => {
                if free {
                    (AllocState::Selecting(i), AllocAction::Send(Command::Select(i)))
                } else {
                    next_candidate(self, i)
                }
            },
            (AllocState::Selecting(i), AllocEvent::Selected(reply)) => {
                match self.set_namespace(i, reply) {
                    Ok(_) => (AllocState::Bound(i), AllocAction::Stop),
                    Err(_) => next_candidate(self, i),
                }
            },
            (AllocState::Counting, _) => (
                AllocState::Counting,
                AllocAction::Send(Command::ConfigGetDatabases),
            ),
            (AllocState::Probing(i), _) => (AllocState::Probing(i), AllocAction::Probe(i)),
            (AllocState::Selecting(i), _) => (
                AllocState::Selecting(i),
                AllocAction::Send(Command::Select(i)),
            ),
            (s, _) => (s, AllocAction::Stop),
        }
    }
}

/// What an allocation that stands in `state` has achieved: the claimed
/// database if it is bound, and a failure in every other state.
pub fn select_database_result(state: AllocState) -> (r: Result<u32, DbError>)
    ensures
        match state {
            AllocState::Bound(i) => r == Ok::<u32, DbError>(i),
            _ => r matches Err(DbError::CustomErr(m)) && m@ == NO_FREE_DATABASE@,
        },
{
    match state {
        AllocState::Bound(i) => Ok(i),
        _ => Err(DbError::custom(NO_FREE_DATABASE)),
    }
}

/// What the store and the probe answer to an action: `count` to the
/// question for the number of databases, `free(i)` to a probe of candidate
/// `i`, `select(i)` to its selection.
pub open spec fn answer(
    action: AllocAction,
    count: Result<Vec<String>, redis::RedisError>,
    free: spec_fn(u32) -> bool,
    select: spec_fn(u32) -> Result<String, redis::RedisError>,
) -> AllocEvent {
    match action {
        AllocAction::Send(Command::Select(i)) => AllocEvent::Selected(select(i)),
        AllocAction::Send(_) => AllocEvent::Count(count),
        AllocAction::Probe(i) => AllocEvent::Probed(free(i)),
        AllocAction::Stop => AllocEvent::Start,
    }
}

/// Where an allocation stands after at most `fuel` actions were carried out
/// and answered, starting with the action of `at`. It rests as soon as the
/// action is `Stop`.
pub open spec fn run(
    at: AllocStep,
    count: Result<Vec<String>, redis::RedisError>,
    free: spec_fn(u32) -> bool,
    select: spec_fn(u32) -> Result<String, redis::RedisError>,
    fuel: nat,
) -> AllocStep
    decreases fuel,
{
    if fuel == 0 || at.action is Stop {
        at
    } else {
        run(
            select_database_step(at.ctx, at.state, answer(at.action, count, free, select)),
            count,
            free,
            select,
            (fuel - 1) as nat,
        )
    }
}

/// The candidates probed during that run, in the order of the probes.
pub open spec fn probed(
    at: AllocStep,
    count: Result<Vec<String>, redis::RedisError>,
    free: spec_fn(u32) -> bool,
    select: spec_fn(u32) -> Result<String, redis::RedisError>,
    fuel: nat,
) -> Seq<u32>
    decreases fuel,
{
    if fuel == 0 || at.action is Stop {
        Seq::empty()
    } else {
        let rest = probed(
            select_database_step(at.ctx, at.state, answer(at.action, count, free, select)),
            count,
            free,
            select,
            (fuel - 1) as nat,
        );
        match at.action {
            AllocAction::Probe(i) => seq![i] + rest,
            _ => rest,
        }
    }
}

/// The least candidate from `from` on, below `m`, that looks free and whose
/// selection the store acknowledges; `m` if there is none.
pub open spec fn first_claimable(
    free: spec_fn(u32) -> bool,
    select: spec_fn(u32) -> Result<String, redis::RedisError>,
    from: int,
    m: int,
) -> int
    decreases m - from,
{
    if from >= m {
        m
    } else if 0 <= from <= u32::MAX && free(from as u32) && select(from as u32) is Ok {
        from
    } else {
        first_claimable(free, select, from + 1, m)
    }
}

/// The candidates `from`, `from + 1`, ..., `to - 1`.
pub open spec fn candidates(from: int, to: int) -> Seq<u32> {
    Seq::new(if to >= from { (to - from) as nat } else { 0 }, |j: int| (from + j) as u32)
}

proof fn lemma_run_from_candidate(
    ctx: RedisCtx,
    i: int,
    count: Result<Vec<String>, redis::RedisError>,
    free: spec_fn(u32) -> bool,
    select: spec_fn(u32) -> Result<String, redis::RedisError>,
    fuel: nat,
)
    requires
        ctx.db == 0,
        1 <= i <= ctx.maxdb || (i == 1 && ctx.maxdb == 0),
        fuel >= 2 * (ctx.maxdb - i),
    ensures
        ({
            let m = ctx.maxdb as int;
            let w = first_claimable(free, select, i, m);
            let end = run(try_candidate(ctx, i), count, free, select, fuel);
            let seen = probed(try_candidate(ctx, i), count, free, select, fuel);
            &&& end.action is Stop
            &&& w < m ==> i <= w && end.state == AllocState::Bound(w as u32) && end.ctx == (RedisCtx {
                db: w as u32,
                maxdb: ctx.maxdb,
            }) && seen == candidates(i, w + 1)
            &&& w >= m ==> end.state == AllocState::Exhausted && end.ctx == ctx && seen
                == candidates(i, m)
        }),
    decreases ctx.maxdb - i,
{
    let m = ctx.maxdb as int;
    let at = try_candidate(ctx, i);
    let seen = probed(at, count, free, select, fuel);
    if i >= m {
        assert(seen =~= candidates(i, m));
    } else {
        let after_probe = select_database_step(at.ctx, at.state, answer(at.action, count, free, select));
        let seen1 = probed(after_probe, count, free, select, (fuel - 1) as nat);
        assert(seen == seq![i as u32] + seen1);
        assert(run(at, count, free, select, fuel) == run(
            after_probe,
            count,
            free,
            select,
            (fuel - 1) as nat,
        ));
        if free(i as u32) {
            let after_select = select_database_step(
                after_probe.ctx,
                after_probe.state,
                answer(after_probe.action, count, free, select),
            );
            let seen2 = probed(after_select, count, free, select, (fuel - 2) as nat);
            assert(seen1 == seen2);
            assert(run(after_probe, count, free, select, (fuel - 1) as nat) == run(
                after_select,
                count,
                free,
                select,
                (fuel - 2) as nat,
            ));
            if select(i as u32) is Ok {
                assert(run(after_select, count, free, select, (fuel - 2) as nat) == after_select);
                assert(seen2 =~= Seq::<u32>::empty());
                assert(seen =~= candidates(i, i + 1));
            } else {
                lemma_run_from_candidate(ctx, i + 1, count, free, select, (fuel - 2) as nat);
                let w = first_claimable(free, select, i, m);
                if w < m {
                    assert(seen =~= candidates(i, w + 1));
                } else {
                    assert(seen =~= candidates(i, m));
                }
            }
        } else {
            lemma_run_from_candidate(ctx, i + 1, count, free, select, (fuel - 1) as nat);
            let w = first_claimable(free, select, i, m);
            if w < m {
                assert(seen =~= candidates(i, w + 1));
            } else {
                assert(seen =~= candidates(i, m));
            }
        }
    }
}

/// An allocation on a connection that has nothing selected comes to rest,
/// whatever the probes and the store answer, after at most `2 * m + 1`
/// answers, where `m` is the number of databases: the one the connection
/// knows, or else the one the store reports. It ends bound to the least
/// candidate in `1..m` that looked free and whose selection was
/// acknowledged, having probed the candidates up to that one, each once and
/// in increasing order; or, if there is no such candidate, exhausted, having
/// probed every candidate in `1..m` once and in increasing order.
pub proof fn law_allocation_terminates(
    ctx: RedisCtx,
    m: u32,
    count: Result<Vec<String>, redis::RedisError>,
    free: spec_fn(u32) -> bool,
    select: spec_fn(u32) -> Result<String, redis::RedisError>,
    fuel: nat,
)
    requires
        ctx.db == 0,
        ctx.maxdb > 0 ==> ctx.maxdb == m,
        ctx.maxdb == 0 ==> ctx.count_reported(Some(count)) == Some(m),
        fuel >= 2 * m + 1,
    ensures
        ({
            let start = select_database_step(ctx, AllocState::Unbound, AllocEvent::Start);
            let end = run(start, count, free, select, fuel);
            let seen = probed(start, count, free, select, fuel);
            let w = first_claimable(free, select, 1, m as int);
            &&& end.action is Stop
            &&& end.ctx.maxdb == m
            &&& w < m ==> 1 <= w && end.state == AllocState::Bound(w as u32) && end.ctx.db == w
                && seen == candidates(1, w + 1)
            &&& w >= m ==> end.state == AllocState::Exhausted && end.ctx.db == 0 && seen
                == candidates(1, m as int)
        }),
{
    let start = select_database_step(ctx, AllocState::Unbound, AllocEvent::Start);
    if ctx.maxdb > 0 {
        lemma_run_from_candidate(ctx, 1, count, free, select, fuel);
    } else {
        let counted = ctx.after_count(Some(count));
        let next = select_database_step(start.ctx, start.state, answer(start.action, count, free, select));
        assert(next == try_candidate(counted, 1));
        lemma_run_from_candidate(counted, 1, count, free, select, (fuel - 1) as nat);
    }
}

/// The event is an answer to the action: a count to the question for it, a
/// probe's finding to a probe, a reply to a selection. `Stop` has no answer.
pub open spec fn answers(action: AllocAction, event: AllocEvent) -> bool {
    match action {
        AllocAction::Send(Command::ConfigGetDatabases) => event is Count,
        AllocAction::Send(Command::Select(_)) => event is Selected,
        AllocAction::Send(_) => false,
        AllocAction::Probe(_) => event is Probed,
        AllocAction::Stop => false,
    }
}

/// An upper bound on the answers that an allocation in this state still
/// needs before it rests: two for each candidate that is left, and at rest
/// none.
pub open spec fn answers_left(ctx: RedisCtx, state: AllocState) -> nat {
    match state {
        AllocState::Counting => 2 * 0x1_0000_0000 + 1,
        AllocState::Probing(i) => if i < ctx.maxdb {
            (2 * (ctx.maxdb - i)) as nat
        } else {
            0
        },
        AllocState::Selecting(i) => if i < ctx.maxdb {
            (2 * (ctx.maxdb - i) - 1) as nat
        } else {
            0
        },
        _ => 0,
    }
}

/// The event is the store's acknowledgement of a selection.
pub open spec fn acknowledges(event: AllocEvent) -> bool {
    match event {
        AllocEvent::Selected(Ok(_)) => true,
        _ => false,
    }
}

/// The candidate that a state is busy with; 0 before the first.
pub open spec fn candidate(state: AllocState) -> int {
    match state {
        AllocState::Probing(i) => i as int,
        AllocState::Selecting(i) => i as int,
        _ => 0,
    }
}

/// Whatever the store and the probe answer, and however their answers
/// change over time, every answer to the pending action brings the
/// allocation closer to rest, and candidates are taken up one by one: the
/// bound on the answers still needed decreases and is 0 exactly when the
/// step asks for `Stop`; a probe is always of the candidate after the one
/// before, a selection is of the candidate just probed, the allocation gets
/// bound only to a candidate in `1..maxdb` whose selection was just
/// acknowledged, and it is exhausted only when no candidate is left.
pub proof fn law_every_answer_makes_progress(ctx: RedisCtx, state: AllocState, event: AllocEvent)
    requires
        consistent(ctx, state),
        answers(pending(state), event),
    ensures
        ({
            let next = select_database_step(ctx, state, event);
            &&& consistent(next.ctx, next.state)
            &&& answers_left(next.ctx, next.state) < answers_left(ctx, state)
            &&& next.action == pending(next.state)
            &&& next.action is Stop <==> answers_left(next.ctx, next.state) == 0
            &&& next.state is Probing ==> candidate(next.state) == candidate(state) + 1
            &&& next.state is Selecting ==> state is Probing && candidate(next.state) == candidate(
                state,
            )
            &&& next.state is Exhausted ==> candidate(state) + 1 >= next.ctx.maxdb
            &&& next.state is Bound ==> state is Selecting && next.state == AllocState::Bound(
                candidate(state) as u32,
            ) && 1 <= candidate(state) < next.ctx.maxdb && next.ctx.db == candidate(state)
                && acknowledges(event)
        }),
{
}

/// Asking again for a database on a connection that is bound changes
/// nothing: the allocation rests at once, bound to the database that is
/// selected, and so it does however often it is asked.
pub proof fn law_allocation_idempotent(ctx: RedisCtx, state: AllocState)
    requires
        ctx.db != 0,
        state is Unbound || state is Bound || state is Exhausted,
    ensures
        ({
            let once = select_database_step(ctx, state, AllocEvent::Start);
            let twice = select_database_step(once.ctx, once.state, AllocEvent::Start);
            &&& once.ctx == ctx
            &&& once.state == AllocState::Bound(ctx.db)
            &&& once.action is Stop
            &&& twice == once
        }),
{
}

} // verus!
