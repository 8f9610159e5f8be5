use nvticache::allocator::{select_database_result, AllocAction, AllocEvent, AllocState};
use nvticache::cache::NvtCache;
use nvticache::command::Command;
use nvticache::context::RedisCtx;
use nvticache::error::DbError;
use redis::{ErrorKind, RedisError};

/// A store that is shared by several connections. A database can be
/// selected by one connection only; `marked` holds the databases whose
/// owner has left its mark, which is what a probe sees.
struct SharedStore {
    count_reply: Result<Vec<String>, RedisError>,
    databases: u32,
    selected: Vec<u32>,
    marked: Vec<u32>,
}

fn refusal() -> RedisError {
    RedisError::from((ErrorKind::Client, "database is taken"))
}

fn store_with(databases: u32) -> SharedStore {
    SharedStore {
        count_reply: Ok(vec![String::from("databases"), databases.to_string()]),
        databases,
        selected: Vec::new(),
        marked: Vec::new(),
    }
}

fn probe(store: &SharedStore, index: u32) -> bool {
    !store.marked.contains(&index)
}

fn select(store: &mut SharedStore, index: u32) -> Result<String, RedisError> {
    if index < store.databases && !store.selected.contains(&index) {
        store.selected.push(index);
        store.marked.push(index);
        Ok(String::from("OK"))
    } else {
        Err(refusal())
    }
}

/// What one allocation did.
struct Trace {
    state: AllocState,
    counts: usize,
    probes: Vec<u32>,
    selects: Vec<u32>,
    answers: usize,
}

fn answer(store: &mut SharedStore, action: &AllocAction, trace: &mut Trace) -> AllocEvent {
    trace.answers += 1;
    match action {
        AllocAction::Send(Command::ConfigGetDatabases) => {
            trace.counts += 1;
            AllocEvent::Count(store.count_reply.clone())
        }
        AllocAction::Send(Command::Select(index)) => {
            trace.selects.push(*index);
            AllocEvent::Selected(select(store, *index))
        }
        AllocAction::Probe(index) => {
            trace.probes.push(*index);
            AllocEvent::Probed(probe(store, *index))
        }
        other => panic!("the allocation asked for {:?}", other),
    }
}

fn allocate(ctx: &mut RedisCtx, store: &mut SharedStore) -> Trace {
    let mut trace =
        Trace { state: AllocState::Unbound, counts: 0, probes: Vec::new(), selects: Vec::new(), answers: 0 };
    let (mut state, mut action) = ctx.select_database(AllocState::Unbound, AllocEvent::Start);
    while action != AllocAction::Stop {
        assert!(trace.answers < 1000, "the allocation does not come to rest");
        let event = answer(store, &action, &mut trace);
        let next = ctx.select_database(state, event);
        state = next.0;
        action = next.1;
    }
    trace.state = state;
    trace
}

fn no_free_database() -> DbError {
    DbError::CustomErr(String::from("Not possible to select a free database."))
}

#[test]
fn allocation_claims_the_first_database_of_an_empty_store() {
    let mut store = store_with(4);
    let mut ctx = RedisCtx::new();
    let trace = allocate(&mut ctx, &mut store);
    assert_eq!(trace.state, AllocState::Bound(1));
    assert_eq!(ctx, RedisCtx { db: 1, maxdb: 4 });
    assert_eq!(trace.counts, 1);
    assert_eq!(trace.probes, vec![1]);
    assert_eq!(trace.selects, vec![1]);
    assert_eq!(select_database_result(trace.state), Ok(1));
}

#[test]
fn allocation_passes_over_databases_that_look_taken() {
    let mut store = store_with(5);
    store.selected = vec![1, 2];
    store.marked = vec![1, 2];
    let mut ctx = RedisCtx::new();
    let trace = allocate(&mut ctx, &mut store);
    assert_eq!(trace.state, AllocState::Bound(3));
    assert_eq!(ctx.db, 3);
    assert_eq!(trace.probes, vec![1, 2, 3]);
    assert_eq!(trace.selects, vec![3]);
}

#[test]
fn allocation_goes_on_after_a_refused_selection() {
    // Database 1 was claimed by a process that has not left its mark yet:
    // the probe sees it free and the selection is refused.
    let mut store = store_with(4);
    store.selected = vec![1];
    let mut ctx = RedisCtx::new();
    let trace = allocate(&mut ctx, &mut store);
    assert_eq!(trace.state, AllocState::Bound(2));
    assert_eq!(ctx.db, 2);
    assert_eq!(trace.probes, vec![1, 2]);
    assert_eq!(trace.selects, vec![1, 2]);
}

#[test]
fn allocation_is_exhausted_when_every_database_is_taken() {
    let mut store = store_with(4);
    store.selected = vec![1, 2, 3];
    store.marked = vec![1, 3];
    let mut ctx = RedisCtx::new();
    let trace = allocate(&mut ctx, &mut store);
    assert_eq!(trace.state, AllocState::Exhausted);
    assert_eq!(ctx, RedisCtx { db: 0, maxdb: 4 });
    assert_eq!(trace.probes, vec![1, 2, 3]);
    assert_eq!(trace.selects, vec![2]);
    assert_eq!(select_database_result(trace.state), Err(no_free_database()));
}

#[test]
fn allocation_never_tries_database_zero_nor_one_past_the_last() {
    for databases in 0..8u32 {
        let mut store = store_with(databases);
        store.selected = (0..databases).collect();
        let mut ctx = RedisCtx::new();
        let trace = allocate(&mut ctx, &mut store);
        assert_eq!(trace.state, AllocState::Exhausted);
        let expected: Vec<u32> = (1..databases).collect();
        assert_eq!(trace.probes, expected);
        assert_eq!(trace.selects, expected);
    }
}

#[test]
fn allocation_fails_at_once_when_the_count_is_unknown() {
    let replies = [
        vec![],
        vec![String::from("databases")],
        vec![String::from("databases"), String::from("many")],
        vec![String::from("databases"), String::from("0")],
        vec![String::from("databases"), String::from("16"), String::from("x")],
    ];
    for reply in replies {
        let mut store = store_with(16);
        store.count_reply = Ok(reply);
        let mut ctx = RedisCtx::new();
        let trace = allocate(&mut ctx, &mut store);
        assert_eq!(trace.state, AllocState::Exhausted);
        assert_eq!(ctx, RedisCtx::new());
        assert_eq!(trace.answers, 1);
        assert!(trace.probes.is_empty());
        assert!(trace.selects.is_empty());
        assert_eq!(select_database_result(trace.state), Err(no_free_database()));
    }
}

#[test]
fn allocation_with_a_single_database_has_no_candidate() {
    let mut store = store_with(1);
    let mut ctx = RedisCtx::new();
    let trace = allocate(&mut ctx, &mut store);
    assert_eq!(trace.state, AllocState::Exhausted);
    assert_eq!(ctx, RedisCtx { db: 0, maxdb: 1 });
    assert!(trace.probes.is_empty());
}

#[test]
fn allocation_ends_unbound_when_the_count_cannot_be_asked() {
    let mut store = store_with(4);
    store.count_reply = Err(RedisError::from((ErrorKind::Io, "connection dropped")));
    let mut ctx = RedisCtx::new();
    let trace = allocate(&mut ctx, &mut store);
    assert_eq!(trace.state, AllocState::Unbound);
    assert_eq!(ctx, RedisCtx::new());
    assert_eq!(trace.answers, 1);
    assert!(trace.probes.is_empty());
    assert_eq!(select_database_result(trace.state), Err(no_free_database()));
    // The caller may try again once the store answers.
    store.count_reply = Ok(vec![String::from("databases"), String::from("4")]);
    let trace = allocate(&mut ctx, &mut store);
    assert_eq!(trace.state, AllocState::Bound(1));
}

#[test]
fn allocation_does_not_ask_for_a_count_it_knows() {
    let mut store = store_with(4);
    let mut ctx = RedisCtx { db: 0, maxdb: 4 };
    let first = ctx.select_database(AllocState::Unbound, AllocEvent::Start);
    assert_eq!(first, (AllocState::Probing(1), AllocAction::Probe(1)));
    let trace = allocate(&mut ctx, &mut store);
    assert_eq!(trace.counts, 0);
    assert_eq!(trace.state, AllocState::Bound(1));
}

#[test]
fn allocation_on_a_bound_connection_is_a_no_op() {
    let mut store = store_with(4);
    let mut ctx = RedisCtx::new();
    let first = allocate(&mut ctx, &mut store);
    assert_eq!(first.state, AllocState::Bound(1));
    let bound = ctx.clone();
    for _ in 0..3 {
        let again = allocate(&mut ctx, &mut store);
        assert_eq!(again.state, AllocState::Bound(1));
        assert_eq!(again.answers, 0);
        assert_eq!(ctx, bound);
        assert_eq!(select_database_result(again.state), Ok(1));
    }
    assert_eq!(store.selected, vec![1]);
}

#[test]
fn start_on_a_bound_connection_rests_at_once() {
    let mut ctx = RedisCtx { db: 7, maxdb: 0 };
    for state in [AllocState::Unbound, AllocState::Bound(7), AllocState::Exhausted] {
        let step = ctx.select_database(state, AllocEvent::Start);
        assert_eq!(step, (AllocState::Bound(7), AllocAction::Stop));
        assert_eq!(ctx, RedisCtx { db: 7, maxdb: 0 });
    }
}

#[test]
fn two_connections_race_for_the_only_database() {
    let mut store = store_with(2);
    let mut a = RedisCtx::new();
    let mut b = RedisCtx::new();
    let mut trace_a =
        Trace { state: AllocState::Unbound, counts: 0, probes: vec![], selects: vec![], answers: 0 };
    let mut trace_b =
        Trace { state: AllocState::Unbound, counts: 0, probes: vec![], selects: vec![], answers: 0 };

    // Both learn the count and both see database 1 free.
    let (mut sa, mut aa) = a.select_database(AllocState::Unbound, AllocEvent::Start);
    let (mut sb, mut ab) = b.select_database(AllocState::Unbound, AllocEvent::Start);
    for _ in 0..2 {
        let ea = answer(&mut store, &aa, &mut trace_a);
        let eb = answer(&mut store, &ab, &mut trace_b);
        (sa, aa) = a.select_database(sa, ea);
        (sb, ab) = b.select_database(sb, eb);
    }
    assert_eq!(aa, AllocAction::Send(Command::Select(1)));
    assert_eq!(ab, AllocAction::Send(Command::Select(1)));

    // The store grants the selection to the one that comes first.
    let ea = answer(&mut store, &aa, &mut trace_a);
    let eb = answer(&mut store, &ab, &mut trace_b);
    (sa, aa) = a.select_database(sa, ea);
    (sb, ab) = b.select_database(sb, eb);

    assert_eq!((sa, aa), (AllocState::Bound(1), AllocAction::Stop));
    assert_eq!((sb, ab), (AllocState::Exhausted, AllocAction::Stop));
    assert_eq!(a.db, 1);
    assert_eq!(b.db, 0);
    assert_eq!(select_database_result(sa), Ok(1));
    assert_eq!(select_database_result(sb), Err(no_free_database()));
    assert!(NvtCache::init(a, select_database_result(sa)).is_ok());
    assert!(NvtCache::init(b, select_database_result(sb)).is_err());
}

#[test]
fn two_connections_one_after_the_other_get_different_databases() {
    let mut store = store_with(3);
    let mut a = RedisCtx::new();
    let mut b = RedisCtx::new();
    let mut c = RedisCtx::new();
    assert_eq!(allocate(&mut a, &mut store).state, AllocState::Bound(1));
    assert_eq!(allocate(&mut b, &mut store).state, AllocState::Bound(2));
    assert_eq!(allocate(&mut c, &mut store).state, AllocState::Exhausted);
}

#[test]
fn allocation_ends_as_the_answers_say_for_every_small_store() {
    // Every combination of probe and selection answers for up to 5 databases.
    for databases in 0..6u32 {
        let candidates = databases.saturating_sub(1);
        for looks_free in 0..(1u32 << candidates) {
            for granted in 0..(1u32 << candidates) {
                let mut store = store_with(databases);
                for i in 1..databases {
                    if looks_free & (1 << (i - 1)) == 0 {
                        store.marked.push(i);
                    }
                    if granted & (1 << (i - 1)) == 0 {
                        store.selected.push(i);
                    }
                }
                let winner =
                    (1..databases).find(|i| looks_free & granted & (1 << (i - 1)) != 0);
                let mut ctx = RedisCtx::new();
                let trace = allocate(&mut ctx, &mut store);
                assert!(trace.answers as u32 <= 2 * databases + 1);
                assert_eq!(ctx.maxdb, databases);
                match winner {
                    Some(w) => {
                        assert_eq!(trace.state, AllocState::Bound(w));
                        assert_eq!(ctx.db, w);
                        assert!(1 <= w && w < databases);
                        assert_eq!(trace.probes, (1..=w).collect::<Vec<u32>>());
                    }
                    None => {
                        assert_eq!(trace.state, AllocState::Exhausted);
                        assert_eq!(ctx.db, 0);
                        assert_eq!(trace.probes, (1..databases).collect::<Vec<u32>>());
                    }
                }
            }
        }
    }
}

#[test]
fn an_event_that_answers_nothing_is_ignored() {
    let mut ctx = RedisCtx { db: 0, maxdb: 4 };
    let before = ctx.clone();
    assert_eq!(
        ctx.select_database(AllocState::Probing(2), AllocEvent::Start),
        (AllocState::Probing(2), AllocAction::Probe(2))
    );
    assert_eq!(
        ctx.select_database(AllocState::Probing(2), AllocEvent::Selected(Ok(String::from("OK")))),
        (AllocState::Probing(2), AllocAction::Probe(2))
    );
    assert_eq!(
        ctx.select_database(AllocState::Selecting(2), AllocEvent::Probed(true)),
        (AllocState::Selecting(2), AllocAction::Send(Command::Select(2)))
    );
    assert_eq!(
        ctx.select_database(AllocState::Exhausted, AllocEvent::Probed(true)),
        (AllocState::Exhausted, AllocAction::Stop)
    );
    assert_eq!(
        ctx.select_database(AllocState::Unbound, AllocEvent::Selected(Ok(String::from("OK")))),
        (AllocState::Unbound, AllocAction::Stop)
    );
    assert_eq!(ctx, before);
    let mut fresh = RedisCtx::new();
    assert_eq!(
        fresh.select_database(AllocState::Counting, AllocEvent::Probed(false)),
        (AllocState::Counting, AllocAction::Send(Command::ConfigGetDatabases))
    );
    assert_eq!(fresh, RedisCtx::new());
}

#[test]
fn the_last_candidate_of_the_largest_store_does_not_overflow() {
    let mut ctx = RedisCtx { db: 0, maxdb: u32::MAX };
    assert_eq!(
        ctx.select_database(AllocState::Probing(u32::MAX - 1), AllocEvent::Probed(false)),
        (AllocState::Exhausted, AllocAction::Stop)
    );
    assert_eq!(
        ctx.select_database(AllocState::Probing(u32::MAX - 2), AllocEvent::Probed(false)),
        (AllocState::Probing(u32::MAX - 1), AllocAction::Probe(u32::MAX - 1))
    );
    assert_eq!(
        ctx.select_database(AllocState::Probing(u32::MAX), AllocEvent::Probed(false)),
        (AllocState::Exhausted, AllocAction::Stop)
    );
}

#[test]
fn result_of_a_state_is_the_database_only_when_bound() {
    assert_eq!(select_database_result(AllocState::Bound(9)), Ok(9));
    for state in [
        AllocState::Unbound,
        AllocState::Counting,
        AllocState::Probing(1),
        AllocState::Selecting(1),
        AllocState::Exhausted,
    ] {
        assert_eq!(select_database_result(state), Err(no_free_database()));
    }
}
