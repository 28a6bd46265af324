//! Starting the socket interface of the operating system once, however many threads ask for it.
use vstd::prelude::*;

verus! {

/// How far a thread has come with starting the socket interface.
#[derive(Debug, Clone, Copy, PartialEq, Eq, Structural)]
pub enum InitStep {
    /// Look whether the interface has been started.
    Load,
    /// Start it.
    Startup,
    /// Say that it has been started, and see whether someone else has said so already.
    Swap,
    /// Undo the start, since another thread was first.
    Cleanup,
    Done,
}

/// What a thread does next. `initialized` is what it saw of the common flag, where it looked.
pub open spec fn init_after(step: InitStep, initialized: bool) -> InitStep {
    match step {
        InitStep::Load => if initialized {
            InitStep::Done
        } else {
            InitStep::Startup
        },
        InitStep::Startup => InitStep::Swap,
        InitStep::Swap => if initialized {
            InitStep::Cleanup
        } else {
            InitStep::Done
        },
        InitStep::Cleanup => InitStep::Done,
        InitStep::Done => InitStep::Done,
    }
}

/// What a thread does next. `initialized` is what it saw of the common flag, where it looked.
pub fn init(step: InitStep, initialized: bool) -> (next: InitStep)
    ensures
        next == init_after(step, initialized),
{
    match step {
        InitStep::Load => if initialized {
            InitStep::Done
        } else {
            InitStep::Startup
        },
        InitStep::Startup => InitStep::Swap,
        InitStep::Swap => if initialized {
            InitStep::Cleanup
        } else {
            InitStep::Done
        },
        InitStep::Cleanup | InitStep::Done => InitStep::Done,
    }
}

/// All threads that ask for the interface, the flag they share, and how often the interface has
/// been started and not undone.
pub struct InitState {
    pub initialized: bool,
    pub threads: Seq<InitStep>,
    pub started: int,
}

/// No thread has done anything yet.
pub open spec fn init_start(threads: nat) -> InitState {
    InitState {
        initialized: false,
        threads: Seq::new(threads, |i: int| InitStep::Load),
        started: 0,
    }
}

/// The thread `t` does what it is to do next.
pub open spec fn init_turn(state: InitState, t: int) -> InitState {
    let step = state.threads[t];
    InitState {
        initialized: state.initialized || step == InitStep::Swap,
        threads: state.threads.update(t, init_after(step, state.initialized)),
        started: if step == InitStep::Startup {
            state.started + 1
        } else if step == InitStep::Cleanup {
            state.started - 1
        } else {
            state.started
        },
    }
}

/// The threads take turns in some order.
pub open spec fn init_run(state: InitState, turns: Seq<int>) -> InitState
    decreases turns.len(),
{
    if turns.len() == 0 {
        state
    } else {
        init_turn(init_run(state, turns.drop_last()), turns.last())
    }
}

/// How many threads have started the interface and not yet found out whether they were first.
pub open spec fn undecided(threads: Seq<InitStep>) -> int
    decreases threads.len(),
{
    if threads.len() == 0 {
        0
    } else {
        undecided(threads.drop_last()) + (if is_undecided(threads.last()) {
            1int
        } else {
            0
        })
    }
}

pub open spec fn is_undecided(step: InitStep) -> bool {
    step == InitStep::Swap || step == InitStep::Cleanup
}

proof fn lemma_undecided_update(threads: Seq<InitStep>, t: int, step: InitStep)
    requires
        0 <= t < threads.len(),
    ensures
        undecided(threads.update(t, step)) == undecided(threads) - (if is_undecided(threads[t]) {
            1int
        } else {
            0
        }) + (if is_undecided(step) {
            1int
        } else {
            0
        }),
    decreases threads.len(),
{
    let updated = threads.update(t, step);
    if t == threads.len() - 1 {
        assert(updated.drop_last() =~= threads.drop_last());
    } else {
        lemma_undecided_update(threads.drop_last(), t, step);
        assert(updated.drop_last() =~= threads.drop_last().update(t, step));
    }
}

proof fn lemma_none_undecided(threads: Seq<InitStep>)
    requires
        forall|i: int| 0 <= i < threads.len() ==> !is_undecided(#[trigger] threads[i]),
    ensures
        undecided(threads) == 0,
    decreases threads.len(),
{
    if threads.len() > 0 {
        assert forall|i: int| 0 <= i < threads.drop_last().len() implies !is_undecided(
            #[trigger] threads.drop_last()[i],
        ) by {
            assert(!is_undecided(threads[i]));
        }
        lemma_none_undecided(threads.drop_last());
        assert(!is_undecided(threads[threads.len() - 1]));
    }
}

proof fn lemma_run(threads: nat, turns: Seq<int>)
    requires
        forall|i: int| 0 <= i < turns.len() ==> 0 <= #[trigger] turns[i] < threads,
    ensures
        ({
            let state = init_run(init_start(threads), turns);
            &&& state.threads.len() == threads
            &&& state.started == (if state.initialized {
                1int
            } else {
                0
            }) + undecided(state.threads)
            &&& forall|i: int|
                0 <= i < threads && #[trigger] state.threads[i] == InitStep::Done
                    ==> state.initialized
            &&& forall|i: int|
                0 <= i < threads && #[trigger] state.threads[i] == InitStep::Cleanup
                    ==> state.initialized
        }),
    decreases turns.len(),
{
    if turns.len() == 0 {
        lemma_none_undecided(init_start(threads).threads);
    } else {
        let before = turns.drop_last();
        assert forall|i: int| 0 <= i < before.len() implies 0 <= #[trigger] before[i] < threads by {
            assert(0 <= turns[i] < threads);
        }
        lemma_run(threads, before);
        let state = init_run(init_start(threads), before);
        let t = turns.last();
        assert(turns[turns.len() - 1] == t);
        lemma_undecided_update(
            state.threads,
            t,
            init_after(state.threads[t], state.initialized),
        );
    }
}

/// However the threads take turns: once all of them are done, it is as though the interface had
/// been started once.
pub proof fn started_once(threads: nat, turns: Seq<int>)
    requires
        threads > 0,
        forall|i: int| 0 <= i < turns.len() ==> 0 <= #[trigger] turns[i] < threads,
        forall|i: int|
            0 <= i < threads ==> #[trigger] init_run(init_start(threads), turns).threads[i]
                == InitStep::Done,
    ensures
        init_run(init_start(threads), turns).started == 1,
{
    lemma_run(threads, turns);
    let state = init_run(init_start(threads), turns);
    lemma_none_undecided(state.threads);
    assert(state.threads[0] == InitStep::Done);
}

/// No thread that is done goes on without the interface: it is started then.
pub proof fn started_where_done(threads: nat, turns: Seq<int>, t: int)
    requires
        forall|i: int| 0 <= i < turns.len() ==> 0 <= #[trigger] turns[i] < threads,
        0 <= t < threads,
        init_run(init_start(threads), turns).threads[t] == InitStep::Done,
    ensures
        init_run(init_start(threads), turns).started >= 1,
{
    lemma_run(threads, turns);
    lemma_undecided_nonnegative(init_run(init_start(threads), turns).threads);
}

proof fn lemma_undecided_nonnegative(threads: Seq<InitStep>)
    ensures
        undecided(threads) >= 0,
    decreases threads.len(),
{
    if threads.len() > 0 {
        lemma_undecided_nonnegative(threads.drop_last());
    }
}

} // verus!
