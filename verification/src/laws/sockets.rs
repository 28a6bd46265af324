//! Laws about sockets and the threads that use them.
use crate::iocp::{
    has_stream, is_fresh_buffer, signed_byte, stream_position, QueuedStream, UnixStreamSink,
    ACCEPT_BUFFER_LEN, BUFFER_SIZE, INFINITE, MAX_COMPLETION_EVENTS, PRUNE_INTERVAL_NS,
    SOCKET_ERROR, STOP_PACKET_KEY, SUN_PATH_LEN, UNIX_ADDR_LEN, WSA_IO_PENDING,
};
use crate::winsock::{init_after, init_run, init_start, init_turn, InitState, InitStep};
use vstd::prelude::*;

verus! {

/// A byte keeps its eight bits when it is taken as a signed number.
pub proof fn signed_bytes_keep_their_bits(byte: u8)
    ensures
        -0x80 <= signed_byte(byte) <= 0x7F,
        signed_byte(byte) % 0x100 == byte,
{
}

/// A fresh buffer holds 32768 zeros.
pub proof fn fresh_buffers_hold_zeros(buffer: Seq<u8>)
    ensures
        is_fresh_buffer(buffer) <==> buffer.len() == 32768 && forall|i: int|
            0 <= i < buffer.len() ==> #[trigger] buffer[i] == 0,
{
    if buffer.len() == 32768 && (forall|i: int| 0 <= i < buffer.len() ==> #[trigger] buffer[i] == 0) {
        assert(buffer =~= Seq::new(BUFFER_SIZE as nat, |i: int| 0u8));
    }
}

/// A stream is found behind streams with other keys, whatever follows it. Where all streams have
/// other keys, there is none.
pub proof fn streams_are_found_by_their_key<S>(
    before: Seq<QueuedStream<S>>,
    stream: QueuedStream<S>,
    after: Seq<QueuedStream<S>>,
)
    requires
        forall|i: int| 0 <= i < before.len() ==> (#[trigger] before[i]).token != stream.token,
    ensures
        ({
            let queue = before.push(stream) + after;
            &&& has_stream(queue, stream.token)
            &&& stream_position(queue, stream.token, before.len() as int)
            &&& forall|at: int| #[trigger]
                stream_position(queue, stream.token, at) ==> at == before.len()
        }),
        !has_stream(before, stream.token),
{
    let queue = before.push(stream) + after;
    let at = before.len() as int;
    assert(queue[at] == stream);
    assert forall|i: int| 0 <= i < at implies (#[trigger] queue[i]).token != stream.token by {
        assert(queue[i] == before[i]);
    }
    assert forall|other: int| #[trigger]
        stream_position(queue, stream.token, other) implies other == at by {
        if at < other {
            assert(queue[at].token != stream.token);
        }
        if other < at {
            assert(queue[other].token != stream.token);
        }
    }
}

/// While a listener runs, exactly one stream waits to be accepted, and it is the newest.
pub proof fn one_stream_waits<S>(sink: UnixStreamSink<S>, at: int)
    requires
        sink.one_accept_pending(),
        0 <= at < sink.queue().len(),
    ensures
        !sink.queue()[at].reading <==> at == sink.queue().len() - 1,
        !sink.all_reading(),
{
    assert(!sink.queue()[sink.queue().len() - 1].reading);
}

/// A key is known to the clean-up exactly if it is that of the listener or of a stream.
pub proof fn known_keys_have_an_owner<S>(sink: UnixStreamSink<S>, key: usize)
    ensures
        sink.is_known(sink.key()),
        key != sink.key() ==> (sink.is_known(key) <==> exists|i: int|
            0 <= i < sink.queue().len() && (#[trigger] sink.queue()[i]).token == key),
{
}

/// The numbers that the operating system asks for.
pub proof fn socket_numbers_are_fixed()
    ensures
        SUN_PATH_LEN == 108,
        UNIX_ADDR_LEN == 2 + 108,
        SOCKET_ERROR == -1,
        MAX_COMPLETION_EVENTS == 8,
        ACCEPT_BUFFER_LEN == 2 * (UNIX_ADDR_LEN + 16),
        INFINITE == 0xFFFF_FFFFu32,
        WSA_IO_PENDING == 997,
        STOP_PACKET_KEY == usize::MAX,
        PRUNE_INTERVAL_NS == 10 * 60 * 1_000_000_000,
{
}

/// A thread starts the socket interface only if it saw that no one has, says so, and undoes its
/// start exactly if it saw then that another one had said so first.
pub proof fn threads_start_the_interface_in_turn(initialized: bool)
    ensures
        init_after(InitStep::Load, true) == InitStep::Done,
        init_after(InitStep::Load, false) == InitStep::Startup,
        init_after(InitStep::Startup, initialized) == InitStep::Swap,
        init_after(InitStep::Swap, false) == InitStep::Done,
        init_after(InitStep::Swap, true) == InitStep::Cleanup,
        init_after(InitStep::Cleanup, initialized) == InitStep::Done,
        init_after(InitStep::Done, initialized) == InitStep::Done,
{
}

/// A turn of a thread moves that thread alone. A start counts one up and an undone one counts one
/// down, and the flag is set once and for all.
pub proof fn turns_move_one_thread(state: InitState, t: int)
    requires
        0 <= t < state.threads.len(),
    ensures
        init_turn(state, t).threads.len() == state.threads.len(),
        init_turn(state, t).threads[t] == init_after(state.threads[t], state.initialized),
        forall|other: int|
            0 <= other < state.threads.len() && other != t ==> #[trigger] init_turn(
                state,
                t,
            ).threads[other] == state.threads[other],
        state.threads[t] == InitStep::Startup ==> init_turn(state, t).started == state.started + 1,
        state.threads[t] == InitStep::Cleanup ==> init_turn(state, t).started == state.started - 1,
        state.threads[t] != InitStep::Startup && state.threads[t] != InitStep::Cleanup ==> init_turn(
            state,
            t,
        ).started == state.started,
        init_turn(state, t).initialized <==> state.initialized || state.threads[t]
            == InitStep::Swap,
{
}

/// Threads begin by looking, and take their turns one by one.
pub proof fn runs_are_made_of_turns(threads: nat, state: InitState, turns: Seq<int>, t: int)
    ensures
        !init_start(threads).initialized,
        init_start(threads).started == 0,
        init_start(threads).threads.len() == threads,
        0 <= t < threads ==> init_start(threads).threads[t] == InitStep::Load,
        init_run(state, Seq::<int>::empty()) == state,
        init_run(state, turns.push(t)) == init_turn(init_run(state, turns), t),
{
    assert(turns.push(t).drop_last() =~= turns);
}

} // verus!
