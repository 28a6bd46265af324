//! Sockets with completion ports: what the answers of the operating system mean, and the order in
//! which a listener accepts, reads and hands on its streams.
use std::collections::VecDeque;
use vstd::prelude::*;

verus! {

// ---------------------------------------------------------------------------------------------
// Addresses, time limits and answers
// ---------------------------------------------------------------------------------------------

/// The room for a path in the address of a socket.
pub const SUN_PATH_LEN: usize = 108;

/// The length of the address of a socket: a family of two bytes, and a path.
pub const UNIX_ADDR_LEN: u32 = 110;

/// The room that an accepted connection needs for both its addresses, each with the 16 bytes more
/// that the operating system asks for.
pub const ACCEPT_BUFFER_LEN: usize = 252;

/// A time limit that never passes.
pub const INFINITE: u32 = 0xFFFF_FFFF;

/// What a socket call answers when it fails.
pub const SOCKET_ERROR: i32 = -1;

/// The error of an operation that has been started and will complete later.
pub const WSA_IO_PENDING: i32 = 997;

/// Why a path does not fit into an address.
#[derive(Debug, Clone, Copy, PartialEq, Eq, Structural)]
pub struct SocketPathTooLong;

impl SocketPathTooLong {
    /// What the error says.
    pub fn message(&self) -> (message: &'static str)
        ensures
            message@ == "socket path is too long"@,
    {
        "socket path is too long"
    }
}

/// A byte as a signed number.
pub open spec fn signed_byte(byte: u8) -> int {
    if byte < 0x80 {
        byte as int
    } else {
        byte - 0x100
    }
}

fn to_signed(byte: u8) -> (signed: i8)
    ensures
        signed == signed_byte(byte),
{
    if byte < 0x80 {
        byte as i8
    } else {
        (byte as i16 - 0x100) as i8
    }
}

/// The path part of a socket address: the bytes of the path, and zeros behind them.
pub fn sockaddr_un(path: &[u8]) -> (result: Result<[i8; 108], SocketPathTooLong>)
    ensures
        path@.len() > SUN_PATH_LEN <==> result == Err::<[i8; 108], SocketPathTooLong>(
            SocketPathTooLong,
        ),
        path@.len() <= SUN_PATH_LEN <==> result is Ok,
        result matches Ok(sun_path) ==> forall|i: int|
            0 <= i < SUN_PATH_LEN ==> #[trigger] sun_path@[i] == (if i < path@.len() {
                signed_byte(path@[i])
            } else {
                0
            }),
{
    if path.len() > SUN_PATH_LEN {
        return Err(SocketPathTooLong);
    }
    let mut sun_path: [i8; 108] = [0i8;108];
    let mut idx: usize = 0;
    while idx < path.len()
        invariant
            idx <= path@.len() <= SUN_PATH_LEN,
            forall|i: int|
                0 <= i < SUN_PATH_LEN ==> #[trigger] sun_path@[i] == (if i < idx {
                    signed_byte(path@[i])
                } else {
                    0
                }),
        decreases path@.len() - idx,
    {
        sun_path[idx] = to_signed(path[idx]);
        idx = idx + 1;
    }
    Ok(sun_path)
}

/// A time limit in milliseconds as the operating system takes it: none is the limit that never
/// passes, and of a longer one only the lowest 32 bits count.
pub fn timeout_ms(millis: Option<u128>) -> (limit: u32)
    ensures
        limit == (match millis {
            Some(ms) => ms as int % 0x1_0000_0000,
            None => INFINITE as int,
        }),
{
    match millis {
        Some(ms) => (ms % 0x1_0000_0000) as u32,
        None => INFINITE,
    }
}

/// What a socket call came to: its last error where it failed, else the number of bytes.
pub fn socket_outcome(answer: i32, last_error: i32) -> (result: Result<u32, i32>)
    ensures
        answer == SOCKET_ERROR ==> result == Err::<u32, i32>(last_error),
        answer != SOCKET_ERROR ==> result == Ok::<u32, i32>(answer as u32),
{
    if answer == SOCKET_ERROR {
        Err(last_error)
    } else {
        Ok(answer as u32)
    }
}

/// What the start of an operation came to that completes later: it failed only if there is an
/// error other than that it is under way. The number of bytes is zero unless it completed at once.
pub fn overlapped_outcome(failed: bool, last_error: i32, bytes_transferred: u32) -> (result: Result<
    u32,
    i32,
>)
    ensures
        failed && last_error != WSA_IO_PENDING <==> result == Err::<u32, i32>(last_error),
        !(failed && last_error != WSA_IO_PENDING) <==> result == Ok::<u32, i32>(bytes_transferred),
{
    if failed && last_error != WSA_IO_PENDING {
        Err(last_error)
    } else {
        Ok(bytes_transferred)
    }
}

/// What a stream keeps alive while an operation is under way.
#[derive(Debug)]
pub struct OverlappedContext {
    pub buffer: Option<Vec<u8>>,
    pub flags: u32,
}

impl OverlappedContext {
    /// Nothing under way, and room for what an operation needs.
    pub fn new(buffer: Option<Vec<u8>>) -> (context: Self)
        ensures
            context.buffer == buffer,
            context.flags == 0,
    {
        OverlappedContext { buffer, flags: 0 }
    }

    /// Gets ready for a read into a buffer, which is kept from now on.
    pub fn begin_read(&mut self, buffer: Vec<u8>)
        ensures
            final(self).buffer == Some(buffer),
            final(self).flags == 0,
    {
        self.flags = 0;
        self.buffer = Some(buffer);
    }

    /// Gets ready for a write.
    pub fn begin_write(&mut self)
        ensures
            final(self).buffer == old(self).buffer,
            final(self).flags == 0,
    {
        self.flags = 0;
    }
}

/// A connected stream. `S` is the socket of the operating system.
#[derive(Debug)]
pub struct UnixStream<S> {
    pub socket: S,
    pub overlapped_context: OverlappedContext,
}

impl<S> UnixStream<S> {
    /// A stream without anything under way.
    pub fn new(socket: S) -> (stream: Self)
        ensures
            stream.socket == socket,
            stream.overlapped_context.buffer is None,
            stream.overlapped_context.flags == 0,
    {
        UnixStream { socket, overlapped_context: OverlappedContext::new(None) }
    }

    /// Hands out the buffer of the last read, and forgets it.
    pub fn take_overlapped_buffer(&mut self) -> (buffer: Option<Vec<u8>>)
        ensures
            buffer == old(self).overlapped_context.buffer,
            final(self).overlapped_context.buffer is None,
            final(self).overlapped_context.flags == old(self).overlapped_context.flags,
            final(self).socket == old(self).socket,
    {
        self.overlapped_context.buffer.take()
    }
}

// ---------------------------------------------------------------------------------------------
// A listener and its streams
// ---------------------------------------------------------------------------------------------

/// How many completions are taken at once.
pub const MAX_COMPLETION_EVENTS: usize = 8;

/// The length of a fresh read buffer.
pub const BUFFER_SIZE: usize = 32768;

/// The key of the packet that asks the listener to stop. No socket has it.
pub const STOP_PACKET_KEY: usize = usize::MAX;

/// How long spare buffers and old window states are kept, in nanoseconds: ten minutes.
pub const PRUNE_INTERVAL_NS: u128 = 600_000_000_000;

/// Whether it is time to drop what is no longer needed.
pub fn is_prune_due(elapsed_ns: u128) -> (due: bool)
    ensures
        due == (elapsed_ns > PRUNE_INTERVAL_NS),
{
    elapsed_ns > PRUNE_INTERVAL_NS
}

/// A stream with an operation under way.
#[derive(Debug)]
pub struct QueuedStream<S> {
    pub token: usize,
    /// Whether it is being read. Otherwise it waits to be accepted.
    pub reading: bool,
    pub stream: S,
}

/// What to do about a completed operation.
#[derive(Debug)]
pub enum SinkStep<S> {
    /// A stream was accepted: read it into this buffer, then let the next one be accepted.
    Read { token: usize, stream: S, buffer: Vec<u8> },
    /// A stream was read: hand on what is in its buffer, and give the buffer back.
    Deliver { stream: S },
    /// Finish the completions at hand, then clean up.
    Stop,
}

/// Why a completed operation makes no sense.
#[derive(Debug, Clone, Copy, PartialEq, Eq, Structural)]
pub enum SinkError {
    /// A stream was accepted, and none was waiting.
    NoStream,
    /// There is no stream with this key.
    UnknownStream,
}

/// The streams of a listener, and the buffers that are free.
#[derive(Debug)]
pub struct UnixStreamSink<S> {
    listener_key: usize,
    buffer_pool: VecDeque<Vec<u8>>,
    streams_queue: VecDeque<QueuedStream<S>>,
    should_cleanup: bool,
}

/// The place of the first stream with a token.
pub open spec fn stream_position<S>(queue: Seq<QueuedStream<S>>, token: usize, at: int) -> bool {
    &&& 0 <= at < queue.len()
    &&& queue[at].token == token
    &&& forall|i: int| 0 <= i < at ==> (#[trigger] queue[i]).token != token
}

/// Whether there is a stream with a token.
pub open spec fn has_stream<S>(queue: Seq<QueuedStream<S>>, token: usize) -> bool {
    exists|i: int| 0 <= i < queue.len() && (#[trigger] queue[i]).token == token
}

/// Whether a buffer is a fresh one.
pub open spec fn is_fresh_buffer(buffer: Seq<u8>) -> bool {
    buffer == Seq::new(BUFFER_SIZE as nat, |i: int| 0u8)
}

fn fresh_buffer() -> (buffer: Vec<u8>)
    ensures
        is_fresh_buffer(buffer@),
{
    let mut buffer: Vec<u8> = Vec::with_capacity(BUFFER_SIZE);
    let mut idx: usize = 0;
    while idx < BUFFER_SIZE
        invariant
            idx <= BUFFER_SIZE,
            buffer@ == Seq::new(idx as nat, |i: int| 0u8),
        decreases BUFFER_SIZE - idx,
    {
        buffer.push(0);
        assert(buffer@ =~= Seq::new((idx + 1) as nat, |i: int| 0u8));
        idx = idx + 1;
    }
    buffer
}

impl<S> UnixStreamSink<S> {
    /// The key of the listener itself.
    pub closed spec fn key(&self) -> usize {
        self.listener_key
    }

    /// The free buffers, the one that is used next first.
    pub closed spec fn pool(&self) -> Seq<Vec<u8>> {
        self.buffer_pool@
    }

    /// The streams with an operation under way, the oldest first.
    pub closed spec fn queue(&self) -> Seq<QueuedStream<S>> {
        self.streams_queue@
    }

    /// Whether the listener was asked to stop.
    pub closed spec fn stopping(&self) -> bool {
        self.should_cleanup
    }

    /// Whether every free buffer has the length of a fresh one.
    pub open spec fn has_full_buffers(&self) -> bool {
        forall|i: int|
            0 <= i < self.pool().len() ==> (#[trigger] self.pool()[i])@.len() == BUFFER_SIZE
    }

    /// Whether every stream is being read.
    pub open spec fn all_reading(&self) -> bool {
        forall|i: int| 0 <= i < self.queue().len() ==> (#[trigger] self.queue()[i]).reading
    }

    /// Whether one stream waits to be accepted, the newest, and every other one is being read.
    pub open spec fn one_accept_pending(&self) -> bool {
        &&& self.queue().len() > 0
        &&& !self.queue().last().reading
        &&& forall|i: int|
            0 <= i < self.queue().len() - 1 ==> (#[trigger] self.queue()[i]).reading
    }

    /// Whether the first stream with a token is being read.
    pub open spec fn is_reading(&self, token: usize) -> bool {
        exists|at: int| #[trigger]
            stream_position(self.queue(), token, at) && self.queue()[at].reading
    }

    pub fn new(listener_key: usize) -> (sink: Self)
        ensures
            sink.key() == listener_key,
            sink.pool() == Seq::<Vec<u8>>::empty(),
            sink.queue() == Seq::<QueuedStream<S>>::empty(),
            !sink.stopping(),
            sink.all_reading(),
            sink.has_full_buffers(),
    {
        UnixStreamSink {
            listener_key,
            buffer_pool: VecDeque::new(),
            streams_queue: VecDeque::new(),
            should_cleanup: false,
        }
    }

    /// Takes note of a stream that waits to be accepted.
    pub fn queue_accept(&mut self, token: usize, stream: S)
        ensures
            final(self).queue() == old(self).queue().push(
                QueuedStream { token, reading: false, stream },
            ),
            final(self).pool() == old(self).pool(),
            final(self).key() == old(self).key(),
            final(self).stopping() == old(self).stopping(),
            old(self).all_reading() ==> final(self).one_accept_pending(),
    {
        self.streams_queue.push_back(QueuedStream { token, reading: false, stream });
        assert forall|i: int|
            old(self).all_reading() && 0 <= i < self.queue().len() - 1 implies (
        #[trigger] self.queue()[i]).reading by {
            assert(old(self).queue()[i].reading);
        }
    }

    /// Takes note of a stream that is being read.
    pub fn queue_read(&mut self, token: usize, stream: S)
        ensures
            final(self).queue() == old(self).queue().push(
                QueuedStream { token, reading: true, stream },
            ),
            final(self).pool() == old(self).pool(),
            final(self).key() == old(self).key(),
            final(self).stopping() == old(self).stopping(),
            old(self).all_reading() ==> final(self).all_reading(),
    {
        self.streams_queue.push_back(QueuedStream { token, reading: true, stream });
        assert forall|i: int| old(self).all_reading() && 0 <= i < self.queue().len() implies (
        #[trigger] self.queue()[i]).reading by {
            if i < old(self).queue().len() {
                assert(old(self).queue()[i].reading);
            }
        }
    }

    /// Gives back a buffer that is no longer used.
    pub fn recycle(&mut self, buffer: Vec<u8>)
        ensures
            final(self).pool() == old(self).pool().push(buffer),
            final(self).queue() == old(self).queue(),
            final(self).key() == old(self).key(),
            final(self).stopping() == old(self).stopping(),
            old(self).has_full_buffers() && buffer@.len() == BUFFER_SIZE
                ==> final(self).has_full_buffers(),
    {
        self.buffer_pool.push_back(buffer);
        assert forall|i: int|
            old(self).has_full_buffers() && buffer@.len() == BUFFER_SIZE && 0 <= i
                < self.pool().len() implies (#[trigger] self.pool()[i])@.len() == BUFFER_SIZE by {
            if i < old(self).pool().len() {
                assert(old(self).pool()[i]@.len() == BUFFER_SIZE);
            }
        }
    }

    /// Drops all free buffers but one.
    pub fn prune(&mut self)
        ensures
            final(self).pool() == (if old(self).pool().len() > 1 {
                old(self).pool().take(1)
            } else {
                old(self).pool()
            }),
            final(self).queue() == old(self).queue(),
            final(self).key() == old(self).key(),
            final(self).stopping() == old(self).stopping(),
            old(self).has_full_buffers() ==> final(self).has_full_buffers(),
    {
        self.buffer_pool.truncate(1);
        assert(old(self).buffer_pool@.len() == 1 ==> self.buffer_pool@ =~= old(
            self,
        ).buffer_pool@);
        assert forall|i: int|
            old(self).has_full_buffers() && 0 <= i < self.pool().len() implies (
        #[trigger] self.pool()[i])@.len() == BUFFER_SIZE by {
            assert(old(self).pool()[i]@.len() == BUFFER_SIZE);
        }
    }

    fn find(&self, token: usize) -> (position: Option<usize>)
        ensures
            position is Some <==> has_stream(self.queue(), token),
            position matches Some(at) ==> stream_position(self.queue(), token, at as int),
    {
        let mut at: usize = 0;
        while at < self.streams_queue.len()
            invariant
                at <= self.streams_queue@.len(),
                forall|i: int| 0 <= i < at ==> (#[trigger] self.queue()[i]).token != token,
            decreases self.streams_queue@.len() - at,
        {
            if self.streams_queue[at].token == token {
                assert(self.queue()[at as int].token == token);
                return Some(at);
            }
            at = at + 1;
        }
        None
    }

    /// Deals with a completed operation: of the listener, of a stream, or the packet that asks to
    /// stop.
    ///
    /// A stream that was accepted leaves the queue: it goes back with
    /// [`UnixStreamSink::queue_read`] once its read has begun, and the next one to be accepted follows
    /// with [`UnixStreamSink::queue_accept`].
    pub fn on_completion(&mut self, key: usize) -> (result: Result<SinkStep<S>, SinkError>)
        ensures
            final(self).key() == old(self).key(),
            key == old(self).key() && old(self).queue().len() == 0 ==> {
                &&& result == Err::<SinkStep<S>, SinkError>(SinkError::NoStream)
                &&& final(self).queue() == old(self).queue()
                &&& final(self).pool() == old(self).pool()
                &&& final(self).stopping() == old(self).stopping()
            },
            key == old(self).key() && old(self).queue().len() > 0 ==> {
                &&& result matches Ok(SinkStep::Read { token, stream, buffer })
                &&& token == old(self).queue().last().token
                &&& stream == old(self).queue().last().stream
                &&& final(self).queue() == old(self).queue().drop_last()
                &&& final(self).stopping() == old(self).stopping()
                &&& if old(self).pool().len() > 0 {
                    &&& buffer == old(self).pool()[0]
                    &&& final(self).pool() == old(self).pool().skip(1)
                } else {
                    &&& is_fresh_buffer(buffer@)
                    &&& final(self).pool() == old(self).pool()
                }
            },
            key != old(self).key() && key == STOP_PACKET_KEY ==> {
                &&& result == Ok::<SinkStep<S>, SinkError>(SinkStep::Stop)
                &&& final(self).stopping()
                &&& final(self).queue() == old(self).queue()
                &&& final(self).pool() == old(self).pool()
            },
            key != old(self).key() && key != STOP_PACKET_KEY && !has_stream(
                old(self).queue(),
                key,
            ) ==> {
                &&& result == Err::<SinkStep<S>, SinkError>(SinkError::UnknownStream)
                &&& final(self).queue() == old(self).queue()
                &&& final(self).pool() == old(self).pool()
                &&& final(self).stopping() == old(self).stopping()
            },
            key != old(self).key() && key != STOP_PACKET_KEY && has_stream(
                old(self).queue(),
                key,
            ) ==> {
                &&& result matches Ok(SinkStep::Deliver { stream })
                &&& exists|at: int|
                    {
                        &&& #[trigger] stream_position(old(self).queue(), key, at)
                        &&& stream == old(self).queue()[at].stream
                        &&& final(self).queue() == old(self).queue().remove(at)
                    }
                &&& final(self).pool() == old(self).pool()
                &&& final(self).stopping() == old(self).stopping()
            },
            old(self).has_full_buffers() ==> final(self).has_full_buffers(),
            old(self).has_full_buffers() ==> (result matches Ok(SinkStep::Read { buffer, .. })
                ==> buffer@.len() == BUFFER_SIZE),
            old(self).one_accept_pending() && key == old(self).key() ==> final(self).all_reading(),
            old(self).one_accept_pending() && key != old(self).key() && (key == STOP_PACKET_KEY
                || old(self).is_reading(key)) ==> final(self).one_accept_pending(),
    {
        if key == self.listener_key {
            match self.streams_queue.pop_back() {
                Some(queued) => {
                    assert(self.queue() =~= old(self).queue().drop_last());
                    let buffer = match self.buffer_pool.pop_front() {
                        Some(buffer) => {
                            assert(self.pool() =~= old(self).pool().skip(1));
                            assert(buffer == old(self).pool()[0]);
                            assert forall|i: int|
                                old(self).has_full_buffers() && 0 <= i
                                    < self.pool().len() implies (
                            #[trigger] self.pool()[i])@.len() == BUFFER_SIZE by {
                                assert(old(self).pool()[i + 1]@.len() == BUFFER_SIZE);
                            }
                            buffer
                        },
                        None => fresh_buffer(),
                    };
                    Ok(SinkStep::Read { token: queued.token, stream: queued.stream, buffer })
                },
                None => Err(SinkError::NoStream),
            }
        } else if key != STOP_PACKET_KEY {
            let at: usize = match self.find(key) {
                Some(at) => at,
                None => return Err(SinkError::UnknownStream),
            };
            proof {
                if old(self).is_reading(key) {
                    lemma_position_is_unique(old(self).queue(), key, at as int);
                    assert(old(self).queue()[at as int].reading);
                }
            }
            match self.streams_queue.remove(at) {
                Some(queued) => {
                    assert(stream_position(old(self).queue(), key, at as int));
                    Ok(SinkStep::Deliver { stream: queued.stream })
                },
                None => Err(SinkError::UnknownStream),
            }
        } else {
            self.should_cleanup = true;
            Ok(SinkStep::Stop)
        }
    }

    /// The stream at a place of the queue, the oldest first.
    pub fn stream_at(&self, at: usize) -> (stream: Option<&S>)
        ensures
            stream == (if at < self.queue().len() {
                Some(&self.queue()[at as int].stream)
            } else {
                None
            }),
    {
        if at < self.streams_queue.len() {
            Some(&self.streams_queue[at].stream)
        } else {
            None
        }
    }

    /// Whether the listener was asked to stop.
    pub fn wants_cleanup(&self) -> (wanted: bool)
        ensures
            wanted == self.stopping(),
    {
        self.should_cleanup
    }

    /// Whether no operation is under way any more.
    pub fn is_drained(&self) -> (drained: bool)
        ensures
            drained == (self.queue().len() == 0),
    {
        self.streams_queue.len() == 0
    }

    /// Whether a completion during the clean-up belongs to the listener or to a stream.
    pub open spec fn is_known(&self, key: usize) -> bool {
        key == self.key() || has_stream(self.queue(), key)
    }

    /// Deals with an operation that completed, or was cancelled, during the clean-up. Its stream is
    /// forgotten: the newest one for the listener, else the one with that key.
    pub fn on_cleanup_completion(&mut self, key: usize) -> (result: Result<(), SinkError>)
        ensures
            final(self).key() == old(self).key(),
            final(self).pool() == old(self).pool(),
            final(self).stopping() == old(self).stopping(),
            old(self).is_known(key) <==> result == Ok::<(), SinkError>(()),
            !old(self).is_known(key) <==> result == Err::<(), SinkError>(SinkError::UnknownStream),
            !old(self).is_known(key) ==> final(self).queue() == old(self).queue(),
            key == old(self).key() ==> final(self).queue() == (if old(self).queue().len() > 0 {
                old(self).queue().drop_last()
            } else {
                old(self).queue()
            }),
            key != old(self).key() && has_stream(old(self).queue(), key) ==> exists|at: int|
                {
                    &&& #[trigger] stream_position(old(self).queue(), key, at)
                    &&& final(self).queue() == old(self).queue().remove(at)
                },
            old(self).is_known(key) && old(self).queue().len() > 0 ==> final(self).queue().len()
                == old(self).queue().len() - 1,
    {
        if key == self.listener_key {
            let _ = self.streams_queue.pop_back();
            assert(old(self).queue().len() > 0 ==> self.queue() =~= old(self).queue().drop_last());
        } else {
            let at: usize = match self.find(key) {
                Some(at) => at,
                None => return Err(SinkError::UnknownStream),
            };
            let _ = self.streams_queue.remove(at);
            assert(stream_position(old(self).queue(), key, at as int));
        }
        Ok(())
    }
}

proof fn lemma_position_is_unique<S>(queue: Seq<QueuedStream<S>>, token: usize, at: int)
    requires
        stream_position(queue, token, at),
    ensures
        forall|other: int| #[trigger] stream_position(queue, token, other) ==> other == at,
{
    assert forall|other: int| #[trigger] stream_position(queue, token, other) implies other
        == at by {
        if other < at {
            assert(queue[other].token != token);
        }
        if at < other {
            assert(queue[at].token != token);
        }
    }
}

} // verus!
