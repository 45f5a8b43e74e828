//! The decisions of the loops that copy traffic between a TCP socket and a
//! peer-to-peer stream, in both directions and on both nodes.

use vstd::prelude::*;

verus! {

/// The size of the buffer that each copy loop reads into.
pub const RELAY_BUFFER_LEN: usize = 4096;

/// Why a copy loop stopped.
#[derive(Debug, PartialEq, Eq, Structural, Clone, Copy)]
pub enum RelayStop {
    /// The TCP socket read 0 bytes: its peer closed it.
    SocketClosed,
    /// The stream gave an empty chunk: the loop stops the stream (code 0).
    StreamStopped,
    /// The stream reported its end.
    StreamFinished,
    /// A read failed.
    ReadFailed,
    /// A write failed.
    WriteFailed,
}

/// What a copy loop does after a read.
#[derive(Debug, PartialEq, Eq, Structural, Clone, Copy)]
pub enum RelayStep {
    /// Write the first `n` bytes of the buffer to the other side.
    Forward(usize),
    /// Leave the loop.
    Stop(RelayStop),
}

/// The step of a socket-to-stream loop after a read of the TCP socket.
pub open spec fn socket_step_of(read: Result<usize, ()>) -> RelayStep {
    match read {
        Ok(n) => if n == 0 {
            RelayStep::Stop(RelayStop::SocketClosed)
        } else {
            RelayStep::Forward(n)
        },
        Err(_) => RelayStep::Stop(RelayStop::ReadFailed),
    }
}

/// The step of a stream-to-socket loop after a read of the stream.
pub open spec fn stream_step_of(read: Result<Option<usize>, ()>) -> RelayStep {
    match read {
        Ok(Some(n)) => if n == 0 {
            RelayStep::Stop(RelayStop::StreamStopped)
        } else {
            RelayStep::Forward(n)
        },
        Ok(None) => RelayStep::Stop(RelayStop::StreamFinished),
        Err(_) => RelayStep::Stop(RelayStop::ReadFailed),
    }
}

/// The step after reading the TCP socket into a buffer of `capacity` bytes:
/// `Ok(n)` with `n > 0` forwards `n` bytes, `Ok(0)` means the peer closed the
/// socket, an error stops the loop.
pub fn socket_read_step(read: Result<usize, ()>, capacity: usize) -> (step: RelayStep)
    requires
        read matches Ok(n) ==> n <= capacity,
    ensures
        step == socket_step_of(read),
        step matches RelayStep::Forward(n) ==> 0 < n <= capacity,
{
    match read {
        Ok(n) => if n == 0 {
            RelayStep::Stop(RelayStop::SocketClosed)
        } else {
            RelayStep::Forward(n)
        },
        Err(_) => RelayStep::Stop(RelayStop::ReadFailed),
    }
}

/// The step after reading the peer-to-peer stream into a buffer of
/// `capacity` bytes: `Ok(Some(n))` with `n > 0` forwards `n` bytes,
/// `Ok(Some(0))` stops the stream, `Ok(None)` is the stream's end, an error
/// stops the loop.
pub fn stream_read_step(read: Result<Option<usize>, ()>, capacity: usize) -> (step: RelayStep)
    requires
        read matches Ok(Some(n)) ==> n <= capacity,
    ensures
        step == stream_step_of(read),
        step matches RelayStep::Forward(n) ==> 0 < n <= capacity,
{
    match read {
        Ok(Some(n)) => if n == 0 {
            RelayStep::Stop(RelayStop::StreamStopped)
        } else {
            RelayStep::Forward(n)
        },
        Ok(None) => RelayStep::Stop(RelayStop::StreamFinished),
        Err(_) => RelayStep::Stop(RelayStop::ReadFailed),
    }
}

/// The stop after a write, if any: a failed write stops the loop.
pub open spec fn write_step_of(written: bool) -> Option<RelayStop> {
    if written {
        None
    } else {
        Some(RelayStop::WriteFailed)
    }
}

/// After a write: the loop goes on when the write succeeded.
pub fn write_step(written: bool) -> (stop: Option<RelayStop>)
    ensures
        stop == write_step_of(written),
{
    if written {
        None
    } else {
        Some(RelayStop::WriteFailed)
    }
}

/// A copy loop forwards exactly the bytes that a read gave; it stops only on
/// a read of nothing (the peer closed the socket or stopped the stream), on
/// the stream's end or on a failed read, each with its reason; it goes on
/// after a write exactly when the write succeeded.
pub proof fn relay_steps_follow_reads(
    socket_read: Result<usize, ()>,
    stream_read: Result<Option<usize>, ()>,
    written: bool,
)
    ensures
        socket_read matches Ok(n) ==> (n > 0 ==> socket_step_of(socket_read) == RelayStep::Forward(n)),
        socket_step_of(socket_read) matches RelayStep::Forward(n) ==> socket_read == Ok::<usize, ()>(n),
        socket_step_of(socket_read) == RelayStep::Stop(RelayStop::SocketClosed) <==> socket_read
            == Ok::<usize, ()>(0),
        socket_step_of(socket_read) == RelayStep::Stop(RelayStop::ReadFailed) <==> socket_read is Err,
        stream_read matches Ok(Some(n)) ==> (n > 0 ==> stream_step_of(stream_read)
            == RelayStep::Forward(n)),
        stream_step_of(stream_read) matches RelayStep::Forward(n) ==> stream_read == Ok::<
            Option<usize>,
            (),
        >(Some(n)),
        stream_step_of(stream_read) == RelayStep::Stop(RelayStop::StreamStopped) <==> stream_read
            == Ok::<Option<usize>, ()>(Some(0)),
        stream_step_of(stream_read) == RelayStep::Stop(RelayStop::StreamFinished) <==> stream_read
            == Ok::<Option<usize>, ()>(None),
        stream_step_of(stream_read) == RelayStep::Stop(RelayStop::ReadFailed) <==> stream_read is Err,
        write_step_of(written) is None <==> written,
        write_step_of(written) is Some ==> write_step_of(written) == Some(RelayStop::WriteFailed),
{
}

/// The side that a copy loop reads from.
#[derive(Debug, PartialEq, Eq, Structural, Clone, Copy)]
pub enum RelaySource {
    /// The loop copies the TCP socket into the stream.
    Socket,
    /// The loop copies the stream into the TCP socket.
    Stream,
}

/// Whether the loop finishes the stream it writes to when it stops: the loops
/// that write to a stream do, the loops that write to a socket leave it.
pub fn finishes_stream(source: RelaySource) -> (f: bool)
    ensures
        f == (source == RelaySource::Socket),
{
    match source {
        RelaySource::Socket => true,
        RelaySource::Stream => false,
    }
}

/// The bytes of a list of chunks, one after the other.
pub open spec fn concat_chunks(chunks: Seq<Seq<u8>>) -> Seq<u8>
    decreases chunks.len(),
{
    if chunks.len() == 0 {
        Seq::empty()
    } else {
        chunks[0] + concat_chunks(chunks.drop_first())
    }
}

/// What a read of the socket tells the loop: the number of bytes read.
pub open spec fn socket_read_len(read: Result<Seq<u8>, ()>) -> Result<usize, ()> {
    match read {
        Ok(data) => Ok(data.len() as usize),
        Err(_) => Err(()),
    }
}

/// What a socket-to-stream loop passes on over a run of rounds. Each round
/// is a read of the socket (the bytes read, or a failure) and whether the
/// write of those bytes to the stream succeeded. A round whose step forwards
/// `n` bytes passes on the first `n` bytes read when the write succeeds; the
/// loop stops at the first stopping read or failed write, and passes on
/// nothing from there on.
pub open spec fn socket_relay_output(rounds: Seq<(Result<Seq<u8>, ()>, bool)>) -> Seq<u8>
    decreases rounds.len(),
{
    if rounds.len() == 0 {
        Seq::empty()
    } else {
        match socket_step_of(socket_read_len(rounds[0].0)) {
            RelayStep::Forward(n) => if write_step_of(rounds[0].1) is None {
                rounds[0].0->Ok_0.take(n as int) + socket_relay_output(rounds.drop_first())
            } else {
                Seq::empty()
            },
            RelayStep::Stop(_) => Seq::empty(),
        }
    }
}

/// The bytes read in the first `k` rounds of a socket run.
pub open spec fn socket_chunks(rounds: Seq<(Result<Seq<u8>, ()>, bool)>, k: int) -> Seq<Seq<u8>> {
    rounds.take(k).map_values(|r: (Result<Seq<u8>, ()>, bool)| r.0->Ok_0)
}

/// A round of a socket run that goes on: it read bytes and wrote them.
pub open spec fn socket_round_goes_on(round: (Result<Seq<u8>, ()>, bool)) -> bool {
    round.0 matches Ok(d) && d.len() > 0 && round.1
}

/// A socket-to-stream loop passes on the bytes it reads, in order, up to the
/// first round that fails to read, reads nothing, or fails to write; from
/// that round on it passes on nothing.
pub proof fn socket_relay_copies_until_stop(rounds: Seq<(Result<Seq<u8>, ()>, bool)>, k: int)
    requires
        0 <= k <= rounds.len(),
        forall|i: int| 0 <= i < k ==> socket_round_goes_on(#[trigger] rounds[i]),
        k < rounds.len() ==> !socket_round_goes_on(rounds[k]),
        forall|i: int|
            0 <= i < rounds.len() ==> (#[trigger] rounds[i].0 matches Ok(d) ==> d.len()
                <= RELAY_BUFFER_LEN),
    ensures
        socket_relay_output(rounds) == concat_chunks(socket_chunks(rounds, k)),
    decreases k,
{
    if k == 0 {
        if rounds.len() > 0 {
            assert(socket_relay_output(rounds) == Seq::<u8>::empty());
        }
        assert(socket_chunks(rounds, k) =~= Seq::<Seq<u8>>::empty());
    } else {
        let rest = rounds.drop_first();
        assert forall|i: int| 0 <= i < k - 1 implies socket_round_goes_on(#[trigger] rest[i]) by {
            assert(rest[i] == rounds[i + 1]);
        }
        assert forall|i: int| 0 <= i < rest.len() implies (#[trigger] rest[i].0 matches Ok(d)
            ==> d.len() <= RELAY_BUFFER_LEN) by {
            assert(rest[i] == rounds[i + 1]);
        }
        if k < rounds.len() {
            assert(rest[k - 1] == rounds[k]);
        }
        socket_relay_copies_until_stop(rest, k - 1);
        assert(socket_round_goes_on(rounds[0]));
        assert(rounds[0].0 matches Ok(d) && d.len() <= RELAY_BUFFER_LEN);
        let d = rounds[0].0->Ok_0;
        assert(d.take(d.len() as int) =~= d);
        assert(socket_chunks(rounds, k).drop_first() =~= socket_chunks(rest, k - 1));
        assert(socket_chunks(rounds, k)[0] == d);
    }
}

/// What a read of the stream tells the loop: the number of bytes read, or
/// the stream's end.
pub open spec fn stream_read_len(read: Result<Option<Seq<u8>>, ()>) -> Result<Option<usize>, ()> {
    match read {
        Ok(Some(data)) => Ok(Some(data.len() as usize)),
        Ok(None) => Ok(None),
        Err(_) => Err(()),
    }
}

/// What a stream-to-socket loop passes on over a run of rounds: each round is
/// a read of the stream (the bytes read, the stream's end, or a failure) and
/// whether the write of those bytes to the socket succeeded.
pub open spec fn stream_relay_output(rounds: Seq<(Result<Option<Seq<u8>>, ()>, bool)>) -> Seq<u8>
    decreases rounds.len(),
{
    if rounds.len() == 0 {
        Seq::empty()
    } else {
        match stream_step_of(stream_read_len(rounds[0].0)) {
            RelayStep::Forward(n) => if write_step_of(rounds[0].1) is None {
                rounds[0].0->Ok_0->Some_0.take(n as int) + stream_relay_output(
                    rounds.drop_first(),
                )
            } else {
                Seq::empty()
            },
            RelayStep::Stop(_) => Seq::empty(),
        }
    }
}

/// The bytes read in the first `k` rounds of a stream run.
pub open spec fn stream_chunks(rounds: Seq<(Result<Option<Seq<u8>>, ()>, bool)>, k: int) -> Seq<
    Seq<u8>,
> {
    rounds.take(k).map_values(|r: (Result<Option<Seq<u8>>, ()>, bool)| r.0->Ok_0->Some_0)
}

/// A round of a stream run that goes on: it read bytes and wrote them.
pub open spec fn stream_round_goes_on(round: (Result<Option<Seq<u8>>, ()>, bool)) -> bool {
    round.0 matches Ok(Some(d)) && d.len() > 0 && round.1
}

/// A stream-to-socket loop passes on the bytes it reads, in order, up to the
/// first round that fails to read, meets the stream's end or an empty chunk,
/// or fails to write; from that round on it passes on nothing.
pub proof fn stream_relay_copies_until_stop(
    rounds: Seq<(Result<Option<Seq<u8>>, ()>, bool)>,
    k: int,
)
    requires
        0 <= k <= rounds.len(),
        forall|i: int| 0 <= i < k ==> stream_round_goes_on(#[trigger] rounds[i]),
        k < rounds.len() ==> !stream_round_goes_on(rounds[k]),
        forall|i: int|
            0 <= i < rounds.len() ==> (#[trigger] rounds[i].0 matches Ok(Some(d)) ==> d.len()
                <= RELAY_BUFFER_LEN),
    ensures
        stream_relay_output(rounds) == concat_chunks(stream_chunks(rounds, k)),
    decreases k,
{
    if k == 0 {
        if rounds.len() > 0 {
            assert(stream_relay_output(rounds) == Seq::<u8>::empty());
        }
        assert(stream_chunks(rounds, k) =~= Seq::<Seq<u8>>::empty());
    } else {
        let rest = rounds.drop_first();
        assert forall|i: int| 0 <= i < k - 1 implies stream_round_goes_on(#[trigger] rest[i]) by {
            assert(rest[i] == rounds[i + 1]);
        }
        assert forall|i: int| 0 <= i < rest.len() implies (#[trigger] rest[i].0 matches Ok(
            Some(d),
        ) ==> d.len() <= RELAY_BUFFER_LEN) by {
            assert(rest[i] == rounds[i + 1]);
        }
        if k < rounds.len() {
            assert(rest[k - 1] == rounds[k]);
        }
        stream_relay_copies_until_stop(rest, k - 1);
        assert(stream_round_goes_on(rounds[0]));
        assert(rounds[0].0 matches Ok(Some(d)) && d.len() <= RELAY_BUFFER_LEN);
        let d = rounds[0].0->Ok_0->Some_0;
        assert(d.take(d.len() as int) =~= d);
        assert(stream_chunks(rounds, k).drop_first() =~= stream_chunks(rest, k - 1));
        assert(stream_chunks(rounds, k)[0] == d);
    }
}

} // verus!
