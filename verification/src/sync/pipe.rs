//! A byte pipe with a bounded buffer: the writer waits while it is full, the
//! reader while it is empty.

use super::error::SendError;
use super::task::context_task;
use super::waker_cell::WakerCell;
use super::waker_cell::WakerView;
use crate::shared::local_shared::lemma_same_value_same_origin;
use crate::shared::LocalShared;
use std::collections::VecDeque;
use std::task::Context;
use std::task::Poll;
use tokio::io::ReadBuf;
use vstd::prelude::*;
use vstd::slice::slice_subrange;

verus! {

/// `tokio::io::ReadBuf`: a caller's byte buffer that is filled from the front.
#[verifier::external_type_specification]
#[verifier::external_body]
pub struct ExReadBuf<'a>(ReadBuf<'a>);

/// The bytes in the filled part of a `ReadBuf`, as `ReadBuf::filled` returns
/// them.
pub uninterp spec fn read_buf_filled(buf: &ReadBuf<'_>) -> Seq<u8>;

/// The length of the slice that a `ReadBuf` was made over, as
/// `ReadBuf::capacity` returns it.
pub uninterp spec fn read_buf_capacity(buf: &ReadBuf<'_>) -> nat;

/// How many more bytes a `ReadBuf` takes.
pub open spec fn read_buf_room(buf: &ReadBuf<'_>) -> nat {
    (read_buf_capacity(buf) - read_buf_filled(buf).len()) as nat
}

/// `ReadBuf::remaining` is the capacity minus the length of the filled part.
pub assume_specification<'a>[ ReadBuf::<'a>::remaining ](buf: &ReadBuf<'a>) -> (n: usize)
    ensures
        n == read_buf_capacity(buf) - read_buf_filled(buf).len(),
;

/// `ReadBuf::put_slice` appends `src` to the filled part and leaves the
/// capacity as it is. It panics if `src` is longer than what remains, which
/// `requires` excludes.
pub assume_specification<'a>[ ReadBuf::<'a>::put_slice ](buf: &mut ReadBuf<'a>, src: &[u8])
    requires
        src@.len() <= read_buf_capacity(old(buf)) - read_buf_filled(old(buf)).len(),
    ensures
        read_buf_filled(final(buf)) == read_buf_filled(old(buf)) + src@,
        read_buf_capacity(final(buf)) == read_buf_capacity(old(buf)),
;

/// `VecDeque::as_slices`: two slices that hold, the first followed by the
/// second, the deque's items in order.
#[verifier::external_body]
fn deque_slices(deque: &VecDeque<u8>) -> (parts: (&[u8], &[u8]))
    ensures
        parts.0@ + parts.1@ == deque@,
{
    deque.as_slices()
}

/// Appends the bytes of `src` at the back of `deque`, in order.
fn deque_extend(deque: &mut VecDeque<u8>, src: &[u8])
    ensures
        final(deque)@ == old(deque)@ + src@,
{
    let mut i: usize = 0;
    while i < src.len()
        invariant
            i <= src@.len(),
            deque@ == old(deque)@ + src@.take(i as int),
        decreases src@.len() - i,
    {
        deque.push_back(src[i]);
        assert((old(deque)@ + src@.take(i as int)).push(src@[i as int]) =~= old(deque)@
            + src@.take(i + 1));
        i = i + 1;
    }
    assert(src@.take(src@.len() as int) =~= src@);
}

/// Drops the first `n` bytes of `deque`.
fn deque_discard(deque: &mut VecDeque<u8>, n: usize)
    requires
        n <= old(deque)@.len(),
    ensures
        final(deque)@ == old(deque)@.skip(n as int),
{
    let mut i: usize = 0;
    while i < n
        invariant
            i <= n,
            n <= old(deque)@.len(),
            deque@ == old(deque)@.skip(i as int),
        decreases n - i,
    {
        let _ = deque.pop_front();
        assert(old(deque)@.skip(i as int).subrange(1, old(deque)@.len() - i) =~= old(deque)@.skip(
            i + 1,
        ));
        i = i + 1;
    }
}

/// The smaller of two numbers.
pub open spec fn smaller(a: nat, b: nat) -> nat {
    if a <= b {
        a
    } else {
        b
    }
}

/// `n` as a machine number; a count beyond the largest one is reported as the
/// largest.
pub open spec fn clip(n: nat) -> usize {
    if n <= usize::MAX {
        n as usize
    } else {
        usize::MAX
    }
}

/// The bytes of several buffers, one buffer after the other.
pub open spec fn gather(bufs: Seq<&[u8]>) -> Seq<u8>
    decreases bufs.len(),
{
    if bufs.len() == 0 {
        Seq::empty()
    } else {
        gather(bufs.drop_last()) + bufs.last()@
    }
}

/// The model of a [`Pipe`].
pub struct PipeView {
    /// The bytes written and not yet read, oldest first.
    pub buffer: Seq<u8>,
    /// One of the two ends is gone.
    pub closed: bool,
    /// The most bytes that the pipe buffers.
    pub limit: nat,
    /// The slot of the task that waits to read.
    pub reader: WakerView,
    /// The slot of the task that waits to write.
    pub writer: WakerView,
}

impl PipeView {
    /// An open pipe with nothing in it and nobody waiting.
    pub open spec fn empty(limit: nat) -> PipeView {
        PipeView {
            buffer: Seq::empty(),
            closed: false,
            limit,
            reader: WakerView::idle(),
            writer: WakerView::idle(),
        }
    }

    /// The buffer holds no more than the limit.
    pub open spec fn within_limit(self) -> bool {
        self.buffer.len() <= self.limit
    }

    /// How many more bytes the buffer takes.
    pub open spec fn room(self) -> nat {
        if self.buffer.len() < self.limit {
            (self.limit - self.buffer.len()) as nat
        } else {
            0
        }
    }

    /// The writing end goes away: the pipe is closed and a waiting reader is
    /// resumed.
    pub open spec fn close_write(self) -> PipeView {
        PipeView { closed: true, reader: self.reader.take_and_wake(), ..self }
    }

    /// The reading end goes away: the pipe is closed and a waiting writer is
    /// resumed.
    pub open spec fn close_read(self) -> PipeView {
        PipeView { closed: true, writer: self.writer.take_and_wake(), ..self }
    }

    /// A read does not have to wait: there are bytes, or the end of the stream
    /// is reached.
    pub open spec fn read_ready(self) -> bool {
        self.buffer.len() > 0 || self.closed
    }

    /// How many bytes a read takes when the caller's buffer has `room` left.
    pub open spec fn read_len(self, room: nat) -> nat {
        smaller(self.buffer.len(), room)
    }

    /// The pipe after a read into a buffer with `room` left, made by the reader
    /// as the task `task`. Bytes leave from the front, and a waiting writer is
    /// resumed if any left. On an empty open pipe the reader registers itself.
    pub open spec fn read(self, room: nat, task: int) -> PipeView {
        if self.buffer.len() > 0 {
            let n = self.read_len(room);
            PipeView {
                buffer: self.buffer.skip(n as int),
                writer: if n > 0 {
                    self.writer.take_and_wake()
                } else {
                    self.writer
                },
                ..self
            }
        } else if self.closed {
            self
        } else {
            PipeView { reader: self.reader.update(task), ..self }
        }
    }

    /// How many of `offered` bytes a write accepts.
    pub open spec fn write_len(self, offered: nat) -> nat {
        smaller(offered, self.room())
    }

    /// The pipe after a write of `data`, made by the writer as the task `task`.
    /// A closed pipe stays as it is. On a full pipe the writer registers
    /// itself. Else the bytes that fit are appended and a waiting reader is
    /// resumed.
    pub open spec fn write(self, data: Seq<u8>, task: int) -> PipeView {
        if self.closed {
            self
        } else if self.room() == 0 {
            PipeView { writer: self.writer.update(task), ..self }
        } else {
            PipeView {
                buffer: self.buffer + data.take(self.write_len(data.len()) as int),
                reader: self.reader.take_and_wake(),
                ..self
            }
        }
    }

    /// What a write of `offered` bytes reports: the bytes are refused on a
    /// closed pipe, the writer waits on a full one, and else the count of
    /// accepted bytes comes back.
    pub open spec fn write_result(self, offered: nat) -> Poll<Result<usize, SendError<usize>>> {
        if self.closed {
            Poll::Ready(Err(SendError::Closed(clip(offered))))
        } else if self.room() == 0 {
            Poll::Pending
        } else {
            Poll::Ready(Ok(self.write_len(offered) as usize))
        }
    }
}

/// Unidirectional in-memory pipe with a buffer of a fixed maximum size.
pub struct Pipe {
    buffer: VecDeque<u8>,
    is_closed: bool,
    max_buf_size: usize,
    read_waker: WakerCell,
    write_waker: WakerCell,
}

impl View for Pipe {
    type V = PipeView;

    closed spec fn view(&self) -> PipeView {
        PipeView {
            buffer: self.buffer@,
            closed: self.is_closed,
            limit: self.max_buf_size as nat,
            reader: self.read_waker@,
            writer: self.write_waker@,
        }
    }
}

/// Copies the bytes of `src` that fit into `dest`, and returns their number.
fn copy_slice(dest: &mut ReadBuf<'_>, src: &[u8]) -> (copied: usize)
    ensures
        copied == smaller(read_buf_room(old(dest)), src@.len()),
        read_buf_filled(final(dest)) == read_buf_filled(old(dest)) + src@.take(copied as int),
        read_buf_capacity(final(dest)) == read_buf_capacity(old(dest)),
        read_buf_room(final(dest)) == read_buf_room(old(dest)) - copied,
{
    let room = dest.remaining();
    let bytes_to_copy = if room < src.len() {
        room
    } else {
        src.len()
    };
    if bytes_to_copy != 0 {
        dest.put_slice(slice_subrange(src, 0, bytes_to_copy));
    }
    bytes_to_copy
}

impl Pipe {
    /// A new open pipe that buffers at most `max_buf_size` bytes.
    pub fn new(max_buf_size: usize) -> (pipe: Self)
        ensures
            pipe@ == PipeView::empty(max_buf_size as nat),
    {
        Pipe {
            buffer: VecDeque::with_capacity(max_buf_size),
            is_closed: false,
            max_buf_size,
            read_waker: WakerCell::new(),
            write_waker: WakerCell::new(),
        }
    }

    /// Splits the pipe into its readable and its writable end: two handles
    /// that share this pipe.
    pub fn into_split(self) -> (ends: (ReadEnd, WriteEnd))
        ensures
            ends.0.shared().same_value(&ends.1.shared()),
            ends.0.shared().origin() == self,
    {
        let pipe = LocalShared::new(self);
        (ReadEnd(pipe.clone()), WriteEnd(pipe))
    }

    /// The writing end goes away.
    pub fn close_write(&mut self)
        ensures
            final(self)@ == old(self)@.close_write(),
    {
        self.is_closed = true;
        self.read_waker.take_and_wake();
    }

    /// The reading end goes away.
    pub fn close_read(&mut self)
        ensures
            final(self)@ == old(self)@.close_read(),
    {
        self.is_closed = true;
        self.write_waker.take_and_wake();
    }

    /// Moves buffered bytes into `buf`, as many as fit, oldest first.
    ///
    /// Ready when bytes were there to take or the pipe is closed: a closed,
    /// drained pipe leaves `buf` as it is, which marks the end of the stream.
    /// On an empty open pipe the caller is registered and the result is
    /// `Pending`.
    pub fn poll_read_internal(&mut self, cx: &Context<'_>, buf: &mut ReadBuf<'_>) -> (r: Poll<()>)
        ensures
            final(self)@ == old(self)@.read(read_buf_room(old(buf)), context_task(cx)),
            r == if old(self)@.read_ready() {
                Poll::Ready(())
            } else {
                Poll::Pending
            },
            read_buf_filled(final(buf)) == read_buf_filled(old(buf)) + old(self)@.buffer.take(
                old(self)@.read_len(read_buf_room(old(buf))) as int,
            ),
            read_buf_capacity(final(buf)) == read_buf_capacity(old(buf)),
    {
        if self.buffer.len() > 0 {
            let (head, tail) = deque_slices(&self.buffer);
            let from_head = copy_slice(buf, head);
            let from_tail = copy_slice(buf, tail);
            let bytes_copied = from_head + from_tail;
            if bytes_copied > 0 {
                deque_discard(&mut self.buffer, bytes_copied);
                self.write_waker.take_and_wake();
            }
            assert(self.buffer@ =~= old(self)@.buffer.skip(bytes_copied as int));
            Poll::Ready(())
        } else if self.is_closed {
            Poll::Ready(())
        } else {
            self.read_waker.update(cx);
            Poll::Pending
        }
    }

    /// The lengths of the two runs in which the buffered bytes lie in memory:
    /// the buffer is a ring, and what it holds may wrap around its end.
    pub fn runs(&self) -> (runs: (usize, usize))
        ensures
            runs.0 + runs.1 == self@.buffer.len(),
    {
        let (head, tail) = deque_slices(&self.buffer);
        (head.len(), tail.len())
    }

    /// How many more bytes the buffer takes.
    fn available(&self) -> (room: usize)
        ensures
            room == self@.room(),
    {
        let len = self.buffer.len();
        if len < self.max_buf_size {
            self.max_buf_size - len
        } else {
            0
        }
    }

    /// Appends the bytes of `buf` that fit, and reports how many were taken.
    ///
    /// A closed pipe refuses the write and hands the count of refused bytes
    /// back. On a full pipe the caller is registered and the result is
    /// `Pending`.
    pub fn poll_write_internal(&mut self, cx: &Context<'_>, buf: &[u8]) -> (r: Poll<
        Result<usize, SendError<usize>>,
    >)
        ensures
            final(self)@ == old(self)@.write(buf@, context_task(cx)),
            r == old(self)@.write_result(buf@.len()),
    {
        if self.is_closed {
            return Poll::Ready(Err(SendError::Closed(buf.len())));
        }
        let available = self.available();
        if available == 0 {
            self.write_waker.update(cx);
            return Poll::Pending;
        }
        let bytes_to_copy = if buf.len() < available {
            buf.len()
        } else {
            available
        };
        deque_extend(&mut self.buffer, slice_subrange(buf, 0, bytes_to_copy));
        self.read_waker.take_and_wake();
        Poll::Ready(Ok(bytes_to_copy))
    }

    /// As [`Pipe::poll_write_internal`], for bytes that lie in several
    /// buffers: they are taken buffer by buffer until the pipe is full, and the
    /// count that comes back is that of all accepted bytes together.
    pub fn poll_write_vectored_internal(&mut self, cx: &Context<'_>, bufs: &[&[u8]]) -> (r: Poll<
        Result<usize, SendError<usize>>,
    >)
        ensures
            final(self)@ == old(self)@.write(gather(bufs@), context_task(cx)),
            r == old(self)@.write_result(gather(bufs@).len()),
    {
        if self.is_closed {
            return Poll::Ready(Err(SendError::Closed(total_len(bufs))));
        }
        let available = self.available();
        if available == 0 {
            self.write_waker.update(cx);
            return Poll::Pending;
        }
        let mut remaining = available;
        let mut i: usize = 0;
        while i < bufs.len() && remaining != 0
            invariant
                i <= bufs@.len(),
                remaining <= available,
                available == old(self)@.room(),
                available - remaining == smaller(gather(bufs@.take(i as int)).len(), available as nat),
                self.buffer@ == old(self)@.buffer + gather(bufs@.take(i as int)).take(
                    available - remaining,
                ),
                self.is_closed == old(self).is_closed,
                self.max_buf_size == old(self).max_buf_size,
                self.read_waker == old(self).read_waker,
                self.write_waker == old(self).write_waker,
            decreases bufs@.len() - i,
        {
            let buf = bufs[i];
            let len = if buf.len() < remaining {
                buf.len()
            } else {
                remaining
            };
            proof {
                assert(bufs@.take(i + 1).drop_last() =~= bufs@.take(i as int));
            }
            deque_extend(&mut self.buffer, slice_subrange(buf, 0, len));
            remaining = remaining - len;
            i = i + 1;
        }
        proof {
            lemma_gather_split(bufs@, i as int);
            let seen = gather(bufs@.take(i as int));
            let accepted = available - remaining;
            assert(gather(bufs@).take(accepted) =~= seen.take(accepted));
        }
        self.read_waker.take_and_wake();
        Poll::Ready(Ok(available - remaining))
    }

    /// See [`Pipe::poll_read_internal`].
    pub fn poll_read(&mut self, cx: &Context<'_>, buf: &mut ReadBuf<'_>) -> (r: Poll<()>)
        ensures
            final(self)@ == old(self)@.read(read_buf_room(old(buf)), context_task(cx)),
            r == if old(self)@.read_ready() {
                Poll::Ready(())
            } else {
                Poll::Pending
            },
            read_buf_filled(final(buf)) == read_buf_filled(old(buf)) + old(self)@.buffer.take(
                old(self)@.read_len(read_buf_room(old(buf))) as int,
            ),
            read_buf_capacity(final(buf)) == read_buf_capacity(old(buf)),
    {
        self.poll_read_internal(cx, buf)
    }

    /// See [`Pipe::poll_write_internal`].
    pub fn poll_write(&mut self, cx: &Context<'_>, buf: &[u8]) -> (r: Poll<
        Result<usize, SendError<usize>>,
    >)
        ensures
            final(self)@ == old(self)@.write(buf@, context_task(cx)),
            r == old(self)@.write_result(buf@.len()),
    {
        self.poll_write_internal(cx, buf)
    }

    /// See [`Pipe::poll_write_vectored_internal`].
    pub fn poll_write_vectored(&mut self, cx: &Context<'_>, bufs: &[&[u8]]) -> (r: Poll<
        Result<usize, SendError<usize>>,
    >)
        ensures
            final(self)@ == old(self)@.write(gather(bufs@), context_task(cx)),
            r == old(self)@.write_result(gather(bufs@).len()),
    {
        self.poll_write_vectored_internal(cx, bufs)
    }

    /// Nothing is held back between a write and the buffer, so a flush is done
    /// at once.
    pub fn poll_flush(&mut self, cx: &Context<'_>) -> (r: Poll<()>)
        ensures
            final(self)@ == old(self)@,
            r == Poll::Ready(()),
    {
        Poll::Ready(())
    }

    /// Shuts the writing side down, which closes the pipe.
    pub fn poll_shutdown(&mut self, cx: &Context<'_>) -> (r: Poll<()>)
        ensures
            final(self)@ == old(self)@.close_write(),
            r == Poll::Ready(()),
    {
        self.close_write();
        Poll::Ready(())
    }

    /// Writes from several buffers are taken in one call.
    pub fn is_write_vectored(&self) -> (vectored: bool)
        ensures
            vectored,
    {
        true
    }
}

/// The bytes of the first `i` buffers come first among the bytes of all.
pub proof fn lemma_gather_split(bufs: Seq<&[u8]>, i: int)
    requires
        0 <= i <= bufs.len(),
    ensures
        gather(bufs) == gather(bufs.take(i)) + gather(bufs.skip(i)),
    decreases bufs.len(),
{
    if i == bufs.len() {
        assert(bufs.take(i) =~= bufs);
    } else {
        let front = bufs.drop_last();
        lemma_gather_split(front, i);
        assert(front.take(i) =~= bufs.take(i));
        assert(bufs.skip(i).drop_last() =~= front.skip(i));
    }
}

/// The number of bytes in all of `bufs`, or the largest machine number if
/// there are more.
fn total_len(bufs: &[&[u8]]) -> (total: usize)
    ensures
        total == clip(gather(bufs@).len()),
{
    let mut total: usize = 0;
    let mut i: usize = 0;
    while i < bufs.len()
        invariant
            i <= bufs@.len(),
            total == clip(gather(bufs@.take(i as int)).len()),
        decreases bufs@.len() - i,
    {
        let len = bufs[i].len();
        proof {
            assert(bufs@.take(i + 1).drop_last() =~= bufs@.take(i as int));
        }
        total = if len > usize::MAX - total {
            usize::MAX
        } else {
            total + len
        };
        i = i + 1;
    }
    proof {
        assert(bufs@.take(bufs@.len() as int) =~= bufs@);
    }
    total
}

/// The readable end of a [`Pipe`].
///
/// The pipe is shared with the writable end, so a contract here speaks of the
/// pipe as it happens to be when the call is made.
pub struct ReadEnd(LocalShared<Pipe>);

/// The writable end of a [`Pipe`].
///
/// The pipe is shared with the readable end, so a contract here speaks of the
/// pipe as it happens to be when the call is made.
pub struct WriteEnd(LocalShared<Pipe>);

impl ReadEnd {
    /// The capability through which this end reaches the pipe.
    pub closed spec fn shared(&self) -> LocalShared<Pipe> {
        self.0
    }

    /// [`Pipe::poll_read`] on the shared pipe: for some pipe, the result and the
    /// bytes that `buf` gains are those of a read from that pipe. A read that
    /// has to wait leaves `buf` as it is. `None` tells that the pipe is in use;
    /// `buf` is then as it was.
    pub fn poll_read(&mut self, cx: &Context<'_>, buf: &mut ReadBuf<'_>) -> (r: Option<Poll<()>>)
        ensures
            r matches Some(read) ==> exists|pipe: PipeView|
                {
                    &&& read == if #[trigger] pipe.read_ready() {
                        Poll::Ready(())
                    } else {
                        Poll::Pending
                    }
                    &&& read_buf_filled(final(buf)) == read_buf_filled(old(buf)) + pipe.buffer.take(
                        pipe.read_len(read_buf_room(old(buf))) as int,
                    )
                },
            !(r matches Some(Poll::Ready(_))) ==> read_buf_filled(final(buf)) == read_buf_filled(
                old(buf),
            ),
            read_buf_capacity(final(buf)) == read_buf_capacity(old(buf)),
            final(self).shared() == old(self).shared(),
    {
        let entered = self.0.access_with(
            buf,
            |pipe: &mut Pipe, dest: &mut ReadBuf<'_>| -> (r: Poll<()>)
                ensures
                    r == if old(pipe)@.read_ready() {
                        Poll::Ready(())
                    } else {
                        Poll::Pending
                    },
                    read_buf_filled(final(dest)) == read_buf_filled(old(dest)) + old(
                        pipe,
                    )@.buffer.take(old(pipe)@.read_len(read_buf_room(old(dest))) as int),
                    r is Pending ==> read_buf_filled(final(dest)) == read_buf_filled(old(dest)),
                    read_buf_capacity(final(dest)) == read_buf_capacity(old(dest))
                {
                    let r = pipe.poll_read(cx, dest);
                    assert(r is Pending ==> read_buf_filled(dest) =~= read_buf_filled(old(dest)));
                    r
                },
        );
        match entered {
            Ok(read) => Some(read),
            Err(_) => None,
        }
    }

    /// [`Pipe::runs`] on the shared pipe. `None` tells that the pipe is in use.
    pub fn runs(&self) -> (r: Option<(usize, usize)>)
        ensures
            r matches Some(runs) ==> exists|pipe: PipeView|
                runs.0 + runs.1 == #[trigger] pipe.buffer.len(),
    {
        self.0.access(
            |pipe: &mut Pipe| -> (runs: (usize, usize))
                ensures
                    runs.0 + runs.1 == old(pipe)@.buffer.len()
                { pipe.runs() },
        )
    }

    /// The reader goes away: [`Pipe::close_read`] on the shared pipe. The result
    /// tells whether that was done: it was not if the pipe is in use.
    pub fn close(&mut self) -> (done: bool)
        ensures
            final(self).shared() == old(self).shared(),
    {
        self.0.access(|pipe: &mut Pipe| { pipe.close_read() }).is_some()
    }
}

impl WriteEnd {
    /// The capability through which this end reaches the pipe.
    pub closed spec fn shared(&self) -> LocalShared<Pipe> {
        self.0
    }

    /// [`Pipe::poll_write`] on the shared pipe: for some pipe, the result is
    /// that of a write to that pipe. So a write that succeeds takes at least one
    /// byte, unless there was none to take, and a write that fails hands the
    /// count of the refused bytes back. `None` tells that the pipe is in use.
    pub fn poll_write(&mut self, cx: &Context<'_>, buf: &[u8]) -> (r: Option<
        Poll<Result<usize, SendError<usize>>>,
    >)
        ensures
            r matches Some(written) ==> exists|pipe: PipeView|
                written == #[trigger] pipe.write_result(buf@.len()),
            r matches Some(Poll::Ready(Ok(n))) ==> n <= buf.len() && (n == 0 ==> buf.len() == 0),
            r matches Some(Poll::Ready(Err(e))) ==> e == SendError::Closed(buf.len()),
            final(self).shared() == old(self).shared(),
    {
        self.0.access(
            |pipe: &mut Pipe| -> (r: Poll<Result<usize, SendError<usize>>>)
                ensures
                    r == old(pipe)@.write_result(buf@.len())
                { pipe.poll_write(cx, buf) },
        )
    }

    /// [`Pipe::poll_write_vectored`] on the shared pipe. `None` tells that the
    /// pipe is in use.
    pub fn poll_write_vectored(&mut self, cx: &Context<'_>, bufs: &[&[u8]]) -> (r: Option<
        Poll<Result<usize, SendError<usize>>>,
    >)
        ensures
            r matches Some(written) ==> exists|pipe: PipeView|
                written == #[trigger] pipe.write_result(gather(bufs@).len()),
            final(self).shared() == old(self).shared(),
    {
        self.0.access(
            |pipe: &mut Pipe| -> (r: Poll<Result<usize, SendError<usize>>>)
                ensures
                    r == old(pipe)@.write_result(gather(bufs@).len())
                { pipe.poll_write_vectored(cx, bufs) },
        )
    }

    /// [`Pipe::poll_flush`] on the shared pipe. `None` tells that the pipe is in
    /// use.
    pub fn poll_flush(&mut self, cx: &Context<'_>) -> (r: Option<Poll<()>>)
        ensures
            r matches Some(flushed) ==> flushed == Poll::Ready(()),
            final(self).shared() == old(self).shared(),
    {
        self.0.access(
            |pipe: &mut Pipe| -> (r: Poll<()>)
                ensures
                    r == Poll::Ready(())
                { pipe.poll_flush(cx) },
        )
    }

    /// [`Pipe::poll_shutdown`] on the shared pipe. `None` tells that the pipe is
    /// in use, and not shut down.
    pub fn poll_shutdown(&mut self, cx: &Context<'_>) -> (r: Option<Poll<()>>)
        ensures
            r matches Some(shut) ==> shut == Poll::Ready(()),
            final(self).shared() == old(self).shared(),
    {
        self.0.access(
            |pipe: &mut Pipe| -> (r: Poll<()>)
                ensures
                    r == Poll::Ready(())
                { pipe.poll_shutdown(cx) },
        )
    }

    /// Writes from several buffers are taken in one call.
    pub fn is_write_vectored(&self) -> (vectored: bool)
        ensures
            vectored,
    {
        true
    }

    /// The writer goes away: [`Pipe::close_write`] on the shared pipe. The
    /// result tells whether that was done: it was not if the pipe is in use.
    pub fn close(&mut self) -> (done: bool)
        ensures
            final(self).shared() == old(self).shared(),
    {
        self.0.access(|pipe: &mut Pipe| { pipe.close_write() }).is_some()
    }
}

/// A two-way in-memory byte stream made of two pipes that run in opposite
/// directions. What is written to one of the two ends can be read from the
/// other: the writable half of each end shares a pipe with the readable half
/// of the other end. Both pipes are made open and empty, and buffer at most
/// `max_buf_size` bytes.
pub fn duplex_pipe(max_buf_size: usize) -> (ends: (DuplexEnd, DuplexEnd))
    ensures
        ends.0.writer().shared().same_value(&ends.1.reader().shared()),
        ends.1.writer().shared().same_value(&ends.0.reader().shared()),
        ends.0.writer().shared().origin()@ == PipeView::empty(max_buf_size as nat),
        ends.1.writer().shared().origin()@ == PipeView::empty(max_buf_size as nat),
{
    let (read1, write1) = Pipe::new(max_buf_size).into_split();
    let (read2, write2) = Pipe::new(max_buf_size).into_split();
    proof {
        lemma_same_value_same_origin(&read1.shared(), &write1.shared());
        lemma_same_value_same_origin(&read2.shared(), &write2.shared());
    }
    (DuplexEnd(read1, write2), DuplexEnd(read2, write1))
}

/// One end of a two-way stream: the readable end of one pipe and the writable
/// end of the other.
pub struct DuplexEnd(ReadEnd, WriteEnd);

impl DuplexEnd {
    /// The readable half.
    pub closed spec fn reader(self) -> ReadEnd {
        self.0
    }

    /// The writable half.
    pub closed spec fn writer(self) -> WriteEnd {
        self.1
    }

    /// Splits the stream into its readable and its writable half.
    pub fn into_split(self) -> (halves: (ReadEnd, WriteEnd))
        ensures
            halves.0 == self.reader(),
            halves.1 == self.writer(),
    {
        let DuplexEnd(read, write) = self;
        (read, write)
    }

    /// Mutable references to the readable and the writable half.
    pub fn split(&mut self) -> (halves: (&mut ReadEnd, &mut WriteEnd))
        ensures
            *halves.0 == old(self).reader(),
            *halves.1 == old(self).writer(),
            final(self).reader() == *final(halves.0),
            final(self).writer() == *final(halves.1),
    {
        (&mut self.0, &mut self.1)
    }

    /// [`ReadEnd::poll_read`] on the readable half.
    pub fn poll_read(&mut self, cx: &Context<'_>, buf: &mut ReadBuf<'_>) -> (r: Option<Poll<()>>)
        ensures
            r matches Some(read) ==> exists|pipe: PipeView|
                {
                    &&& read == if #[trigger] pipe.read_ready() {
                        Poll::Ready(())
                    } else {
                        Poll::Pending
                    }
                    &&& read_buf_filled(final(buf)) == read_buf_filled(old(buf)) + pipe.buffer.take(
                        pipe.read_len(read_buf_room(old(buf))) as int,
                    )
                },
            !(r matches Some(Poll::Ready(_))) ==> read_buf_filled(final(buf)) == read_buf_filled(
                old(buf),
            ),
            read_buf_capacity(final(buf)) == read_buf_capacity(old(buf)),
            final(self).reader().shared() == old(self).reader().shared(),
            final(self).writer() == old(self).writer(),
    {
        self.0.poll_read(cx, buf)
    }

    /// [`WriteEnd::poll_write`] on the writable half.
    pub fn poll_write(&mut self, cx: &Context<'_>, buf: &[u8]) -> (r: Option<
        Poll<Result<usize, SendError<usize>>>,
    >)
        ensures
            r matches Some(written) ==> exists|pipe: PipeView|
                written == #[trigger] pipe.write_result(buf@.len()),
            r matches Some(Poll::Ready(Ok(n))) ==> n <= buf.len() && (n == 0 ==> buf.len() == 0),
            r matches Some(Poll::Ready(Err(e))) ==> e == SendError::Closed(buf.len()),
            final(self).writer().shared() == old(self).writer().shared(),
            final(self).reader() == old(self).reader(),
    {
        self.1.poll_write(cx, buf)
    }

    /// [`WriteEnd::poll_flush`] on the writable half.
    pub fn poll_flush(&mut self, cx: &Context<'_>) -> (r: Option<Poll<()>>)
        ensures
            r matches Some(flushed) ==> flushed == Poll::Ready(()),
            final(self).writer().shared() == old(self).writer().shared(),
            final(self).reader() == old(self).reader(),
    {
        self.1.poll_flush(cx)
    }

    /// [`WriteEnd::poll_shutdown`] on the writable half.
    pub fn poll_shutdown(&mut self, cx: &Context<'_>) -> (r: Option<Poll<()>>)
        ensures
            r matches Some(shut) ==> shut == Poll::Ready(()),
            final(self).writer().shared() == old(self).writer().shared(),
            final(self).reader() == old(self).reader(),
    {
        self.1.poll_shutdown(cx)
    }

    /// Both halves go away. The result tells whether both are gone now: a half
    /// whose pipe is in use is not.
    pub fn close(&mut self) -> (done: bool)
        ensures
            final(self).reader().shared() == old(self).reader().shared(),
            final(self).writer().shared() == old(self).writer().shared(),
    {
        let read_done = self.0.close();
        let write_done = self.1.close();
        read_done && write_done
    }
}

/// No transition lets the buffer grow beyond the limit.
pub proof fn lemma_limit_is_kept(pipe: PipeView, data: Seq<u8>, room: nat, task: int)
    requires
        pipe.within_limit(),
    ensures
        PipeView::empty(pipe.limit).within_limit(),
        pipe.write(data, task).within_limit(),
        pipe.read(room, task).within_limit(),
        pipe.close_write().within_limit(),
        pipe.close_read().within_limit(),
        pipe.write(data, task).limit == pipe.limit,
        pipe.read(room, task).limit == pipe.limit,
{
}

/// Closing is final: no transition opens a closed pipe again.
pub proof fn lemma_closed_stays_closed(pipe: PipeView, data: Seq<u8>, room: nat, task: int)
    requires
        pipe.closed,
    ensures
        pipe.write(data, task) == pipe,
        pipe.read(room, task).closed,
        pipe.close_write().closed,
        pipe.close_read().closed,
        pipe.read(room, task).read_ready(),
        pipe.write_result(data.len()) == Poll::<Result<usize, SendError<usize>>>::Ready(
            Err(SendError::Closed(clip(data.len()))),
        ),
{
}

/// An end that has to wait is registered with its own continuation: after a
/// write that tells to wait the writer's slot holds the task that wrote, and
/// after a read that tells to wait the reader's slot holds the task that read,
/// whoever was registered there before. The pipe's bytes stay as they are.
pub proof fn lemma_waiter_is_the_polling_task(pipe: PipeView, data: Seq<u8>, room: nat, task: int)
    ensures
        pipe.write_result(data.len()) is Pending ==> pipe.write(data, task).writer.task == Some(
            task,
        ) && pipe.write(data, task).buffer == pipe.buffer,
        !pipe.read_ready() ==> pipe.read(room, task).reader.task == Some(task) && pipe.read(
            room,
            task,
        ).buffer == pipe.buffer,
        !(pipe.write_result(data.len()) is Pending) ==> pipe.write(data, task).writer
            == pipe.writer,
        pipe.read_ready() ==> pipe.read(room, task).reader == pipe.reader,
{
}

/// The task that waits is the task that is resumed. A writer that found the
/// pipe full is resumed by the read that takes bytes out, and by the reader's
/// end; a reader that found the pipe empty is resumed by the write that puts
/// bytes in, and by the writer's end.
pub proof fn lemma_waiting_end_is_resumed(
    pipe: PipeView,
    data: Seq<u8>,
    room: nat,
    reader: int,
    writer: int,
)
    requires
        !pipe.closed,
        pipe.limit > 0,
        room > 0,
    ensures
        pipe.room() == 0 ==> pipe.write(data, writer).read(room, reader).writer.woken
            == pipe.writer.woken.push(writer),
        pipe.room() == 0 ==> pipe.write(data, writer).close_read().writer.woken
            == pipe.writer.woken.push(writer),
        pipe.buffer.len() == 0 ==> pipe.read(room, reader).write(data, writer).reader.woken
            == pipe.reader.woken.push(reader),
        pipe.buffer.len() == 0 ==> pipe.read(room, reader).close_write().reader.woken
            == pipe.reader.woken.push(reader),
{
}

/// An end that goes away resumes the task that waits at the other end, once:
/// when the same end is closed again, or the other end after it, nobody is
/// resumed a second time.
pub proof fn lemma_close_wakes_once(pipe: PipeView)
    ensures
        pipe.close_write().close_write() == pipe.close_write(),
        pipe.close_read().close_read() == pipe.close_read(),
        pipe.close_write().reader == pipe.reader.take_and_wake(),
        pipe.close_read().writer == pipe.writer.take_and_wake(),
        pipe.close_write().reader.wakes() == pipe.reader.wakes() + if pipe.reader.armed() {
            1nat
        } else {
            0nat
        },
        pipe.close_read().writer.wakes() == pipe.writer.wakes() + if pipe.writer.armed() {
            1nat
        } else {
            0nat
        },
        pipe.close_write().close_read().reader == pipe.close_write().reader,
        pipe.close_read().close_write().writer == pipe.close_read().writer,
{
}

/// Closing loses nothing: the reader of a closed pipe gets the bytes that are
/// left, oldest first, and is told the end of the stream only when none is
/// left.
pub proof fn lemma_drains_before_end(pipe: PipeView, room: nat, task: int)
    requires
        pipe.closed,
        room > 0,
    ensures
        pipe.close_write().buffer == pipe.buffer,
        pipe.close_read().buffer == pipe.buffer,
        pipe.read_ready(),
        pipe.buffer.len() > 0 ==> pipe.read_len(room) > 0,
        pipe.buffer.len() > 0 ==> pipe.read(room, task).buffer == pipe.buffer.skip(
            pipe.read_len(room) as int,
        ),
        pipe.read_len(room) == 0 <==> pipe.buffer.len() == 0,
{
}

/// A write is partial where the buffer is short: of `data` written to an empty
/// open pipe, the first `limit` bytes are accepted and no more, and a read with
/// room for them takes exactly those bytes and leaves the pipe empty.
pub proof fn lemma_write_then_read(limit: nat, data: Seq<u8>, room: nat, task: int)
    requires
        limit > 0,
        limit <= usize::MAX,
        room >= limit,
    ensures
        ({
            let pipe = PipeView::empty(limit);
            let accepted = smaller(data.len(), limit);
            let written = pipe.write(data, task);
            &&& pipe.write_result(data.len()) == Poll::<Result<usize, SendError<usize>>>::Ready(
                Ok(accepted as usize),
            )
            &&& written.buffer == data.take(accepted as int)
            &&& written.read_len(room) == accepted
            &&& written.buffer.take(written.read_len(room) as int) == data.take(accepted as int)
            &&& written.read(room, task).buffer == Seq::<u8>::empty()
        }),
{
}

/// Bytes leave in the order in which they came, whatever the sizes of the
/// reads: two reads in a row take what one read with the room of both takes.
pub proof fn lemma_reads_in_order(pipe: PipeView, first: nat, second: nat, task: int)
    ensures
        ({
            let a = pipe.read_len(first);
            let b = pipe.read(first, task).read_len(second);
            &&& pipe.buffer.len() > 0 ==> a + b == pipe.read_len(first + second)
            &&& pipe.buffer.len() > 0 ==> pipe.buffer.take(a as int) + pipe.read(
                first,
                task,
            ).buffer.take(b as int) == pipe.buffer.take((a + b) as int)
        }),
{
}

} // verus!
