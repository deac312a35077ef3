use local_async_utils::sync::error::SendError;
use local_async_utils::sync::pipe;
use local_async_utils::sync::pipe::Pipe;
use std::io;
use std::pin::Pin;
use std::task::Context;
use std::task::Poll;
use tokio::io::AsyncRead;
use tokio::io::AsyncReadExt;
use tokio::io::AsyncWrite;
use tokio::io::AsyncWriteExt;
use tokio::io::ReadBuf;
use tokio_test::task::spawn;

// The library's ends are polled and closed by hand. The tests use them the way
// an I/O runtime does: through `AsyncRead` and `AsyncWrite`, closing on drop.

struct ReadEnd(pipe::ReadEnd);

struct WriteEnd(pipe::WriteEnd);

struct DuplexEnd(pipe::DuplexEnd);

fn split(pipe: Pipe) -> (ReadEnd, WriteEnd) {
    let (reader, writer) = pipe.into_split();
    (ReadEnd(reader), WriteEnd(writer))
}

fn duplex_pipe(max_buf_size: usize) -> (DuplexEnd, DuplexEnd) {
    let (end1, end2) = pipe::duplex_pipe(max_buf_size);
    (DuplexEnd(end1), DuplexEnd(end2))
}

fn read_result(poll: Poll<()>) -> Poll<io::Result<()>> {
    match poll {
        Poll::Ready(()) => Poll::Ready(Ok(())),
        Poll::Pending => Poll::Pending,
    }
}

fn write_result(poll: Poll<Result<usize, SendError<usize>>>) -> Poll<io::Result<usize>> {
    match poll {
        Poll::Ready(Ok(n)) => Poll::Ready(Ok(n)),
        Poll::Ready(Err(e)) => Poll::Ready(Err(io::Error::new(e.kind(), e.message()))),
        Poll::Pending => Poll::Pending,
    }
}

impl AsyncRead for ReadEnd {
    fn poll_read(
        self: Pin<&mut Self>,
        cx: &mut Context<'_>,
        buf: &mut ReadBuf<'_>,
    ) -> Poll<io::Result<()>> {
        read_result(self.get_mut().0.poll_read(cx, buf).unwrap())
    }
}

impl Drop for ReadEnd {
    fn drop(&mut self) {
        assert!(self.0.close());
    }
}

impl AsyncWrite for WriteEnd {
    fn poll_write(
        self: Pin<&mut Self>,
        cx: &mut Context<'_>,
        buf: &[u8],
    ) -> Poll<io::Result<usize>> {
        write_result(self.get_mut().0.poll_write(cx, buf).unwrap())
    }

    fn poll_flush(self: Pin<&mut Self>, cx: &mut Context<'_>) -> Poll<io::Result<()>> {
        read_result(self.get_mut().0.poll_flush(cx).unwrap())
    }

    fn poll_shutdown(self: Pin<&mut Self>, cx: &mut Context<'_>) -> Poll<io::Result<()>> {
        read_result(self.get_mut().0.poll_shutdown(cx).unwrap())
    }

    fn poll_write_vectored(
        self: Pin<&mut Self>,
        cx: &mut Context<'_>,
        bufs: &[io::IoSlice<'_>],
    ) -> Poll<io::Result<usize>> {
        let slices: Vec<&[u8]> = bufs.iter().map(|buf| &**buf).collect();
        write_result(self.get_mut().0.poll_write_vectored(cx, &slices).unwrap())
    }

    fn is_write_vectored(&self) -> bool {
        self.0.is_write_vectored()
    }
}

impl Drop for WriteEnd {
    fn drop(&mut self) {
        assert!(self.0.close());
    }
}

impl AsyncRead for DuplexEnd {
    fn poll_read(
        self: Pin<&mut Self>,
        cx: &mut Context<'_>,
        buf: &mut ReadBuf<'_>,
    ) -> Poll<io::Result<()>> {
        read_result(self.get_mut().0.poll_read(cx, buf).unwrap())
    }
}

impl AsyncWrite for DuplexEnd {
    fn poll_write(
        self: Pin<&mut Self>,
        cx: &mut Context<'_>,
        buf: &[u8],
    ) -> Poll<io::Result<usize>> {
        write_result(self.get_mut().0.poll_write(cx, buf).unwrap())
    }

    fn poll_flush(self: Pin<&mut Self>, cx: &mut Context<'_>) -> Poll<io::Result<()>> {
        read_result(self.get_mut().0.poll_flush(cx).unwrap())
    }

    fn poll_shutdown(self: Pin<&mut Self>, cx: &mut Context<'_>) -> Poll<io::Result<()>> {
        read_result(self.get_mut().0.poll_shutdown(cx).unwrap())
    }
}

impl Drop for DuplexEnd {
    fn drop(&mut self) {
        assert!(self.0.close());
    }
}

fn assert_pending<T>(poll: Poll<T>) {
    assert!(poll.is_pending());
}

fn assert_ready<T>(poll: Poll<T>) -> T {
    match poll {
        Poll::Ready(value) => value,
        Poll::Pending => panic!("pending"),
    }
}

#[test]
fn test_write_then_read() {
    let (mut reader, mut writer) = split(Pipe::new(1024));

    let data = b"Hello, world!";
    let mut write_task = spawn(writer.write_all(data));
    let write_ret = assert_ready(write_task.poll());
    assert!(write_ret.is_ok());
    drop(write_task);

    let mut buf = Vec::new();
    let mut read_task = spawn(reader.read_buf(&mut buf));
    let read_ret = assert_ready(read_task.poll());
    assert!(read_ret.is_ok());
    drop(read_task);
    assert_eq!(&buf[..], data);
}

#[test]
fn test_reader_notifies_writer() {
    let (mut reader, mut writer) = split(Pipe::new(7));

    let data = b"Hello, world!";
    let mut write_task = spawn(writer.write_all(data));
    assert_pending(write_task.poll());

    let mut buf = Vec::new();
    let mut read_task = spawn(reader.read_buf(&mut buf));
    let read_ret = assert_ready(read_task.poll());
    assert!(read_ret.is_ok());
    drop(read_task);
    assert_eq!(&buf[..], b"Hello, ");
    assert!(write_task.is_woken());

    let write_ret = assert_ready(write_task.poll());
    assert!(write_ret.is_ok());
    drop(write_task);

    let mut read_task = spawn(reader.read_buf(&mut buf));
    let read_ret = assert_ready(read_task.poll());
    assert!(read_ret.is_ok());
    drop(read_task);
    assert_eq!(&buf[..], data);
}

#[test]
fn test_writer_notifies_reader() {
    let (mut reader, mut writer) = split(Pipe::new(1024));

    let mut buf = Vec::new();
    let mut read_task = spawn(reader.read_buf(&mut buf));
    assert_pending(read_task.poll());

    let data = b"Hello, world!";
    let mut write_task = spawn(writer.write_all(data));
    let write_ret = assert_ready(write_task.poll());
    assert!(write_ret.is_ok());
    drop(write_task);
    assert!(read_task.is_woken());

    let read_ret = assert_ready(read_task.poll());
    assert!(read_ret.is_ok());
    drop(read_task);
    assert_eq!(&buf[..], data);
}

#[test]
fn test_partial_read() {
    let (mut reader, mut writer) = split(Pipe::new(1024));

    let data = b"Hello, world!";
    let mut write_task = spawn(writer.write_all(data));
    let write_ret = assert_ready(write_task.poll());
    assert!(write_ret.is_ok());
    drop(write_task);

    let mut buf = [0u8; 7];

    let mut read_task = spawn(reader.read_exact(&mut buf));
    let read_ret = assert_ready(read_task.poll());
    assert!(read_ret.is_ok());
    drop(read_task);
    assert_eq!(&buf[..], b"Hello, ");

    let mut buf_ref = &mut buf[..];
    let mut read_task = spawn(reader.read_buf(&mut buf_ref));
    let read_ret = assert_ready(read_task.poll());
    assert!(read_ret.is_ok());
    drop(read_task);
    assert_eq!(&buf[..], b"world! ");
}

#[test]
fn test_drop_writer() {
    let (mut reader, mut writer) = split(Pipe::new(1024));
    assert_ready(spawn(writer.write_all(b"Hello, world!")).poll()).unwrap();

    drop(writer);
    let mut buf = Vec::new();
    let mut read_eof_task = spawn(reader.read_to_end(&mut buf));
    let read_eof_ret = assert_ready(read_eof_task.poll());
    assert!(read_eof_ret.is_ok());
    drop(read_eof_task);
    assert_eq!(&buf[..], b"Hello, world!");
}

#[test]
fn test_drop_writer_notify_reader() {
    let (mut reader, writer) = split(Pipe::new(1024));

    let mut buf = Vec::new();
    let mut read_task = spawn(reader.read_buf(&mut buf));
    assert_pending(read_task.poll());

    drop(writer);
    assert!(read_task.is_woken());

    let read_ret = assert_ready(read_task.poll());
    assert!(read_ret.is_ok());
    drop(read_task);
    assert!(buf.is_empty());
}

#[test]
fn test_drop_reader() {
    let (reader, mut writer) = split(Pipe::new(1024));

    drop(reader);
    let data = b"Hello, world!";
    let mut write_task = spawn(writer.write_all(data));
    let write_ret = assert_ready(write_task.poll());
    let err = write_ret.err().unwrap();
    assert_eq!(err.kind(), io::ErrorKind::BrokenPipe);
}

#[test]
fn test_drop_reader_notify_writer() {
    let (reader, mut writer) = split(Pipe::new(5));

    let data = b"Hello, world!";
    let mut write_task = spawn(writer.write_all(data));
    assert_pending(write_task.poll());

    drop(reader);
    assert!(write_task.is_woken());

    let write_ret = assert_ready(write_task.poll());
    let err = write_ret.err().unwrap();
    assert_eq!(err.kind(), io::ErrorKind::BrokenPipe);
}

#[test]
fn test_non_contiguous_internal_buffer() {
    let (mut reader, mut writer) = split(Pipe::new(4));

    assert_ready(spawn(writer.write_all(b"1234")).poll()).unwrap();

    let mut buf = [0u8; 2];
    assert_ready(spawn(reader.read_exact(&mut buf)).poll()).unwrap();
    assert_eq!(&buf[..], b"12");

    assert_ready(spawn(writer.write_all(b"56")).poll()).unwrap();

    let (head, tail) = reader.0.runs().unwrap();
    assert!(head != 0);
    assert!(tail != 0);

    let mut buf = Vec::new();
    let read_ret = assert_ready(spawn(reader.read_buf(&mut buf)).poll());
    assert!(read_ret.is_ok());
    assert_eq!(&buf[..], b"3456");
}

#[test]
fn pipe_reads_across_the_wrap() {
    let mut pipe = Pipe::new(4);
    let mut task = spawn(());

    assert_eq!(Poll::Ready(Ok(4)), task.enter(|cx, _| pipe.poll_write(cx, b"1234")));

    let mut storage = [0u8; 2];
    let mut buf = ReadBuf::new(&mut storage);
    assert_eq!(Poll::Ready(()), task.enter(|cx, _| pipe.poll_read(cx, &mut buf)));
    assert_eq!(buf.filled(), b"12");

    assert_eq!(Poll::Ready(Ok(2)), task.enter(|cx, _| pipe.poll_write(cx, b"56")));

    let (head, tail) = pipe.runs();
    assert!(head != 0);
    assert!(tail != 0);
    assert_eq!(head + tail, 4);

    let mut storage = [0u8; 8];
    let mut buf = ReadBuf::new(&mut storage);
    assert_eq!(Poll::Ready(()), task.enter(|cx, _| pipe.poll_read(cx, &mut buf)));
    assert_eq!(buf.filled(), b"3456");
    assert_eq!(buf.remaining(), 4);
    assert_eq!(pipe.runs(), (0, 0));
}

#[test]
fn test_duplex_pipe() {
    let (mut stream1, mut stream2) = duplex_pipe(1024);

    let data = b"Hello, world!";
    let mut write_task = spawn(stream1.write_all(data));
    let write_ret = assert_ready(write_task.poll());
    assert!(write_ret.is_ok());
    drop(write_task);

    assert_pending(spawn(stream1.read_u8()).poll());

    let mut buf = Vec::new();
    let mut read_task = spawn(stream2.read_buf(&mut buf));
    let read_ret = assert_ready(read_task.poll());
    assert!(read_ret.is_ok());
    drop(read_task);
    assert_eq!(&buf[..], data);

    let data = b"Goodbye, world!";
    let mut write_task = spawn(stream2.write_all(data));
    let write_ret = assert_ready(write_task.poll());
    assert!(write_ret.is_ok());
    drop(write_task);

    assert_pending(spawn(stream2.read_u8()).poll());

    let mut buf = Vec::new();
    let mut read_task = spawn(stream1.read_buf(&mut buf));
    let read_ret = assert_ready(read_task.poll());
    assert!(read_ret.is_ok());
    drop(read_task);
    assert_eq!(&buf[..], data);
}

#[test]
fn pipe_write_is_partial_when_buffer_is_short() {
    let mut pipe = Pipe::new(7);
    let mut task = spawn(());
    let data = b"Hello, world!";

    assert_eq!(Poll::Ready(Ok(7)), task.enter(|cx, _| pipe.poll_write(cx, data)));
    assert_eq!(Poll::Pending, task.enter(|cx, _| pipe.poll_write(cx, &data[7..])));

    let mut storage = [0u8; 5];
    let mut buf = ReadBuf::new(&mut storage);
    assert_eq!(Poll::Ready(()), task.enter(|cx, _| pipe.poll_read(cx, &mut buf)));
    assert_eq!(buf.filled(), b"Hello");
    assert!(task.is_woken());

    assert_eq!(Poll::Ready(Ok(5)), task.enter(|cx, _| pipe.poll_write(cx, &data[7..])));
    assert_eq!(Poll::Pending, task.enter(|cx, _| pipe.poll_write(cx, &data[12..])));

    let mut storage = [0u8; 16];
    let mut buf = ReadBuf::new(&mut storage);
    assert_eq!(Poll::Ready(()), task.enter(|cx, _| pipe.poll_read(cx, &mut buf)));
    assert_eq!(buf.filled(), b", world");
    assert!(task.is_woken());

    assert_eq!(Poll::Ready(Ok(1)), task.enter(|cx, _| pipe.poll_write(cx, &data[12..])));
    assert_eq!(Poll::Ready(()), task.enter(|cx, _| pipe.poll_read(cx, &mut buf)));
    assert_eq!(buf.filled(), b", world!");
}

#[test]
fn pipe_read_into_full_buffer_takes_nothing() {
    let mut pipe = Pipe::new(8);
    let mut task = spawn(());
    assert_eq!(Poll::Ready(Ok(3)), task.enter(|cx, _| pipe.poll_write(cx, b"abc")));

    let mut storage = [0u8; 0];
    let mut buf = ReadBuf::new(&mut storage);
    assert_eq!(Poll::Ready(()), task.enter(|cx, _| pipe.poll_read(cx, &mut buf)));
    assert_eq!(buf.filled(), b"");
    assert_eq!(pipe.runs().0 + pipe.runs().1, 3);
}

#[test]
fn pipe_vectored_write_counts_all_buffers() {
    let mut pipe = Pipe::new(7);
    let mut task = spawn(());
    let bufs: [&[u8]; 4] = [b"ab", b"", b"cdef", b"ghij"];

    assert_eq!(Poll::Ready(Ok(7)), task.enter(|cx, _| pipe.poll_write_vectored(cx, &bufs)));
    assert_eq!(Poll::Pending, task.enter(|cx, _| pipe.poll_write_vectored(cx, &bufs)));

    let mut storage = [0u8; 16];
    let mut buf = ReadBuf::new(&mut storage);
    assert_eq!(Poll::Ready(()), task.enter(|cx, _| pipe.poll_read(cx, &mut buf)));
    assert_eq!(buf.filled(), b"abcdefg");

    let none: [&[u8]; 0] = [];
    assert_eq!(Poll::Ready(Ok(0)), task.enter(|cx, _| pipe.poll_write_vectored(cx, &none)));
}

#[test]
fn pipe_closed_write_hands_the_count_back() {
    let mut pipe = Pipe::new(7);
    let mut task = spawn(());

    pipe.close_read();
    assert_eq!(
        Poll::Ready(Err(SendError::Closed(13))),
        task.enter(|cx, _| pipe.poll_write(cx, b"Hello, world!"))
    );
    let bufs: [&[u8]; 2] = [b"abc", b"defgh"];
    assert_eq!(
        Poll::Ready(Err(SendError::Closed(8))),
        task.enter(|cx, _| pipe.poll_write_vectored(cx, &bufs))
    );
}

#[test]
fn pipe_end_of_stream_after_drain() {
    let mut pipe = Pipe::new(4);
    let mut task = spawn(());
    assert_eq!(Poll::Ready(Ok(2)), task.enter(|cx, _| pipe.poll_write(cx, b"hi")));
    assert_eq!(Poll::Ready(()), task.enter(|cx, _| pipe.poll_shutdown(cx)));

    let mut storage = [0u8; 4];
    let mut buf = ReadBuf::new(&mut storage);
    assert_eq!(Poll::Ready(()), task.enter(|cx, _| pipe.poll_read(cx, &mut buf)));
    assert_eq!(buf.filled(), b"hi");
    assert_eq!(Poll::Ready(()), task.enter(|cx, _| pipe.poll_read(cx, &mut buf)));
    assert_eq!(buf.filled(), b"hi");
    assert!(pipe.is_write_vectored());
    assert_eq!(Poll::Ready(()), task.enter(|cx, _| pipe.poll_flush(cx)));
}

#[test]
fn pipe_double_close_wakes_once() {
    let (mut reader, writer) = split(Pipe::new(4));
    let mut buf = Vec::new();
    let mut read_task = spawn(reader.read_buf(&mut buf));
    assert_pending(read_task.poll());

    let mut writer = writer;
    assert!(writer.0.close());
    assert!(read_task.is_woken());
    assert_eq!(0, assert_ready(read_task.poll()).unwrap());
    assert!(!read_task.is_woken());

    // Dropping closes a second time.
    drop(writer);
    assert!(!read_task.is_woken());
    drop(read_task);
    drop(reader);
}

#[test]
fn duplex_end_splits_into_its_halves() {
    let (end1, end2) = pipe::duplex_pipe(16);
    let (mut reader1, mut writer1) = end1.into_split();
    let mut end2 = end2;
    let mut task = spawn(());

    assert_eq!(Some(Poll::Ready(Ok(4))), task.enter(|cx, _| writer1.poll_write(cx, b"ping")));
    let (reader2, writer2) = end2.split();
    let mut storage = [0u8; 8];
    let mut buf = ReadBuf::new(&mut storage);
    assert_eq!(Some(Poll::Ready(())), task.enter(|cx, _| reader2.poll_read(cx, &mut buf)));
    assert_eq!(buf.filled(), b"ping");

    assert_eq!(Some(Poll::Ready(Ok(4))), task.enter(|cx, _| writer2.poll_write(cx, b"pong")));
    let mut storage = [0u8; 8];
    let mut buf = ReadBuf::new(&mut storage);
    assert_eq!(Some(Poll::Ready(())), task.enter(|cx, _| reader1.poll_read(cx, &mut buf)));
    assert_eq!(buf.filled(), b"pong");
}

#[test]
fn pipe_the_task_that_waits_is_the_task_that_is_resumed() {
    let mut pipe = Pipe::new(2);
    let mut stale = spawn(());
    let mut writer = spawn(());
    let mut reader = spawn(());

    let mut storage = [0u8; 4];
    let mut buf = ReadBuf::new(&mut storage);
    assert_eq!(Poll::Pending, stale.enter(|cx, _| pipe.poll_read(cx, &mut buf)));
    assert_eq!(Poll::Pending, reader.enter(|cx, _| pipe.poll_read(cx, &mut buf)));
    assert_eq!(Poll::Ready(Ok(2)), writer.enter(|cx, _| pipe.poll_write(cx, b"abc")));
    assert!(reader.is_woken());
    assert!(!stale.is_woken());

    assert_eq!(Poll::Pending, stale.enter(|cx, _| pipe.poll_write(cx, b"c")));
    assert_eq!(Poll::Pending, writer.enter(|cx, _| pipe.poll_write(cx, b"c")));
    assert_eq!(Poll::Ready(()), reader.enter(|cx, _| pipe.poll_read(cx, &mut buf)));
    assert_eq!(buf.filled(), b"ab");
    assert!(writer.is_woken());
    assert!(!stale.is_woken());
}
