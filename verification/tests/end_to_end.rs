use fifo_pipe::error::PipeError;
use fifo_pipe::pipe::{created, removed, written, Pipe, Reader, Writer};
use fifo_pipe::request::WriteAll;
use nix::errno::Errno;
use nix::fcntl::OFlag;
use nix::sys::stat::{Mode, SFlag};
use std::path::Path;
use tokio::io::AsyncWriteExt;
use tokio::runtime::Builder;

fn entry_at(path: &str) -> bool {
    Path::new(path).exists()
}

fn ensure_exists(pipe: &Pipe) -> Result<(), PipeError> {
    let step = pipe.ensure_exists(entry_at(pipe.path()));
    created(step.map(|request| {
        nix::unistd::mkfifo(request.path.as_str(), Mode::from_bits_truncate(request.mode.bits()))
    }))
}

fn reader_pipe_exists(reader: &Reader) -> Result<&Reader, PipeError> {
    let step = reader.pipe_exists(entry_at(reader.path()));
    created(step.map(|request| {
        nix::unistd::mkfifo(request.path.as_str(), Mode::from_bits_truncate(request.mode.bits()))
    }))?;
    Ok(reader)
}

fn writer_pipe_exists(writer: &Writer) -> Result<&Writer, PipeError> {
    let step = writer.pipe_exists(entry_at(writer.path()));
    created(step.map(|request| {
        nix::unistd::mkfifo(request.path.as_str(), Mode::from_bits_truncate(request.mode.bits()))
    }))?;
    Ok(writer)
}

fn is_fifo(path: &str) -> bool {
    let mode = nix::sys::stat::stat(path).unwrap().st_mode;
    SFlag::from_bits_truncate(mode) & SFlag::S_IFMT == SFlag::S_IFIFO
}

fn permission_bits(path: &str) -> u32 {
    nix::sys::stat::stat(path).unwrap().st_mode & 0o7777
}

fn write_blocking(request: WriteAll<'_>) -> std::io::Result<()> {
    let mut flags = OFlag::empty();
    if request.policy.write {
        flags |= OFlag::O_WRONLY;
    }
    if request.policy.create {
        flags |= OFlag::O_CREAT;
    }
    if request.policy.truncate {
        flags |= OFlag::O_TRUNC;
    }
    let file = nix::fcntl::open(request.path, flags, Mode::empty())?;
    let mut rest = request.data;
    while !rest.is_empty() {
        let sent = nix::unistd::write(&file, rest)?;
        rest = &rest[sent..];
    }
    Ok(())
}

fn read_blocking(path: &str) -> std::io::Result<Vec<u8>> {
    let file = nix::fcntl::open(path, OFlag::O_RDONLY, Mode::empty())?;
    let mut all = Vec::new();
    let mut buffer = [0u8; 4096];
    loop {
        let got = nix::unistd::read(&file, &mut buffer)?;
        if got == 0 {
            return Ok(all);
        }
        all.extend_from_slice(&buffer[..got]);
    }
}

async fn delete(pipe: Pipe) -> Result<(), PipeError> {
    let present = entry_at(pipe.path());
    match pipe.delete(present) {
        None => removed(None),
        Some(request) => removed(Some(tokio::fs::remove_file(&request.path).await)),
    }
}

async fn perform(request: WriteAll<'_>) -> std::io::Result<()> {
    let mut file = tokio::fs::OpenOptions::new()
        .write(request.policy.write)
        .create(request.policy.create)
        .truncate(request.policy.truncate)
        .open(request.path)
        .await?;
    file.write_all(request.data).await?;
    file.flush().await
}

async fn async_write(writer: &Writer, data: &[u8]) -> Result<(), PipeError> {
    written(perform(writer.write(data)).await)
}

async fn async_write_str(writer: &Writer, data: &str) -> Result<(), PipeError> {
    written(perform(writer.write_str(data)).await)
}

async fn async_read(reader: &Reader) -> Result<Vec<u8>, PipeError> {
    reader.read(tokio::fs::read(reader.path()).await)
}

async fn async_read_str(reader: &Reader) -> Result<String, PipeError> {
    reader.string(tokio::fs::read(reader.path()).await)
}

#[test]
fn write_and_read_threaded() {
    let runtime = Builder::new_current_thread().build().unwrap();
    let pipe = Pipe::new("/tmp/test_pipe_0");
    ensure_exists(&pipe).unwrap();
    let writer = pipe.writer();
    let reader = pipe.reader();
    let data_to_send = "Hello pipe";
    let handle = runtime.handle().clone();
    let handle_read = runtime.handle().clone();
    let t_write = runtime
        .spawn_blocking(move || handle.block_on(async { async_write_str(&writer, data_to_send).await }));
    let t_read =
        runtime.spawn_blocking(move || handle_read.block_on(async { async_read_str(&reader).await }));
    let _a = runtime.block_on(t_write).unwrap();
    let read_result = runtime.block_on(t_read).unwrap().unwrap();
    assert_eq!(read_result, data_to_send);
    runtime.block_on(delete(pipe)).unwrap();
}

#[test]
fn ensure_on_write() {
    let runtime = Builder::new_current_thread().build().unwrap();
    runtime.block_on(async {
        let pipe = Pipe::new("/tmp/test_pipe_1");
        ensure_exists(&pipe).unwrap();
        let writer = pipe.writer();
        let reader = pipe.reader();
        let data_to_send = "Hello pipe";
        let t1 = tokio::spawn(async move {
            async_write(writer_pipe_exists(&writer).unwrap(), data_to_send.as_bytes()).await
        });
        let t2 = tokio::spawn(async move { async_read(&reader).await });
        let _a = t1.await.unwrap();
        let read_result = t2.await.unwrap();
        assert_eq!(read_result.unwrap(), data_to_send.as_bytes());
        delete(pipe).await.unwrap();
    });
}

#[test]
fn ensure_on_read() {
    let runtime = Builder::new_current_thread().build().unwrap();
    runtime.block_on(async {
        let pipe = Pipe::new("/tmp/test_pipe_2");
        ensure_exists(&pipe).unwrap();
        let writer = pipe.writer();
        let reader = pipe.reader();
        let data_to_send = "Hello pipe";
        let t1 = tokio::spawn(async move { async_write(&writer, data_to_send.as_bytes()).await });
        let t2 = tokio::spawn(async move { async_read(reader_pipe_exists(&reader).unwrap()).await });
        let _a = t1.await.unwrap();
        let read_result = t2.await.unwrap();
        assert_eq!(read_result.unwrap(), data_to_send.as_bytes());
        delete(pipe).await.unwrap();
    });
}

#[test]
fn write_and_read_async() {
    let runtime = Builder::new_current_thread().build().unwrap();
    runtime.block_on(async {
        let pipe = Pipe::new("/tmp/test_pipe_3");
        ensure_exists(&pipe).unwrap();
        let writer = pipe.writer();
        let reader = pipe.reader();
        let data_to_send = "Hello pipe";
        let t1 = tokio::spawn(async move { async_write(&writer, data_to_send.as_bytes()).await });
        let t2 = tokio::spawn(async move { async_read_str(&reader).await });
        let _a = t1.await.unwrap();
        let read_result = t2.await.unwrap();
        assert_eq!(read_result.unwrap(), data_to_send);
        delete(pipe).await.unwrap();
    });
}

#[test]
fn lifecycle_on_a_real_filesystem() {
    let runtime = Builder::new_current_thread().build().unwrap();
    runtime.block_on(async {
        let pipe = Pipe::new("/tmp/test_pipe_x");
        // Deleting what is not there succeeds.
        delete(pipe.clone()).await.unwrap();
        assert!(!entry_at(pipe.path()));
        delete(pipe.clone()).await.unwrap();
        // What is missing gets created before the read.
        let reader = pipe.reader();
        reader_pipe_exists(&reader).unwrap();
        assert!(entry_at(pipe.path()));
        // Making sure twice is as good as once.
        ensure_exists(&pipe).unwrap();
        ensure_exists(&pipe).unwrap();
        assert!(entry_at(pipe.path()));
        let writer = pipe.writer();
        let t1 = tokio::spawn(async move { async_write_str(&writer, "Hello pipe").await });
        let t2 = tokio::spawn(async move { async_read_str(&reader).await });
        t1.await.unwrap().unwrap();
        assert_eq!(t2.await.unwrap().unwrap(), "Hello pipe");
        delete(pipe.clone()).await.unwrap();
        assert!(!entry_at(pipe.path()));
    });
}

#[test]
fn raw_bytes_through_a_real_pipe_are_no_text() {
    let runtime = Builder::new_current_thread().build().unwrap();
    runtime.block_on(async {
        let pipe = Pipe::new("/tmp/test_pipe_raw");
        ensure_exists(&pipe).unwrap();
        let writer = pipe.writer();
        let reader = pipe.reader();
        let t1 = tokio::spawn(async move { async_write(&writer, &[b'H', b'i', 0xff]).await });
        let t2 = tokio::spawn(async move { async_read_str(&reader).await });
        t1.await.unwrap().unwrap();
        assert!(matches!(t2.await.unwrap(), Err(PipeError::Decoding)));
        delete(pipe).await.unwrap();
    });
}

#[test]
fn writing_to_a_missing_pipe_creates_nothing() {
    let runtime = Builder::new_current_thread().build().unwrap();
    runtime.block_on(async {
        let pipe = Pipe::new("/tmp/test_pipe_missing");
        delete(pipe.clone()).await.unwrap();
        let writer = pipe.writer();
        let answer = async_write(&writer, b"lost").await;
        assert!(matches!(answer, Err(PipeError::Io(_))));
        assert!(!entry_at(pipe.path()));
    });
}

#[test]
fn write_and_read_blocking() {
    let runtime = Builder::new_current_thread().build().unwrap();
    let pipe = Pipe::new("/tmp/test_pipe_blocking");
    ensure_exists(&pipe).unwrap();
    let writer = pipe.writer();
    let reader = pipe.reader();
    let t_write =
        runtime.spawn_blocking(move || written(write_blocking(writer.write_str("Hello pipe"))));
    let t_read = runtime.spawn_blocking(move || reader.string(read_blocking(reader.path())));
    runtime.block_on(t_write).unwrap().unwrap();
    assert_eq!(runtime.block_on(t_read).unwrap().unwrap(), "Hello pipe");
    runtime.block_on(delete(pipe)).unwrap();
}

#[test]
fn write_and_read_blocking_bytes() {
    let runtime = Builder::new_current_thread().build().unwrap();
    let pipe = Pipe::new("/tmp/test_pipe_blocking_bytes");
    ensure_exists(&pipe).unwrap();
    let writer = pipe.writer();
    let reader = pipe.reader();
    let data: Vec<u8> = (0..=255u8).collect();
    let sent = data.clone();
    let t_write = runtime.spawn_blocking(move || written(write_blocking(writer.write(&sent))));
    let t_read = runtime.spawn_blocking(move || reader.read(read_blocking(reader.path())));
    runtime.block_on(t_write).unwrap().unwrap();
    assert_eq!(runtime.block_on(t_read).unwrap().unwrap(), data);
    runtime.block_on(delete(pipe)).unwrap();
}

#[test]
fn ensure_exists_makes_a_fifo_and_keeps_it_one() {
    let runtime = Builder::new_current_thread().build().unwrap();
    let pipe = Pipe::new("/tmp/test_pipe_kind");
    runtime.block_on(delete(pipe.clone())).unwrap();
    ensure_exists(&pipe).unwrap();
    assert!(is_fifo(pipe.path()));
    // The process mask can only take bits away from the mode asked for.
    assert_eq!(permission_bits(pipe.path()) & !0o660, 0);
    ensure_exists(&pipe).unwrap();
    assert!(is_fifo(pipe.path()));
    runtime.block_on(delete(pipe.clone())).unwrap();
    assert!(!entry_at(pipe.path()));
}

#[test]
fn ensure_exists_leaves_an_entry_of_another_kind_alone() {
    let runtime = Builder::new_current_thread().build().unwrap();
    runtime.block_on(async {
        let pipe = Pipe::new("/tmp/test_pipe_regular");
        delete(pipe.clone()).await.unwrap();
        tokio::fs::write(pipe.path(), b"plain").await.unwrap();
        ensure_exists(&pipe).unwrap();
        assert!(entry_at(pipe.path()));
        assert!(!is_fifo(pipe.path()));
        assert_eq!(tokio::fs::read(pipe.path()).await.unwrap(), b"plain");
        delete(pipe.clone()).await.unwrap();
        assert!(!entry_at(pipe.path()));
    });
}

#[test]
fn creation_below_a_missing_directory_fails() {
    let pipe = Pipe::new("/tmp/test_pipe_no_such_directory/pipe");
    let first = ensure_exists(&pipe);
    assert!(matches!(first, Err(PipeError::Creation(Errno::ENOENT))));
    // Nothing was made, so a second attempt fails in the same way.
    let second = ensure_exists(&pipe);
    assert!(matches!(second, Err(PipeError::Creation(Errno::ENOENT))));
    assert!(!entry_at(pipe.path()));
}
