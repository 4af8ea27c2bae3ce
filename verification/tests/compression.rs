use std::io::Read;

use tklog::compress::{
    after_packing, extension, gzip, on_output_written, on_source_read, output_written, pack,
    packed_as, source_read, zlib, ArchiveTask, Codec, CompressionError, Packed, WorkerStep,
};

fn gunzip(stream: &[u8]) -> Vec<u8> {
    let mut plain: Vec<u8> = Vec::new();
    flate2::read::GzDecoder::new(stream).read_to_end(&mut plain).unwrap();
    plain
}

fn inflate(stream: &[u8]) -> Vec<u8> {
    let mut plain: Vec<u8> = Vec::new();
    flate2::read::ZlibDecoder::new(stream).read_to_end(&mut plain).unwrap();
    plain
}

fn sample() -> Vec<u8> {
    let mut bytes: Vec<u8> = Vec::new();
    for round in 0..500usize {
        bytes.extend_from_slice(format!("[INFO] line number {} of the log\n", round).as_bytes());
    }
    bytes
}

fn task() -> ArchiveTask {
    ArchiveTask { source_path: "app.log.20150515".to_string(), enqueued_at: 7 }
}

#[test]
fn gzip_round_trip() {
    let plain = sample();
    let packed = gzip("app.log.1", &plain).unwrap();
    assert_eq!(packed.path, "app.log.1.gz");
    assert_ne!(packed.data, plain);
    assert!(packed.data.len() < plain.len());
    assert_eq!(&packed.data[..3], &[0x1f, 0x8b, 8]);
    assert_eq!(gunzip(&packed.data), plain);
}

#[test]
fn gzip_of_nothing_round_trips() {
    let packed = gzip("empty", &[]).unwrap();
    assert_eq!(packed.path, "empty.gz");
    assert!(!packed.data.is_empty());
    assert_eq!(gunzip(&packed.data), Vec::<u8>::new());
}

#[test]
fn gzip_of_every_byte_value_round_trips() {
    let plain: Vec<u8> = (0..=255u8).cycle().take(3000).collect();
    assert_eq!(gunzip(&gzip("bin", &plain).unwrap().data), plain);
}

#[test]
fn gzip_gives_the_same_stream_for_the_same_bytes() {
    let plain = sample();
    assert_eq!(gzip("a", &plain).unwrap().data, gzip("b", &plain).unwrap().data);
}

#[test]
fn zlib_round_trip() {
    let plain = sample();
    let packed = zlib("app.log.1", &plain).unwrap();
    assert_eq!(packed.path, "app.log.1.zlib");
    assert_ne!(packed.data, plain);
    assert_eq!(packed.data[0], 0x78);
    assert_eq!(inflate(&packed.data), plain);
    assert_eq!(zlib("x", &plain).unwrap().data, packed.data);
}

#[test]
fn worker_writes_the_compressed_sibling() {
    let plain = sample();
    match on_source_read(&task(), Some(&plain)) {
        WorkerStep::Write { path, data } => {
            assert_eq!(path, "app.log.20150515.gz");
            assert_eq!(gunzip(&data), plain);
        },
        _ => panic!("the worker did not ask for a write"),
    }
}

#[test]
fn worker_gives_up_when_the_source_cannot_be_read() {
    match on_source_read(&task(), None) {
        WorkerStep::Abandon { discard, error } => {
            assert_eq!(discard, None);
            assert_eq!(error, CompressionError::Read);
        },
        _ => panic!("the worker did not give up"),
    }
}

#[test]
fn worker_removes_the_source_only_after_a_write_that_succeeded() {
    match on_output_written(&task(), true) {
        WorkerStep::Remove { path } => assert_eq!(path, "app.log.20150515"),
        _ => panic!("the worker did not remove the source"),
    }
    match on_output_written(&task(), false) {
        WorkerStep::Abandon { discard, error } => {
            assert_eq!(discard, Some("app.log.20150515.gz".to_string()));
            assert_eq!(error, CompressionError::Write);
        },
        _ => panic!("the worker did not give up"),
    }
}

fn rotating_sink() -> tklog::sink::FileSink {
    tklog::sink::FileSink::new(
        tklog::policy::SinkConfig {
            path: "app.log".to_string(),
            cut: tklog::CUTMODE::SIZE,
            timemode: tklog::MODE::DAY,
            size_threshold: 100,
            compress_on_rotate: true,
        },
        0,
    )
}

#[test]
fn queued_archive_is_replaced_by_its_compressed_sibling() {
    let mut sink = rotating_sink();
    let first = vec![b'a'; 60];
    let second = vec![b'b'; 60];
    let third = vec![b'c'; 60];
    sink.write(&first, 1).unwrap();
    sink.write(&second, 2).unwrap();
    sink.write(&third, 3).unwrap();
    assert_eq!(sink.files().archive_names(), vec!["app.log.1", "app.log.2"]);
    assert_eq!(sink.compress_next(), Some(Ok(())));
    assert_eq!(sink.files().archive_names(), vec!["app.log.2", "app.log.1.gz"]);
    assert_eq!(sink.files().archives()[0].data, second);
    assert_eq!(gunzip(&sink.files().archives()[1].data), first);
    assert_eq!(sink.files().active(), &third);
    assert_eq!(sink.pending().len(), 1);
    assert_eq!(sink.compress_next(), Some(Ok(())));
    assert_eq!(sink.files().archive_names(), vec!["app.log.1.gz", "app.log.2.gz"]);
    assert_eq!(gunzip(&sink.files().archives()[1].data), second);
    assert_eq!(sink.compress_next(), None);
    assert_eq!(sink.files().archive_names(), vec!["app.log.1.gz", "app.log.2.gz"]);
}

#[test]
fn compression_does_not_touch_the_live_file_or_the_rotation_state() {
    let mut sink = rotating_sink();
    sink.write(&vec![b'a'; 60], 1).unwrap();
    sink.write(&vec![b'b'; 60], 2).unwrap();
    assert_eq!(sink.compress_next(), Some(Ok(())));
    assert_eq!(sink.files().active(), &vec![b'b'; 60]);
    assert_eq!(sink.files().handles(), 1);
    assert_eq!(sink.sink().current_size, 60);
    assert_eq!(sink.sink().sequence, 2);
    assert!(sink.warnings().is_empty());
    sink.write(&vec![b'c'; 60], 3).unwrap();
    assert_eq!(sink.files().archive_names(), vec!["app.log.1.gz", "app.log.2"]);
}

#[test]
fn nothing_waits_without_a_rotation() {
    let mut sink = rotating_sink();
    sink.write(&vec![b'a'; 60], 1).unwrap();
    assert_eq!(sink.compress_next(), None);
    assert!(sink.files().archives().is_empty());
}

#[test]
fn stream_is_packed_under_the_name_with_the_extension() {
    let packed = packed_as("app.log.1", ".gz", Some(vec![1, 2, 3])).unwrap();
    assert_eq!(packed.path, "app.log.1.gz");
    assert_eq!(packed.data, vec![1, 2, 3]);
}

#[test]
fn missing_stream_is_a_failure_of_the_encoder() {
    match packed_as("app.log.1", ".gz", None) {
        Err(error) => assert_eq!(error, CompressionError::Codec),
        Ok(_) => panic!("a file was packed from nothing"),
    }
}

#[test]
fn worker_gives_up_when_the_encoder_fails() {
    match after_packing(Err(CompressionError::Codec)) {
        WorkerStep::Abandon { discard, error } => {
            assert_eq!(discard, None);
            assert_eq!(error, CompressionError::Codec);
        },
        _ => panic!("the worker did not give up"),
    }
    match after_packing(Ok(Packed { path: "a.gz".to_string(), data: vec![9, 8] })) {
        WorkerStep::Write { path, data } => {
            assert_eq!(path, "a.gz");
            assert_eq!(data, vec![9, 8]);
        },
        _ => panic!("the worker did not ask for a write"),
    }
}

#[test]
fn extensions_of_the_codecs() {
    assert_eq!(extension(Codec::Gzip), ".gz");
    assert_eq!(extension(Codec::Zlib), ".zlib");
}

#[test]
fn pack_follows_the_codec() {
    let plain = sample();
    let by_gzip = pack(Codec::Gzip, "a.log", &plain).unwrap();
    assert_eq!(by_gzip.path, "a.log.gz");
    assert_eq!(by_gzip.data, gzip("a.log", &plain).unwrap().data);
    assert_eq!(gunzip(&by_gzip.data), plain);
    let by_zlib = pack(Codec::Zlib, "a.log", &plain).unwrap();
    assert_eq!(by_zlib.path, "a.log.zlib");
    assert_eq!(by_zlib.data, zlib("a.log", &plain).unwrap().data);
    assert_eq!(inflate(&by_zlib.data), plain);
}

#[test]
fn zlib_worker_follows_the_same_steps() {
    let plain = sample();
    match source_read("app.log.3", Codec::Zlib, Some(&plain)) {
        WorkerStep::Write { path, data } => {
            assert_eq!(path, "app.log.3.zlib");
            assert_eq!(inflate(&data), plain);
        },
        _ => panic!("the worker did not ask for a write"),
    }
    match source_read("app.log.3", Codec::Zlib, None) {
        WorkerStep::Abandon { discard, error } => {
            assert_eq!(discard, None);
            assert_eq!(error, CompressionError::Read);
        },
        _ => panic!("the worker did not give up"),
    }
    match output_written("app.log.3", Codec::Zlib, true) {
        WorkerStep::Remove { path } => assert_eq!(path, "app.log.3"),
        _ => panic!("the worker did not remove the source"),
    }
    match output_written("app.log.3", Codec::Zlib, false) {
        WorkerStep::Abandon { discard, error } => {
            assert_eq!(discard, Some("app.log.3.zlib".to_string()));
            assert_eq!(error, CompressionError::Write);
        },
        _ => panic!("the worker did not give up"),
    }
    match output_written("app.log.3", Codec::Gzip, false) {
        WorkerStep::Abandon { discard, .. } => {
            assert_eq!(discard, Some("app.log.3.gz".to_string()));
        },
        _ => panic!("the worker did not give up"),
    }
}

#[test]
fn failed_write_of_the_stream_leaves_the_source_and_no_output() {
    let mut sink = rotating_sink();
    let first = vec![b'a'; 60];
    let second = vec![b'b'; 60];
    sink.write(&first, 1).unwrap();
    sink.write(&second, 2).unwrap();
    sink.set_deny_write(true);
    assert_eq!(sink.compress_next(), Some(Err(CompressionError::Write)));
    assert_eq!(sink.files().archive_names(), vec!["app.log.1"]);
    assert_eq!(sink.files().archives()[0].data, first);
    assert_eq!(sink.files().active(), &second);
    assert_eq!(sink.files().handles(), 1);
    assert!(sink.pending().is_empty());
    assert_eq!(sink.compress_next(), None);
    assert!(sink.warnings().is_empty());
}

#[test]
fn compression_works_again_once_the_write_does() {
    let mut sink = rotating_sink();
    sink.write(&vec![b'a'; 60], 1).unwrap();
    sink.write(&vec![b'b'; 60], 2).unwrap();
    sink.write(&vec![b'c'; 60], 3).unwrap();
    sink.set_deny_write(true);
    assert_eq!(sink.compress_next(), Some(Err(CompressionError::Write)));
    sink.set_deny_write(false);
    assert_eq!(sink.compress_next(), Some(Ok(())));
    assert_eq!(sink.files().archive_names(), vec!["app.log.1", "app.log.2.gz"]);
    assert_eq!(gunzip(&sink.files().archives()[1].data), vec![b'b'; 60]);
}
