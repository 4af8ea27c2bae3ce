//! Compression of retired files.
//!
//! The worker takes one task at a time. It packs the whole of the retired
//! file into a gzip stream, has it written beside the source under the
//! source's name with `.gz` behind it, and removes the source only once that
//! write has succeeded. When packing or writing fails, what was written of
//! the output is discarded and the source stays as it is. The bytes of the
//! stream are made by `flate2`.

use vstd::prelude::*;
use vstd::string::StringExecFns;

verus! {

/// What can go wrong while a retired file is compressed. It is reported to
/// whoever watches the worker, never to the callers that write log lines.
#[derive(PartialEq, Eq, Structural, Clone, Copy, Debug)]
pub enum CompressionError {
    /// The source could not be read.
    Read,
    /// The encoder failed.
    Codec,
    /// The compressed output could not be written.
    Write,
}

/// One retired file that awaits compression.
pub struct ArchiveTask {
    /// The path of the retired file.
    pub source_path: String,
    /// The second at which the task was handed on.
    pub enqueued_at: u64,
}

/// A task, as a path and a second.
pub struct TaskView {
    pub source_path: Seq<char>,
    pub enqueued_at: nat,
}

impl View for ArchiveTask {
    type V = TaskView;

    open spec fn view(&self) -> TaskView {
        TaskView { source_path: self.source_path@, enqueued_at: self.enqueued_at as nat }
    }
}

/// A compressed file, ready to be written.
pub struct Packed {
    pub path: String,
    pub data: Vec<u8>,
}

/// What the worker does next.
pub enum WorkerStep {
    /// Write `data` to `path`, then report whether that succeeded.
    Write { path: String, data: Vec<u8> },
    /// The output is safely written: remove the source at `path`.
    Remove { path: String },
    /// Give the task up: leave the source as it is, remove the partial output
    /// at `discard` where there is one, and report `error`.
    Abandon { discard: Option<String>, error: CompressionError },
}

impl WorkerStep {
    /// The step writes `data` to `path`.
    pub open spec fn writes(self, path: Seq<char>, data: Seq<u8>) -> bool {
        self matches WorkerStep::Write { path: p, data: d } && p@ == path && d@ == data
    }

    /// The step removes the source at `path`.
    pub open spec fn removes(self, path: Seq<char>) -> bool {
        self matches WorkerStep::Remove { path: p } && p@ == path
    }

    /// The step gives the task up with `error` and has nothing to discard.
    pub open spec fn abandons(self, error: CompressionError) -> bool {
        self matches WorkerStep::Abandon { discard, error: e } && discard is None && e == error
    }

    /// The step gives the task up with `error` and discards the partial
    /// output at `partial`.
    pub open spec fn abandons_discarding(self, partial: Seq<char>, error: CompressionError) -> bool {
        self matches WorkerStep::Abandon { discard: Some(d), error: e } && d@ == partial && e
            == error
    }
}

/// The gzip stream that `flate2` makes of `data` at its default level, or
/// `None` where its encoder fails on `data`.
pub uninterp spec fn gzip_of(data: Seq<u8>) -> Option<Seq<u8>>;

/// The zlib stream that `flate2` makes of `data` at its default level, or
/// `None` where its encoder fails on `data`.
pub uninterp spec fn zlib_of(data: Seq<u8>) -> Option<Seq<u8>>;

/// Packs bytes into a gzip stream.
///
/// Makes a `flate2::write::GzEncoder` over an empty `Vec` at
/// `Compression::default()`, writes `data` to it with `write_all` and takes
/// the stream from `finish`. An error of either call gives `None`. The
/// contract names the outcome, stream or failure: the encoder writes a
/// header without a time or a file name and into memory only, so the outcome
/// depends on `data` alone. It does not claim that there is a stream.
#[verifier::external_body]
pub(crate) fn gzip_stream(data: &[u8]) -> (stream: Option<Vec<u8>>)
    ensures
        stream matches Some(s) ==> gzip_of(data@) == Some(s@),
        stream is None ==> gzip_of(data@) is None,
{
    let mut encoder = flate2::write::GzEncoder::new(Vec::new(), flate2::Compression::default());
    match std::io::Write::write_all(&mut encoder, data) {
        Ok(()) => encoder.finish().ok(),
        Err(_) => None,
    }
}

/// Packs bytes into a zlib stream.
///
/// Makes a `flate2::write::ZlibEncoder` over an empty `Vec` at
/// `Compression::default()`, writes `data` to it with `write_all` and takes
/// the stream from `finish`. An error of either call gives `None`. The
/// contract names the outcome, stream or failure, which depends on `data`
/// alone. It does not claim that there is a stream.
#[verifier::external_body]
pub(crate) fn zlib_stream(data: &[u8]) -> (stream: Option<Vec<u8>>)
    ensures
        stream matches Some(s) ==> zlib_of(data@) == Some(s@),
        stream is None ==> zlib_of(data@) is None,
{
    let mut encoder = flate2::write::ZlibEncoder::new(Vec::new(), flate2::Compression::default());
    match std::io::Write::write_all(&mut encoder, data) {
        Ok(()) => encoder.finish().ok(),
        Err(_) => None,
    }
}

/// The two containers that a retired file can be packed into.
#[derive(PartialEq, Eq, Structural, Clone, Copy, Debug)]
pub enum Codec {
    Gzip,
    Zlib,
}

/// The extension that a file packed with `codec` bears behind the name of
/// its source.
pub open spec fn extension_of(codec: Codec) -> Seq<char> {
    match codec {
        Codec::Gzip => ".gz"@,
        Codec::Zlib => ".zlib"@,
    }
}

/// The stream that `codec` makes of `data`, or `None` where it fails.
pub open spec fn stream_of(codec: Codec, data: Seq<u8>) -> Option<Seq<u8>> {
    match codec {
        Codec::Gzip => gzip_of(data),
        Codec::Zlib => zlib_of(data),
    }
}

/// The bytes that were read, if any were.
pub open spec fn bytes_of(contents: Option<&[u8]>) -> Option<Seq<u8>> {
    match contents {
        Some(bytes) => Some(bytes@),
        None => None,
    }
}

/// `out` is what packing gives for the outcome `stream` of the encoder: the
/// stream under the name `filename` with `extension` behind it, or the
/// failure of the encoder where there is no stream.
pub open spec fn packs(
    out: Result<Packed, CompressionError>,
    filename: Seq<char>,
    extension: Seq<char>,
    stream: Option<Seq<u8>>,
) -> bool {
    match stream {
        Some(bytes) => out matches Ok(p) && p.path@ == filename + extension && p.data@ == bytes,
        None => out matches Err(e) && e == CompressionError::Codec,
    }
}

/// `step` is the worker's step once the source at `source` was read, or
/// could not be. A source that could not be read ends the task with nothing
/// to discard; so does an encoder that fails; else the stream is written
/// beside the source, under its name with the extension behind it.
pub open spec fn follows_read(
    step: WorkerStep,
    source: Seq<char>,
    codec: Codec,
    contents: Option<Seq<u8>>,
) -> bool {
    match contents {
        None => step.abandons(CompressionError::Read),
        Some(bytes) => match stream_of(codec, bytes) {
            Some(stream) => step.writes(source + extension_of(codec), stream),
            None => step.abandons(CompressionError::Codec),
        },
    }
}

/// `step` is the worker's step once the compressed sibling of `source` was
/// written, or could not be: the source is removed only after a write that
/// succeeded; after one that failed the partial output is discarded and the
/// source stays.
pub open spec fn follows_write(
    step: WorkerStep,
    source: Seq<char>,
    codec: Codec,
    written: bool,
) -> bool {
    if written {
        step.removes(source)
    } else {
        step.abandons_discarding(source + extension_of(codec), CompressionError::Write)
    }
}

/// The extension that a file packed with `codec` bears.
pub fn extension(codec: Codec) -> (text: &'static str)
    ensures
        text@ == extension_of(codec),
{
    match codec {
        Codec::Gzip => ".gz",
        Codec::Zlib => ".zlib",
    }
}

/// The compressed sibling of `filename`: the stream under the name of the
/// source with `extension` behind it, or the failure of the encoder where
/// there is no stream.
pub fn packed_as(filename: &str, extension: &str, stream: Option<Vec<u8>>) -> (out: Result<
    Packed,
    CompressionError,
>)
    ensures
        stream matches Some(s) ==> (out matches Ok(p) && p.path@ == filename@ + extension@
            && p.data == s),
        stream is None ==> out == Err::<Packed, CompressionError>(CompressionError::Codec),
{
    match stream {
        Some(data) => {
            let mut path = filename.to_string();
            path.append(extension);
            Ok(Packed { path, data })
        },
        None => Err(CompressionError::Codec),
    }
}

/// Compresses the contents of the file `filename` into a gzip stream, to be
/// written to `filename` with `.gz` behind it. It fails only where the
/// encoder does.
pub fn gzip(filename: &str, contents: &[u8]) -> (out: Result<Packed, CompressionError>)
    ensures
        packs(out, filename@, ".gz"@, gzip_of(contents@)),
{
    packed_as(filename, ".gz", gzip_stream(contents))
}

/// Compresses the contents of the file `filename` into a zlib stream, to be
/// written to `filename` with `.zlib` behind it. It fails only where the
/// encoder does.
pub fn zlib(filename: &str, contents: &[u8]) -> (out: Result<Packed, CompressionError>)
    ensures
        packs(out, filename@, ".zlib"@, zlib_of(contents@)),
{
    packed_as(filename, ".zlib", zlib_stream(contents))
}

/// Compresses the contents of the file `filename` with `codec`, to be
/// written to `filename` with the extension of `codec` behind it.
pub fn pack(codec: Codec, filename: &str, contents: &[u8]) -> (out: Result<
    Packed,
    CompressionError,
>)
    ensures
        packs(out, filename@, extension_of(codec), stream_of(codec, contents@)),
{
    match codec {
        Codec::Gzip => gzip(filename, contents),
        Codec::Zlib => zlib(filename, contents),
    }
}

/// The worker's step once the source was packed, or could not be: the
/// compressed sibling is written, or the task is given up with nothing to
/// discard.
pub fn after_packing(packed: Result<Packed, CompressionError>) -> (step: WorkerStep)
    ensures
        packed matches Ok(p) ==> step.writes(p.path@, p.data@),
        packed matches Err(e) ==> step.abandons(e),
{
    match packed {
        Ok(packed) => WorkerStep::Write { path: packed.path, data: packed.data },
        Err(error) => WorkerStep::Abandon { discard: None, error },
    }
}

/// The worker's step once the file at `source` was read, or could not be,
/// for a worker that packs with `codec`.
pub fn source_read(source: &str, codec: Codec, contents: Option<&[u8]>) -> (step: WorkerStep)
    ensures
        follows_read(step, source@, codec, bytes_of(contents)),
{
    match contents {
        None => WorkerStep::Abandon { discard: None, error: CompressionError::Read },
        Some(bytes) => after_packing(pack(codec, source, bytes)),
    }
}

/// The worker's step once the compressed sibling of the file at `source`
/// was written, or could not be, for a worker that packs with `codec`.
pub fn output_written(source: &str, codec: Codec, written: bool) -> (step: WorkerStep)
    ensures
        follows_write(step, source@, codec, written),
{
    if written {
        WorkerStep::Remove { path: source.to_string() }
    } else {
        let mut partial = source.to_string();
        partial.append(extension(codec));
        WorkerStep::Abandon { discard: Some(partial), error: CompressionError::Write }
    }
}

/// The worker's step once the source of `task` was read, or could not be:
/// the gzip stream of the source is written beside it, or the task is given
/// up with nothing to discard.
pub fn on_source_read(task: &ArchiveTask, contents: Option<&[u8]>) -> (step: WorkerStep)
    ensures
        follows_read(step, task.source_path@, Codec::Gzip, bytes_of(contents)),
{
    source_read(task.source_path.as_str(), Codec::Gzip, contents)
}

/// The worker's step once the gzip sibling of the source of `task` was
/// written, or could not be: the source is removed only after a write that
/// succeeded; after one that failed the partial output is discarded and the
/// source stays.
pub fn on_output_written(task: &ArchiveTask, written: bool) -> (step: WorkerStep)
    ensures
        follows_write(step, task.source_path@, Codec::Gzip, written),
{
    output_written(task.source_path.as_str(), Codec::Gzip, written)
}

} // verus!
