//! The rotating file sink.
//!
//! A sink owns the live file of one logical path. Before each write it asks
//! the rotation policy; where a rotation is due it closes the live file,
//! renames it to its archive name, opens a fresh file and, if so configured,
//! queues the archive for compression; then it appends the bytes, whole, to
//! the file that is now live. Where the rename fails the rotation is given
//! up: the old file is opened again, the failure is noted as a warning and
//! the write goes on against it.
//!
//! `Sink` holds the rotation state and its transitions, for any kind of
//! file. `FileSink` runs the protocol on files held in memory.

use vstd::prelude::*;

use crate::clock::MAX_TIMESTAMP;
use crate::compress::{
    gzip_of, on_output_written, on_source_read, ArchiveTask, CompressionError, TaskView,
    WorkerStep,
};
use crate::naming::{
    archive_name, compressed_name_of, is_first_free, lemma_first_free_unique,
    lemma_unused_base_is_first_free, name_for, unused_name,
};
use crate::policy::{rotation_due, should_rotate, RotationDecision, Sink, SinkConfig};
use crate::store::{lemma_rename_keeps_journal, ArchiveView, Files, FilesView};
use crate::text::texts;
use crate::CUTMODE;

verus! {

/// A failure of an operation on the live file.
#[derive(PartialEq, Eq, Structural, Clone, Copy, Debug)]
pub enum IoError {
    /// The bytes could not be appended. The caller of the write is told.
    Write,
    /// The live file could not be renamed. The write goes on; whoever
    /// watches the sink is told.
    Rename,
}

/// What follows an attempt to retire the live file.
pub struct Settled {
    /// The archive to hand on for compression.
    pub task: Option<ArchiveTask>,
    /// The failure to report to whoever watches the sink.
    pub warning: Option<IoError>,
}

impl Sink {
    /// What the archive name of the live file is built from: under a
    /// rotation by time the second at which the file was opened, under a
    /// rotation by size the sequence number.
    pub open spec fn name_key(self) -> nat {
        match self.config.cut {
            CUTMODE::TIME => self.opened_at as nat,
            CUTMODE::SIZE => self.sequence as nat,
        }
    }

    /// The archive name of the live file, before a look at the names in use.
    pub open spec fn base_name(self) -> Seq<char> {
        archive_name(self.config.path@, self.config.cut, self.config.timemode, self.name_key())
    }

    /// The state after a rotation at `now`: a fresh, empty file and the next
    /// sequence number.
    pub open spec fn after_rotation(self, now: u64) -> Sink {
        Sink {
            opened_at: now,
            current_size: 0,
            sequence: if self.sequence < u64::MAX {
                (self.sequence + 1) as u64
            } else {
                self.sequence
            },
            config: self.config,
        }
    }

    /// The state after `len` bytes were appended. The count stops at the
    /// greatest number that it can hold.
    pub open spec fn after_append(self, len: nat) -> Sink {
        Sink {
            current_size: if self.current_size + len > u64::MAX {
                u64::MAX
            } else {
                (self.current_size + len) as u64
            },
            ..self
        }
    }

    /// The state of a sink whose file was opened at `now`.
    pub fn new(config: SinkConfig, now: u64) -> (sink: Sink)
        ensures
            sink == (Sink { config, opened_at: now, current_size: 0, sequence: 1 }),
    {
        Sink { config, opened_at: now, current_size: 0, sequence: 1 }
    }

    /// The archive name of the live file, before a look at the names in use.
    pub fn backup_base(&self) -> (name: String)
        requires
            self.config.cut is TIME ==> self.opened_at <= MAX_TIMESTAMP,
        ensures
            name@ == self.base_name(),
    {
        let key = match self.config.cut {
            CUTMODE::TIME => self.opened_at,
            CUTMODE::SIZE => self.sequence,
        };
        name_for(self.config.path.as_str(), self.config.cut, self.config.timemode, key)
    }

    /// Notes that the live file was retired and a fresh one opened at `now`.
    pub fn rotated(&mut self, now: u64)
        ensures
            *final(self) == old(self).after_rotation(now),
    {
        self.opened_at = now;
        self.current_size = 0;
        if self.sequence < u64::MAX {
            self.sequence = self.sequence + 1;
        }
    }

    /// Plans a write of `len` bytes at `now`: the name under which the live
    /// file must be retired first, or `None` where no rotation is due. The
    /// name is the first candidate that is not among the names `taken`.
    pub fn plan(&self, now: u64, len: u64, taken: &Vec<String>) -> (retire_as: Option<String>)
        ensures
            retire_as is Some <==> rotation_due(*self, now as int, len as int) is Rotate,
            retire_as matches Some(name) ==> is_first_free(self.base_name(), texts(taken@), name@),
    {
        match should_rotate(self, now, len) {
            RotationDecision::NoOp => None,
            RotationDecision::Rotate { .. } => {
                let base = self.backup_base();
                Some(unused_name(base.as_str(), taken))
            },
        }
    }

    /// Settles a rotation once the rename of the live file to `name` was
    /// tried at `now`. After a rename that went through the state is that of
    /// a fresh file, and the archive is handed on where the sink compresses.
    /// After one that failed the state stays and the failure is reported.
    pub fn settle(&mut self, now: u64, name: String, renamed: bool) -> (settled: Settled)
        ensures
            renamed ==> *final(self) == old(self).after_rotation(now) && settled.warning is None,
            renamed && old(self).config.compress_on_rotate ==> (settled.task matches Some(task)
                && task@ == (TaskView { source_path: name@, enqueued_at: now as nat })),
            renamed && !old(self).config.compress_on_rotate ==> settled.task is None,
            !renamed ==> *final(self) == *old(self) && settled.task is None && settled.warning
                == Some(IoError::Rename),
    {
        if renamed {
            self.rotated(now);
            let task = if self.config.compress_on_rotate {
                Some(ArchiveTask { source_path: name, enqueued_at: now })
            } else {
                None
            };
            Settled { task, warning: None }
        } else {
            Settled { task: None, warning: Some(IoError::Rename) }
        }
    }

    /// Notes that `len` bytes were appended to the live file.
    pub fn appended(&mut self, len: u64)
        ensures
            *final(self) == old(self).after_append(len as nat),
    {
        self.current_size = self.current_size.saturating_add(len);
    }
}

/// A sink over files held in memory, with the queue of archives that await
/// compression and the warnings that it has raised.
pub struct FileSink {
    sink: Sink,
    files: Files,
    queue: Vec<ArchiveTask>,
    warnings: Vec<IoError>,
}

/// A sink and its surroundings as a mathematical value.
pub struct SinkModel {
    pub sink: Sink,
    pub files: FilesView,
    /// The archives that await compression, oldest first.
    pub queue: Seq<TaskView>,
    /// The warnings raised so far, oldest first.
    pub warnings: Seq<IoError>,
}

impl SinkModel {
    /// The policy asks for a rotation before `len` bytes are written at
    /// `now`.
    pub open spec fn rotation_wanted(self, len: nat, now: u64) -> bool {
        rotation_due(self.sink, now as int, len as int) is Rotate
    }

    /// The rotation is wanted and the rename goes through.
    pub open spec fn rotates(self, len: nat, now: u64) -> bool {
        self.rotation_wanted(len, now) && !self.files.deny_rename
    }

    /// The name that the live file is retired under: the first candidate for
    /// its archive name that no retired file bears.
    pub open spec fn backup_name(self) -> Seq<char> {
        choose|name: Seq<char>| is_first_free(self.sink.base_name(), self.files.names(), name)
    }

    /// The states that the files pass through while `bytes` are written at
    /// `now`, the state before the write first. Without a rotation there is
    /// the append alone. With one the live file is closed, the rename is
    /// tried, a file is opened at the logical path (the fresh one, or the
    /// old one again where the rename was denied), and then comes the append.
    pub open spec fn passage(self, bytes: Seq<u8>, now: u64) -> Seq<FilesView> {
        let before = self.files;
        if self.rotation_wanted(bytes.len(), now) {
            let closed = before.closed();
            let renamed = closed.renamed(self.backup_name());
            let opened = renamed.opened();
            seq![before, closed, renamed, opened, opened.appended(bytes)]
        } else {
            seq![before, before.appended(bytes)]
        }
    }

    /// The sink and its surroundings after `bytes` were written at `now`.
    pub open spec fn written(self, bytes: Seq<u8>, now: u64) -> SinkModel {
        let rotates = self.rotates(bytes.len(), now);
        let turned = if rotates {
            self.sink.after_rotation(now)
        } else {
            self.sink
        };
        SinkModel {
            sink: if self.files.deny_append {
                turned
            } else {
                turned.after_append(bytes.len())
            },
            files: self.passage(bytes, now).last(),
            queue: if rotates && self.sink.config.compress_on_rotate {
                self.queue.push(
                    TaskView { source_path: self.backup_name(), enqueued_at: now as nat },
                )
            } else {
                self.queue
            },
            warnings: if self.rotation_wanted(bytes.len(), now) && self.files.deny_rename {
                self.warnings.push(IoError::Rename)
            } else {
                self.warnings
            },
        }
    }

    /// One handle is open on the live file, and the size that the sink
    /// counts is the size of the live file.
    pub open spec fn wf(self) -> bool {
        &&& self.files.handles == 1
        &&& self.sink.current_size == self.files.active.len()
    }

    /// The index of the retired file that the oldest task names: the oldest
    /// file of that name. `None` where no task waits or no file bears the
    /// name.
    pub open spec fn source_at(self) -> Option<int> {
        if self.queue.len() > 0 && exists|at: int|
            self.files.is_first_named(self.queue[0].source_path, at) {
            Some(choose|at: int| self.files.is_first_named(self.queue[0].source_path, at))
        } else {
            None
        }
    }

    /// What becomes of the oldest task when the worker takes it: `None`
    /// where no task waits; a failure where the source is gone, where the
    /// encoder fails on it, or where the write of the stream is denied;
    /// success in every other case.
    pub open spec fn compression_outcome(self) -> Option<Result<(), CompressionError>> {
        if self.queue.len() == 0 {
            None
        } else {
            match self.source_at() {
                None => Some(Err(CompressionError::Read)),
                Some(at) => match gzip_of(self.files.archives[at].data) {
                    None => Some(Err(CompressionError::Codec)),
                    Some(_) => if self.files.deny_write {
                        Some(Err(CompressionError::Write))
                    } else {
                        Some(Ok(()))
                    },
                },
            }
        }
    }

    /// The states that the files pass through while the worker does the
    /// oldest task, the state before it first. Where no task waits, the
    /// source is gone or the encoder fails, no file is touched. Else the
    /// write of the stream beside the source, under the compressed name, is
    /// tried; after a write that succeeded the source is removed, after one
    /// that failed the partial output is.
    pub open spec fn compression_passage(self) -> Seq<FilesView> {
        let before = self.files;
        match self.source_at() {
            None => seq![before],
            Some(at) => match gzip_of(before.archives[at].data) {
                None => seq![before],
                Some(stream) => {
                    let written = before.with_file(
                        compressed_name_of(self.queue[0].source_path),
                        stream,
                    );
                    let settled = if before.deny_write {
                        written.without_file(before.archives.len() as int)
                    } else {
                        written.without_file(at)
                    };
                    seq![before, written, settled]
                },
            },
        }
    }

    /// The sink and its surroundings after the worker did the oldest task:
    /// the task has left the queue and the files are where their passage
    /// ends. With no task nothing changes.
    pub open spec fn compressed(self) -> SinkModel {
        if self.queue.len() == 0 {
            self
        } else {
            SinkModel {
                queue: self.queue.drop_first(),
                files: self.compression_passage().last(),
                ..self
            }
        }
    }
}

impl View for FileSink {
    type V = SinkModel;

    closed spec fn view(&self) -> SinkModel {
        SinkModel {
            sink: self.sink,
            files: self.files@,
            queue: Seq::new(self.queue@.len(), |i: int| self.queue@[i]@),
            warnings: self.warnings@,
        }
    }
}

impl FileSink {
    /// A sink whose live file is created, empty, at `now`.
    pub fn new(config: SinkConfig, now: u64) -> (sink: FileSink)
        ensures
            sink@.wf(),
            sink@.sink == (Sink { config, opened_at: now, current_size: 0, sequence: 1 }),
            sink@.files == Files::new_view().opened(),
            sink@.queue == Seq::<TaskView>::empty(),
            sink@.warnings == Seq::<IoError>::empty(),
    {
        let mut files = Files::new();
        files.open();
        let sink = FileSink { sink: Sink::new(config, now), files, queue: Vec::new(), warnings: Vec::new() };
        assert(sink@.queue =~= Seq::<TaskView>::empty());
        sink
    }

    /// The rotation state.
    pub fn sink(&self) -> (sink: &Sink)
        ensures
            *sink == self@.sink,
    {
        &self.sink
    }

    /// The files.
    pub fn files(&self) -> (files: &Files)
        ensures
            files@ == self@.files,
    {
        &self.files
    }

    /// The archives that await compression, oldest first.
    pub fn pending(&self) -> (queue: &Vec<ArchiveTask>)
        ensures
            queue@.len() == self@.queue.len(),
            forall|i: int| 0 <= i < queue@.len() ==> queue@[i]@ == self@.queue[i],
    {
        &self.queue
    }

    /// The warnings raised so far, oldest first.
    pub fn warnings(&self) -> (warnings: &Vec<IoError>)
        ensures
            warnings@ == self@.warnings,
    {
        &self.warnings
    }

    /// Makes every later rename fail, or succeed again.
    pub fn set_deny_rename(&mut self, deny: bool)
        ensures
            final(self)@ == (SinkModel {
                files: FilesView { deny_rename: deny, ..old(self)@.files },
                ..old(self)@
            }),
    {
        self.files.set_deny_rename(deny);
    }

    /// Makes every later append fail, or succeed again.
    pub fn set_deny_append(&mut self, deny: bool)
        ensures
            final(self)@ == (SinkModel {
                files: FilesView { deny_append: deny, ..old(self)@.files },
                ..old(self)@
            }),
    {
        self.files.set_deny_append(deny);
    }

    /// Closes the live file and gives the files up, as at the end of the
    /// process. Tasks that still wait are dropped; their sources stay as
    /// they are.
    pub fn shutdown(self) -> (files: Files)
        requires
            self@.wf(),
        ensures
            files@ == self@.files.closed(),
            files@.handles == 0,
    {
        let mut files = self.files;
        files.close();
        files
    }

    /// Takes the oldest archive that awaits compression out of the queue.
    pub fn take_task(&mut self) -> (task: Option<ArchiveTask>)
        requires
            old(self)@.wf(),
        ensures
            final(self)@.wf(),
            old(self)@.queue.len() == 0 ==> task is None && final(self)@ == old(self)@,
            old(self)@.queue.len() > 0 ==> (task matches Some(t) && t@ == old(self)@.queue[0]
                && final(self)@ == (SinkModel {
                queue: old(self)@.queue.drop_first(),
                ..old(self)@
            })),
    {
        if self.queue.len() == 0 {
            return None;
        }
        let task = self.queue.remove(0);
        assert(self@.queue =~= old(self)@.queue.drop_first());
        Some(task)
    }

    /// Does the worker's job on the oldest task of the queue: packs the
    /// retired file that the task names, writes the stream beside it and
    /// removes the source. Returns `None` where no task waits, else what
    /// became of the task. A source that is gone could not be read; an
    /// encoder that fails and a write that fails leave the source as it is,
    /// and nothing of the output.
    pub fn compress_next(&mut self) -> (outcome: Option<Result<(), CompressionError>>)
        requires
            old(self)@.wf(),
        ensures
            final(self)@.wf(),
            final(self)@ == old(self)@.compressed(),
            outcome == old(self)@.compression_outcome(),
    {
        let ghost before = self@;
        let task = match self.take_task() {
            None => { return None; },
            Some(task) => task,
        };
        let found = self.files.find(&task.source_path);
        proof {
            match found {
                Some(at) => {
                    assert(before.files.is_first_named(before.queue[0].source_path, at as int));
                    assert(before.source_at() == Some(at as int));
                },
                None => {
                    assert forall|k: int|
                        !before.files.is_first_named(before.queue[0].source_path, k) by {
                        if before.files.is_first_named(before.queue[0].source_path, k) {
                            assert(before.files.names()[k] == before.queue[0].source_path);
                        }
                    }
                    assert(before.source_at() is None);
                },
            }
        }
        let step = match found {
            Some(at) => on_source_read(&task, Some(self.files.data_at(at).as_slice())),
            None => on_source_read(&task, None),
        };
        let outcome = match step {
            WorkerStep::Write { path, data } => {
                let at = found.unwrap();
                let last = self.files.count();
                let written = self.files.write_file(path, data);
                match on_output_written(&task, written) {
                    WorkerStep::Remove { .. } => {
                        self.files.remove_file(at);
                        Some(Ok(()))
                    },
                    WorkerStep::Abandon { error, .. } => {
                        self.files.remove_file(last);
                        Some(Err(error))
                    },
                    WorkerStep::Write { .. } => Some(Ok(())),
                }
            },
            WorkerStep::Abandon { error, .. } => Some(Err(error)),
            WorkerStep::Remove { .. } => Some(Ok(())),
        };
        proof {
            assert(self@.files == before.compressed().files);
            assert(self@.queue =~= before.compressed().queue);
        }
        outcome
    }

    /// Makes every later write of a compressed file fail, or succeed again.
    pub fn set_deny_write(&mut self, deny: bool)
        ensures
            final(self)@ == (SinkModel {
                files: FilesView { deny_write: deny, ..old(self)@.files },
                ..old(self)@
            }),
    {
        self.files.set_deny_write(deny);
    }

    /// Writes one whole line at the second `now`, after the rotation that is
    /// due, if any. The write fails only where the append itself fails; a
    /// rename that fails costs the rotation, not the line.
    pub fn write(&mut self, bytes: &[u8], now: u64) -> (result: Result<(), IoError>)
        requires
            old(self)@.wf(),
        ensures
            final(self)@.wf(),
            final(self)@ == old(self)@.written(bytes@, now),
            old(self)@.files.deny_append ==> result == Err::<(), IoError>(IoError::Write),
            !old(self)@.files.deny_append ==> result == Ok::<(), IoError>(()),
    {
        let ghost before = self@;
        let len = bytes.len() as u64;
        let taken = self.files.archive_names();
        match self.sink.plan(now, len, &taken) {
            Some(name) => {
                proof {
                    lemma_first_free_unique(
                        before.sink.base_name(),
                        before.files.names(),
                        name@,
                        before.backup_name(),
                    );
                }
                self.files.close();
                let renamed = self.files.rename_active(name.clone());
                self.files.open();
                let settled = self.sink.settle(now, name, renamed);
                match settled.task {
                    Some(task) => self.queue.push(task),
                    None => {},
                }
                match settled.warning {
                    Some(warning) => self.warnings.push(warning),
                    None => {},
                }
            },
            None => {},
        }
        let written = self.files.append(bytes);
        let result = if written {
            self.sink.appended(len);
            Ok(())
        } else {
            Err(IoError::Write)
        };
        proof {
            let after = before.written(bytes@, now);
            assert(self@.files == after.files);
            assert(self@.sink == after.sink);
            assert(self@.warnings =~= after.warnings);
            assert(self@.queue =~= after.queue);
        }
        result
    }
}

/// One write as the sink meets it: the bytes, the second, and whether the
/// rename and the append are denied at that moment.
pub struct Event {
    pub bytes: Seq<u8>,
    pub now: u64,
    pub deny_rename: bool,
    pub deny_append: bool,
}

/// The bytes of the writes that were accepted, in the order of the writes.
pub open spec fn accepted(events: Seq<Event>) -> Seq<u8>
    decreases events.len(),
{
    if events.len() == 0 {
        Seq::empty()
    } else if events.last().deny_append {
        accepted(events.drop_last())
    } else {
        accepted(events.drop_last()) + events.last().bytes
    }
}

impl SinkModel {
    /// The sink with the two switches of its files set.
    pub open spec fn facing(self, deny_rename: bool, deny_append: bool) -> SinkModel {
        SinkModel { files: FilesView { deny_rename, deny_append, ..self.files }, ..self }
    }

    /// The sink after one write.
    pub open spec fn step(self, event: Event) -> SinkModel {
        self.facing(event.deny_rename, event.deny_append).written(event.bytes, event.now)
    }

    /// The sink after a run of writes.
    pub open spec fn run(self, events: Seq<Event>) -> SinkModel
        decreases events.len(),
    {
        if events.len() == 0 {
            self
        } else {
            self.run(events.drop_last()).step(events.last())
        }
    }
}

/// A write lands whole in one file. With a rotation the file that was live
/// is retired as it stood, under the backup name, and the bytes open the
/// fresh file; without one the bytes go to the end of the live file and no
/// file is retired. A write that is refused changes no byte.
pub proof fn lemma_write_lands_whole(model: SinkModel, bytes: Seq<u8>, now: u64)
    ensures
        ({
            let after = model.written(bytes, now).files;
            let landed = if model.files.deny_append {
                Seq::<u8>::empty()
            } else {
                bytes
            };
            if model.rotates(bytes.len(), now) {
                &&& after.active == landed
                &&& after.archives == model.files.archives.push(
                    ArchiveView { name: model.backup_name(), data: model.files.active },
                )
            } else {
                &&& after.active == model.files.active + landed
                &&& after.archives == model.files.archives
            }
        }),
{
    let after = model.written(bytes, now).files;
    if model.rotates(bytes.len(), now) {
        assert(after.active =~= if model.files.deny_append {
            Seq::<u8>::empty()
        } else {
            bytes
        });
    } else {
        assert(after.active =~= model.files.active + if model.files.deny_append {
            Seq::<u8>::empty()
        } else {
            bytes
        });
    }
}

/// Where no retired file bears the archive name of the live file, the live
/// file is retired under that very name.
pub proof fn lemma_backup_name_plain(model: SinkModel)
    requires
        !model.files.names().contains(model.sink.base_name()),
    ensures
        model.backup_name() == model.sink.base_name(),
{
    lemma_unused_base_is_first_free(model.sink.base_name(), model.files.names());
    lemma_first_free_unique(
        model.sink.base_name(),
        model.files.names(),
        model.sink.base_name(),
        model.backup_name(),
    );
}

/// A task is queued once for each rotation, and only then; it names the
/// file that was just retired, which by then is closed and bears its final
/// name.
pub proof fn lemma_task_names_retired_file(model: SinkModel, bytes: Seq<u8>, now: u64)
    ensures
        ({
            let after = model.written(bytes, now);
            if model.rotates(bytes.len(), now) && model.sink.config.compress_on_rotate {
                &&& after.queue == model.queue.push(
                    TaskView { source_path: model.backup_name(), enqueued_at: now as nat },
                )
                &&& after.files.archives.last().name == model.backup_name()
                &&& after.files.archives.last().data == model.files.active
            } else {
                after.queue == model.queue
            }
        }),
{
}

/// A write adds its bytes to what the files hold and changes nothing of
/// what they held: whether or not it rotates, the retired files followed by
/// the live file read as before, with the bytes behind them.
pub proof fn lemma_write_keeps_bytes(model: SinkModel, bytes: Seq<u8>, now: u64)
    ensures
        model.written(bytes, now).files.journal() == model.files.journal() + if model.files.deny_append {
            Seq::<u8>::empty()
        } else {
            bytes
        },
{
    let before = model.files;
    let after = model.written(bytes, now).files;
    if model.rotation_wanted(bytes.len(), now) {
        let closed = before.closed();
        lemma_rename_keeps_journal(closed, model.backup_name());
        let opened = closed.renamed(model.backup_name()).opened();
        assert(opened.journal() == before.journal());
        assert(after == opened.appended(bytes));
    }
    assert(after.journal() =~= before.journal() + if before.deny_append {
        Seq::<u8>::empty()
    } else {
        bytes
    });
}

/// No line is lost and none is doubled, whatever the writes and whichever of
/// them rotate: after any run of writes the retired files, oldest first,
/// followed by the live file hold what they held before and then the bytes
/// of every accepted write, once each and in the order of the writes.
pub proof fn lemma_no_line_lost(model: SinkModel, events: Seq<Event>)
    ensures
        model.run(events).files.journal() == model.files.journal() + accepted(events),
    decreases events.len(),
{
    if events.len() == 0 {
        assert(model.files.journal() + accepted(events) =~= model.files.journal());
    } else {
        let last = events.last();
        let earlier = model.run(events.drop_last());
        lemma_no_line_lost(model, events.drop_last());
        lemma_write_keeps_bytes(earlier.facing(last.deny_rename, last.deny_append), last.bytes, last.now);
        assert(earlier.facing(last.deny_rename, last.deny_append).files.journal()
            == earlier.files.journal());
        assert(model.run(events).files.journal() =~= model.files.journal() + accepted(events));
    }
}

/// At most one handle is open on the logical path at every moment of a
/// write: the files start with one handle, never pass through a state with
/// more, and end with one.
pub proof fn lemma_single_handle(model: SinkModel, bytes: Seq<u8>, now: u64)
    requires
        model.files.handles == 1,
    ensures
        forall|i: int|
            0 <= i < model.passage(bytes, now).len() ==> (#[trigger] model.passage(
                bytes,
                now,
            )[i]).handles <= 1,
        model.written(bytes, now).files.handles == 1,
{
}

/// A compression touches neither the live file nor its handles: in every
/// state that the files pass through while the worker does a task, the live
/// file holds what it held and as many handles are open on it as before.
pub proof fn lemma_compression_keeps_live_file(model: SinkModel)
    ensures
        forall|i: int|
            0 <= i < model.compression_passage().len() ==> {
                &&& (#[trigger] model.compression_passage()[i]).handles == model.files.handles
                &&& model.compression_passage()[i].active == model.files.active
            },
        model.compressed().files.handles == model.files.handles,
        model.compressed().files.active == model.files.active,
{
}

/// A compression that fails changes no file: the source stays as it is and
/// nothing is left of the output.
pub proof fn lemma_failed_compression_changes_no_file(model: SinkModel)
    requires
        model.compression_outcome() matches Some(Err(_)),
    ensures
        model.compressed().files == model.files,
{
    let before = model.files;
    match model.source_at() {
        None => {},
        Some(at) => match gzip_of(before.archives[at].data) {
            None => {},
            Some(stream) => {
                let written = before.with_file(
                    compressed_name_of(model.queue[0].source_path),
                    stream,
                );
                assert(written.archives.remove(before.archives.len() as int) =~= before.archives);
            },
        },
    }
}

/// A compression that succeeds puts the stream of the source beside the
/// retired files, under the name of the source with `.gz` behind it, and
/// takes the source away; every other retired file stays.
pub proof fn lemma_successful_compression(model: SinkModel)
    requires
        model.compression_outcome() == Some(Ok::<(), CompressionError>(())),
    ensures
        ({
            let at = model.source_at()->0;
            let source = model.files.archives[at];
            let after = model.compressed().files.archives;
            &&& model.files.is_first_named(model.queue[0].source_path, at)
            &&& after == model.files.archives.remove(at).push(
                ArchiveView {
                    name: compressed_name_of(source.name),
                    data: gzip_of(source.data)->0,
                },
            )
        }),
{
    let at = model.source_at()->0;
    let source = model.files.archives[at];
    assert(model.compressed().files.archives =~= model.files.archives.remove(at).push(
        ArchiveView { name: compressed_name_of(source.name), data: gzip_of(source.data)->0 },
    ));
}

/// One handle is open on the logical path after any run of writes.
pub proof fn lemma_run_single_handle(model: SinkModel, events: Seq<Event>)
    requires
        model.files.handles == 1,
    ensures
        model.run(events).files.handles == 1,
    decreases events.len(),
{
    if events.len() > 0 {
        let last = events.last();
        lemma_run_single_handle(model, events.drop_last());
        lemma_single_handle(
            model.run(events.drop_last()).facing(last.deny_rename, last.deny_append),
            last.bytes,
            last.now,
        );
    }
}

} // verus!
