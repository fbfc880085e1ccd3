//! The worker side of a download: what has to be done next, given what has
//! happened so far. The worker itself does the network and file work; after
//! each piece of it, it tells this state machine what came of it and is told
//! what to do next and what to report to the foreground.

use vstd::prelude::*;
use crate::layout::{
    archive_path, archive_path_spec, archive_url, archive_url_spec, install_dir, install_dir_spec,
};
use crate::progress::{least, progress_report, reported, ProgressEvent};

verus! {

/// The size of the pieces in which the body is read.
pub const CHUNK_SIZE: usize = 8192;

/// How far a download has come.
#[derive(Clone, Copy, Debug, PartialEq, Eq)]
pub enum Phase {
    /// The request has been sent; no answer yet.
    Requesting,
    /// The body is being written to the archive file.
    Downloading,
    /// The archive is being extracted.
    Extracting,
    /// The archive is downloaded and extracted.
    Done,
    /// The task has failed.
    Failed,
}

/// What happened to the work that the worker was told to do.
#[derive(Clone, Debug, PartialEq, Eq)]
pub enum WorkerEvent {
    /// The server answered; `length` is the length of the body it announced,
    /// if it announced one.
    Answered { length: Option<u64> },
    /// So many bytes were read and written to the archive file; zero at the
    /// end of the body.
    Chunk { bytes: usize },
    /// The archive was extracted.
    Extracted,
    /// The work failed; the text says how.
    Failure { message: String },
}

/// What the worker has to do next.
#[derive(Clone, Debug, PartialEq, Eq)]
pub enum WorkerAction {
    /// Read the next piece of the body, of at most `size` bytes, and write it
    /// to the archive file; before that, report `report` if there is one.
    ReadChunk { report: Option<ProgressEvent>, size: usize },
    /// Extract the archive into the install folder; `preserve_ownership`
    /// tells whether the owners and permissions that the archive records are
    /// kept.
    Extract { archive: String, target: String, preserve_ownership: bool },
    /// Report the event and stop.
    Finish { event: ProgressEvent },
    /// Stop: the task is over, and events that still arrive change nothing.
    Stop,
}

/// One download: the version, where its files are, and how far it has come.
pub struct DownloadJob {
    root: String,
    version: String,
    length: u64,
    read: u64,
    phase: Phase,
}

/// What a download stands for.
pub struct JobModel {
    /// The launcher's data directory.
    pub root: Seq<char>,
    /// The version that is downloaded.
    pub version: Seq<char>,
    /// The announced length of the body; zero where none was announced.
    pub length: nat,
    /// The number of bytes read so far.
    pub read: nat,
    /// How far the download has come.
    pub phase: Phase,
}

impl View for DownloadJob {
    type V = JobModel;

    closed spec fn view(&self) -> JobModel {
        JobModel {
            root: self.root@,
            version: self.version@,
            length: self.length as nat,
            read: self.read as nat,
            phase: self.phase,
        }
    }
}

/// True when the task is over.
pub open spec fn is_over(phase: Phase) -> bool {
    phase == Phase::Done || phase == Phase::Failed
}

/// The state after a piece of `bytes` bytes was read while downloading: the
/// end of the body starts the extraction, anything else is counted.
pub open spec fn after_chunk(m: JobModel, bytes: nat) -> JobModel {
    if bytes == 0 {
        JobModel { phase: Phase::Extracting, ..m }
    } else {
        JobModel { read: m.read + bytes, ..m }
    }
}

/// True when the action is to extract the archive of the download into its
/// install folder.
pub open spec fn extracts(action: WorkerAction, m: JobModel) -> bool {
    match action {
        WorkerAction::Extract { archive, target, preserve_ownership } => archive@
            == archive_path_spec(m.root, m.version) && target@ == install_dir_spec(
            m.root,
            m.version,
        ) && preserve_ownership,
        _ => false,
    }
}

/// True when the action is to read on, with the report that is due for what
/// has been read: the progress where the length of the body is known, and
/// none where it is not.
pub open spec fn reads_on(action: WorkerAction, m: JobModel) -> bool {
    match action {
        WorkerAction::ReadChunk { report: Some(ProgressEvent::Progress(f)), size } => size
            == CHUNK_SIZE && reported(m.read, m.length) == Some((f.parts(), f.whole())),
        WorkerAction::ReadChunk { report: None, size } => size == CHUNK_SIZE && m.length == 0,
        _ => false,
    }
}

/// The state after `k` pieces of `c` bytes each were read while downloading.
pub open spec fn after_chunks(m: JobModel, k: nat, c: nat) -> JobModel
    decreases k,
{
    if k == 0 {
        m
    } else {
        after_chunk(after_chunks(m, (k - 1) as nat, c), c)
    }
}

/// Reading `k` pieces of `c` bytes, none of them empty, adds `k * c` to the
/// count and leaves everything else as it was. So with a body of known
/// length `l` the progress that is reported after the `k`-th piece is
/// `k * c / l`, cut off at one.
pub proof fn lemma_chunks_add_up(m: JobModel, k: nat, c: nat)
    requires
        c > 0,
    ensures
        after_chunks(m, k, c) == (JobModel { read: m.read + k * c, ..m }),
        m.read == 0 && m.length > 0 ==> reported(after_chunks(m, k, c).read, m.length) == Some(
            (least(k * c, m.length), m.length),
        ),
    decreases k,
{
    if k == 0 {
        assert(0 * c == 0) by (nonlinear_arith);
    } else {
        lemma_chunks_add_up(m, (k - 1) as nat, c);
        assert((k - 1) * c + c == k * c) by (nonlinear_arith);
    }
}

impl DownloadJob {
    /// A download of `version` under the data directory `root`, together
    /// with the address that has to be requested first.
    pub fn start(root: &str, version: &str) -> (r: (DownloadJob, String))
        ensures
            r.0@ == (JobModel {
                root: root@,
                version: version@,
                length: 0,
                read: 0,
                phase: Phase::Requesting,
            }),
            r.1@ == archive_url_spec(version@),
    {
        let job = DownloadJob {
            root: root.to_owned(),
            version: version.to_owned(),
            length: 0,
            read: 0,
            phase: Phase::Requesting,
        };
        (job, archive_url(version))
    }

    /// How far the download has come.
    pub fn phase(&self) -> (p: Phase)
        ensures
            p == self@.phase,
    {
        self.phase
    }

    /// The number of bytes read so far.
    pub fn bytes_read(&self) -> (n: u64)
        ensures
            n == self@.read,
    {
        self.read
    }

    /// The file to which the body has to be written.
    pub fn archive_file(&self) -> (path: String)
        ensures
            path@ == archive_path_spec(self@.root, self@.version),
    {
        archive_path(self.root.as_str(), self.version.as_str())
    }

    /// Takes in what came of the last piece of work and tells what to do
    /// next.
    ///
    /// A failure ends the task with an error report, wherever it happens;
    /// nothing is cleaned up. Once the task is over, and for an event that
    /// does not belong to the present phase, the answer is to stop, and
    /// nothing changes. Otherwise: the server's answer starts the reading;
    /// each piece that was read is counted and, where the length of the body
    /// is known, reported as progress; the end of the body starts the
    /// extraction; and the end of the extraction is reported as the end of
    /// the task.
    pub fn step(&mut self, event: WorkerEvent) -> (action: WorkerAction)
        requires
            event matches WorkerEvent::Chunk { bytes } ==> old(self)@.read + bytes <= u64::MAX,
        ensures
            final(self)@.root == old(self)@.root,
            final(self)@.version == old(self)@.version,
            is_over(old(self)@.phase) ==> action is Stop && final(self)@ == old(self)@,
            !is_over(old(self)@.phase) ==> match event {
                WorkerEvent::Failure { message } => {
                    &&& final(self)@ == (JobModel { phase: Phase::Failed, ..old(self)@ })
                    &&& action matches WorkerAction::Finish { event: ProgressEvent::Error(text) }
                    &&& text@ == message@
                },
                WorkerEvent::Answered { length } => if old(self)@.phase == Phase::Requesting {
                    &&& final(self)@ == (JobModel {
                        phase: Phase::Downloading,
                        length: match length {
                            Some(n) => n as nat,
                            None => 0,
                        },
                        ..old(self)@
                    })
                    &&& action matches WorkerAction::ReadChunk { report: None, size: CHUNK_SIZE }
                } else {
                    action is Stop && final(self)@ == old(self)@
                },
                WorkerEvent::Chunk { bytes } => if old(self)@.phase == Phase::Downloading {
                    &&& final(self)@ == after_chunk(old(self)@, bytes as nat)
                    &&& bytes == 0 ==> extracts(action, old(self)@)
                    &&& bytes > 0 ==> reads_on(action, final(self)@)
                } else {
                    action is Stop && final(self)@ == old(self)@
                },
                WorkerEvent::Extracted => if old(self)@.phase == Phase::Extracting {
                    &&& final(self)@ == (JobModel { phase: Phase::Done, ..old(self)@ })
                    &&& action matches WorkerAction::Finish { event: ProgressEvent::Finished }
                } else {
                    action is Stop && final(self)@ == old(self)@
                },
            },
    {
        match self.phase {
            Phase::Done => {
                return WorkerAction::Stop;
            },
            Phase::Failed => {
                return WorkerAction::Stop;
            },
            _ => {},
        }
        match event {
            WorkerEvent::Failure { message } => {
                self.phase = Phase::Failed;
                WorkerAction::Finish { event: ProgressEvent::Error(message) }
            },
            WorkerEvent::Answered { length } => {
                match self.phase {
                    Phase::Requesting => {
                        self.phase = Phase::Downloading;
                        self.length = match length {
                            Some(n) => n,
                            None => 0,
                        };
                        WorkerAction::ReadChunk { report: None, size: CHUNK_SIZE }
                    },
                    _ => WorkerAction::Stop,
                }
            },
            WorkerEvent::Chunk { bytes } => {
                match self.phase {
                    Phase::Downloading => {
                        if bytes == 0 {
                            self.phase = Phase::Extracting;
                            WorkerAction::Extract {
                                archive: archive_path(self.root.as_str(), self.version.as_str()),
                                target: install_dir(self.root.as_str(), self.version.as_str()),
                                preserve_ownership: true,
                            }
                        } else {
                            self.read = self.read + bytes as u64;
                            WorkerAction::ReadChunk {
                                report: progress_report(self.read, self.length),
                                size: CHUNK_SIZE,
                            }
                        }
                    },
                    _ => WorkerAction::Stop,
                }
            },
            WorkerEvent::Extracted => {
                match self.phase {
                    Phase::Extracting => {
                        self.phase = Phase::Done;
                        WorkerAction::Finish { event: ProgressEvent::Finished }
                    },
                    _ => WorkerAction::Stop,
                }
            },
        }
    }
}

} // verus!
