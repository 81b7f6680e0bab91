use crate::error::{
    access_failure, failure, failure_of, quoted, ErrorFrame, ErrorKind, UpdateError,
};
use vstd::prelude::*;
use vstd::string::*;

verus! {

/// The permission bits of an installed artifact: read, write and execute for
/// the owner, read and execute for group and others.
pub const EXECUTABLE_MODE: u32 = 0o755;

/// The execute bits of owner, group and others.
pub const EXECUTE_BITS: u32 = 0o111;

/// Where an installation stands.
#[derive(Clone, Copy, Debug, PartialEq, Eq, Structural)]
pub enum InstallPhase {
    /// The download request is under way.
    Requesting,
    /// The response has begun; the destination is being opened.
    Opening,
    /// The next chunk of the stream is awaited.
    Streaming,
    /// A chunk is being written to the destination.
    Writing,
    /// All chunks are written; the permission bits are being set.
    Finalizing,
    /// The artifact is in place and executable.
    Installed,
    /// The installation failed; what was written stays as it is.
    Failed,
}

/// What the driver reports back after it has done what it was asked to.
#[derive(Debug, PartialEq, Eq)]
pub enum InstallEvent {
    /// The response has begun, with the length it announces, if any.
    ResponseReceived { content_length: Option<u64> },
    /// The request could not be sent or was refused.
    RequestFailed { cause: String },
    /// The destination is open for writing, and empty.
    DestinationOpened,
    /// The destination could not be opened.
    OpenFailed { cause: String },
    /// The stream has handed out a chunk of `len` bytes.
    ChunkReceived { len: u64 },
    /// The stream broke.
    ChunkFailed { cause: String },
    /// The stream has ended.
    StreamEnded,
    /// The chunk last received is written to the destination in full.
    ChunkWritten,
    /// The chunk last received could not be written.
    WriteFailed { cause: String },
    /// The permission bits are set as asked.
    PermissionsSet,
    /// The permission bits could not be set.
    PermissionsFailed { cause: String },
}

/// What the driver is to do next.
#[derive(Debug, PartialEq, Eq)]
pub enum InstallAction {
    /// Open the destination for writing: create it if it is missing, empty it
    /// if it is there.
    OpenDestination,
    /// Ask the stream for its next chunk.
    NextChunk,
    /// Write the chunk last received to the destination.
    WriteChunk,
    /// Show `position` bytes as done, then ask the stream for its next chunk.
    Advance { position: u64 },
    /// Set the permission bits of the destination to `mode`.
    SetPermissions { mode: u32 },
    /// Nothing more: the artifact is installed.
    Done,
    /// Nothing more: the installation failed with this error.
    Fail(UpdateError),
}

/// An action, as contracts see it.
pub enum ActionModel {
    OpenDestination,
    NextChunk,
    WriteChunk,
    Advance { position: nat },
    SetPermissions { mode: u32 },
    Done,
    Fail(Seq<ErrorFrame>),
}

impl View for InstallAction {
    type V = ActionModel;

    open spec fn view(&self) -> ActionModel {
        match self {
            InstallAction::OpenDestination => ActionModel::OpenDestination,
            InstallAction::NextChunk => ActionModel::NextChunk,
            InstallAction::WriteChunk => ActionModel::WriteChunk,
            InstallAction::Advance { position } => ActionModel::Advance { position: *position as nat },
            InstallAction::SetPermissions { mode } => ActionModel::SetPermissions { mode: *mode },
            InstallAction::Done => ActionModel::Done,
            InstallAction::Fail(e) => ActionModel::Fail(e@),
        }
    }
}

/// An installation, as contracts see it: the state of the machine together
/// with what the driver has done to the destination on its behalf.
pub struct InstallModel {
    pub phase: InstallPhase,
    /// The path of the destination.
    pub destination: Seq<char>,
    /// The length the response announced.
    pub total: nat,
    /// The progress last shown.
    pub position: nat,
    /// The length of the chunk that is being written.
    pub pending: nat,
    /// The number of bytes written to the destination.
    pub written: nat,
    /// The permission bits this installation has given the destination.
    pub mode: Option<u32>,
}

pub open spec fn min_nat(a: nat, b: nat) -> nat {
    if a <= b {
        a
    } else {
        b
    }
}

/// `"Error while writing to '<path>'"`
pub open spec fn write_failure(path: Seq<char>) -> Seq<char> {
    "Error while writing to '"@ + path + "'"@
}

/// `"Error while downloading '<path>'"`
pub open spec fn download_failure(path: Seq<char>) -> Seq<char> {
    "Error while downloading '"@ + path + "'"@
}

/// `"Failed to set file permissions for '<path>'"`
pub open spec fn permission_failure(path: Seq<char>) -> Seq<char> {
    "Failed to set file permissions for '"@ + path + "'"@
}

impl InstallModel {
    /// The installation before anything has happened.
    pub open spec fn initial(destination: Seq<char>) -> InstallModel {
        InstallModel {
            phase: InstallPhase::Requesting,
            destination,
            total: 0,
            position: 0,
            pending: 0,
            written: 0,
            mode: None,
        }
    }

    /// What holds of every installation: nothing is written before the
    /// destination is open, the progress shown is the number of bytes written,
    /// capped at the announced length, and the destination has been made
    /// executable if and only if the installation is complete.
    pub open spec fn wf(self) -> bool {
        &&& self.phase is Requesting || self.phase is Opening ==> self.written == 0
        &&& self.position == min_nat(self.written, self.total)
        &&& self.mode is Some <==> self.phase is Installed
        &&& self.mode is Some ==> self.mode == Some(EXECUTABLE_MODE)
    }

    /// The events that can follow in this state.
    pub open spec fn accepts(self, event: InstallEvent) -> bool {
        match self.phase {
            InstallPhase::Requesting => event is ResponseReceived || event is RequestFailed,
            InstallPhase::Opening => event is DestinationOpened || event is OpenFailed,
            InstallPhase::Streaming => event is ChunkReceived || event is ChunkFailed
                || event is StreamEnded,
            InstallPhase::Writing => event is ChunkWritten || event is WriteFailed,
            InstallPhase::Finalizing => event is PermissionsSet || event is PermissionsFailed,
            InstallPhase::Installed => false,
            InstallPhase::Failed => false,
        }
    }

    pub open spec fn failed(self) -> InstallModel {
        InstallModel { phase: InstallPhase::Failed, ..self }
    }

    /// The state after `event`, and what the driver is to do next.
    pub open spec fn step(self, event: InstallEvent) -> (InstallModel, ActionModel) {
        match event {
            InstallEvent::ResponseReceived { content_length: Some(total) } => (
                InstallModel { phase: InstallPhase::Opening, total: total as nat, ..self },
                ActionModel::OpenDestination,
            ),
            InstallEvent::ResponseReceived { content_length: None } => (
                self.failed(),
                ActionModel::Fail(
                    seq![
                        ErrorFrame {
                            kind: ErrorKind::Network,
                            message: "Failed to get size of response body."@,
                        },
                    ],
                ),
            ),
            InstallEvent::RequestFailed { cause } => (
                self.failed(),
                ActionModel::Fail(
                    failure(ErrorKind::Network, "Download GET request failed"@, cause@),
                ),
            ),
            InstallEvent::DestinationOpened => (
                InstallModel { phase: InstallPhase::Streaming, ..self },
                ActionModel::NextChunk,
            ),
            InstallEvent::OpenFailed { cause } => (
                self.failed(),
                ActionModel::Fail(
                    failure(ErrorKind::Io, access_failure(self.destination), cause@),
                ),
            ),
            InstallEvent::ChunkReceived { len } => (
                InstallModel { phase: InstallPhase::Writing, pending: len as nat, ..self },
                ActionModel::WriteChunk,
            ),
            InstallEvent::ChunkFailed { cause } => (
                self.failed(),
                ActionModel::Fail(
                    failure(ErrorKind::Network, download_failure(self.destination), cause@),
                ),
            ),
            InstallEvent::StreamEnded => (
                InstallModel { phase: InstallPhase::Finalizing, ..self },
                ActionModel::SetPermissions { mode: EXECUTABLE_MODE },
            ),
            InstallEvent::ChunkWritten => {
                let position = min_nat(self.position + self.pending, self.total);
                (
                    InstallModel {
                        phase: InstallPhase::Streaming,
                        position,
                        pending: 0,
                        written: self.written + self.pending,
                        ..self
                    },
                    ActionModel::Advance { position },
                )
            },
            InstallEvent::WriteFailed { cause } => (
                self.failed(),
                ActionModel::Fail(
                    failure(ErrorKind::Io, write_failure(self.destination), cause@),
                ),
            ),
            InstallEvent::PermissionsSet => (
                InstallModel {
                    phase: InstallPhase::Installed,
                    mode: Some(EXECUTABLE_MODE),
                    ..self
                },
                ActionModel::Done,
            ),
            InstallEvent::PermissionsFailed { cause } => (
                self.failed(),
                ActionModel::Fail(
                    failure(
                        ErrorKind::Permission,
                        permission_failure(self.destination),
                        cause@,
                    ),
                ),
            ),
        }
    }
}

/// The installer: it is told what happened, and says what is to be done next.
/// The driver sends the request first and reports how that went.
pub struct Installer {
    phase: InstallPhase,
    destination: String,
    total: u64,
    position: u64,
    pending: u64,
    written: Ghost<nat>,
    mode: Option<u32>,
}

impl View for Installer {
    type V = InstallModel;

    closed spec fn view(&self) -> InstallModel {
        InstallModel {
            phase: self.phase,
            destination: self.destination@,
            total: self.total as nat,
            position: self.position as nat,
            pending: self.pending as nat,
            written: self.written@,
            mode: self.mode,
        }
    }
}

impl Installer {
    /// An installation to `destination` of which nothing has happened yet.
    pub fn new(destination: &str) -> (installer: Installer)
        ensures
            installer@ == InstallModel::initial(destination@),
            installer@.wf(),
    {
        Installer {
            phase: InstallPhase::Requesting,
            destination: String::from_str(destination),
            total: 0,
            position: 0,
            pending: 0,
            written: Ghost(0),
            mode: None,
        }
    }

    pub fn phase(&self) -> (phase: InstallPhase)
        ensures
            phase == self@.phase,
    {
        self.phase
    }

    /// The length the response announced; 0 before it has begun.
    pub fn total(&self) -> (total: u64)
        ensures
            total == self@.total,
    {
        self.total
    }

    /// The progress last shown.
    pub fn position(&self) -> (position: u64)
        ensures
            position == self@.position,
    {
        self.position
    }

    /// The permission bits this installation has given the destination.
    pub fn mode(&self) -> (mode: Option<u32>)
        ensures
            mode == self@.mode,
    {
        self.mode
    }

    /// Whether `event` can follow in this state.
    pub fn accepts(&self, event: &InstallEvent) -> (yes: bool)
        ensures
            yes == self@.accepts(*event),
    {
        match self.phase {
            InstallPhase::Requesting => match event {
                InstallEvent::ResponseReceived { .. } => true,
                InstallEvent::RequestFailed { .. } => true,
                _ => false,
            },
            InstallPhase::Opening => match event {
                InstallEvent::DestinationOpened => true,
                InstallEvent::OpenFailed { .. } => true,
                _ => false,
            },
            InstallPhase::Streaming => match event {
                InstallEvent::ChunkReceived { .. } => true,
                InstallEvent::ChunkFailed { .. } => true,
                InstallEvent::StreamEnded => true,
                _ => false,
            },
            InstallPhase::Writing => match event {
                InstallEvent::ChunkWritten => true,
                InstallEvent::WriteFailed { .. } => true,
                _ => false,
            },
            InstallPhase::Finalizing => match event {
                InstallEvent::PermissionsSet => true,
                InstallEvent::PermissionsFailed { .. } => true,
                _ => false,
            },
            InstallPhase::Installed => false,
            InstallPhase::Failed => false,
        }
    }

    /// Takes note of `event` and says what the driver is to do next.
    pub fn step(&mut self, event: InstallEvent) -> (action: InstallAction)
        requires
            old(self)@.wf(),
            old(self)@.accepts(event),
        ensures
            (final(self)@, action@) == old(self)@.step(event),
            final(self)@.wf(),
    {
        match event {
            InstallEvent::ResponseReceived { content_length: Some(total) } => {
                self.phase = InstallPhase::Opening;
                self.total = total;
                InstallAction::OpenDestination
            },
            InstallEvent::ResponseReceived { content_length: None } => {
                self.phase = InstallPhase::Failed;
                InstallAction::Fail(
                    UpdateError::new(ErrorKind::Network, "Failed to get size of response body."),
                )
            },
            InstallEvent::RequestFailed { cause } => {
                self.phase = InstallPhase::Failed;
                InstallAction::Fail(
                    failure_of(ErrorKind::Network, "Download GET request failed", cause.as_str()),
                )
            },
            InstallEvent::DestinationOpened => {
                self.phase = InstallPhase::Streaming;
                InstallAction::NextChunk
            },
            InstallEvent::OpenFailed { cause } => {
                self.phase = InstallPhase::Failed;
                let message = quoted("Failed to access '", self.destination.as_str());
                InstallAction::Fail(failure_of(ErrorKind::Io, message.as_str(), cause.as_str()))
            },
            InstallEvent::ChunkReceived { len } => {
                self.phase = InstallPhase::Writing;
                self.pending = len;
                InstallAction::WriteChunk
            },
            InstallEvent::ChunkFailed { cause } => {
                self.phase = InstallPhase::Failed;
                let message = quoted("Error while downloading '", self.destination.as_str());
                InstallAction::Fail(
                    failure_of(ErrorKind::Network, message.as_str(), cause.as_str()),
                )
            },
            InstallEvent::StreamEnded => {
                self.phase = InstallPhase::Finalizing;
                InstallAction::SetPermissions { mode: EXECUTABLE_MODE }
            },
            InstallEvent::ChunkWritten => {
                let position = if self.pending >= self.total - self.position {
                    self.total
                } else {
                    self.position + self.pending
                };
                self.phase = InstallPhase::Streaming;
                self.written = Ghost((self.written@ + self.pending) as nat);
                self.position = position;
                self.pending = 0;
                InstallAction::Advance { position }
            },
            InstallEvent::WriteFailed { cause } => {
                self.phase = InstallPhase::Failed;
                let message = quoted("Error while writing to '", self.destination.as_str());
                InstallAction::Fail(failure_of(ErrorKind::Io, message.as_str(), cause.as_str()))
            },
            InstallEvent::PermissionsSet => {
                self.phase = InstallPhase::Installed;
                self.mode = Some(EXECUTABLE_MODE);
                InstallAction::Done
            },
            InstallEvent::PermissionsFailed { cause } => {
                self.phase = InstallPhase::Failed;
                let message = quoted(
                    "Failed to set file permissions for '",
                    self.destination.as_str(),
                );
                InstallAction::Fail(
                    failure_of(ErrorKind::Permission, message.as_str(), cause.as_str()),
                )
            },
        }
    }
}

impl InstallModel {
    /// The state after a series of events.
    pub open spec fn run(self, events: Seq<InstallEvent>) -> InstallModel
        decreases events.len(),
    {
        if events.len() == 0 {
            self
        } else {
            self.step(events[0]).0.run(events.skip(1))
        }
    }

    /// Whether each event of a series can follow in the state it meets.
    pub open spec fn admits(self, events: Seq<InstallEvent>) -> bool
        decreases events.len(),
    {
        events.len() == 0 || (self.accepts(events[0]) && self.step(events[0]).0.admits(
            events.skip(1),
        ))
    }
}

/// The events of a stream that hands out chunks of the given lengths, each
/// written in full.
pub open spec fn chunk_events(chunks: Seq<u64>) -> Seq<InstallEvent>
    decreases chunks.len(),
{
    if chunks.len() == 0 {
        Seq::empty()
    } else {
        seq![InstallEvent::ChunkReceived { len: chunks[0] }, InstallEvent::ChunkWritten]
            + chunk_events(chunks.skip(1))
    }
}

/// The sum of the lengths.
pub open spec fn total_len(chunks: Seq<u64>) -> nat
    decreases chunks.len(),
{
    if chunks.len() == 0 {
        0
    } else {
        chunks[0] as nat + total_len(chunks.skip(1))
    }
}

/// The events of an installation in which nothing fails: a response that
/// announces `announced` bytes, the chunks, and the permission bits.
pub open spec fn successful_events(announced: u64, chunks: Seq<u64>) -> Seq<InstallEvent> {
    seq![
        InstallEvent::ResponseReceived { content_length: Some(announced) },
        InstallEvent::DestinationOpened,
    ] + chunk_events(chunks) + seq![InstallEvent::StreamEnded, InstallEvent::PermissionsSet]
}

/// No step breaks what holds of every installation.
pub proof fn lemma_step_preserves_wf(m: InstallModel, event: InstallEvent)
    requires
        m.wf(),
        m.accepts(event),
    ensures
        m.step(event).0.wf(),
        m.step(event).0.destination == m.destination,
{
}

/// The progress that the driver is asked to show never exceeds the length that
/// the response announced, and no chunk lets it fall.
pub proof fn lemma_progress_is_capped(m: InstallModel, event: InstallEvent)
    requires
        m.wf(),
        m.accepts(event),
    ensures
        m.step(event).1 matches ActionModel::Advance { position } ==> {
            &&& position <= m.total
            &&& position >= m.position
            &&& position == min_nat(m.written + m.pending, m.total)
        },
{
}

/// An installation that has failed has written what it has written and has not
/// made the destination executable; it takes no further event.
pub proof fn lemma_failure_is_final(m: InstallModel, event: InstallEvent)
    requires
        m.wf(),
        m.accepts(event),
        m.step(event).1 is Fail,
    ensures
        m.step(event).0.phase is Failed,
        m.step(event).0.mode is None,
        m.step(event).0.written == m.written,
        forall|next: InstallEvent| !m.step(event).0.accepts(next),
{
}

/// A series of events followed by another leads where the second leads from
/// where the first has led.
pub proof fn lemma_run_concat(m: InstallModel, first: Seq<InstallEvent>, second: Seq<InstallEvent>)
    ensures
        m.run(first + second) == m.run(first).run(second),
        m.admits(first + second) == (m.admits(first) && m.run(first).admits(second)),
    decreases first.len(),
{
    if first.len() == 0 {
        assert(first + second =~= second);
    } else {
        assert((first + second).skip(1) =~= first.skip(1) + second);
        lemma_run_concat(m.step(first[0]).0, first.skip(1), second);
    }
}

/// Chunks that are all written leave the installation waiting for the next
/// chunk, with every byte of them in the destination.
pub proof fn lemma_chunks_are_written(m: InstallModel, chunks: Seq<u64>)
    requires
        m.wf(),
        m.phase is Streaming,
    ensures
        m.admits(chunk_events(chunks)),
        m.run(chunk_events(chunks)) == (InstallModel {
            position: min_nat(m.written + total_len(chunks), m.total),
            pending: if chunks.len() == 0 {
                m.pending
            } else {
                0
            },
            written: m.written + total_len(chunks),
            ..m
        }),
    decreases chunks.len(),
{
    if chunks.len() > 0 {
        let received = InstallEvent::ChunkReceived { len: chunks[0] };
        let events = chunk_events(chunks);
        let writing = m.step(received).0;
        let next = writing.step(InstallEvent::ChunkWritten).0;
        assert(events.skip(1).skip(1) =~= chunk_events(chunks.skip(1)));
        assert(events[0] == received);
        assert(events.skip(1)[0] == InstallEvent::ChunkWritten);
        assert(m.run(events) == writing.run(events.skip(1)));
        assert(writing.run(events.skip(1)) == next.run(events.skip(1).skip(1)));
        assert(m.admits(events) == (m.accepts(received) && writing.admits(events.skip(1))));
        assert(writing.admits(events.skip(1)) == (writing.accepts(InstallEvent::ChunkWritten)
            && next.admits(events.skip(1).skip(1))));
        lemma_chunks_are_written(next, chunks.skip(1));
    }
}

/// Where no step fails, the destination ends up holding as many bytes as the
/// chunks had together and is executable by owner, group and others; the
/// progress last shown is that number, capped at the announced length.
pub proof fn lemma_install_writes_all_chunks(
    destination: Seq<char>,
    announced: u64,
    chunks: Seq<u64>,
)
    ensures
        InstallModel::initial(destination).admits(successful_events(announced, chunks)),
        ({
            let end = InstallModel::initial(destination).run(successful_events(announced, chunks));
            &&& end.phase is Installed
            &&& end.written == total_len(chunks)
            &&& end.position == min_nat(total_len(chunks), announced as nat)
            &&& end.mode == Some(EXECUTABLE_MODE)
            &&& EXECUTABLE_MODE & EXECUTE_BITS == EXECUTE_BITS
        }),
{
    let start = InstallModel::initial(destination);
    let head = seq![
        InstallEvent::ResponseReceived { content_length: Some(announced) },
        InstallEvent::DestinationOpened,
    ];
    let tail = seq![InstallEvent::StreamEnded, InstallEvent::PermissionsSet];
    let opening = start.step(head[0]).0;
    let streaming = opening.step(head[1]).0;
    assert(head.skip(1).skip(1) =~= Seq::<InstallEvent>::empty());
    assert(start.run(head) == streaming && start.admits(head)) by {
        assert(head.skip(1)[0] == head[1]);
        assert(opening.run(head.skip(1)) == streaming.run(head.skip(1).skip(1)));
        assert(opening.admits(head.skip(1)) == (opening.accepts(head[1]) && streaming.admits(
            head.skip(1).skip(1),
        )));
    }
    lemma_chunks_are_written(streaming, chunks);
    let written = streaming.run(chunk_events(chunks));
    let finalizing = written.step(tail[0]).0;
    let end = finalizing.step(tail[1]).0;
    assert(tail.skip(1).skip(1) =~= Seq::<InstallEvent>::empty());
    assert(written.run(tail) == end && written.admits(tail)) by {
        assert(tail.skip(1)[0] == tail[1]);
        assert(finalizing.run(tail.skip(1)) == end.run(tail.skip(1).skip(1)));
        assert(finalizing.admits(tail.skip(1)) == (finalizing.accepts(tail[1]) && end.admits(
            tail.skip(1).skip(1),
        )));
    }
    lemma_run_concat(start, head, chunk_events(chunks));
    lemma_run_concat(start, head + chunk_events(chunks), tail);
    assert(EXECUTABLE_MODE & EXECUTE_BITS == EXECUTE_BITS) by (bit_vector)
        requires
            EXECUTABLE_MODE == 0o755u32,
            EXECUTE_BITS == 0o111u32,
    ;
}

} // verus!
