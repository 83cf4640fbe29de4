//! The capability probe as a machine: it is told what happened and says
//! what to do next.
//!
//! The caller owns the terminal.  It asks the [`Prober`] for the pending
//! [`Action`], performs it on the descriptors, and reports the outcome as an
//! [`Event`]; the prober answers with the next action, until that action is
//! [`Action::Finish`].  Every decision of the probe is taken here: when to give
//! up, when the answer is in, what to put back and in which order.
//!
//! A failure to send the probe does not end it: the prober still waits for an
//! answer, so that a doubtful write never hides a terminal that did answer.

use vstd::prelude::*;
use crate::buffer::{fitting, ProbeBuffer, BUFFER_CAPACITY, BUFFER_LIMIT};
use crate::marker::has_marker;
use crate::terminal::{
    flag_change,
    mode_change,
    set_nonblocking,
    set_termios_raw_mode,
    BlockingFlags,
    FlagChange,
    ModeChange,
    ModeMasks,
    TerminalError,
    TerminalSettings,
};

verus! {

/// Time to wait for the first bytes of an answer, in milliseconds.
pub const INITIAL_TIMEOUT_MS: u64 = 500;

/// Time to wait for the rest of an answer once some of it has come, in
/// milliseconds.
pub const FOLLOWING_TIMEOUT_MS: u64 = 50;

/// Time to sleep after a read that would block although the descriptor was
/// reported readable, in milliseconds.
pub const RETRY_PAUSE_MS: u64 = 10;

/// Where a probe stands: what the prober waits to hear of.
#[derive(Debug, Clone, Copy, PartialEq, Eq)]
pub enum Phase {
    /// The terminal's settings are being read.
    ReadingSettings,
    /// The raw settings are being applied.
    WritingSettings,
    /// The descriptor's status flags are being read.
    ReadingFlags,
    /// The non-blocking flags are being applied.
    WritingFlags,
    /// The probe request is being written.
    SendingProbe,
    /// The descriptor is being waited on.
    Polling,
    /// The descriptor was readable and is being read.
    Reading,
    /// A read would have blocked; a short sleep is under way.
    Pausing,
    /// Input that is of no more use is being read away.
    Draining,
    /// The status flags are being put back.
    RestoringFlags,
    /// The terminal's settings are being put back.
    RestoringSettings,
    /// The probe is over.
    Done,
}

/// What the caller is to do for the prober.
#[derive(Debug, Clone, Copy, PartialEq, Eq)]
pub enum Action {
    /// Read the terminal settings of the input descriptor.
    ReadSettings,
    /// Apply these settings to the input descriptor, at once.
    WriteSettings(TerminalSettings),
    /// Read the status flags of the input descriptor.
    ReadFlags,
    /// Apply these status flags to the input descriptor.
    WriteFlags(BlockingFlags),
    /// Write the probe request to the output descriptor and flush it.
    SendProbe,
    /// Wait until the input descriptor is readable, this long at most.
    WaitReadable { timeout_ms: u64 },
    /// Read once from the input descriptor, without blocking, this many bytes
    /// at most.
    Read { limit: usize },
    /// Sleep.
    Sleep { millis: u64 },
    /// Read once from the input descriptor, without blocking, this many bytes
    /// at most: they are thrown away.
    Discard { limit: usize },
    /// Put these status flags back on the input descriptor.
    RestoreFlags(BlockingFlags),
    /// Put these settings back on the input descriptor.
    RestoreSettings(TerminalSettings),
    /// Stop: the terminal supports the protocol, or it does not.
    Finish(bool),
}

/// What came of the action that the prober asked for.
#[derive(Debug)]
pub enum Event {
    /// The action was done and has nothing to tell.
    Completed,
    /// The action failed.
    Failed,
    /// The terminal's settings, as read.
    Settings(TerminalSettings),
    /// The descriptor's status flags, as read.
    Flags(i32),
    /// The wait is over with this many descriptors readable: none, if time
    /// ran out.
    Ready(i32),
    /// The read delivered these bytes: none, at the end of input.
    Data(Vec<u8>),
    /// The read would have blocked.
    WouldBlock,
}

/// An [`Event`] as contracts speak of it.
pub enum EventView {
    Completed,
    Failed,
    Settings(TerminalSettings),
    Flags(i32),
    Ready(i32),
    Data(Seq<u8>),
    WouldBlock,
}

impl View for Event {
    type V = EventView;

    open spec fn view(&self) -> EventView {
        match *self {
            Event::Completed => EventView::Completed,
            Event::Failed => EventView::Failed,
            Event::Settings(settings) => EventView::Settings(settings),
            Event::Flags(bits) => EventView::Flags(bits),
            Event::Ready(count) => EventView::Ready(count),
            Event::Data(bytes) => EventView::Data(bytes@),
            Event::WouldBlock => EventView::WouldBlock,
        }
    }
}

/// A [`Prober`] as contracts speak of it.
pub struct ProbeState {
    /// Where the probe stands.
    pub phase: Phase,
    /// Where echo and canonical input are kept among the local flags.
    pub masks: ModeMasks,
    /// The change of terminal settings, from the time they were read.
    pub settings: Option<ModeChange>,
    /// The change of status flags, from the time they were read.
    pub flags: Option<FlagChange>,
    /// The bytes of the answer gathered so far.
    pub received: Seq<u8>,
    /// The mode changes that failed, in the order in which they failed.
    pub failures: Seq<TerminalError>,
}

/// The place of a phase in the course of a probe.
pub open spec fn rank(phase: Phase) -> nat {
    match phase {
        Phase::ReadingSettings => 0,
        Phase::WritingSettings => 1,
        Phase::ReadingFlags => 2,
        Phase::WritingFlags => 3,
        Phase::SendingProbe => 4,
        Phase::Polling => 5,
        Phase::Reading => 5,
        Phase::Pausing => 5,
        Phase::Draining => 6,
        Phase::RestoringFlags => 7,
        Phase::RestoringSettings => 8,
        Phase::Done => 9,
    }
}

/// The state in which every probe starts.
pub open spec fn initial(masks: ModeMasks) -> ProbeState {
    ProbeState {
        phase: Phase::ReadingSettings,
        masks,
        settings: None,
        flags: None,
        received: Seq::empty(),
        failures: Seq::empty(),
    }
}

impl ProbeState {
    /// What holds of every state that a probe can be in.
    pub open spec fn wf(self) -> bool {
        &&& self.received.len() <= BUFFER_LIMIT
        &&& rank(self.phase) == 0 ==> self.settings is None
        &&& 1 <= rank(self.phase) <= 8 ==> self.settings is Some
        &&& rank(self.phase) <= 2 ==> self.flags is None
        &&& 3 <= rank(self.phase) <= 7 ==> self.flags is Some
        &&& rank(self.phase) <= 4 ==> self.received.len() == 0
        &&& rank(self.phase) == 5 ==> self.received.len() < BUFFER_LIMIT && !has_marker(
            self.received,
        )
    }

    /// Whether the terminal has shown that it supports the protocol: the
    /// marker stands in what was received.
    pub open spec fn detected(self) -> bool {
        has_marker(self.received)
    }

    /// How long the next wait for input may take, in milliseconds: long
    /// before the first byte, short after it.
    pub open spec fn timeout_ms(self) -> u64 {
        if self.received.len() == 0 {
            500
        } else {
            50
        }
    }

    /// The action that the caller is to perform in this state.
    pub open spec fn pending(self) -> Action {
        match self.phase {
            Phase::ReadingSettings => Action::ReadSettings,
            Phase::WritingSettings => Action::WriteSettings(self.settings.unwrap().apply),
            Phase::ReadingFlags => Action::ReadFlags,
            Phase::WritingFlags => Action::WriteFlags(self.flags.unwrap().apply),
            Phase::SendingProbe => Action::SendProbe,
            Phase::Polling => Action::WaitReadable { timeout_ms: self.timeout_ms() },
            Phase::Reading => Action::Read {
                limit: (BUFFER_LIMIT - self.received.len()) as usize,
            },
            Phase::Pausing => Action::Sleep { millis: 10 },
            Phase::Draining => Action::Discard { limit: 256 },
            Phase::RestoringFlags => Action::RestoreFlags(self.flags.unwrap().restore),
            Phase::RestoringSettings => Action::RestoreSettings(self.settings.unwrap().restore),
            Phase::Done => Action::Finish(self.detected()),
        }
    }

    /// This state in another phase.
    pub open spec fn moved_to(self, phase: Phase) -> ProbeState {
        ProbeState { phase, ..self }
    }

    /// This state in another phase, with one more failure on record.
    pub open spec fn failed_to(self, phase: Phase, failure: TerminalError) -> ProbeState {
        ProbeState { phase, failures: self.failures.push(failure), ..self }
    }

    /// The state after the bytes `chunk` were read while the answer was
    /// being gathered.  No bytes mean the end of input.  Otherwise what fits
    /// is kept, and the whole of what was gathered is searched for the
    /// marker: the probe goes on polling only if the marker is not there and
    /// room is left.
    pub open spec fn after_data(self, chunk: Seq<u8>) -> ProbeState {
        let received = self.received + fitting(chunk, BUFFER_LIMIT - self.received.len());
        if chunk.len() == 0 {
            self.moved_to(Phase::Draining)
        } else if has_marker(received) || received.len() >= BUFFER_LIMIT {
            ProbeState { phase: Phase::Draining, received, ..self }
        } else {
            ProbeState { phase: Phase::Polling, received, ..self }
        }
    }

    /// The state that follows this one when `event` is reported.  An event
    /// that is no answer to the pending action counts as its failure.
    pub open spec fn advance(self, event: EventView) -> ProbeState {
        match self.phase {
            Phase::ReadingSettings => match event {
                EventView::Settings(current) => ProbeState {
                    phase: Phase::WritingSettings,
                    settings: Some(mode_change(current, self.masks)),
                    ..self
                },
                _ => self.failed_to(Phase::Done, TerminalError::AttributeRead),
            },
            Phase::WritingSettings => match event {
                EventView::Completed => self.moved_to(Phase::ReadingFlags),
                _ => self.failed_to(Phase::Done, TerminalError::AttributeWrite),
            },
            Phase::ReadingFlags => match event {
                EventView::Flags(current) => ProbeState {
                    phase: Phase::WritingFlags,
                    flags: Some(flag_change(current)),
                    ..self
                },
                _ => self.failed_to(Phase::RestoringSettings, TerminalError::FlagRead),
            },
            Phase::WritingFlags => match event {
                EventView::Completed => self.moved_to(Phase::SendingProbe),
                _ => self.failed_to(Phase::RestoringSettings, TerminalError::FlagWrite),
            },
            Phase::SendingProbe => self.moved_to(Phase::Polling),
            Phase::Polling => match event {
                EventView::Ready(count) if count > 0 => self.moved_to(Phase::Reading),
                _ => self.moved_to(Phase::Draining),
            },
            Phase::Reading => match event {
                EventView::Data(chunk) => self.after_data(chunk),
                EventView::WouldBlock => self.moved_to(Phase::Pausing),
                _ => self.moved_to(Phase::Draining),
            },
            Phase::Pausing => self.moved_to(Phase::Polling),
            Phase::Draining => match event {
                EventView::Data(chunk) if chunk.len() > 0 => self,
                _ => self.moved_to(Phase::RestoringFlags),
            },
            Phase::RestoringFlags => match event {
                EventView::Completed => self.moved_to(Phase::RestoringSettings),
                _ => self.failed_to(Phase::RestoringSettings, TerminalError::FlagWrite),
            },
            Phase::RestoringSettings => match event {
                EventView::Completed => self.moved_to(Phase::Done),
                _ => self.failed_to(Phase::Done, TerminalError::AttributeWrite),
            },
            Phase::Done => self,
        }
    }
}

/// The probe request: `ESC _ G i=31,s=1,v=1,a=q,t=d,f=24;AAAA ESC \`, a query
/// with an id of its own and a picture of one pixel.
pub open spec fn probe_request_bytes() -> Seq<u8> {
    seq![
        0x1bu8, 0x5f, 0x47, 0x69, 0x3d, 0x33, 0x31, 0x2c, 0x73, 0x3d, 0x31, 0x2c, 0x76, 0x3d, 0x31,
        0x2c, 0x61, 0x3d, 0x71, 0x2c, 0x74, 0x3d, 0x64, 0x2c, 0x66, 0x3d, 0x32, 0x34, 0x3b, 0x41,
        0x41, 0x41, 0x41, 0x1b, 0x5c,
    ]
}

/// The bytes to write for [`Action::SendProbe`].
pub fn probe_request() -> (request: Vec<u8>)
    ensures
        request@ == probe_request_bytes(),
{
    let request: Vec<u8> = vec![
        0x1bu8, 0x5f, 0x47, 0x69, 0x3d, 0x33, 0x31, 0x2c, 0x73, 0x3d, 0x31, 0x2c, 0x76, 0x3d, 0x31,
        0x2c, 0x61, 0x3d, 0x71, 0x2c, 0x74, 0x3d, 0x64, 0x2c, 0x66, 0x3d, 0x32, 0x34, 0x3b, 0x41,
        0x41, 0x41, 0x41, 0x1b, 0x5c,
    ];
    assert(request@ =~= probe_request_bytes());
    request
}

/// How many descriptors a wait for `fd` alone has to look at: those up to
/// `fd`, one more than its number.  A number that stands for no descriptor,
/// or that has no next one, cannot be waited for.
pub fn wait_width(fd: i32) -> (width: Option<i32>)
    ensures
        width == if 0 <= fd < i32::MAX {
            Some((fd + 1) as i32)
        } else {
            None
        },
{
    if fd < 0 || fd == i32::MAX {
        None
    } else {
        Some(fd + 1)
    }
}

/// One probe of one terminal.
#[derive(Debug)]
pub struct Prober {
    phase: Phase,
    masks: ModeMasks,
    settings: Option<ModeChange>,
    flags: Option<FlagChange>,
    buffer: ProbeBuffer,
    /// Whether the marker stands in `buffer`: kept beside it so that the
    /// search is made once for each read.
    detected: bool,
    failures: Vec<TerminalError>,
}

impl View for Prober {
    type V = ProbeState;

    closed spec fn view(&self) -> ProbeState {
        ProbeState {
            phase: self.phase,
            masks: self.masks,
            settings: self.settings,
            flags: self.flags,
            received: self.buffer@,
            failures: self.failures@,
        }
    }
}

impl Prober {
    /// What holds of every prober that this module made.
    pub closed spec fn wf(&self) -> bool {
        &&& self@.wf()
        &&& self.masks.of_a_platform()
        &&& self.buffer.wf()
        &&& self.detected == has_marker(self.buffer@)
    }

    /// A prober at the start of a probe, with the masks of the platform
    /// this was built for.
    pub fn new() -> (prober: Prober)
        ensures
            prober.wf(),
            prober@.wf(),
            prober@ == initial(prober@.masks),
            prober@.masks.of_a_platform(),
    {
        let masks = ModeMasks::platform();
        let prober = Prober {
            phase: Phase::ReadingSettings,
            masks,
            settings: None,
            flags: None,
            buffer: ProbeBuffer::new(),
            detected: false,
            failures: Vec::new(),
        };
        assert(!has_marker(Seq::<u8>::empty()));
        prober
    }

    /// The action that the prober waits to hear of.  A prober that is past
    /// reading the settings or the flags has them on record, so the arms for
    /// a missing record are never taken.
    pub fn pending(&self) -> (action: Action)
        requires
            self.wf(),
        ensures
            action == self@.pending(),
    {
        match self.phase {
            Phase::ReadingSettings => Action::ReadSettings,
            Phase::WritingSettings => match self.settings {
                Some(change) => Action::WriteSettings(change.apply),
                None => {
                    assert(false);
                    Action::ReadSettings
                },
            },
            Phase::ReadingFlags => Action::ReadFlags,
            Phase::WritingFlags => match self.flags {
                Some(change) => Action::WriteFlags(change.apply),
                None => {
                    assert(false);
                    Action::ReadFlags
                },
            },
            Phase::SendingProbe => Action::SendProbe,
            Phase::Polling => Action::WaitReadable {
                timeout_ms: if self.buffer.len() == 0 {
                    INITIAL_TIMEOUT_MS
                } else {
                    FOLLOWING_TIMEOUT_MS
                },
            },
            Phase::Reading => Action::Read { limit: self.buffer.room() },
            Phase::Pausing => Action::Sleep { millis: RETRY_PAUSE_MS },
            Phase::Draining => Action::Discard { limit: BUFFER_CAPACITY },
            Phase::RestoringFlags => match self.flags {
                Some(change) => Action::RestoreFlags(change.restore),
                None => {
                    assert(false);
                    Action::ReadFlags
                },
            },
            Phase::RestoringSettings => match self.settings {
                Some(change) => Action::RestoreSettings(change.restore),
                None => {
                    assert(false);
                    Action::ReadSettings
                },
            },
            Phase::Done => Action::Finish(self.detected),
        }
    }

    /// Takes in what came of the pending action and says what to do next.
    pub fn step(&mut self, event: Event) -> (next: Action)
        requires
            old(self).wf(),
        ensures
            final(self).wf(),
            final(self)@.wf(),
            final(self)@ == old(self)@.advance(event@),
            final(self)@.masks == old(self)@.masks,
            final(self)@.masks.of_a_platform(),
            next == final(self)@.pending(),
    {
        match self.phase {
            Phase::ReadingSettings => match event {
                Event::Settings(current) => {
                    self.settings = Some(set_termios_raw_mode(current, self.masks));
                    self.phase = Phase::WritingSettings;
                },
                _ => {
                    self.failures.push(TerminalError::AttributeRead);
                    self.phase = Phase::Done;
                },
            },
            Phase::WritingSettings => match event {
                Event::Completed => {
                    self.phase = Phase::ReadingFlags;
                },
                _ => {
                    self.failures.push(TerminalError::AttributeWrite);
                    self.phase = Phase::Done;
                },
            },
            Phase::ReadingFlags => match event {
                Event::Flags(current) => {
                    self.flags = Some(set_nonblocking(current));
                    self.phase = Phase::WritingFlags;
                },
                _ => {
                    self.failures.push(TerminalError::FlagRead);
                    self.phase = Phase::RestoringSettings;
                },
            },
            Phase::WritingFlags => match event {
                Event::Completed => {
                    self.phase = Phase::SendingProbe;
                },
                _ => {
                    self.failures.push(TerminalError::FlagWrite);
                    self.phase = Phase::RestoringSettings;
                },
            },
            Phase::SendingProbe => {
                self.phase = Phase::Polling;
            },
            Phase::Polling => match event {
                Event::Ready(count) => {
                    if count > 0 {
                        self.phase = Phase::Reading;
                    } else {
                        self.phase = Phase::Draining;
                    }
                },
                _ => {
                    self.phase = Phase::Draining;
                },
            },
            Phase::Reading => match event {
                Event::Data(chunk) => {
                    if chunk.len() == 0 {
                        self.phase = Phase::Draining;
                    } else {
                        self.buffer.fill(chunk.as_slice());
                        self.detected = self.buffer.holds_marker();
                        if self.detected || self.buffer.is_full() {
                            self.phase = Phase::Draining;
                        } else {
                            self.phase = Phase::Polling;
                        }
                    }
                },
                Event::WouldBlock => {
                    self.phase = Phase::Pausing;
                },
                _ => {
                    self.phase = Phase::Draining;
                },
            },
            Phase::Pausing => {
                self.phase = Phase::Polling;
            },
            Phase::Draining => match event {
                Event::Data(chunk) => {
                    if chunk.len() == 0 {
                        self.phase = Phase::RestoringFlags;
                    }
                },
                _ => {
                    self.phase = Phase::RestoringFlags;
                },
            },
            Phase::RestoringFlags => match event {
                Event::Completed => {
                    self.phase = Phase::RestoringSettings;
                },
                _ => {
                    self.failures.push(TerminalError::FlagWrite);
                    self.phase = Phase::RestoringSettings;
                },
            },
            Phase::RestoringSettings => match event {
                Event::Completed => {
                    self.phase = Phase::Done;
                },
                _ => {
                    self.failures.push(TerminalError::AttributeWrite);
                    self.phase = Phase::Done;
                },
            },
            Phase::Done => {},
        }
        self.pending()
    }

    /// Where the probe stands.
    pub fn phase(&self) -> (phase: Phase)
        ensures
            phase == self@.phase,
    {
        self.phase
    }

    /// The verdict, once the probe is over: whether the terminal supports
    /// the protocol.
    pub fn verdict(&self) -> (verdict: Option<bool>)
        requires
            self.wf(),
        ensures
            verdict == if self@.phase == Phase::Done {
                Some(self@.detected())
            } else {
                None
            },
    {
        match self.phase {
            Phase::Done => Some(self.detected),
            _ => None,
        }
    }

    /// The bytes of the answer gathered so far.
    pub fn received(&self) -> (bytes: &[u8])
        ensures
            bytes@ == self@.received,
    {
        self.buffer.as_slice()
    }

    /// The mode changes that failed so far, in the order in which they
    /// failed.
    pub fn failures(&self) -> (failures: &[TerminalError])
        ensures
            failures@ == self@.failures,
    {
        self.failures.as_slice()
    }
}

} // verus!
