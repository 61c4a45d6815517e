//! The page-acquisition state machine.
//!
//! A scan runs on a dedicated worker that blocks on device calls and
//! reports lifecycle events over a bounded channel. Everything the worker
//! decides - which event to emit, when a cancellation checkpoint fires,
//! how reads accumulate into the page, when progress is worth reporting -
//! is verified here as an explicit state machine. The surrounding loop
//! performs the device, compressor and channel work and feeds each outcome
//! back in; the machine's ghost history records every event ever emitted,
//! so properties of whole runs are stated over it.
//!
//! Exactly one terminal event is emitted per run: `Done` with the encoded
//! page, `Cancelled`, or `Error` with the reason.

use vstd::prelude::*;

use crate::cancel::{CancellationToken, Decision, SignalState};
use crate::device::{FrameFormat, Parameters, ProtocolError, SaneError};
use crate::jpeg::{EncodeError, Jpeg};
use crate::raster::{raw_image, RasterAssembler, RawImage};

verus! {

/// How many bytes one bounded device read may request.
pub const READ_CHUNK_SIZE: usize = 128 * 1024;

/// The least advance of the progress percentage that is worth an event.
pub const PROGRESS_STEP: u8 = 10;

/// A lifecycle event of one scan, in the order the consumer sees them.
#[derive(Clone, Debug)]
pub enum ScanState {
    /// The worker is preparing the session.
    Prepare,
    /// Cumulative progress through the page, as a percentage.
    Progress(u8),
    /// The session is being released, before encoding.
    Stopping,
    /// The assembled page is being compressed.
    Encoding,
    /// The run finished; the encoded page is attached.
    Done(Jpeg),
    /// The run failed.
    Error(ScanError),
    /// The run was cancelled, by request or by a consumer that went away.
    Cancelled,
}

/// Why a scan failed.
#[derive(Clone, Copy, Debug, PartialEq, Eq, Structural)]
pub enum ScanError {
    /// Opening, negotiating, starting or reading failed on the device.
    Device(SaneError),
    /// The device's parameter report broke the protocol.
    Protocol(ProtocolError),
    /// A read returned more data than the parameters declared.
    RasterOverflow,
    /// The device ended the page before the declared size was reached.
    IncompletePage,
    /// The page's frame format is a single colour channel, which cannot
    /// be encoded.
    UnsupportedFormat,
    /// The compressor rejected the page.
    Encode(EncodeError),
}

/// How fetching the parameter report ended.
pub enum ParametersReport {
    /// A validated report.
    Valid(Parameters),
    /// The device answered, but the report broke the protocol.
    Malformed(ProtocolError),
    /// The device call itself failed.
    Failed(SaneError),
}

/// Where the state machine stands.
#[derive(Clone, Copy, Debug, PartialEq, Eq, Structural)]
pub enum Phase {
    /// Fresh; nothing emitted.
    Created,
    /// `Prepare` emitted; checkpoint before opening the session.
    OpenCheckpoint,
    /// The session is being opened.
    Opening,
    /// Options are being negotiated, best-effort.
    Negotiating,
    /// Checkpoint after negotiation, before starting the scan.
    StartCheckpoint,
    /// The scan is being started.
    Starting,
    /// The parameter report is being fetched.
    FetchingParameters,
    /// Checkpoint before the next bounded read.
    ReadCheckpoint,
    /// One bounded read is in flight.
    Reading,
    /// `Stopping` emitted; the session is being released.
    Releasing,
    /// Checkpoint before encoding.
    EncodeCheckpoint,
    /// `Encoding` emitted; the compressor is running.
    Encoding,
    /// Terminal: `Done` emitted.
    Done,
    /// Terminal: `Cancelled` emitted.
    Cancelled,
    /// Terminal: `Error` emitted.
    Failed,
}

/// Whether a phase is terminal.
pub open spec fn phase_is_terminal(p: Phase) -> bool {
    p == Phase::Done || p == Phase::Cancelled || p == Phase::Failed
}

/// Whether an event is terminal.
pub open spec fn event_is_terminal(e: ScanState) -> bool {
    e is Done || e is Cancelled || e is Error
}

/// No event of the sequence is terminal.
pub open spec fn no_terminal_event(h: Seq<ScanState>) -> bool {
    forall|i: int| 0 <= i < h.len() ==> !event_is_terminal(#[trigger] h[i])
}

/// The progress percentage after `acc` of `total` bytes.
pub open spec fn spec_progress_pct(acc: int, total: int) -> int {
    acc * 100 / total
}

/// Whether an advance to `pct` from the last emitted percentage `last` is
/// worth an event: either the minimum threshold was reached, or the page
/// just completed and 100% has not been reported yet.
pub open spec fn spec_should_emit(pct: int, last: int) -> bool {
    pct >= last + PROGRESS_STEP || (pct == 100 && last < 100)
}

/// The acquisition state machine. The caller performs one action per
/// phase - open, negotiate, start, fetch parameters, read, release,
/// encode - and feeds the outcome back; every method hands back the events
/// to forward, in order, and the ghost history records them all.
pub struct ScanWorker {
    phase: Phase,
    token: CancellationToken,
    params: Option<Parameters>,
    assembler: Option<RasterAssembler>,
    any_read: bool,
    last_progress: u8,
    history: Ghost<Seq<ScanState>>,
}

impl ScanWorker {
    /// Where the machine stands.
    pub closed spec fn spec_phase(&self) -> Phase {
        self.phase
    }

    /// Every event emitted so far, in order.
    pub closed spec fn history(&self) -> Seq<ScanState> {
        self.history@
    }

    /// Whether any device read has completed.
    pub closed spec fn read_started(&self) -> bool {
        self.any_read
    }

    /// The validated parameters, once fetched.
    pub closed spec fn spec_parameters(&self) -> Option<Parameters> {
        self.params
    }

    /// The bytes assembled so far, once reading has begun.
    pub closed spec fn assembled(&self) -> Seq<u8> {
        self.assembler->Some_0.accumulated()
    }

    /// The declared page size, once the parameters are known.
    pub closed spec fn spec_page_capacity(&self) -> int {
        self.assembler->Some_0.page_capacity()
    }

    /// The last progress percentage emitted.
    pub closed spec fn spec_last_progress(&self) -> int {
        self.last_progress as int
    }

    /// The shape of the history in each phase: `Prepare` first, progress
    /// only while reading, the `Stopping` and `Encoding` markers in order,
    /// and exactly one terminal event, at the end, in a terminal phase.
    closed spec fn events_inv(&self) -> bool {
        let h = self.history@;
        match self.phase {
            Phase::Created => h == Seq::<ScanState>::empty(),
            Phase::OpenCheckpoint | Phase::Opening | Phase::Negotiating | Phase::StartCheckpoint
                | Phase::Starting | Phase::FetchingParameters => h == seq![ScanState::Prepare],
            Phase::ReadCheckpoint => {
                &&& h.len() >= 1
                &&& h[0] == ScanState::Prepare
                &&& forall|i: int| 1 <= i < h.len() ==> #[trigger] h[i] is Progress
                &&& (!self.any_read ==> h == seq![ScanState::Prepare])
                &&& (self.any_read ==> h.len() >= 2)
            },
            Phase::Reading => {
                &&& h.len() >= 2
                &&& h[0] == ScanState::Prepare
                &&& forall|i: int| 1 <= i < h.len() ==> #[trigger] h[i] is Progress
                &&& (!self.any_read ==> h == seq![ScanState::Prepare, ScanState::Progress(0u8)])
            },
            Phase::Releasing | Phase::EncodeCheckpoint => {
                &&& h.len() >= 2
                &&& h[0] == ScanState::Prepare
                &&& h.last() == ScanState::Stopping
                &&& forall|i: int| 1 <= i < h.len() - 1 ==> #[trigger] h[i] is Progress
            },
            Phase::Encoding => {
                &&& h.len() >= 3
                &&& h[0] == ScanState::Prepare
                &&& h.last() == ScanState::Encoding
                &&& h[h.len() - 2] == ScanState::Stopping
                &&& forall|i: int| 1 <= i < h.len() - 2 ==> #[trigger] h[i] is Progress
            },
            Phase::Done => {
                &&& h.len() >= 4
                &&& h[0] == ScanState::Prepare
                &&& h.last() is Done
                &&& h[h.len() - 2] == ScanState::Encoding
                &&& h[h.len() - 3] == ScanState::Stopping
                &&& forall|i: int| 1 <= i < h.len() - 3 ==> #[trigger] h[i] is Progress
                &&& no_terminal_event(h.drop_last())
            },
            Phase::Cancelled => {
                &&& h.len() >= 2
                &&& h[0] == ScanState::Prepare
                &&& h.last() is Cancelled
                &&& no_terminal_event(h.drop_last())
                &&& (!self.any_read ==> h == seq![ScanState::Prepare, ScanState::Cancelled])
            },
            Phase::Failed => {
                &&& h.len() >= 2
                &&& h[0] == ScanState::Prepare
                &&& h.last() is Error
                &&& no_terminal_event(h.drop_last())
            },
        }
    }

    /// The data each phase carries: a well-formed assembler tied to the
    /// parameters while reading, a complete page before encoding, and a
    /// token that has not latched while the run is still alive.
    closed spec fn data_inv(&self) -> bool {
        &&& (!phase_is_terminal(self.phase) ==> !self.token.is_cancelled())
        &&& match self.phase {
            Phase::ReadCheckpoint | Phase::Reading | Phase::Releasing | Phase::EncodeCheckpoint => {
                &&& self.params matches Some(p) && p.wf()
                &&& self.assembler matches Some(a) && a.wf()
                &&& self.assembler->Some_0.line_len() == self.params->Some_0.bytes_per_line as int
                &&& self.assembler->Some_0.page_capacity()
                    == self.params->Some_0.spec_page_size()
                &&& self.assembler->Some_0.page_capacity() > 0
                &&& self.last_progress <= 100
            },
            Phase::Encoding => self.params matches Some(p) && p.wf(),
            _ => true,
        }
        &&& (self.phase == Phase::EncodeCheckpoint ==> self.assembler->Some_0.accumulated().len()
            == self.assembler->Some_0.page_capacity())
        &&& ((self.phase == Phase::Releasing || self.phase == Phase::EncodeCheckpoint || self.phase
            == Phase::Encoding) ==> self.any_read)
        &&& (match self.phase {
            Phase::Created | Phase::OpenCheckpoint | Phase::Opening | Phase::Negotiating
                | Phase::StartCheckpoint | Phase::Starting | Phase::FetchingParameters
                => !self.any_read,
            _ => true,
        })
    }

    /// The machine's invariant.
    pub closed spec fn wf(&self) -> bool {
        self.events_inv() && self.data_inv()
    }

    /// Where the machine stands.
    pub fn phase(&self) -> (r: Phase)
        ensures
            r == self.spec_phase(),
    {
        self.phase
    }

    /// A fresh machine: nothing emitted, nothing read, nothing cancelled.
    pub fn new() -> (r: ScanWorker)
        ensures
            r.wf(),
            r.spec_phase() == Phase::Created,
            r.history() == Seq::<ScanState>::empty(),
            !r.read_started(),
    {
        ScanWorker {
            phase: Phase::Created,
            token: CancellationToken::new(),
            params: None,
            assembler: None,
            any_read: false,
            last_progress: 0,
            history: Ghost(Seq::empty()),
        }
    }

    /// Starts the run: emits `Prepare` and moves to the checkpoint before
    /// the session is opened.
    pub fn begin(&mut self) -> (r: Vec<ScanState>)
        requires
            old(self).wf(),
            old(self).spec_phase() == Phase::Created,
        ensures
            final(self).wf(),
            final(self).spec_phase() == Phase::OpenCheckpoint,
            final(self).read_started() == old(self).read_started(),
            r@ == seq![ScanState::Prepare],
            final(self).history() == old(self).history() + r@,
    {
        self.phase = Phase::OpenCheckpoint;
        proof {
            self.history@ = self.history@ + seq![ScanState::Prepare];
        }
        let mut events: Vec<ScanState> = Vec::new();
        events.push(ScanState::Prepare);
        proof {
            assert(self.history@ =~= seq![ScanState::Prepare]);
            assert(events@ =~= seq![ScanState::Prepare]);
        }
        events
    }

    /// One checkpoint: folds the observed signal into the token.
    fn resolve_checkpoint(&mut self, observed: SignalState) -> (r: Decision)
        requires
            !old(self).token.is_cancelled(),
        ensures
            final(self).phase == old(self).phase,
            final(self).params == old(self).params,
            final(self).assembler == old(self).assembler,
            final(self).any_read == old(self).any_read,
            final(self).last_progress == old(self).last_progress,
            final(self).history == old(self).history,
            (r == Decision::Cancelled <==> observed != SignalState::Quiet),
            (final(self).token.is_cancelled() <==> observed != SignalState::Quiet),
    {
        self.token.check(observed)
    }

    /// Ends the run with the `Cancelled` terminal.
    fn cancel_now(&mut self, events: &mut Vec<ScanState>)
        requires
            old(self).events_inv(),
            !phase_is_terminal(old(self).phase),
            old(self).phase != Phase::Created,
            no_terminal_event(old(self).history@),
            !old(self).any_read ==> old(self).history@ == seq![ScanState::Prepare],
        ensures
            final(self).phase == Phase::Cancelled,
            final(self).params == old(self).params,
            final(self).assembler == old(self).assembler,
            final(self).any_read == old(self).any_read,
            final(self).token == old(self).token,
            final(self).last_progress == old(self).last_progress,
            final(self).history@ == old(self).history@ + seq![ScanState::Cancelled],
            final(events)@ == old(events)@ + seq![ScanState::Cancelled],
            final(self).events_inv(),
    {
        self.phase = Phase::Cancelled;
        proof {
            self.history@ = self.history@ + seq![ScanState::Cancelled];
        }
        events.push(ScanState::Cancelled);
        proof {
            assert(self.history@.drop_last() =~= old(self).history@);
            if !self.any_read {
                assert(self.history@ =~= seq![ScanState::Prepare, ScanState::Cancelled]);
            }
        }
    }

    /// Ends the run with an `Error` terminal.
    fn fail_now(&mut self, events: &mut Vec<ScanState>, error: ScanError)
        requires
            old(self).events_inv(),
            !phase_is_terminal(old(self).phase),
            old(self).phase != Phase::Created,
            no_terminal_event(old(self).history@),
        ensures
            final(self).phase == Phase::Failed,
            final(self).params == old(self).params,
            final(self).assembler == old(self).assembler,
            final(self).any_read == old(self).any_read,
            final(self).token == old(self).token,
            final(self).last_progress == old(self).last_progress,
            final(self).history@ == old(self).history@ + seq![ScanState::Error(error)],
            final(events)@ == old(events)@ + seq![ScanState::Error(error)],
            final(self).events_inv(),
    {
        self.phase = Phase::Failed;
        proof {
            self.history@ = self.history@ + seq![ScanState::Error(error)];
        }
        events.push(ScanState::Error(error));
        proof {
            assert(self.history@.drop_last() =~= old(self).history@);
        }
    }

    /// The checkpoint before the session is opened. Constructing the
    /// session is cancellable before any hardware work begins.
    pub fn checkpoint_open(&mut self, observed: SignalState) -> (r: Vec<ScanState>)
        requires
            old(self).wf(),
            old(self).spec_phase() == Phase::OpenCheckpoint,
        ensures
            final(self).wf(),
            final(self).read_started() == old(self).read_started(),
            final(self).history() == old(self).history() + r@,
            if observed == SignalState::Quiet {
                &&& final(self).spec_phase() == Phase::Opening
                &&& r@ == Seq::<ScanState>::empty()
            } else {
                &&& final(self).spec_phase() == Phase::Cancelled
                &&& r@ == seq![ScanState::Cancelled]
            },
    {
        let mut events: Vec<ScanState> = Vec::new();
        match self.resolve_checkpoint(observed) {
            Decision::Cancelled => {
                self.cancel_now(&mut events);
            },
            Decision::Continue => {
                self.phase = Phase::Opening;
                proof {
                    assert(self.history@ =~= self.history@ + events@);
                }
            },
        }
        events
    }

    /// The outcome of opening the session.
    pub fn session_opened(&mut self, result: Result<(), SaneError>) -> (r: Vec<ScanState>)
        requires
            old(self).wf(),
            old(self).spec_phase() == Phase::Opening,
        ensures
            final(self).wf(),
            final(self).read_started() == old(self).read_started(),
            final(self).history() == old(self).history() + r@,
            match result {
                Ok(()) => {
                    &&& final(self).spec_phase() == Phase::Negotiating
                    &&& r@ == Seq::<ScanState>::empty()
                },
                Err(e) => {
                    &&& final(self).spec_phase() == Phase::Failed
                    &&& r@ == seq![ScanState::Error(ScanError::Device(e))]
                },
            },
    {
        let mut events: Vec<ScanState> = Vec::new();
        match result {
            Ok(()) => {
                self.phase = Phase::Negotiating;
                proof {
                    assert(self.history@ =~= self.history@ + events@);
                }
            },
            Err(e) => {
                self.fail_now(&mut events, ScanError::Device(e));
            },
        }
        events
    }

    /// The outcome of the best-effort option negotiation. Individual
    /// unsettable options never surface here - only a failure of the
    /// negotiation pass itself, such as an unreadable option list.
    pub fn negotiated(&mut self, result: Result<(), SaneError>) -> (r: Vec<ScanState>)
        requires
            old(self).wf(),
            old(self).spec_phase() == Phase::Negotiating,
        ensures
            final(self).wf(),
            final(self).read_started() == old(self).read_started(),
            final(self).history() == old(self).history() + r@,
            match result {
                Ok(()) => {
                    &&& final(self).spec_phase() == Phase::StartCheckpoint
                    &&& r@ == Seq::<ScanState>::empty()
                },
                Err(e) => {
                    &&& final(self).spec_phase() == Phase::Failed
                    &&& r@ == seq![ScanState::Error(ScanError::Device(e))]
                },
            },
    {
        let mut events: Vec<ScanState> = Vec::new();
        match result {
            Ok(()) => {
                self.phase = Phase::StartCheckpoint;
                proof {
                    assert(self.history@ =~= self.history@ + events@);
                }
            },
            Err(e) => {
                self.fail_now(&mut events, ScanError::Device(e));
            },
        }
        events
    }

    /// The checkpoint after negotiation, before the scan starts.
    pub fn checkpoint_start(&mut self, observed: SignalState) -> (r: Vec<ScanState>)
        requires
            old(self).wf(),
            old(self).spec_phase() == Phase::StartCheckpoint,
        ensures
            final(self).wf(),
            final(self).read_started() == old(self).read_started(),
            final(self).history() == old(self).history() + r@,
            if observed == SignalState::Quiet {
                &&& final(self).spec_phase() == Phase::Starting
                &&& r@ == Seq::<ScanState>::empty()
            } else {
                &&& final(self).spec_phase() == Phase::Cancelled
                &&& r@ == seq![ScanState::Cancelled]
            },
    {
        let mut events: Vec<ScanState> = Vec::new();
        match self.resolve_checkpoint(observed) {
            Decision::Cancelled => {
                self.cancel_now(&mut events);
            },
            Decision::Continue => {
                self.phase = Phase::Starting;
                proof {
                    assert(self.history@ =~= self.history@ + events@);
                }
            },
        }
        events
    }

    /// The outcome of starting the scan.
    pub fn started(&mut self, result: Result<(), SaneError>) -> (r: Vec<ScanState>)
        requires
            old(self).wf(),
            old(self).spec_phase() == Phase::Starting,
        ensures
            final(self).wf(),
            final(self).read_started() == old(self).read_started(),
            final(self).history() == old(self).history() + r@,
            match result {
                Ok(()) => {
                    &&& final(self).spec_phase() == Phase::FetchingParameters
                    &&& r@ == Seq::<ScanState>::empty()
                },
                Err(e) => {
                    &&& final(self).spec_phase() == Phase::Failed
                    &&& r@ == seq![ScanState::Error(ScanError::Device(e))]
                },
            },
    {
        let mut events: Vec<ScanState> = Vec::new();
        match result {
            Ok(()) => {
                self.phase = Phase::FetchingParameters;
                proof {
                    assert(self.history@ =~= self.history@ + events@);
                }
            },
            Err(e) => {
                self.fail_now(&mut events, ScanError::Device(e));
            },
        }
        events
    }

    /// The outcome of fetching the parameter report. A validated report
    /// sizes the page buffer; a malformed one or a failed call ends the
    /// run with an error.
    pub fn parameters_fetched(&mut self, report: ParametersReport) -> (r: Vec<ScanState>)
        requires
            old(self).wf(),
            old(self).spec_phase() == Phase::FetchingParameters,
            report matches ParametersReport::Valid(p) ==> p.wf(),
        ensures
            final(self).wf(),
            final(self).read_started() == old(self).read_started(),
            final(self).history() == old(self).history() + r@,
            match report {
                ParametersReport::Valid(p) => {
                    &&& final(self).spec_phase() == Phase::ReadCheckpoint
                    &&& final(self).spec_parameters() == Some(p)
                    &&& final(self).assembled() == Seq::<u8>::empty()
                    &&& final(self).spec_page_capacity() == p.spec_page_size()
                    &&& r@ == Seq::<ScanState>::empty()
                },
                ParametersReport::Malformed(e) => {
                    &&& final(self).spec_phase() == Phase::Failed
                    &&& r@ == seq![ScanState::Error(ScanError::Protocol(e))]
                },
                ParametersReport::Failed(e) => {
                    &&& final(self).spec_phase() == Phase::Failed
                    &&& r@ == seq![ScanState::Error(ScanError::Device(e))]
                },
            },
    {
        let mut events: Vec<ScanState> = Vec::new();
        match report {
            ParametersReport::Valid(p) => {
                let assembler = RasterAssembler::new(&p);
                proof {
                    let b = p.bytes_per_line as int;
                    let n = p.lines as int;
                    assert(b * n >= 1) by (nonlinear_arith)
                        requires
                            b >= 1,
                            n >= 1,
                    ;
                }
                self.params = Some(p);
                self.assembler = Some(assembler);
                self.last_progress = 0;
                self.phase = Phase::ReadCheckpoint;
                proof {
                    assert(self.history@ =~= self.history@ + events@);
                }
            },
            ParametersReport::Malformed(e) => {
                self.fail_now(&mut events, ScanError::Protocol(e));
            },
            ParametersReport::Failed(e) => {
                self.fail_now(&mut events, ScanError::Device(e));
            },
        }
        events
    }

    /// The checkpoint before each bounded read. Passing the very first one
    /// emits the 0% progress marker; a cancellation here aborts without
    /// another device read.
    pub fn checkpoint_read(&mut self, observed: SignalState) -> (r: Vec<ScanState>)
        requires
            old(self).wf(),
            old(self).spec_phase() == Phase::ReadCheckpoint,
        ensures
            final(self).wf(),
            final(self).read_started() == old(self).read_started(),
            final(self).history() == old(self).history() + r@,
            if observed == SignalState::Quiet {
                &&& final(self).spec_phase() == Phase::Reading
                &&& r@ == (if !old(self).read_started() {
                    seq![ScanState::Progress(0u8)]
                } else {
                    Seq::<ScanState>::empty()
                })
                &&& final(self).assembled() == old(self).assembled()
                &&& final(self).spec_page_capacity() == old(self).spec_page_capacity()
            } else {
                &&& final(self).spec_phase() == Phase::Cancelled
                &&& r@ == seq![ScanState::Cancelled]
            },
    {
        let mut events: Vec<ScanState> = Vec::new();
        match self.resolve_checkpoint(observed) {
            Decision::Cancelled => {
                self.cancel_now(&mut events);
            },
            Decision::Continue => {
                self.phase = Phase::Reading;
                if !self.any_read {
                    proof {
                        self.history@ = self.history@ + seq![ScanState::Progress(0u8)];
                    }
                    events.push(ScanState::Progress(0u8));
                    proof {
                        assert(self.history@ =~= seq![
                            ScanState::Prepare,
                            ScanState::Progress(0u8),
                        ]);
                        assert(events@ =~= seq![ScanState::Progress(0u8)]);
                    }
                } else {
                    proof {
                        assert(self.history@ =~= self.history@ + events@);
                    }
                }
            },
        }
        events
    }

    /// The outcome of one bounded read. An empty read is the normal end of
    /// the page and emits `Stopping`; a fitting chunk is assembled, with a
    /// progress event when the percentage has advanced enough or the page
    /// just completed; a chunk past the declared page size is the device
    /// overrunning its own parameters and ends the run.
    pub fn read_returned(&mut self, data: Result<&[u8], SaneError>) -> (r: Vec<ScanState>)
        requires
            old(self).wf(),
            old(self).spec_phase() == Phase::Reading,
        ensures
            final(self).wf(),
            final(self).history() == old(self).history() + r@,
            match data {
                Err(e) => {
                    &&& final(self).spec_phase() == Phase::Failed
                    &&& r@ == seq![ScanState::Error(ScanError::Device(e))]
                },
                Ok(chunk) => {
                    &&& final(self).read_started()
                    &&& if chunk@.len() == 0 {
                        &&& final(self).spec_phase() == Phase::Releasing
                        &&& final(self).assembled() == old(self).assembled()
                        &&& final(self).spec_page_capacity() == old(self).spec_page_capacity()
                        &&& r@ == seq![ScanState::Stopping]
                    } else if old(self).assembled().len() + chunk@.len() <= old(
                        self,
                    ).spec_page_capacity() {
                        &&& final(self).spec_phase() == Phase::ReadCheckpoint
                        &&& final(self).assembled() == old(self).assembled() + chunk@
                        &&& final(self).spec_page_capacity() == old(self).spec_page_capacity()
                        &&& {
                            let pct = spec_progress_pct(
                                old(self).assembled().len() + chunk@.len() as int,
                                old(self).spec_page_capacity(),
                            );
                            if spec_should_emit(pct, old(self).spec_last_progress()) {
                                &&& r@ == seq![ScanState::Progress(pct as u8)]
                                &&& final(self).spec_last_progress() == pct
                            } else {
                                &&& r@ == Seq::<ScanState>::empty()
                                &&& final(self).spec_last_progress() == old(
                                    self,
                                ).spec_last_progress()
                            }
                        }
                    } else {
                        &&& final(self).spec_phase() == Phase::Failed
                        &&& r@ == seq![ScanState::Error(ScanError::RasterOverflow)]
                    }
                },
            },
    {
        let mut events: Vec<ScanState> = Vec::new();
        match data {
            Err(e) => {
                self.fail_now(&mut events, ScanError::Device(e));
            },
            Ok(chunk) => {
                self.any_read = true;
                if chunk.len() == 0 {
                    self.phase = Phase::Releasing;
                    proof {
                        self.history@ = self.history@ + seq![ScanState::Stopping];
                    }
                    events.push(ScanState::Stopping);
                    proof {
                        assert(events@ =~= seq![ScanState::Stopping]);
                        assert(self.history@.last() == ScanState::Stopping);
                        assert(self.history@.drop_last() =~= old(self).history@);
                    }
                } else {
                    let mut assembler = self.assembler.take().unwrap();
                    let push_result = assembler.push(chunk);
                    match push_result {
                        Err(_) => {
                            self.assembler = Some(assembler);
                            self.fail_now(&mut events, ScanError::RasterOverflow);
                        },
                        Ok(()) => {
                            let acc = assembler.accumulated_len();
                            let total = assembler.capacity();
                            proof {
                                assembler.lemma_accumulated_bounded();
                            }
                            self.assembler = Some(assembler);
                            let pct128: u128 = (acc as u128) * 100 / (total as u128);
                            proof {
                                assert(acc * 100 <= total * 100) by (nonlinear_arith)
                                    requires
                                        0 <= acc <= total,
                                ;
                                assert(acc * 100 / (total as int) <= total * 100 / (total as int))
                                    by (nonlinear_arith)
                                    requires
                                        acc * 100 <= total * 100,
                                        total > 0,
                                ;
                                assert(total * 100 / (total as int) == 100) by (nonlinear_arith)
                                    requires
                                        total > 0,
                                ;
                            }
                            let pct: u8 = pct128 as u8;
                            let emit = pct >= self.last_progress + PROGRESS_STEP || (pct == 100
                                && self.last_progress < 100);
                            if emit {
                                self.last_progress = pct;
                                proof {
                                    self.history@ = self.history@ + seq![ScanState::Progress(pct)];
                                }
                                events.push(ScanState::Progress(pct));
                                proof {
                                    assert(events@ =~= seq![ScanState::Progress(pct)]);
                                }
                            } else {
                                proof {
                                    assert(self.history@ =~= self.history@ + events@);
                                }
                            }
                            self.phase = Phase::ReadCheckpoint;
                        },
                    }
                }
            },
        }
        events
    }

    /// The outcome of releasing the session, which always happens before
    /// encoding, whether or not the page completed. A page that ended
    /// short of its declared size is a protocol violation and fails the
    /// run.
    pub fn session_released(&mut self) -> (r: Vec<ScanState>)
        requires
            old(self).wf(),
            old(self).spec_phase() == Phase::Releasing,
        ensures
            final(self).wf(),
            final(self).history() == old(self).history() + r@,
            if old(self).assembled().len() == old(self).spec_page_capacity() {
                &&& final(self).spec_phase() == Phase::EncodeCheckpoint
                &&& final(self).assembled() == old(self).assembled()
                &&& final(self).spec_parameters() == old(self).spec_parameters()
                &&& r@ == Seq::<ScanState>::empty()
            } else {
                &&& final(self).spec_phase() == Phase::Failed
                &&& r@ == seq![ScanState::Error(ScanError::IncompletePage)]
            },
    {
        let mut events: Vec<ScanState> = Vec::new();
        let complete = match self.assembler.as_ref() {
            Some(a) => a.is_complete(),
            None => false,
        };
        if complete {
            self.phase = Phase::EncodeCheckpoint;
            proof {
                assert(self.history@ =~= self.history@ + events@);
            }
        } else {
            self.fail_now(&mut events, ScanError::IncompletePage);
        }
        events
    }

    /// The checkpoint before encoding. Passing it hands the assembled raw
    /// page out for compression and emits `Encoding`; a page whose frame
    /// format is a single colour channel cannot be encoded and fails the
    /// run instead.
    pub fn checkpoint_encode(&mut self, observed: SignalState) -> (r: (
        Vec<ScanState>,
        Option<RawImage>,
    ))
        requires
            old(self).wf(),
            old(self).spec_phase() == Phase::EncodeCheckpoint,
        ensures
            final(self).wf(),
            final(self).history() == old(self).history() + r.0@,
            if observed != SignalState::Quiet {
                &&& final(self).spec_phase() == Phase::Cancelled
                &&& r.0@ == seq![ScanState::Cancelled]
                &&& r.1 is None
            } else {
                let p = old(self).spec_parameters()->Some_0;
                if p.format == FrameFormat::Gray || p.format == FrameFormat::RGB {
                    &&& final(self).spec_phase() == Phase::Encoding
                    &&& r.0@ == seq![ScanState::Encoding]
                    &&& r.1 matches Some(image)
                    &&& r.1->Some_0.pixels@ == old(self).assembled()
                    &&& r.1->Some_0.width == p.pixels_per_line
                    &&& r.1->Some_0.height == p.lines
                    &&& r.1->Some_0.format == (if p.format == FrameFormat::Gray {
                        crate::raster::RawImageFormat::Gray
                    } else {
                        crate::raster::RawImageFormat::Rgb
                    })
                } else {
                    &&& final(self).spec_phase() == Phase::Failed
                    &&& r.0@ == seq![ScanState::Error(ScanError::UnsupportedFormat)]
                    &&& r.1 is None
                }
            },
    {
        let mut events: Vec<ScanState> = Vec::new();
        match self.resolve_checkpoint(observed) {
            Decision::Cancelled => {
                self.cancel_now(&mut events);
                (events, None)
            },
            Decision::Continue => {
                let assembler = self.assembler.take().unwrap();
                let p = self.params.unwrap();
                let pixels = assembler.into_pixels();
                match raw_image(&p, pixels) {
                    Ok(image) => {
                        self.phase = Phase::Encoding;
                        proof {
                            self.history@ = self.history@ + seq![ScanState::Encoding];
                        }
                        events.push(ScanState::Encoding);
                        proof {
                            assert(events@ =~= seq![ScanState::Encoding]);
                            assert(self.history@.drop_last() =~= old(self).history@);
                            assert(self.history@[self.history@.len() - 2] == ScanState::Stopping);
                        }
                        (events, Some(image))
                    },
                    Err(_) => {
                        self.fail_now(&mut events, ScanError::UnsupportedFormat);
                        (events, None)
                    },
                }
            },
        }
    }

    /// The outcome of the compressor run: the encoded page moves the run
    /// to `Done`, a rejection fails it. Either way this is the terminal
    /// event of the run.
    pub fn encoded(&mut self, result: Result<Jpeg, EncodeError>) -> (r: Vec<ScanState>)
        requires
            old(self).wf(),
            old(self).spec_phase() == Phase::Encoding,
        ensures
            final(self).wf(),
            final(self).history() == old(self).history() + r@,
            match result {
                Ok(jpeg) => {
                    &&& final(self).spec_phase() == Phase::Done
                    &&& r@ == seq![ScanState::Done(jpeg)]
                },
                Err(e) => {
                    &&& final(self).spec_phase() == Phase::Failed
                    &&& r@ == seq![ScanState::Error(ScanError::Encode(e))]
                },
            },
    {
        let mut events: Vec<ScanState> = Vec::new();
        match result {
            Ok(jpeg) => {
                self.phase = Phase::Done;
                proof {
                    self.history@ = self.history@ + seq![ScanState::Done(jpeg)];
                }
                events.push(ScanState::Done(jpeg));
                proof {
                    assert(self.history@.drop_last() =~= old(self).history@);
                }
            },
            Err(e) => {
                self.fail_now(&mut events, ScanError::Encode(e));
            },
        }
        events
    }
}

/// Law: cancelling before any device read produces exactly the event
/// sequence `Prepare, Cancelled` - no progress event and no completion
/// event, whichever checkpoint the cancellation reached first.
pub proof fn lemma_cancel_before_any_read(w: &ScanWorker)
    requires
        w.wf(),
        w.spec_phase() == Phase::Cancelled,
        !w.read_started(),
    ensures
        w.history() == seq![ScanState::Prepare, ScanState::Cancelled],
{
}

/// Law: a cancelled run ends with the `Cancelled` terminal and never
/// contains a `Done` event - an abandoned page is never reported as
/// delivered.
pub proof fn lemma_cancelled_run_never_done(w: &ScanWorker)
    requires
        w.wf(),
        w.spec_phase() == Phase::Cancelled,
    ensures
        w.history().len() >= 2,
        w.history()[0] == ScanState::Prepare,
        w.history().last() is Cancelled,
        forall|i: int| 0 <= i < w.history().len() ==> !(#[trigger] w.history()[i] is Done),
{
    let h = w.history();
    assert forall|i: int| 0 <= i < h.len() implies !(#[trigger] h[i] is Done) by {
        if i < h.len() - 1 {
            assert(!event_is_terminal(h.drop_last()[i]));
        }
    }
}

/// Law: every run emits at most one terminal event, and only at the end:
/// while the machine is not in a terminal phase, nothing terminal has been
/// emitted; in a terminal phase, exactly the last event is terminal.
pub proof fn lemma_one_terminal_event(w: &ScanWorker)
    requires
        w.wf(),
    ensures
        !phase_is_terminal(w.spec_phase()) ==> no_terminal_event(w.history()),
        phase_is_terminal(w.spec_phase()) ==> w.history().len() >= 1 && event_is_terminal(
            w.history().last(),
        ) && no_terminal_event(w.history().drop_last()),
{
    let h = w.history();
    if !phase_is_terminal(w.spec_phase()) {
        assert forall|i: int| 0 <= i < h.len() implies !event_is_terminal(#[trigger] h[i]) by {
            match w.spec_phase() {
                Phase::Created => {},
                Phase::Encoding => {
                    if 1 <= i < h.len() - 2 {
                        assert(h[i] is Progress);
                    }
                },
                _ => {
                    if 1 <= i < h.len() - 1 {
                        assert(h[i] is Progress);
                    }
                },
            }
        }
    }
}

/// Law: a run that completes reports its events in the machine's order -
/// `Prepare` first, then progress only, then `Stopping`, then `Encoding`,
/// then `Done` - with nothing reordered and nothing terminal before the
/// end.
pub proof fn lemma_done_run_shape(w: &ScanWorker)
    requires
        w.wf(),
        w.spec_phase() == Phase::Done,
    ensures
        w.history().len() >= 4,
        w.history()[0] == ScanState::Prepare,
        w.history().last() is Done,
        w.history()[w.history().len() - 2] == ScanState::Encoding,
        w.history()[w.history().len() - 3] == ScanState::Stopping,
        forall|i: int| 1 <= i < w.history().len() - 3 ==> #[trigger] w.history()[i] is Progress,
{
}

} // verus!
