//! The capture frame state machine: one screen-copy transaction, driven
//! entirely by inbound compositor notifications. The machine collects
//! buffer-format advertisements, selects the first supported one, and waits
//! for exactly one terminal notification — Ready or Failed. The dispatch
//! loop that actually talks to the compositor lives outside; it hands each
//! notification to the machine and reads the machine's state back.

use vstd::prelude::*;

use crate::convert::convert_inplace;
use crate::convert::convert_spec;
use crate::errors::CaptureError;
use crate::formats::ColorType;
use crate::formats::FrameDescription;
use crate::formats::format_from_raw_spec;
use crate::formats::FrameFormat;

verus! {

/// One notification delivered on the per-transaction frame object. A
/// buffer-format advertisement carries the compositor's wire code for the
/// layout, so that unknown codes can be represented and rejected rather
/// than aborting.
#[derive(Debug, Clone, Copy, PartialEq, Eq, Structural)]
pub enum FrameEvent {
    /// One buffer-format advertisement: wire code, dimensions, stride.
    Buffer { format: u32, width: u32, height: u32, stride: u32 },
    /// Informational; does not change state.
    Flags,
    /// Informational; does not change state.
    Damage,
    /// An advertisement for a memory type this engine does not use.
    Dmabuf,
    /// All formats have been announced; collection is over.
    BufferDone,
    /// Terminal: the copy succeeded.
    Ready,
    /// Terminal: the compositor could not copy.
    Failed,
}

/// Where one screen-copy transaction stands.
#[derive(Debug, Clone, Copy, PartialEq, Eq, Structural)]
pub enum CaptureState {
    /// The capture request is issued; format advertisements are arriving.
    Collecting,
    /// All formats are announced; a buffer must be chosen and the copy issued.
    FormatsDone,
    /// The copy is issued; waiting for the terminal notification.
    Awaiting,
    /// Terminal: the compositor reported success.
    Finished,
    /// Terminal: the compositor reported failure.
    Failed,
}

/// How one notification moves the transaction state: the end of format
/// collection leaves `Collecting`; a terminal notification leaves
/// `Awaiting`; nothing else changes state, and terminal states are final.
pub open spec fn step_state(s: CaptureState, e: FrameEvent) -> CaptureState {
    match s {
        CaptureState::Collecting => if e is BufferDone {
            CaptureState::FormatsDone
        } else {
            CaptureState::Collecting
        },
        CaptureState::FormatsDone => CaptureState::FormatsDone,
        CaptureState::Awaiting => if e is Ready {
            CaptureState::Finished
        } else if e is Failed {
            CaptureState::Failed
        } else {
            CaptureState::Awaiting
        },
        CaptureState::Finished => CaptureState::Finished,
        CaptureState::Failed => CaptureState::Failed,
    }
}

/// How one notification grows the list of collected descriptors: while
/// collecting, an advertisement whose wire code decodes to a supported
/// layout is appended in advertisement order; everything else leaves the
/// list as it is.
pub open spec fn step_formats(
    s: CaptureState,
    formats: Seq<FrameDescription>,
    e: FrameEvent,
) -> Seq<FrameDescription> {
    if s is Collecting {
        match e {
            FrameEvent::Buffer { format, width, height, stride } => {
                match format_from_raw_spec(format) {
                    Some(f) => formats.push(
                        FrameDescription { format: f, width, height, stride },
                    ),
                    None => formats,
                }
            },
            _ => formats,
        }
    } else {
        formats
    }
}

/// One screen-copy transaction: the current state, the supported
/// descriptors collected so far in advertisement order, and the descriptor
/// chosen for the copy once one is.
pub struct FrameStateMachine {
    pub state: CaptureState,
    pub formats: Vec<FrameDescription>,
    pub selected: Option<FrameDescription>,
}

impl FrameStateMachine {
    /// A fresh transaction, right after the capture request is issued.
    pub fn new() -> (m: FrameStateMachine)
        ensures
            m.state == CaptureState::Collecting,
            m.formats@ == Seq::<FrameDescription>::empty(),
            m.selected is None,
    {
        FrameStateMachine { state: CaptureState::Collecting, formats: Vec::new(), selected: None }
    }

    /// Feed one compositor notification to the machine.
    pub fn handle_event(&mut self, e: &FrameEvent)
        ensures
            final(self).state == step_state(old(self).state, *e),
            final(self).formats@ == step_formats(old(self).state, old(self).formats@, *e),
            final(self).selected == old(self).selected,
    {
        match self.state {
            CaptureState::Collecting => {
                match e {
                    FrameEvent::Buffer { format, width, height, stride } => {
                        match FrameFormat::from_wl_raw(*format) {
                            Some(f) => {
                                self.formats.push(
                                    FrameDescription {
                                        format: f,
                                        width: *width,
                                        height: *height,
                                        stride: *stride,
                                    },
                                );
                            },
                            None => {},
                        }
                    },
                    FrameEvent::BufferDone => {
                        self.state = CaptureState::FormatsDone;
                    },
                    _ => {},
                }
            },
            CaptureState::Awaiting => {
                match e {
                    FrameEvent::Ready => {
                        self.state = CaptureState::Finished;
                    },
                    FrameEvent::Failed => {
                        self.state = CaptureState::Failed;
                    },
                    _ => {},
                }
            },
            _ => {},
        }
    }

    /// Pick the first advertised descriptor whose layout is supported — a
    /// deliberate first-match-wins tie-break in advertisement order. With no
    /// supported advertisement the transaction fails as unsupported.
    pub fn select_format(&self) -> (r: Result<FrameDescription, CaptureError>)
        ensures
            self.formats@.len() > 0 ==> r == Result::<FrameDescription, CaptureError>::Ok(
                self.formats@[0],
            ),
            self.formats@.len() == 0 ==> r == Result::<FrameDescription, CaptureError>::Err(
                CaptureError::UnsupportedFormat,
            ),
    {
        if self.formats.len() > 0 {
            Ok(self.formats[0])
        } else {
            Err(CaptureError::UnsupportedFormat)
        }
    }

    /// Record that the copy request has been issued against the selected
    /// descriptor's buffer; the machine now awaits the terminal notification.
    pub fn copy_issued(&mut self)
        requires
            old(self).state == CaptureState::FormatsDone,
            old(self).formats@.len() > 0,
        ensures
            final(self).state == CaptureState::Awaiting,
            final(self).formats@ == old(self).formats@,
            final(self).selected == Some(old(self).formats@[0]),
    {
        let first = self.formats[0];
        self.selected = Some(first);
        self.state = CaptureState::Awaiting;
    }

    /// Has the transaction reached Finished or Failed?
    pub fn is_terminal(&self) -> (r: bool)
        ensures
            r == (self.state is Finished || self.state is Failed),
    {
        match self.state {
            CaptureState::Finished => true,
            CaptureState::Failed => true,
            _ => false,
        }
    }
}

/// The outcome of feeding a transcript of notifications to a transaction in
/// the given intermediate position. `None`: the transcript ran out before a
/// terminal notification — the dispatch loop must keep pumping. The copy is
/// issued the moment collection ends; with no supported advertisement the
/// transaction aborts as unsupported at that same moment.
pub open spec fn transaction_from(
    state: CaptureState,
    formats: Seq<FrameDescription>,
    selected: Option<FrameDescription>,
    events: Seq<FrameEvent>,
) -> Option<Result<FrameDescription, CaptureError>>
    decreases events.len(),
{
    if state is Finished {
        Some(Ok(selected->0))
    } else if state is Failed {
        Some(Err(CaptureError::CaptureFailed))
    } else if events.len() == 0 {
        None
    } else {
        let e = events.first();
        let rest = events.drop_first();
        let s2 = step_state(state, e);
        let f2 = step_formats(state, formats, e);
        if s2 is FormatsDone {
            if f2.len() == 0 {
                Some(Err(CaptureError::UnsupportedFormat))
            } else {
                transaction_from(CaptureState::Awaiting, f2, Some(f2[0]), rest)
            }
        } else {
            transaction_from(s2, f2, selected, rest)
        }
    }
}

/// The outcome of one whole screen-copy transaction on a transcript of
/// compositor notifications.
pub open spec fn transaction_spec(events: Seq<FrameEvent>) -> Option<
    Result<FrameDescription, CaptureError>,
> {
    transaction_from(CaptureState::Collecting, Seq::empty(), None, events)
}

/// Run one screen-copy transaction over a transcript of compositor
/// notifications: collect advertisements, select the first supported
/// descriptor when collection ends, then wait for the terminal
/// notification. `None` means the transcript ended with the transaction
/// still in flight; the error cases are an unsupported format set and a
/// compositor-reported copy failure.
pub fn drive_transaction(events: &Vec<FrameEvent>) -> (r: Option<
    Result<FrameDescription, CaptureError>,
>)
    ensures
        r == transaction_spec(events@),
{
    let mut m = FrameStateMachine::new();
    let n = events.len();
    proof {
        assert(events@.subrange(0, n as int) =~= events@);
    }
    let mut i: usize = 0;
    while i < n
        invariant
            n == events@.len(),
            i <= n,
            m.state is Collecting || m.state is Awaiting || m.state is Finished || m.state
                is Failed,
            m.state is Awaiting || m.state is Finished ==> m.selected is Some,
            transaction_spec(events@) == transaction_from(
                m.state,
                m.formats@,
                m.selected,
                events@.subrange(i as int, n as int),
            ),
        decreases n - i,
    {
        let ghost remaining = events@.subrange(i as int, n as int);
        m.handle_event(&events[i]);
        proof {
            assert(remaining.first() == events@[i as int]);
            assert(remaining.drop_first() == events@.subrange(i + 1, n as int));
        }
        if m.state == CaptureState::FormatsDone {
            match m.select_format() {
                Ok(_) => {
                    m.copy_issued();
                },
                Err(e) => {
                    return Some(Err(e));
                },
            }
        }
        i = i + 1;
    }
    proof {
        assert(events@.subrange(n as int, n as int).len() == 0);
    }
    match m.state {
        CaptureState::Finished => {
            match m.selected {
                Some(d) => Some(Ok(d)),
                None => None,  // unreachable: a finished transaction has a selection
            }
        },
        CaptureState::Failed => Some(Err(CaptureError::CaptureFailed)),
        _ => None,
    }
}

/// The captured frame: the descriptor the copy was made under, the
/// canonical color tag (always RGBA8 after conversion), and the pixel
/// bytes, `stride * height` of them.
#[derive(Debug)]
pub struct CapturedFrame {
    pub desc: FrameDescription,
    pub color: ColorType,
    pub data: Vec<u8>,
}

impl Clone for CapturedFrame {
    fn clone(&self) -> (r: CapturedFrame)
        ensures
            r.desc == self.desc,
            r.color == self.color,
            r.data@ == self.data@,
    {
        CapturedFrame { desc: self.desc, color: self.color, data: self.data.clone() }
    }
}

/// Finish a successful transaction: take the bytes the compositor wrote
/// into the shared buffer, normalize them to canonical RGBA8 in place, and
/// hand the frame over. The buffer must hold exactly `stride * height`
/// bytes and keeps that length.
pub fn finish_frame(desc: FrameDescription, data: Vec<u8>) -> (f: CapturedFrame)
    requires
        data@.len() == desc.byte_len(),
    ensures
        f.desc == desc,
        f.color == ColorType::Rgba8,
        f.data@ == convert_spec(desc.format, data@),
        f.data@.len() == desc.byte_len(),
{
    let mut bytes = data;
    let color = convert_inplace(desc.format, &mut bytes);
    CapturedFrame { desc, color, data: bytes }
}

/// Repeating the same capture transaction on a deterministic compositor —
/// one that answers the repeated request with the same notification
/// transcript — selects the same descriptor both times: the two captured
/// frames agree in width, height and format, and only their pixel contents
/// may differ with what is on screen.
pub proof fn lemma_capture_idempotent(
    events: Seq<FrameEvent>,
    d1: FrameDescription,
    d2: FrameDescription,
)
    requires
        transaction_spec(events) == Some(Result::<FrameDescription, CaptureError>::Ok(d1)),
        transaction_spec(events) == Some(Result::<FrameDescription, CaptureError>::Ok(d2)),
    ensures
        d1 == d2,
        d1.width == d2.width,
        d1.height == d2.height,
        d1.format == d2.format,
{
}

} // verus!
