//! Collecting the bytes a device sends, one at a time, into complete frames.
//!
//! A frame is a System Exclusive message: it opens with the start marker,
//! closes with the end marker, and both markers belong to it. The assembler
//! is either idle or buffering. The start marker always opens a new frame,
//! dropping whatever was collected before; the end marker closes the frame
//! and hands it out; any other byte is collected while a frame is open and
//! refused while none is.

use vstd::prelude::*;
use crate::error::{RytmObjectError, RytmObjectErrorView};

verus! {

/// The byte that opens a frame.
pub const SYSEX_START: u8 = 0xF0;

/// The byte that closes a frame.
pub const SYSEX_END: u8 = 0xF7;

/// The sentence for a byte that arrives outside a frame.
pub open spec fn outside_frame_text() -> Seq<char> {
    "Invalid input: Rytm only understands SysEx messages. Please connect sysexin object to the Rytm inlet."@
}

/// The state of an assembler: whether a frame is open, and the bytes of it
/// collected so far.
pub struct FrameState {
    pub buffering: bool,
    pub buffer: Seq<u8>,
}

/// What one byte does to an assembler.
pub enum FrameEvent {
    /// The byte was collected; the frame is still open.
    Collected,
    /// The byte closed the frame, which is handed out.
    Complete(Seq<u8>),
    /// The byte arrived outside a frame and was refused.
    Refused,
}

impl FrameState {
    /// The state of an assembler that has seen nothing.
    pub open spec fn idle() -> FrameState {
        FrameState { buffering: false, buffer: seq![] }
    }

    /// The states an assembler can be in: nothing is kept while idle, and an
    /// open frame begins with the start marker and holds no marker after
    /// it.
    pub open spec fn valid(self) -> bool {
        if self.buffering {
            &&& self.buffer.len() > 0
            &&& self.buffer[0] == SYSEX_START
            &&& forall|i: int| 0 < i < self.buffer.len() ==> self.buffer[i] != SYSEX_START && self.buffer[i] != SYSEX_END
        } else {
            self.buffer.len() == 0
        }
    }

    /// The state after one byte, and what the byte did.
    pub open spec fn step(self, byte: u8) -> (FrameState, FrameEvent) {
        if byte == SYSEX_START {
            (FrameState { buffering: true, buffer: seq![byte] }, FrameEvent::Collected)
        } else if !self.buffering {
            (self, FrameEvent::Refused)
        } else if byte == SYSEX_END {
            (FrameState::idle(), FrameEvent::Complete(self.buffer.push(byte)))
        } else {
            (FrameState { buffering: true, buffer: self.buffer.push(byte) }, FrameEvent::Collected)
        }
    }

    /// The state after a run of bytes.
    pub open spec fn after(self, bytes: Seq<u8>) -> FrameState
        decreases bytes.len(),
    {
        if bytes.len() == 0 {
            self
        } else {
            self.after(bytes.drop_last()).step(bytes.last()).0
        }
    }

    /// The frames handed out during a run of bytes, in order.
    pub open spec fn frames(self, bytes: Seq<u8>) -> Seq<Seq<u8>>
        decreases bytes.len(),
    {
        if bytes.len() == 0 {
            seq![]
        } else {
            let before = self.frames(bytes.drop_last());
            match self.after(bytes.drop_last()).step(bytes.last()).1 {
                FrameEvent::Complete(frame) => before.push(frame),
                _ => before,
            }
        }
    }

    /// Every step leads from a state an assembler can be in to another.
    pub proof fn step_keeps_valid(self, byte: u8)
        requires
            self.valid(),
        ensures
            self.step(byte).0.valid(),
    {
    }

    /// A start marker followed by bytes that are no markers leaves the frame
    /// open with exactly those bytes in it, whatever was collected before,
    /// and hands nothing out.
    pub proof fn start_restarts(self, body: Seq<u8>)
        requires
            forall|i: int| 0 <= i < body.len() ==> body[i] != SYSEX_START && body[i] != SYSEX_END,
        ensures
            self.after(seq![SYSEX_START] + body) == (FrameState {
                buffering: true,
                buffer: seq![SYSEX_START] + body,
            }),
            self.frames(seq![SYSEX_START] + body) == Seq::<Seq<u8>>::empty(),
        decreases body.len(),
    {
        let bytes = seq![SYSEX_START] + body;
        if body.len() == 0 {
            assert(self.frames(bytes.drop_last()) =~= seq![]);
        } else {
            self.start_restarts(body.drop_last());
            assert(bytes.drop_last() =~= seq![SYSEX_START] + body.drop_last());
            assert((seq![SYSEX_START] + body.drop_last()).push(body.last()) =~= bytes);
        }
    }

    /// A whole frame is handed out as it came: after a start marker, bytes
    /// that are no markers and an end marker, the assembler is idle again
    /// and has handed out exactly one frame, made of exactly those bytes
    /// with both markers. This holds from every state, so a start marker in
    /// the middle of an open frame drops what came before it.
    pub proof fn whole_frame_is_handed_out(self, body: Seq<u8>)
        requires
            forall|i: int| 0 <= i < body.len() ==> body[i] != SYSEX_START && body[i] != SYSEX_END,
        ensures
            self.after(seq![SYSEX_START] + body + seq![SYSEX_END]) == FrameState::idle(),
            self.frames(seq![SYSEX_START] + body + seq![SYSEX_END]) == seq![
                seq![SYSEX_START] + body + seq![SYSEX_END],
            ],
    {
        let open = seq![SYSEX_START] + body;
        let bytes = open + seq![SYSEX_END];
        self.start_restarts(body);
        assert(bytes.drop_last() =~= open);
        assert(open.push(SYSEX_END) =~= bytes);
    }
}

/// Collects bytes into frames.
pub struct FrameAssembler {
    buffer: Vec<u8>,
    buffering: bool,
}

impl View for FrameAssembler {
    type V = FrameState;

    closed spec fn view(&self) -> FrameState {
        FrameState { buffering: self.buffering, buffer: self.buffer@ }
    }
}

impl FrameAssembler {
    /// An assembler that has seen nothing.
    pub fn new() -> (r: FrameAssembler)
        ensures
            r@ == FrameState::idle(),
            r@.valid(),
    {
        FrameAssembler { buffer: Vec::new(), buffering: false }
    }

    /// Whether a frame is open.
    pub fn is_buffering(&self) -> (r: bool)
        ensures
            r == self@.buffering,
    {
        self.buffering
    }

    /// Takes one byte. A byte that closes a frame hands the frame out; a
    /// byte outside a frame is an error and changes nothing. The state stays
    /// among those an assembler can be in.
    pub fn handle_sysex_byte(&mut self, byte: u8) -> (r: Result<Option<Vec<u8>>, RytmObjectError>)
        ensures
            final(self)@ == old(self)@.step(byte).0,
            old(self)@.valid() ==> final(self)@.valid(),
            match old(self)@.step(byte).1 {
                FrameEvent::Collected => r matches Ok(None),
                FrameEvent::Complete(frame) => r matches Ok(Some(v)) && v@ == frame,
                FrameEvent::Refused => r matches Err(e) && e@ == RytmObjectErrorView::Custom(
                    outside_frame_text(),
                ),
            },
    {
        proof {
            if old(self)@.valid() {
                old(self)@.step_keeps_valid(byte);
            }
        }
        if byte != SYSEX_START && !self.buffering {
            return Err(
                RytmObjectError::Custom(
                    "Invalid input: Rytm only understands SysEx messages. Please connect sysexin object to the Rytm inlet.".to_owned(),
                ),
            );
        }
        if byte == SYSEX_START {
            self.buffering = true;
            self.buffer.clear();
        }
        self.buffer.push(byte);
        if byte == SYSEX_END {
            self.buffering = false;
            let mut frame: Vec<u8> = Vec::new();
            std::mem::swap(&mut frame, &mut self.buffer);
            return Ok(Some(frame));
        }
        Ok(None)
    }
}

} // verus!
