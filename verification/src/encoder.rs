//! The frame-encoder pipeline: the decision core of the producer/consumer
//! pair that streams rendered frames into an external encoder subprocess.
//!
//! Two threads touch the pipeline: the render thread produces one frame per
//! export tick and offers it on a bounded channel of capacity
//! [`CHANNEL_CAPACITY`] (one frame); a dedicated encoder thread drains the
//! channel and writes each frame to the subprocess's standard input.  The
//! bounded channel is the backpressure contract: at most one frame is ever
//! buffered ahead of the encoder, whatever the relative speeds of the two
//! threads, so memory stays bounded ([`lemma_backpressure`]).  A producer
//! whose offer finds the channel full blocks (the host performs the blocking
//! send); it never queues further frames.
//!
//! Shutdown: closing the producer side is the sole shutdown signal.  The
//! consumer drains whatever is still in flight, observes the closed channel,
//! signals end-of-input to the subprocess exactly once, and stops
//! ([`FrameEncoderPipeline::drain_remaining`]).  No sentinel message is
//! needed, and no transition leads out of `Stopped`.
//!
//! This module holds the verified state machine; the host around it spawns
//! the thread and the subprocess and performs the actual channel operations
//! and writes, mirroring each with the matching transition here.

use vstd::prelude::*;

verus! {

/// Capacity of the bounded hand-off channel, in frames.  One is the
/// backpressure contract, not an incidental choice: an unbounded channel
/// would let memory grow without limit when the encoder falls behind.
pub const CHANNEL_CAPACITY: u64 = 1;

/// Phase of the pipeline.  `Idle` (export disabled) never starts a thread;
/// `Encoding` has the channel open and the consumer running; `Draining` has
/// the channel closed with final writes pending; `Stopped` has the consumer
/// finished.  No transition returns to `Encoding` once `Stopped`.
#[derive(Clone, Copy, Debug, PartialEq, Eq, Structural)]
pub enum EncoderPhase {
    Idle,
    Encoding,
    Draining,
    Stopped,
}

/// Outcome of offering a frame to the bounded channel.
#[derive(Clone, Copy, Debug, PartialEq, Eq, Structural)]
pub enum SendOutcome {
    /// The channel had room; the frame is now in flight.
    Accepted,
    /// The channel already holds an undrained frame; the producer must block
    /// until the consumer drains it.
    WouldBlock,
}

/// The verified state of the frame-encoder pipeline: its phase, the frame
/// geometry, and the conserved frame counts.
pub struct FrameEncoderPipeline {
    /// Current phase.
    pub phase: EncoderPhase,
    /// Size of one frame in bytes: `width * height * 4` (BGRA, four bytes
    /// per pixel, row-major, no padding).
    pub frame_size: u64,
    /// Frames currently buffered in the channel, at most `CHANNEL_CAPACITY`.
    pub in_flight: u64,
    /// Frames the producer has handed to the channel.
    pub frames_sent: u64,
    /// Frames the consumer has drained and written to the subprocess.
    pub frames_written: u64,
    /// Number of end-of-input signals given to the subprocess; exactly one
    /// once stopped.
    pub eof_signals: u64,
}

impl FrameEncoderPipeline {
    /// Invariant of the pipeline: the channel never buffers more than its
    /// capacity, every sent frame is either written or still in flight (so
    /// frames reach the subprocess in production order, counted), and
    /// end-of-input is signalled exactly at the transition to `Stopped`.
    pub open spec fn wf(self) -> bool {
        &&& self.in_flight <= CHANNEL_CAPACITY
        &&& self.frames_sent == self.frames_written + self.in_flight
        &&& (self.phase == EncoderPhase::Idle ==> self.frames_sent == 0 && self.eof_signals == 0)
        &&& (self.phase == EncoderPhase::Encoding ==> self.eof_signals == 0)
        &&& (self.phase == EncoderPhase::Draining ==> self.eof_signals == 0)
        &&& (self.phase == EncoderPhase::Stopped ==> self.in_flight == 0 && self.eof_signals == 1)
    }

    /// A pipeline with export disabled: nothing is ever constructed or sent.
    pub fn idle() -> (p: FrameEncoderPipeline)
        ensures
            p.wf(),
            p.phase == EncoderPhase::Idle,
            p.frames_sent == 0,
            p.frames_written == 0,
            p.in_flight == 0,
    {
        FrameEncoderPipeline {
            phase: EncoderPhase::Idle,
            frame_size: 0,
            in_flight: 0,
            frames_sent: 0,
            frames_written: 0,
            eof_signals: 0,
        }
    }

    /// Starts the pipeline for frames of the given resolution: the channel
    /// is open and the consumer thread is considered running.
    pub fn start(width: u32, height: u32) -> (p: FrameEncoderPipeline)
        requires
            1 <= width <= 0xffff,
            1 <= height <= 0xffff,
        ensures
            p.wf(),
            p.phase == EncoderPhase::Encoding,
            p.frame_size == 4 * (width as u64) * (height as u64),
            p.frames_sent == 0,
            p.frames_written == 0,
            p.in_flight == 0,
    {
        proof {
            assert(4 * (width as int) * (height as int) <= 0x4_0000_0000) by (nonlinear_arith)
                requires
                    1 <= width <= 0xffff,
                    1 <= height <= 0xffff,
            ;
        }
        FrameEncoderPipeline {
            phase: EncoderPhase::Encoding,
            frame_size: 4 * (width as u64) * (height as u64),
            in_flight: 0,
            frames_sent: 0,
            frames_written: 0,
            eof_signals: 0,
        }
    }

    /// Whether a pixel buffer of `len` bytes is exactly one frame.
    pub fn frame_fits(&self, len: u64) -> (b: bool)
        ensures
            b <==> len == self.frame_size,
    {
        len == self.frame_size
    }

    /// The producer offers one frame to the channel.  If the previous frame
    /// has not been drained the offer reports `WouldBlock` and nothing
    /// changes: the host's send blocks the render thread until the consumer
    /// catches up, and the offer is repeated after a drain.  The channel
    /// therefore never holds more than one frame.
    pub fn try_send(&mut self) -> (r: SendOutcome)
        requires
            old(self).wf(),
            old(self).phase == EncoderPhase::Encoding,
            old(self).frames_sent < 0xffff_ffff_ffff_ffff,
        ensures
            final(self).wf(),
            final(self).phase == EncoderPhase::Encoding,
            final(self).frame_size == old(self).frame_size,
            final(self).frames_written == old(self).frames_written,
            final(self).eof_signals == old(self).eof_signals,
            old(self).in_flight == 0 ==> r == SendOutcome::Accepted && final(self).in_flight == 1
                && final(self).frames_sent == old(self).frames_sent + 1,
            old(self).in_flight >= 1 ==> r == SendOutcome::WouldBlock && final(self).in_flight
                == old(self).in_flight && final(self).frames_sent == old(self).frames_sent,
    {
        if self.in_flight == 0 {
            self.in_flight = 1;
            self.frames_sent = self.frames_sent + 1;
            SendOutcome::Accepted
        } else {
            SendOutcome::WouldBlock
        }
    }

    /// The consumer drains one frame from the channel and writes all its
    /// bytes to the subprocess's standard input.
    pub fn note_frame_drained(&mut self)
        requires
            old(self).wf(),
            old(self).in_flight >= 1,
            old(self).phase == EncoderPhase::Encoding || old(self).phase
                == EncoderPhase::Draining,
        ensures
            final(self).wf(),
            final(self).phase == old(self).phase,
            final(self).frame_size == old(self).frame_size,
            final(self).in_flight == old(self).in_flight - 1,
            final(self).frames_written == old(self).frames_written + 1,
            final(self).frames_sent == old(self).frames_sent,
            final(self).eof_signals == old(self).eof_signals,
    {
        self.in_flight = self.in_flight - 1;
        self.frames_written = self.frames_written + 1;
    }

    /// The producer closes its end of the channel: the sole shutdown signal.
    /// No frame can be offered from here on.
    pub fn close(&mut self)
        requires
            old(self).wf(),
            old(self).phase == EncoderPhase::Encoding,
        ensures
            final(self).wf(),
            final(self).phase == EncoderPhase::Draining,
            final(self).frame_size == old(self).frame_size,
            final(self).in_flight == old(self).in_flight,
            final(self).frames_sent == old(self).frames_sent,
            final(self).frames_written == old(self).frames_written,
            final(self).eof_signals == old(self).eof_signals,
    {
        self.phase = EncoderPhase::Draining;
    }

    /// The consumer observes the closed, empty channel, flushes and closes
    /// the subprocess's input exactly once, and stops.
    pub fn observe_closed(&mut self)
        requires
            old(self).wf(),
            old(self).phase == EncoderPhase::Draining,
            old(self).in_flight == 0,
        ensures
            final(self).wf(),
            final(self).phase == EncoderPhase::Stopped,
            final(self).frame_size == old(self).frame_size,
            final(self).frames_sent == old(self).frames_sent,
            final(self).frames_written == old(self).frames_written,
            final(self).eof_signals == 1,
    {
        self.eof_signals = 1;
        self.phase = EncoderPhase::Stopped;
    }

    /// Shutdown law: once the producer has closed the channel, the consumer
    /// reaches `Stopped` with no further frames offered — it drains whatever
    /// is still in flight (at most one frame), then signals end-of-input
    /// exactly once.  Every frame that was ever sent has then been written,
    /// in order.
    pub fn drain_remaining(&mut self)
        requires
            old(self).wf(),
            old(self).phase == EncoderPhase::Draining,
        ensures
            final(self).wf(),
            final(self).phase == EncoderPhase::Stopped,
            final(self).frame_size == old(self).frame_size,
            final(self).frames_sent == old(self).frames_sent,
            final(self).frames_written == old(self).frames_sent,
            final(self).eof_signals == 1,
    {
        while self.in_flight > 0
            invariant
                self.wf(),
                self.phase == EncoderPhase::Draining,
                self.frame_size == old(self).frame_size,
                self.frames_sent == old(self).frames_sent,
            decreases self.in_flight,
        {
            self.note_frame_drained();
        }
        self.observe_closed();
    }
}

/// Backpressure law: in every reachable pipeline state the channel buffers
/// at most one frame, so the producer can never run more than one frame
/// ahead of the encoder, regardless of their relative speeds.
pub proof fn lemma_backpressure(p: FrameEncoderPipeline)
    requires
        p.wf(),
    ensures
        p.in_flight <= 1,
        p.frames_sent - p.frames_written <= 1,
{
}

/// Shutdown law: a stopped pipeline has signalled end-of-input to the
/// subprocess exactly once, and every frame sent was written.
pub proof fn lemma_stopped_is_complete(p: FrameEncoderPipeline)
    requires
        p.wf(),
        p.phase == EncoderPhase::Stopped,
    ensures
        p.eof_signals == 1,
        p.frames_written == p.frames_sent,
{
}

} // verus!
