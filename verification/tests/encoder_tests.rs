use falling_petals::encoder::{EncoderPhase, FrameEncoderPipeline, SendOutcome};

#[test]
fn start_computes_the_frame_size() {
    let p = FrameEncoderPipeline::start(1280, 720);
    assert_eq!(p.frame_size, 1280 * 720 * 4);
    assert_eq!(p.phase, EncoderPhase::Encoding);
    assert!(p.frame_fits(3_686_400));
    assert!(!p.frame_fits(3_686_399));
}

#[test]
fn idle_pipeline_never_sent_anything() {
    let p = FrameEncoderPipeline::idle();
    assert_eq!(p.phase, EncoderPhase::Idle);
    assert_eq!(p.frames_sent, 0);
    assert_eq!(p.in_flight, 0);
}

#[test]
fn backpressure_keeps_at_most_one_frame_in_flight() {
    // A producer races 100 frames ahead of a consumer that drains only one
    // frame every three offers.  Every offer beyond the first must block
    // until the consumer catches up; at no point is more than one frame
    // buffered.
    let mut p = FrameEncoderPipeline::start(64, 64);
    let mut produced: u64 = 0;
    let mut blocked: u64 = 0;
    let mut ticks: u64 = 0;
    while produced < 100 {
        match p.try_send() {
            SendOutcome::Accepted => produced += 1,
            SendOutcome::WouldBlock => blocked += 1,
        }
        assert!(p.in_flight <= 1);
        assert!(p.frames_sent - p.frames_written <= 1);
        ticks += 1;
        if ticks % 3 == 0 && p.in_flight > 0 {
            p.note_frame_drained();
        }
        assert!(p.in_flight <= 1);
    }
    // The slow consumer forced the producer to block, rather than queue.
    assert!(blocked > 0);
    assert_eq!(p.frames_sent, 100);
}

#[test]
fn send_blocks_only_while_a_frame_is_buffered() {
    let mut p = FrameEncoderPipeline::start(2, 2);
    assert_eq!(p.try_send(), SendOutcome::Accepted);
    assert_eq!(p.try_send(), SendOutcome::WouldBlock);
    assert_eq!(p.try_send(), SendOutcome::WouldBlock);
    p.note_frame_drained();
    assert_eq!(p.try_send(), SendOutcome::Accepted);
}

#[test]
fn closing_and_draining_stops_without_further_sends() {
    // Shutdown: the producer closes with one frame still in flight.  The
    // consumer finishes from the closed channel alone: no further message
    // is needed, every sent frame is written, and end-of-input is signalled
    // exactly once.
    let mut p = FrameEncoderPipeline::start(8, 8);
    assert_eq!(p.try_send(), SendOutcome::Accepted);
    p.close();
    assert_eq!(p.phase, EncoderPhase::Draining);
    p.drain_remaining();
    assert_eq!(p.phase, EncoderPhase::Stopped);
    assert_eq!(p.frames_written, p.frames_sent);
    assert_eq!(p.eof_signals, 1);
}

#[test]
fn closing_an_empty_channel_stops_immediately() {
    let mut p = FrameEncoderPipeline::start(8, 8);
    p.close();
    p.drain_remaining();
    assert_eq!(p.phase, EncoderPhase::Stopped);
    assert_eq!(p.frames_sent, 0);
    assert_eq!(p.frames_written, 0);
    assert_eq!(p.eof_signals, 1);
}

#[test]
fn frames_are_counted_in_order() {
    let mut p = FrameEncoderPipeline::start(4, 4);
    for i in 0..10u64 {
        assert_eq!(p.try_send(), SendOutcome::Accepted);
        assert_eq!(p.frames_sent, i + 1);
        p.note_frame_drained();
        assert_eq!(p.frames_written, i + 1);
    }
    p.close();
    p.drain_remaining();
    assert_eq!(p.frames_written, 10);
}
