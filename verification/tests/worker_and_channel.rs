use video_wallpaper::channel::{FrameChannel, PollResult};
use video_wallpaper::error::PipelineError;
use video_wallpaper::frame::{DisplayFrame, PixelFormat};
use video_wallpaper::scaler::{Scaler, ScalerConfig};
use video_wallpaper::stream::StreamDescriptor;
use video_wallpaper::worker::{DecodeWorker, WorkerEvent, WorkerStep};

fn session_worker() -> DecodeWorker {
    let descriptor = StreamDescriptor {
        stream_index: 1,
        frame_rate_num: 10,
        frame_rate_den: 1,
        width: 640,
        height: 480,
        format: PixelFormat::Rgb24,
    };
    let scaler = Scaler::new(ScalerConfig {
        src_format: PixelFormat::Rgb24,
        src_width: 640,
        src_height: 480,
        dst_format: PixelFormat::Bgra,
        dst_width: 2,
        dst_height: 2,
        bilinear: true,
    })
    .unwrap();
    DecodeWorker::new(&descriptor, &scaler)
}

fn frame(fill: u8) -> DisplayFrame {
    DisplayFrame::from_buffer(2, 2, PixelFormat::Bgra, vec![fill; 16]).unwrap()
}

#[test]
fn foreign_packets_are_skipped_untouched() {
    let mut w = session_worker();
    w.adopt_frame(frame(1));
    let step = w.step(WorkerEvent::Packet { stream_index: 0 });
    assert_eq!(step, WorkerStep::SkipPacket);
    assert_eq!(w.pending, Some(frame(1)));
}

#[test]
fn own_packet_publishes_the_retained_frame_first() {
    let mut w = session_worker();
    w.adopt_frame(frame(1));
    let step = w.step(WorkerEvent::Packet { stream_index: 1 });
    assert_eq!(step, WorkerStep::DecodePacket { publish: Some(frame(1)) });
    assert_eq!(w.pending, None);
}

#[test]
fn first_packet_has_nothing_to_publish() {
    let mut w = session_worker();
    let step = w.step(WorkerEvent::Packet { stream_index: 1 });
    assert_eq!(step, WorkerStep::DecodePacket { publish: None });
}

#[test]
fn later_pictures_of_a_packet_supersede_earlier_ones() {
    let mut w = session_worker();
    w.adopt_frame(frame(1));
    w.adopt_frame(frame(2));
    w.adopt_frame(frame(3));
    let step = w.step(WorkerEvent::Packet { stream_index: 1 });
    assert_eq!(step, WorkerStep::DecodePacket { publish: Some(frame(3)) });
}

#[test]
fn end_of_stream_seeks_back_to_timestamp_zero() {
    let mut w = session_worker();
    w.adopt_frame(frame(9));
    let step = w.step(WorkerEvent::EndOfStream);
    assert_eq!(step, WorkerStep::SeekToStart { timestamp: 0 });
    // the retained frame survives the restart
    assert_eq!(w.pending, Some(frame(9)));
}

#[test]
fn decode_failure_aborts_with_a_decode_error() {
    let mut w = session_worker();
    let step = w.step(WorkerEvent::DecodeFailed);
    assert_eq!(
        step,
        WorkerStep::Abort { error: PipelineError::DecodeFailure }
    );
}

#[test]
fn channel_send_supersedes_the_pending_frame() {
    let mut c = FrameChannel::new();
    assert!(c.send(frame(1)));
    assert!(c.send(frame(2)));
    assert_eq!(c.try_recv(), PollResult::Frame(frame(2)));
    assert_eq!(c.try_recv(), PollResult::Empty);
}

#[test]
fn empty_connected_channel_polls_empty_at_once() {
    let mut c = FrameChannel::new();
    assert_eq!(c.try_recv(), PollResult::Empty);
}

#[test]
fn disconnect_delivers_the_pending_frame_before_the_signal() {
    let mut c = FrameChannel::new();
    assert!(c.send(frame(5)));
    c.disconnect();
    assert!(!c.send(frame(6)));
    assert_eq!(c.try_recv(), PollResult::Frame(frame(5)));
    assert_eq!(c.try_recv(), PollResult::Disconnected);
    assert_eq!(c.try_recv(), PollResult::Disconnected);
}
