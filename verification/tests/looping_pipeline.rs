use video_wallpaper::channel::{FrameChannel, PollResult};
use video_wallpaper::frame::{DisplayFrame, PixelFormat};
use video_wallpaper::present::{Presenter, TickAction};
use video_wallpaper::scaler::Scaler;
use video_wallpaper::stream::{describe_best_stream, MediaType, StreamInfo};
use video_wallpaper::worker::{DecodeWorker, WorkerEvent, WorkerStep};

const CLIP_FRAMES: usize = 20; // a 2-second clip at 10 fps

/// The synthetic clip: frame `n` is a solid, frame-numbered color.
fn solid_color_bytes(n: usize) -> Vec<u8> {
    let b = (n * 12) as u8;
    let g = (n * 7) as u8;
    let r = (n * 3) as u8;
    let mut data = Vec::with_capacity(100 * 100 * 4);
    for _ in 0..(100 * 100) {
        data.push(b);
        data.push(g);
        data.push(r);
        data.push(255);
    }
    data
}

/// One loop iteration of the decode worker over the synthetic clip: each
/// packet decodes to one picture, scaled to 100 x 100 BGRA; at the end of
/// the stream the worker asks for the seek that restarts playback.
fn run_one_loop_iteration(
    worker: &mut DecodeWorker,
    scaler: &Scaler,
    channel: &mut FrameChannel,
) {
    for n in 0..CLIP_FRAMES {
        match worker.step(WorkerEvent::Packet { stream_index: 0 }) {
            WorkerStep::DecodePacket { publish } => {
                if let Some(f) = publish {
                    assert!(channel.send(f));
                }
                let scaled = scaler.wrap_output(solid_color_bytes(n)).unwrap();
                worker.adopt_frame(scaled);
            }
            other => panic!("unexpected step: {:?}", other),
        }
    }
    assert_eq!(
        worker.step(WorkerEvent::EndOfStream),
        WorkerStep::SeekToStart { timestamp: 0 }
    );
}

#[test]
fn two_second_clip_yields_twenty_distinct_frames_per_loop_and_repeats() {
    let streams = vec![StreamInfo {
        media_type: MediaType::Video,
        score: 100,
        frame_rate_num: 10,
        frame_rate_den: 1,
        width: 320,
        height: 240,
        format: PixelFormat::Rgb24,
    }];
    let descriptor = describe_best_stream(&streams).unwrap();
    assert_eq!(descriptor.frame_duration_millis(), 100);

    let scaler = Scaler::for_display(&descriptor, PixelFormat::Bgra, 100, 100, true).unwrap();
    let mut worker = DecodeWorker::new(&descriptor, &scaler);
    let mut channel = FrameChannel::new();
    let mut presenter = Presenter::new(100, 100, PixelFormat::Bgra);

    // a consumer fast enough to see every frame: drain after every packet
    let mut displayed: Vec<DisplayFrame> = Vec::new();
    for _ in 0..3 {
        for n in 0..CLIP_FRAMES {
            match worker.step(WorkerEvent::Packet { stream_index: 0 }) {
                WorkerStep::DecodePacket { publish } => {
                    if let Some(f) = publish {
                        assert!(channel.send(f));
                    }
                    let scaled = scaler.wrap_output(solid_color_bytes(n)).unwrap();
                    worker.adopt_frame(scaled);
                }
                other => panic!("unexpected step: {:?}", other),
            }
            match channel.try_recv() {
                PollResult::Frame(f) => {
                    let action = presenter.tick(PollResult::Frame(f));
                    assert_eq!(action, TickAction::AdoptAndDraw);
                    displayed.push(presenter.current.clone().unwrap());
                }
                PollResult::Empty => {
                    // only before the very first published frame
                    assert!(displayed.is_empty());
                }
                PollResult::Disconnected => panic!("producer still alive"),
            }
        }
        assert_eq!(
            worker.step(WorkerEvent::EndOfStream),
            WorkerStep::SeekToStart { timestamp: 0 }
        );
    }

    // publication trails decode by one packet, so three loop iterations have
    // shown at least two full clips
    assert!(displayed.len() >= 2 * CLIP_FRAMES);

    // each loop iteration shows twenty distinct frames, each the expected
    // solid color, and the sequence repeats identically after frame twenty
    for (k, shown) in displayed.iter().enumerate() {
        let expected = solid_color_bytes(k % CLIP_FRAMES);
        assert_eq!(shown.data, expected);
        assert_eq!(shown.buffer_len(), 100 * 100 * 4);
    }
    for k in 0..CLIP_FRAMES {
        assert_eq!(displayed[k], displayed[k + CLIP_FRAMES]);
        for j in 0..k {
            assert_ne!(displayed[j], displayed[k]);
        }
    }
}

#[test]
fn frame_after_a_full_loop_equals_the_first_frame() {
    let streams = vec![StreamInfo {
        media_type: MediaType::Video,
        score: 1,
        frame_rate_num: 10,
        frame_rate_den: 1,
        width: 320,
        height: 240,
        format: PixelFormat::Rgb24,
    }];
    let descriptor = describe_best_stream(&streams).unwrap();
    let scaler = Scaler::for_display(&descriptor, PixelFormat::Bgra, 100, 100, true).unwrap();
    let mut worker = DecodeWorker::new(&descriptor, &scaler);
    let mut channel = FrameChannel::new();

    run_one_loop_iteration(&mut worker, &scaler, &mut channel);
    // after the seek, packet reads resume from timestamp zero: the next
    // decoded picture is the clip's frame zero again
    let first_of_restart = match worker.step(WorkerEvent::Packet { stream_index: 0 }) {
        WorkerStep::DecodePacket { .. } => scaler.wrap_output(solid_color_bytes(0)).unwrap(),
        other => panic!("unexpected step: {:?}", other),
    };
    assert_eq!(first_of_restart.data, solid_color_bytes(0));
    drop(channel);
}
