use discord_recorder::capture::{
    rest_after_capture, CaptureFrame, CaptureStep, FrameQueue, Rgba, ScreenCapture,
};
use discord_recorder::webcam::{sorted_resolutions, WebcamCapture, WebcamOverlay};

fn frame(tag: u8) -> CaptureFrame {
    CaptureFrame::filled(2, 2, Rgba { r: tag, g: 0, b: 0, a: 255 })
}

fn tag_of(frame: &CaptureFrame) -> u8 {
    frame.pixels[0].r
}

#[test]
fn filled_frame_has_one_pixel_per_position() {
    let f = CaptureFrame::filled(3, 2, Rgba { r: 1, g: 2, b: 3, a: 4 });
    assert_eq!(f.width, 3);
    assert_eq!(f.height, 2);
    assert_eq!(f.pixels.len(), 6);
    assert!(f.pixels.iter().all(|p| *p == Rgba { r: 1, g: 2, b: 3, a: 4 }));
    assert_eq!(CaptureFrame::filled(0, 5, Rgba { r: 0, g: 0, b: 0, a: 0 }).pixels.len(), 0);
}

#[test]
fn unpolled_queue_keeps_the_first_two_frames() {
    let mut queue = FrameQueue::new();
    let mut accepted = Vec::new();
    for tag in 0..7u8 {
        accepted.push(queue.publish(frame(tag)));
    }
    assert_eq!(accepted, vec![true, true, false, false, false, false, false]);
    assert_eq!(queue.get_latest_frame().map(|f| tag_of(&f)), Some(0));
    assert_eq!(queue.get_latest_frame().map(|f| tag_of(&f)), Some(1));
    assert!(queue.get_latest_frame().is_none());
    assert!(queue.get_latest_frame().is_none());
}

#[test]
fn polled_queue_takes_new_frames() {
    let mut queue = FrameQueue::new();
    assert!(queue.get_latest_frame().is_none());
    assert!(queue.publish(frame(1)));
    assert!(queue.publish(frame(2)));
    assert!(!queue.publish(frame(3)));
    assert_eq!(queue.get_latest_frame().map(|f| tag_of(&f)), Some(1));
    assert!(queue.publish(frame(4)));
    assert!(!queue.publish(frame(5)));
    assert_eq!(queue.get_latest_frame().map(|f| tag_of(&f)), Some(2));
    assert_eq!(queue.get_latest_frame().map(|f| tag_of(&f)), Some(4));
    assert!(queue.get_latest_frame().is_none());
}

#[test]
fn queue_capacity_is_checked() {
    assert!(FrameQueue::with_capacity(0).is_none());
    assert!(FrameQueue::with_capacity(1025).is_none());
    let mut one = FrameQueue::with_capacity(1).unwrap();
    assert!(one.publish(frame(9)));
    assert!(!one.publish(frame(8)));
    assert_eq!(one.get_latest_frame().map(|f| tag_of(&f)), Some(9));
    let mut many = FrameQueue::with_capacity(1024).unwrap();
    for tag in 0..5u8 {
        assert!(many.publish(frame(tag)));
    }
    for tag in 0..5u8 {
        assert_eq!(many.get_latest_frame().map(|f| tag_of(&f)), Some(tag));
    }
}

#[test]
fn screen_source_obeys_its_flag() {
    let mut source = ScreenCapture::new(3);
    assert_eq!(source.screen_index, 3);
    assert!(!source.is_running());
    assert_eq!(source.next_step(1000), CaptureStep::Exit);
    assert!(!source.publish(frame(1)));
    assert!(source.get_latest_frame().is_none());
    assert!(source.start());
    assert!(!source.start());
    assert!(source.is_running());
    assert_eq!(source.next_step(0), CaptureStep::Rest);
    assert_eq!(source.next_step(32), CaptureStep::Rest);
    assert_eq!(source.next_step(33), CaptureStep::Capture);
    assert_eq!(source.next_step(34), CaptureStep::Capture);
    assert!(source.publish(frame(1)));
    assert!(source.publish(frame(2)));
    assert!(!source.publish(frame(3)));
    assert!(source.stop());
    assert!(!source.stop());
    assert_eq!(source.next_step(33), CaptureStep::Exit);
    assert_eq!(source.get_latest_frame().map(|f| tag_of(&f)), Some(1));
    assert_eq!(source.get_latest_frame().map(|f| tag_of(&f)), Some(2));
    assert!(source.get_latest_frame().is_none());
    assert_eq!(rest_after_capture(true), 0);
    assert_eq!(rest_after_capture(false), 100);
}

#[test]
fn webcam_source_obeys_its_flag() {
    let mut source = WebcamCapture::new(1);
    assert_eq!(source.camera_index, 1);
    assert_eq!(source.get_resolution(), (640, 480));
    source.set_resolution(1280, 720);
    assert_eq!(source.get_resolution(), (1280, 720));
    assert!(!source.is_running());
    assert!(!source.publish(frame(1)));
    assert!(source.start());
    assert!(source.is_running());
    for tag in 0..4u8 {
        assert_eq!(source.publish(frame(tag)), tag < 2);
    }
    assert!(source.stop());
    assert!(!source.is_running());
    assert_eq!(source.get_latest_frame().map(|f| tag_of(&f)), Some(0));
    assert_eq!(source.get_latest_frame().map(|f| tag_of(&f)), Some(1));
    assert!(source.get_latest_frame().is_none());
}

#[test]
fn resolutions_are_sorted_and_unique() {
    let source = WebcamCapture::new(0);
    assert_eq!(source.get_available_resolutions(None), vec![(640, 480), (1280, 720), (1920, 1080)]);
    let formats = vec![(1280, 720), (640, 480), (1280, 720), (640, 360), (1920, 1080), (640, 480), (320, 240)];
    assert_eq!(
        source.get_available_resolutions(Some(formats.clone())),
        vec![(320, 240), (640, 360), (640, 480), (1280, 720), (1920, 1080)]
    );
    assert_eq!(sorted_resolutions(&formats).len(), 5);
    assert_eq!(sorted_resolutions(&vec![]), vec![]);
}

#[test]
fn overlay_setters_and_getters() {
    let mut overlay = WebcamOverlay::new(40, 40, 320, 180);
    assert_eq!(overlay.get_position(), (40, 40));
    assert_eq!(overlay.get_size(), (320, 180));
    assert_eq!(overlay.border_color, Rgba { r: 88, g: 101, b: 242, a: 255 });
    assert_eq!(overlay.border_width, 2);
    overlay.set_position(1, 2);
    overlay.set_size(3, 4);
    overlay.set_border_color(5, 6, 7, 8);
    assert_eq!(overlay.get_position(), (1, 2));
    assert_eq!(overlay.get_size(), (3, 4));
    assert_eq!(overlay.border_color, Rgba { r: 5, g: 6, b: 7, a: 8 });
}

#[test]
fn border_is_drawn_inside_the_edges() {
    let black = Rgba { r: 0, g: 0, b: 0, a: 255 };
    let blue = Rgba { r: 88, g: 101, b: 242, a: 255 };
    let mut frame = CaptureFrame::filled(10, 8, black);
    let mut overlay = WebcamOverlay::new(2, 1, 6, 5);
    overlay.border_width = 1;
    overlay.draw_border(&mut frame);
    let rows: Vec<String> = (0..8usize)
        .map(|y| (0..10usize).map(|x| if frame.pixels[y * 10 + x] == blue { '#' } else { '.' }).collect())
        .collect();
    assert_eq!(
        rows,
        vec![
            "..........",
            "..######..",
            "..#....#..",
            "..#....#..",
            "..#....#..",
            "..######..",
            "..........",
            "..........",
        ]
    );
    assert_eq!(frame.width, 10);
    assert_eq!(frame.height, 8);
    assert!(frame.pixels.iter().all(|p| *p == blue || *p == black));
}

#[test]
fn overlay_pixels_land_inside_the_frame_or_nowhere() {
    let frame = CaptureFrame::filled(6, 4, Rgba { r: 0, g: 0, b: 0, a: 255 });
    let overlay = WebcamOverlay::new(3, 2, 10, 10);
    assert_eq!(overlay.target_index(0, 0, &frame), Some(2 * 6 + 3));
    assert_eq!(overlay.target_index(2, 1, &frame), Some(3 * 6 + 5));
    assert_eq!(overlay.target_index(3, 1, &frame), None);
    assert_eq!(overlay.target_index(2, 2, &frame), None);
    let far = WebcamOverlay::new(u32::MAX, 0, 1, 1);
    assert_eq!(far.target_index(u32::MAX, 0, &frame), None);
    let empty = CaptureFrame::filled(0, 0, Rgba { r: 0, g: 0, b: 0, a: 255 });
    assert_eq!(WebcamOverlay::new(0, 0, 1, 1).target_index(0, 0, &empty), None);
}

#[test]
fn border_is_clipped_at_the_frame() {
    let black = Rgba { r: 0, g: 0, b: 0, a: 255 };
    let mut frame = CaptureFrame::filled(6, 4, black);
    let overlay = WebcamOverlay::new(3, 2, 10, 10);
    overlay.draw_border(&mut frame);
    let color = overlay.border_color;
    let rows: Vec<String> = (0..4usize)
        .map(|y| (0..6usize).map(|x| if frame.pixels[y * 6 + x] == color { '#' } else { '.' }).collect())
        .collect();
    assert_eq!(rows, vec!["......", "......", "...###", "...###"]);
    assert!(overlay.on_border(3, 2));
    assert!(overlay.on_border(4, 5));
    assert!(!overlay.on_border(5, 4));
    assert!(!overlay.on_border(2, 2));
    assert!(overlay.on_border(12, 11));
    assert!(!overlay.on_border(13, 11));
    let far = WebcamOverlay::new(u32::MAX, u32::MAX, u32::MAX, u32::MAX);
    let mut small = CaptureFrame::filled(2, 2, black);
    far.draw_border(&mut small);
    assert!(small.pixels.iter().all(|p| *p == black));
}
