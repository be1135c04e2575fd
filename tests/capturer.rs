use scap::capturer::{
    check_build, get_output_frame_size, CaptureState, CapturerBuildError, ChannelItem, Engine,
    LifecycleError, Resolution,
};
use scap::frame::{BGRAFrame, Frame, RGBFrame};

fn bgra_frame(time: u64, width: u32, height: u32) -> Frame {
    let data: Vec<u8> = (0..width * height * 4).map(|i| i as u8).collect();
    Frame::BGRA(BGRAFrame { display_time: time, width, height, data })
}

#[test]
fn resolution_tiers_have_fixed_widths() {
    assert_eq!(Resolution::_480p.value(4, 3), [640, 480]);
    assert_eq!(Resolution::_720p.value(16, 9), [1280, 720]);
    assert_eq!(Resolution::_1080p.value(16, 9), [1920, 1080]);
    assert_eq!(Resolution::_1440p.value(16, 9), [2560, 1440]);
    assert_eq!(Resolution::_2160p.value(16, 9), [3840, 2160]);
    assert_eq!(Resolution::_4320p.value(16, 9), [7680, 4320]);
}

#[test]
fn resolution_height_rounds_down() {
    // 1280 / (1440 / 900) = 800; 1280 / (3 / 2) = 853.33
    assert_eq!(Resolution::_720p.value(1440, 900), [1280, 800]);
    assert_eq!(Resolution::_720p.value(3, 2), [1280, 853]);
    assert_eq!(Resolution::_480p.value(7, 1), [640, 91]);
}

#[test]
fn resolution_height_saturates() {
    assert_eq!(Resolution::_4320p.value(1, u32::MAX), [7680, u32::MAX]);
}

#[test]
fn output_size_of_captured_is_native() {
    assert_eq!(get_output_frame_size(Resolution::Captured, 3024, 1964), [3024, 1964]);
    assert_eq!(get_output_frame_size(Resolution::_1080p, 2560, 1600), [1920, 1200]);
}

#[test]
fn build_checks_support_then_permission() {
    assert_eq!(check_build(false, true), Err(CapturerBuildError::NotSupported));
    assert_eq!(check_build(false, false), Err(CapturerBuildError::NotSupported));
    assert_eq!(check_build(true, false), Err(CapturerBuildError::PermissionNotGranted));
    assert_eq!(check_build(true, true), Ok(()));
}

#[test]
fn build_error_messages() {
    assert_eq!(CapturerBuildError::NotSupported.message(), "Screen capturing is not supported");
    assert_eq!(
        CapturerBuildError::PermissionNotGranted.message(),
        "Permission to capture the screen is not granted"
    );
}

#[test]
fn engine_starts_idle_with_its_output_size() {
    let e = Engine::new(Resolution::_720p, None, 1920, 1080);
    assert_eq!(e.state, CaptureState::Idle);
    assert_eq!(e.get_output_frame_size(), [1280, 720]);
}

#[test]
fn engine_refuses_double_start_and_idle_stop() {
    let mut e = Engine::new(Resolution::Captured, None, 10, 10);
    assert_eq!(e.stop(), Err(LifecycleError::NotCapturing));
    assert_eq!(e.start(), Ok(()));
    assert_eq!(e.start(), Err(LifecycleError::AlreadyCapturing));
    assert_eq!(e.state, CaptureState::Capturing);
}

#[test]
fn engine_restarts_after_stop() {
    let mut e = Engine::new(Resolution::Captured, None, 2, 1);
    assert_eq!(e.start(), Ok(()));
    assert_eq!(e.stop(), Ok(()));
    assert_eq!(e.start(), Ok(()));
    assert_eq!(e.state, CaptureState::Capturing);
    assert_eq!(e.get_output_frame_size(), [2, 1]);
    let f = e.process_channel_item(ChannelItem::Frame(bgra_frame(5, 2, 1)));
    assert!(matches!(f, Some(Frame::BGRA(ref g)) if g.display_time == 5));
}

#[test]
fn transient_items_yield_nothing() {
    let e = Engine::new(Resolution::Captured, None, 2, 1);
    assert!(e.process_channel_item(ChannelItem::Error).is_none());
    assert!(e.process_channel_item(ChannelItem::Frame(Frame::Empty)).is_none());
}

#[test]
fn retry_hands_out_only_the_valid_frame() {
    let e = Engine::new(Resolution::Captured, None, 2, 1);
    let items = vec![
        ChannelItem::Error,
        ChannelItem::Frame(Frame::Empty),
        ChannelItem::Error,
        ChannelItem::Frame(Frame::RGB(RGBFrame { display_time: 42, width: 1, height: 1, data: vec![1, 2, 3] })),
    ];
    let mut delivered = Vec::new();
    for item in items {
        if let Some(f) = e.process_channel_item(item) {
            delivered.push(f);
        }
    }
    assert_eq!(delivered.len(), 1);
    match &delivered[0] {
        Frame::RGB(f) => {
            assert_eq!((f.display_time, f.width, f.height), (42, 1, 1));
            assert_eq!(f.data, vec![1, 2, 3]);
        }
        _ => panic!("wrong layout"),
    }
}

#[test]
fn packed_frames_are_cropped() {
    let e = Engine::new(Resolution::Captured, Some(2), 3, 3);
    let mut data: Vec<u8> = Vec::new();
    for i in 1..=9u8 {
        data.extend_from_slice(&[i, i, i, i]);
    }
    let f = Frame::BGRA(BGRAFrame { display_time: 3, width: 3, height: 3, data });
    match e.process_channel_item(ChannelItem::Frame(f)) {
        Some(Frame::BGRA(g)) => {
            assert_eq!((g.display_time, g.width, g.height), (3, 2, 3));
            assert_eq!(
                g.data,
                vec![1, 1, 1, 1, 2, 2, 2, 2, 4, 4, 4, 4, 5, 5, 5, 5, 7, 7, 7, 7, 8, 8, 8, 8]
            );
        }
        _ => panic!("frame not delivered"),
    }
}

#[test]
fn malformed_packed_frame_is_not_cropped() {
    let e = Engine::new(Resolution::Captured, Some(1), 3, 3);
    let f = Frame::BGRA(BGRAFrame { display_time: 3, width: 3, height: 3, data: vec![1, 2, 3, 4] });
    match e.process_channel_item(ChannelItem::Frame(f)) {
        Some(Frame::BGRA(g)) => {
            assert_eq!((g.width, g.height), (3, 3));
            assert_eq!(g.data, vec![1, 2, 3, 4]);
        }
        _ => panic!("frame not delivered"),
    }
}
