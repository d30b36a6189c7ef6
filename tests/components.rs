use ndfr::backlight::Backlight;
use ndfr::config::{ButtonConfig, ButtonGroup, ButtonRenderMode, Layout};
use ndfr::display::looks_like_touch_bar;
use ndfr::dynamic::{find_icon_path, DynamicDrawable, DynamicManager, Rect};
use ndfr::input::{decode_key, decode_touch_packet, InputEvent, RawInputEvent, TouchEvent};
use ndfr::media::{MediaInfo, PlaybackStatus};
use ndfr::ui::{
    create_brightness_slider_layout, create_default_layout, create_expanded_layout,
    create_fn_layout, create_volume_slider_layout, string_to_key, touch_position, Button,
    ButtonContent, Key, RoundedCorners, Slider, SliderKind, LEVEL_SCALE,
};
use ndfr::volume::{pactl_level, parse_level, wpctl_level, AudioBackend, Volume};

fn cfg(action: &str, width: u32) -> ButtonConfig {
    ButtonConfig {
        text: Some(action.to_lowercase()),
        icon: None,
        action: action.to_string(),
        width,
        render_mode: ButtonRenderMode::Mask,
    }
}

fn info(id: &str, icon: &str) -> MediaInfo {
    MediaInfo::new(id.to_string(), String::new(), String::new(), PlaybackStatus::Paused, 0, 1_000_000, icon.to_string())
}

#[test]
fn slider_value_is_clamped() {
    let mut s = Slider { x: 100, width: 200, value: 0, kind: SliderKind::Volume };
    s.update_value(touch_position(-5000, 1000));
    assert_eq!(s.value, 0);
    s.update_value(touch_position(32767, 1000) * 50);
    assert_eq!(s.value, LEVEL_SCALE);
    s.update_value(200 * 32767);
    assert_eq!(s.value, 5000);
    s.update_value(150 * 32767);
    assert_eq!(s.value, 2500);
    let mut flat = Slider { x: 100, width: 0, value: 7, kind: SliderKind::Brightness };
    flat.update_value(101 * 32767);
    assert_eq!(flat.value, LEVEL_SCALE);
    flat.update_value(99 * 32767);
    assert_eq!(flat.value, 0);
}

#[test]
fn slider_hit_is_the_track() {
    let s = Slider { x: 100, width: 200, value: 0, kind: SliderKind::Volume };
    assert!(s.is_hit(100 * 32767));
    assert!(s.is_hit(300 * 32767));
    assert!(!s.is_hit(100 * 32767 - 1));
    assert!(!s.is_hit(95 * 32767));
    assert!(!s.is_hit(300 * 32767 + 1));
}

#[test]
fn button_hit_is_inclusive() {
    let b = Button {
        content: ButtonContent::Text("x".to_string()),
        action: Key::Mute,
        x: 10,
        width: 20,
        rounded_corners: RoundedCorners::All,
        render_mode: ButtonRenderMode::Mask,
    };
    assert!(b.is_hit(10 * 32767));
    assert!(b.is_hit(30 * 32767));
    assert!(!b.is_hit(30 * 32767 + 1));
    assert!(!b.is_hit(10 * 32767 - 1));
}

#[test]
fn touch_position_scales_raw_coordinate() {
    assert_eq!(touch_position(32767, 2008), 32767 * 2008);
    assert_eq!(touch_position(0, 2008), 0);
    assert_eq!(touch_position(-3, 10), -30);
}

#[test]
fn slider_layouts_are_centred() {
    let b = create_brightness_slider_layout(2008, 60, 1234);
    assert_eq!((b.x, b.width, b.value, b.kind), (502, 1004, 1234, SliderKind::Brightness));
    let v = create_volume_slider_layout(2009, 60, 3);
    assert_eq!((v.x, v.width, v.kind), (502, 1004, SliderKind::Volume));
    let z = create_volume_slider_layout(-4, 60, 3);
    assert_eq!((z.x, z.width), (0, 0));
}

#[test]
fn fn_layout_has_twelve_keys() {
    let keys = create_fn_layout(2008, 60);
    assert_eq!(keys.len(), 12);
    assert_eq!(keys[0].x, 0);
    assert_eq!(keys[0].width, 158);
    assert_eq!(keys[11].x, 11 * 168);
    assert_eq!(keys[11].action, Key::F12);
    assert!(matches!(&keys[9].content, ButtonContent::Text(t) if t == "F10"));
    let narrow = create_fn_layout(50, 60);
    assert_eq!(narrow[1].width, 0);
    assert_eq!(narrow[1].x, 10);
}

#[test]
fn expanded_layout_groups() {
    let b = create_expanded_layout(2008, 60);
    assert_eq!(b.len(), 10);
    assert_eq!(b[0].width, 193);
    let xs: Vec<i64> = b.iter().map(|b| b.x).collect();
    assert_eq!(xs, vec![0, 208, 403, 611, 819, 1014, 1209, 1417, 1612, 1807]);
    assert_eq!(b[0].action, Key::Close);
    assert_eq!(b[5].rounded_corners, RoundedCorners::Square);
    assert!(matches!(&b[6].content, ButtonContent::Icon(n) if n == "next.svg"));
}

#[test]
fn key_names() {
    assert_eq!(string_to_key("KEY_ESC"), Key::Esc);
    assert_eq!(string_to_key("KEY_F13"), Key::F13);
    assert_eq!(string_to_key("KEY_TOGGLE_MEDIA"), Key::Stop);
    assert_eq!(string_to_key("KEY_PLAYPAUSE"), Key::PlayPause);
    assert_eq!(string_to_key("KEY_EXPAND"), Key::Unknown);
    assert_eq!(string_to_key(""), Key::Unknown);
}

fn layout() -> Layout {
    Layout {
        left: ButtonGroup { spacing: 5, buttons: vec![cfg("KEY_ESC", 60), cfg("KEY_F1", 40)] },
        right: ButtonGroup { spacing: 4, buttons: vec![cfg("KEY_MUTE", 50), cfg("KEY_VOLUMEUP", 50), cfg("KEY_ESC", 20)] },
    }
}

#[test]
fn default_layout_positions() {
    let (b, r) = create_default_layout(1000, 60, false, &layout(), &Vec::new()).unwrap();
    let xs: Vec<i64> = b.iter().map(|b| b.x).collect();
    // right group is 50 + 50 + 20 + 2 * 4 = 128 wide
    assert_eq!(xs, vec![0, 65, 872, 926, 980]);
    assert_eq!(b[2].rounded_corners, RoundedCorners::Left);
    assert_eq!(b[3].rounded_corners, RoundedCorners::Square);
    assert_eq!(b[4].rounded_corners, RoundedCorners::Right);
    assert_eq!(b[0].rounded_corners, RoundedCorners::All);
    assert!(matches!(&b[1].content, ButtonContent::Text(t) if t == "key_f1"));
    assert_eq!(r, Rect { x: 105, y: 0, width: 872 - 105 - 10, height: 60 });
}

#[test]
fn default_layout_drops_escape_with_physical_key() {
    let (b, r) = create_default_layout(1000, 60, true, &layout(), &Vec::new()).unwrap();
    let actions: Vec<Key> = b.iter().map(|b| b.action).collect();
    assert_eq!(actions, vec![Key::F1, Key::Mute, Key::VolumeUp]);
    assert_eq!(b[0].x, 0);
    assert_eq!(r.x, 40);
    assert_eq!(b[1].x, 1000 - 104);
}

#[test]
fn default_layout_inserts_media_button() {
    let players = vec![info("p", "vlc")];
    let (b, _) = create_default_layout(1000, 60, false, &layout(), &players).unwrap();
    assert_eq!(b.len(), 6);
    assert_eq!(b[3].action, Key::Stop);
    assert_eq!(b[3].width, 80);
    assert_eq!(b[3].render_mode, ButtonRenderMode::Color);
    assert!(matches!(&b[3].content, ButtonContent::Icon(n) if n == "vlc"));
    let no_icon = vec![info("p", "")];
    let (c, _) = create_default_layout(1000, 60, false, &layout(), &no_icon).unwrap();
    assert_eq!(c.len(), 5);
    let empty_right = Layout { left: ButtonGroup { spacing: 0, buttons: vec![] }, right: ButtonGroup { spacing: 3, buttons: vec![] } };
    let (d, r) = create_default_layout(500, 60, false, &empty_right, &players).unwrap();
    assert_eq!(d.len(), 1);
    assert_eq!(d[0].x, 420);
    assert_eq!(d[0].rounded_corners, RoundedCorners::All);
    assert_eq!(r.x, 0);
}

#[test]
fn oversized_layout_is_refused() {
    let huge = Layout {
        left: ButtonGroup { spacing: 0, buttons: vec![cfg("KEY_F1", u32::MAX), cfg("KEY_F2", 1)] },
        right: ButtonGroup { spacing: 0, buttons: vec![] },
    };
    assert!(create_default_layout(1000, 60, false, &huge, &Vec::new()).is_none());
}

#[test]
fn scrubber_bounds_leave_room_for_icons() {
    let bounds = Rect { x: 100, y: 0, width: 1000, height: 60 };
    let one = DynamicDrawable::Media { primary_info: info("a", "x"), secondary_info: None };
    assert_eq!(one.scrubber_bounds(&bounds), Some(Rect { x: 162, y: 5, width: 928, height: 50 }));
    let two = DynamicDrawable::Media { primary_info: info("a", ""), secondary_info: Some(info("b", "y")) };
    assert_eq!(two.scrubber_bounds(&bounds), Some(Rect { x: 162, y: 5, width: 928, height: 50 }));
    let tight = Rect { x: 0, y: 0, width: 134, height: 60 };
    let both = DynamicDrawable::Media { primary_info: info("a", "x"), secondary_info: Some(info("b", "y")) };
    assert_eq!(both.scrubber_bounds(&tight), None);
    let clock = DynamicDrawable::Clock("1:00 PM".to_string());
    assert_eq!(clock.scrubber_bounds(&bounds), None);
}

#[test]
fn media_drawable_picks_next_distinct_player() {
    let players = vec![info("a", "x"), info("a", "y"), info("c", "z")];
    match DynamicManager::create_media_drawable(&players, 0) {
        DynamicDrawable::Media { primary_info, secondary_info } => {
            assert_eq!(primary_info.player_id, "a");
            assert_eq!(secondary_info.unwrap().player_id, "c");
        }
        _ => panic!("media expected"),
    }
    match DynamicManager::create_media_drawable(&players, 2) {
        DynamicDrawable::Media { primary_info, secondary_info } => {
            assert_eq!(primary_info.player_id, "c");
            assert_eq!(secondary_info.unwrap().icon_name, "x");
        }
        _ => panic!("media expected"),
    }
    let same = vec![info("a", "x"), info("a", "y")];
    match DynamicManager::create_media_drawable(&same, 9) {
        DynamicDrawable::Media { primary_info, secondary_info } => {
            assert_eq!(primary_info.icon_name, "y");
            assert!(secondary_info.is_none());
        }
        _ => panic!("media expected"),
    }
    assert!(matches!(DynamicManager::create_media_drawable(&Vec::new(), 0), DynamicDrawable::Clock(_)));
}

#[test]
fn clock_drawable_shows_time() {
    match DynamicManager::create_clock_drawable() {
        DynamicDrawable::Clock(t) => {
            assert!(t.contains(':'));
            assert!(t.ends_with("AM") || t.ends_with("PM"));
        }
        _ => panic!("clock expected"),
    }
}

#[test]
fn drawable_equality_compares_content() {
    let a = DynamicDrawable::Media { primary_info: info("a", "x"), secondary_info: None };
    let b = DynamicDrawable::Media { primary_info: info("a", "x"), secondary_info: None };
    let c = DynamicDrawable::Media { primary_info: info("a", "x"), secondary_info: Some(info("b", "y")) };
    assert!(a == b);
    assert!(a != c);
    assert!(DynamicDrawable::Clock("1".to_string()) != a);
}

#[test]
fn icon_lookup_searches_in_order() {
    let found = find_icon_path("spotify", |p: &String| p.starts_with("/usr/share/icons/hicolor/48x48/"));
    assert_eq!(found.as_deref(), Some("/usr/share/icons/hicolor/48x48/apps/spotify.svg"));
    let first = find_icon_path("vlc", |_p: &String| true);
    assert_eq!(first.as_deref(), Some("/usr/share/icons/hicolor/scalable/apps/vlc.svg"));
    let last = find_icon_path("vlc", |p: &String| p.starts_with("/usr/share/pixmaps"));
    assert_eq!(last.as_deref(), Some("/usr/share/pixmaps/vlc.svg"));
    assert_eq!(find_icon_path("vlc", |_p: &String| false), None);
    assert_eq!(find_icon_path("", |_p: &String| true), None);
}

#[test]
fn media_position_accessors() {
    let mut m = info("a", "x");
    assert_eq!(m.position_usecs(), 0);
    m.set_position(42);
    assert_eq!(m.position_usecs(), 42);
    assert_eq!(m.duration_usecs(), 1_000_000);
    assert_eq!(m.duplicate(), m);
    assert_eq!(PlaybackStatus::default(), PlaybackStatus::Unknown);
}

fn ev(event_type: u16, code: u16, value: i32) -> RawInputEvent {
    RawInputEvent { event_type, code, value }
}

#[test]
fn touch_packets_decode() {
    assert_eq!(decode_touch_packet(&vec![ev(1, 0x14a, 1), ev(3, 0, 500), ev(0, 0, 0)]), Some(TouchEvent::Down(500)));
    assert_eq!(decode_touch_packet(&vec![ev(1, 0x14a, 1), ev(0, 0, 0)]), None);
    assert_eq!(decode_touch_packet(&vec![ev(1, 0x14a, 0), ev(3, 0, 7), ev(0, 0, 0)]), Some(TouchEvent::Up));
    assert_eq!(decode_touch_packet(&vec![ev(3, 0, 7), ev(3, 0, 9), ev(0, 0, 0)]), Some(TouchEvent::Motion(9)));
    assert_eq!(decode_touch_packet(&vec![ev(3, 1, 7), ev(0, 0, 0)]), None);
}

#[test]
fn key_reports_decode() {
    assert_eq!(decode_key(0x1d0, 1), Some(InputEvent::FnKeyPressed));
    assert_eq!(decode_key(0x1d0, 0), Some(InputEvent::FnKeyReleased));
    assert_eq!(decode_key(0x1d0, 2), None);
    assert_eq!(decode_key(30, 1), Some(InputEvent::KeyPressed(30)));
    assert_eq!(decode_key(30, 0), Some(InputEvent::KeyReleased(30)));
    assert_eq!(decode_key(30, 2), None);
}

#[test]
fn backlight_levels() {
    assert_eq!(Backlight::level_of(50, 200), 2500);
    assert_eq!(Backlight::level_of(7, 0), 0);
    assert_eq!(Backlight::level_of(u64::MAX, 1), u32::MAX);
    assert_eq!(Backlight::percent_of(7549), 75);
    assert_eq!(Backlight::percent_of(7550), 76);
    assert!(Backlight::push_due(5000, None));
    assert!(!Backlight::push_due(5000, Some(5100)));
    assert!(Backlight::push_due(5000, Some(5101)));
}

#[test]
fn volume_is_capped_for_overdrive() {
    assert_eq!(Volume::clamp_level(20000), 15000);
    assert_eq!(Volume::clamp_level(12000), 12000);
    let v = Volume { backend: AudioBackend::PipeWire };
    assert_eq!(v.backend, AudioBackend::PipeWire);
}

#[test]
fn strip_panel_is_recognised_by_shape() {
    assert!(looks_like_touch_bar(60, 2008));
    assert!(looks_like_touch_bar(60, 300));
    assert!(!looks_like_touch_bar(60, 299));
    assert!(!looks_like_touch_bar(1920, 1080));
}

#[test]
fn volume_levels_parse() {
    assert_eq!(parse_level(b"0.45"), Some(4500));
    assert_eq!(parse_level(b"1.00"), Some(10000));
    assert_eq!(parse_level(b"1.5"), Some(15000));
    assert_eq!(parse_level(b"45"), Some(450000));
    assert_eq!(parse_level(b"0.12345"), Some(1234));
    assert_eq!(parse_level(b"429496"), Some(4294960000));
    assert_eq!(parse_level(b"429497"), None);
    assert_eq!(parse_level(b"1."), None);
    assert_eq!(parse_level(b".5"), None);
    assert_eq!(parse_level(b"1.2.3"), None);
    assert_eq!(parse_level(b"abc"), None);
    assert_eq!(parse_level(b""), None);
    assert_eq!(parse_level(b"-1"), None);
}

#[test]
fn icon_size_is_seven_tenths() {
    assert_eq!(ndfr::dynamic::icon_size_px(60), 42);
    assert_eq!(ndfr::dynamic::icon_size_px(0), 0);
    assert_eq!(ndfr::dynamic::icon_size_px(-5), 0);
}

#[test]
fn sound_tool_output_is_read() {
    assert_eq!(wpctl_level(b"Volume: 0.45\n"), Some(4500));
    assert_eq!(wpctl_level(b"  Volume:\t1.20 [MUTED]\n"), Some(12000));
    assert_eq!(wpctl_level(b"Volume:"), None);
    assert_eq!(wpctl_level(b"Volume: loud"), None);
    assert_eq!(
        pactl_level(b"Volume: front-left: 29491 /  45% / -20.81 dB,   front-right: 29491 /  45% / -20.81 dB\n"),
        Some(4500)
    );
    assert_eq!(pactl_level(b"Volume: 0 / 150 % / 0 dB"), Some(15000));
    assert_eq!(pactl_level(b"Volume: 0 /  45 / 0 dB"), None);
    assert_eq!(pactl_level(b"no slash here"), None);
}
