use ndfr::app::{AppState, Effect, Gesture, ANIMATION_MS};
use ndfr::config::{ButtonConfig, ButtonGroup, ButtonRenderMode, Layout};
use ndfr::input::{InputEvent, TouchEvent};
use ndfr::media::{MediaInfo, PlaybackStatus};
use ndfr::ui::{Key, Page, LEVEL_SCALE};

const WIDTH: i32 = 2008;
const HEIGHT: i32 = 60;

fn text_button(action: &str, label: &str, width: u32) -> ButtonConfig {
    ButtonConfig {
        text: Some(label.to_string()),
        icon: None,
        action: action.to_string(),
        width,
        render_mode: ButtonRenderMode::Mask,
    }
}

fn icon_button(action: &str, icon: &str, width: u32) -> ButtonConfig {
    ButtonConfig {
        text: None,
        icon: Some(icon.to_string()),
        action: action.to_string(),
        width,
        render_mode: ButtonRenderMode::Mask,
    }
}

fn layout() -> Layout {
    Layout {
        left: ButtonGroup {
            spacing: 10,
            buttons: vec![
                text_button("KEY_ESC", "esc", 100),
                icon_button("KEY_PLAYPAUSE", "play-pause.svg", 100),
                icon_button("KEY_MUTE", "mute.svg", 100),
            ],
        },
        right: ButtonGroup {
            spacing: 10,
            buttons: vec![
                icon_button("KEY_BRIGHTNESSUP", "brightness-high.svg", 100),
                icon_button("KEY_VOLUMEUP", "volume-high.svg", 100),
                icon_button("KEY_EXPAND", "expand.svg", 100),
            ],
        },
    }
}

fn player(id: &str, icon: &str) -> MediaInfo {
    MediaInfo::new(
        id.to_string(),
        format!("{} title", id),
        format!("{} artist", id),
        PlaybackStatus::Playing,
        30_000_000,
        200_000_000,
        icon.to_string(),
    )
}

fn state(players: &Vec<MediaInfo>) -> AppState {
    AppState::new(WIDTH, HEIGHT, false, &layout(), players, 1000).expect("layout fits")
}

/// The raw digitiser coordinate that lands on panel pixel `px`.
fn raw_at(px: i64) -> i32 {
    ((px * 32767 + WIDTH as i64 - 1) / WIDTH as i64) as i32
}

fn touch(s: &mut AppState, e: TouchEvent, now: u64, players: &Vec<MediaInfo>) -> Vec<Effect> {
    s.handle_event(InputEvent::Touch(e), now, players)
}

fn tap(s: &mut AppState, px: i64, now: u64, players: &Vec<MediaInfo>) -> Vec<Effect> {
    touch(s, TouchEvent::Down(raw_at(px)), now, players);
    touch(s, TouchEvent::Up, now + 10, players)
}

#[test]
fn new_state_shows_default_page() {
    let s = state(&Vec::new());
    assert!(matches!(s.page, Page::Default(_)));
    assert_eq!(s.gesture, Gesture::Idle);
    assert_eq!(s.brightness_value, LEVEL_SCALE / 2);
    assert_eq!(s.volume_value, LEVEL_SCALE / 2);
    assert_eq!(s.default_layout.len(), 6);
    assert_eq!(s.fn_layout.len(), 12);
    assert_eq!(s.expanded_layout.len(), 10);
    assert_eq!(s.default_dynamic_area_bounds.x, 320);
    assert_eq!(s.default_dynamic_area_bounds.width, 2008 - 320 - 320 - 10);
    assert!(!s.media_button_visible);
}

#[test]
fn button_press_emits_one_key_tap() {
    let players = Vec::new();
    let mut s = state(&players);
    let none = touch(&mut s, TouchEvent::Down(raw_at(270)), 2000, &players);
    assert!(none.is_empty());
    assert_eq!(s.gesture, Gesture::ButtonDown { button_index: 2 });
    let effects = touch(&mut s, TouchEvent::Up, 2010, &players);
    assert_eq!(effects, vec![Effect::KeyTap(Key::Mute)]);
    assert_eq!(s.gesture, Gesture::Idle);
}

#[test]
fn gesture_is_idle_after_every_lift() {
    let players = Vec::new();
    let mut s = state(&players);
    touch(&mut s, TouchEvent::Down(raw_at(150)), 2000, &players);
    assert_eq!(s.gesture, Gesture::ButtonDown { button_index: 1 });
    touch(&mut s, TouchEvent::Motion(raw_at(600)), 2005, &players);
    assert_eq!(s.gesture, Gesture::ButtonDown { button_index: 1 });
    touch(&mut s, TouchEvent::Up, 2010, &players);
    assert_eq!(s.gesture, Gesture::Idle);
    // a touch on the free area hits nothing
    touch(&mut s, TouchEvent::Down(raw_at(1000)), 3000, &players);
    assert_eq!(s.gesture, Gesture::Idle);
    touch(&mut s, TouchEvent::Up, 3010, &players);
    assert_eq!(s.gesture, Gesture::Idle);
}

#[test]
fn lift_without_gesture_changes_nothing() {
    let players = Vec::new();
    let mut s = state(&players);
    s.needs_redraw = false;
    let effects = touch(&mut s, TouchEvent::Up, 5000, &players);
    assert!(effects.is_empty());
    assert_eq!(s.gesture, Gesture::Idle);
    assert!(!s.needs_redraw);
    assert!(matches!(s.page, Page::Default(_)));
    assert_eq!(s.last_input_time, 5000);
    let again = touch(&mut s, TouchEvent::Up, 5001, &players);
    assert!(again.is_empty());
    assert!(!s.needs_redraw);
}

fn open_brightness_slider(s: &mut AppState, players: &Vec<MediaInfo>) {
    let effects = tap(s, 1738, 2000, players);
    assert!(effects.is_empty());
    assert!(matches!(s.page, Page::BrightnessSlider(_)));
    assert!(s.is_animating);
    s.update_animations(2010 + ANIMATION_MS);
    assert!(!s.is_animating);
    assert!(matches!(s.page, Page::BrightnessSlider(_)));
}

#[test]
fn brightness_drag_reads_back_three_quarters() {
    let players = Vec::new();
    let mut s = state(&players);
    open_brightness_slider(&mut s, &players);
    // the slider spans [502, 1506]; three quarters of the way is pixel 1255
    touch(&mut s, TouchEvent::Down(raw_at(600)), 3000, &players);
    assert_eq!(s.gesture, Gesture::SliderDrag);
    touch(&mut s, TouchEvent::Motion(raw_at(1255)), 3010, &players);
    touch(&mut s, TouchEvent::Up, 3020, &players);
    assert_eq!(s.gesture, Gesture::Idle);
    let v = s.brightness_value as i64;
    assert!((v - 7500).abs() <= 1, "brightness level {}", v);
    if let Page::BrightnessSlider(sl) = &s.page {
        assert_eq!(sl.value, s.brightness_value);
    } else {
        panic!("slider page expected");
    }
}

#[test]
fn touch_outside_slider_closes_it() {
    let players = Vec::new();
    let mut s = state(&players);
    open_brightness_slider(&mut s, &players);
    touch(&mut s, TouchEvent::Down(raw_at(100)), 3000, &players);
    assert!(matches!(s.page, Page::BrightnessSliderClosing(_)));
    assert!(s.is_animating);
    assert_eq!(s.get_animation_progress(3000), LEVEL_SCALE);
    assert_eq!(s.get_animation_progress(3000 + ANIMATION_MS), 0);
    s.update_animations(3000 + ANIMATION_MS);
    assert!(matches!(s.page, Page::Default(_)));
    assert!(!s.is_animating);
}

#[test]
fn volume_slider_commits_on_lift() {
    let players = Vec::new();
    let mut s = state(&players);
    tap(&mut s, 1848, 2000, &players);
    assert!(matches!(s.page, Page::VolumeSlider(_)));
    s.update_animations(2400);
    touch(&mut s, TouchEvent::Down(raw_at(1000)), 3000, &players);
    touch(&mut s, TouchEvent::Motion(raw_at(1600)), 3020, &players);
    touch(&mut s, TouchEvent::Up, 3050, &players);
    assert_eq!(s.volume_value, LEVEL_SCALE);
    assert_eq!(s.last_volume_update, 3050);
    assert!(s.volume_push_due(Some(5000), 3151));
    assert!(!s.volume_push_due(Some(5000), 3150));
    assert!(!s.volume_push_due(Some(9950), 4000));
    assert!(s.volume_push_due(None, 4000));
}

fn expand(s: &mut AppState, players: &Vec<MediaInfo>, now: u64) {
    let effects = tap(s, 1958, now, players);
    assert!(effects.is_empty());
}

#[test]
fn expanding_strip_ignores_touches_until_done() {
    let players = Vec::new();
    let mut s = state(&players);
    expand(&mut s, &players, 2000);
    assert!(s.ignore_input);
    assert!(s.control_strip_expanded);
    assert!(matches!(s.page, Page::ControlStripExpanding(_)));
    let before_input = s.last_input_time;
    let effects = touch(&mut s, TouchEvent::Down(raw_at(100)), 2100, &players);
    assert!(effects.is_empty());
    assert_eq!(s.gesture, Gesture::Idle);
    assert_eq!(s.last_input_time, before_input);
    touch(&mut s, TouchEvent::Up, 2150, &players);
    assert!(matches!(s.page, Page::ControlStripExpanding(_)));
    s.update_animations(2200);
    assert!(s.ignore_input);
    s.update_animations(2010 + ANIMATION_MS);
    assert!(!s.ignore_input);
    assert!(!s.is_animating);
    match &s.page {
        Page::Default(buttons) => {
            assert_eq!(buttons.len(), 10);
            assert_eq!(buttons[0].action, Key::Close);
        }
        _ => panic!("expanded layout expected"),
    }
}

#[test]
fn idle_strip_collapses_like_close_button() {
    let players = Vec::new();
    let mut a = state(&players);
    expand(&mut a, &players, 2000);
    a.update_animations(3000);
    let mut b = state(&players);
    expand(&mut b, &players, 2000);
    b.update_animations(3000);

    assert!(!a.check_idle_timeout(2010 + 5000));
    assert!(a.check_idle_timeout(2010 + 5001));
    let effects = tap(&mut b, 50, 8000, &players);
    assert!(effects.is_empty());

    for s in [&a, &b] {
        assert!(matches!(s.page, Page::ControlStripClosing(_)));
        assert!(!s.control_strip_expanded);
        assert!(s.ignore_input);
        assert!(s.is_animating);
        assert_eq!(s.gesture, Gesture::Idle);
    }
    a.update_animations(7011 + ANIMATION_MS);
    assert!(matches!(a.page, Page::Default(_)));
    assert!(!a.ignore_input);
}

#[test]
fn no_collapse_while_animating_or_collapsed() {
    let players = Vec::new();
    let mut s = state(&players);
    assert!(!s.check_idle_timeout(100_000));
    expand(&mut s, &players, 2000);
    assert!(!s.check_idle_timeout(100_000));
}

#[test]
fn strip_button_sends_key() {
    let players = Vec::new();
    let mut s = state(&players);
    expand(&mut s, &players, 2000);
    s.update_animations(3000);
    // second strip button: brightness down at [208, 401]
    let effects = tap(&mut s, 300, 4000, &players);
    assert_eq!(effects, vec![Effect::KeyTap(Key::BrightnessDown)]);
}

#[test]
fn fn_key_switches_pages() {
    let players = Vec::new();
    let mut s = state(&players);
    s.handle_event(InputEvent::FnKeyPressed, 2000, &players);
    assert!(matches!(s.page, Page::FnKeys(_)));
    let effects = tap(&mut s, 340, 2100, &players);
    assert_eq!(effects, vec![Effect::KeyTap(Key::F3)]);
    s.handle_event(InputEvent::FnKeyReleased, 2200, &players);
    match &s.page {
        Page::Default(b) => assert_eq!(b.len(), 6),
        _ => panic!("default page expected"),
    }
}

#[test]
fn fn_key_ignored_while_animating() {
    let players = Vec::new();
    let mut s = state(&players);
    expand(&mut s, &players, 2000);
    s.handle_event(InputEvent::FnKeyPressed, 2100, &players);
    assert!(matches!(s.page, Page::ControlStripExpanding(_)));
}

#[test]
fn screenshot_chord() {
    let players = Vec::new();
    let mut s = state(&players);
    assert!(s.handle_event(InputEvent::KeyPressed(7), 10, &players).is_empty());
    s.handle_event(InputEvent::KeyPressed(42), 11, &players);
    assert!(s.handle_event(InputEvent::KeyPressed(7), 12, &players).is_empty());
    s.handle_event(InputEvent::KeyPressed(125), 13, &players);
    assert_eq!(s.handle_event(InputEvent::KeyPressed(7), 14, &players), vec![Effect::Screenshot]);
    s.handle_event(InputEvent::KeyReleased(42), 15, &players);
    assert!(!s.is_shift_pressed);
    assert!(s.handle_event(InputEvent::KeyPressed(7), 16, &players).is_empty());
}

fn show_media(s: &mut AppState, players: &Vec<MediaInfo>) {
    // with players the right group is brightness, media, volume, expand from x = 1598
    let effects = tap(s, 1748, 2000, players);
    assert!(effects.is_empty());
    assert!(s.media_info_visible);
    assert!(matches!(s.page, Page::MediaInfoShowing(_)));
    s.update_animations(2010 + ANIMATION_MS);
    assert!(matches!(s.page, Page::Default(_)));
}

#[test]
fn tapping_primary_icon_cycles_players() {
    let players = vec![player("one", "firefox"), player("two", "spotify")];
    let mut s = state(&players);
    assert!(s.media_button_visible);
    assert_eq!(s.default_layout.len(), 7);
    show_media(&mut s, &players);
    assert_eq!(s.active_player_index, 0);
    tap(&mut s, 350, 3000, &players);
    assert_eq!(s.active_player_index, 1);
    tap(&mut s, 350, 3100, &players);
    assert_eq!(s.active_player_index, 0);
}

#[test]
fn scrubber_drag_seeks_on_lift() {
    let players = vec![player("one", "firefox"), player("two", "spotify")];
    let mut s = state(&players);
    show_media(&mut s, &players);
    // icons take 62 pixels each; the bar runs from 444 over 1134 pixels
    touch(&mut s, TouchEvent::Down(raw_at(500)), 3000, &players);
    assert_eq!(s.gesture, Gesture::ScrubberDrag { player_id: "one".to_string() });
    touch(&mut s, TouchEvent::Motion(raw_at(444 + 567)), 3010, &players);
    let effects = touch(&mut s, TouchEvent::Up, 3020, &players);
    assert_eq!(effects.len(), 1);
    match &effects[0] {
        Effect::Seek { player_id, position_usecs } => {
            assert_eq!(player_id, "one");
            assert!((*position_usecs - 100_000_000).abs() <= 20_000, "{}", position_usecs);
        }
        other => panic!("seek expected, got {:?}", other),
    }
    assert_eq!(s.gesture, Gesture::Idle);
}

#[test]
fn hiding_media_brings_back_clock() {
    let players = vec![player("one", "firefox")];
    let mut s = state(&players);
    show_media(&mut s, &players);
    assert!(matches!(s.dynamic_drawable, ndfr::dynamic::DynamicDrawable::Media { .. }));
    tap(&mut s, 1748, 5000, &players);
    assert!(matches!(s.page, Page::MediaInfoHiding(_)));
    s.update_animations(5010 + ANIMATION_MS);
    assert!(matches!(s.dynamic_drawable, ndfr::dynamic::DynamicDrawable::Clock(_)));
}

#[test]
fn refresh_adds_and_removes_media_button() {
    let none = Vec::new();
    let players = vec![player("one", "firefox")];
    let mut s = state(&none);
    s.needs_redraw = false;
    assert!(s.refresh_dynamic(&players, &layout()));
    assert!(s.media_button_visible);
    assert_eq!(s.default_layout.len(), 7);
    assert_eq!(s.default_layout[4].action, Key::Stop);
    assert!(s.needs_redraw);
    assert!(s.refresh_dynamic(&none, &layout()));
    assert!(!s.media_button_visible);
    assert_eq!(s.default_layout.len(), 6);
}

#[test]
fn progress_follows_the_clock() {
    let players = Vec::new();
    let mut s = state(&players);
    assert_eq!(s.get_animation_progress(0), LEVEL_SCALE);
    tap(&mut s, 1738, 2000, &players);
    let start = s.animation_start;
    assert_eq!(s.get_animation_progress(start), 0);
    assert_eq!(s.get_animation_progress(start + 100), 1632);
    assert_eq!(s.get_animation_progress(start + 175), 5000);
    let mut last = 0;
    for t in 0..=400 {
        let p = s.get_animation_progress(start + t);
        assert!(p >= last && p <= LEVEL_SCALE);
        last = p;
    }
    assert_eq!(last, LEVEL_SCALE);
}

#[test]
fn readings_update_levels_beyond_tolerance() {
    let players = Vec::new();
    let mut s = state(&players);
    s.needs_redraw = false;
    assert!(!s.apply_brightness_reading(5050));
    assert_eq!(s.brightness_value, 5000);
    assert!(s.apply_brightness_reading(5101));
    assert_eq!(s.brightness_value, 5101);
    assert!(s.needs_redraw);
    assert!(!s.apply_volume_reading(4900));
    assert!(s.apply_volume_reading(12000));
    assert_eq!(s.volume_value, 12000);
}

#[test]
fn oversized_layout_fails_start_up() {
    let mut wide = layout();
    wide.right.buttons.push(icon_button("KEY_MUTE", "mute.svg", u32::MAX));
    assert!(AppState::new(WIDTH, HEIGHT, false, &wide, &Vec::new(), 0).is_none());
}

#[test]
fn render_loop_steps() {
    let players = Vec::new();
    let mut s = state(&players);
    assert!(s.should_wake());
    assert_eq!(s.begin_frame(1500), LEVEL_SCALE);
    assert!(!s.needs_redraw);
    assert!(!s.should_wake());
    tap(&mut s, 1738, 2000, &players);
    assert!(s.should_wake());
    let p = s.begin_frame(2010 + 175);
    assert_eq!(p, 5000);
    assert!(s.needs_redraw && s.is_animating);
    assert_eq!(s.begin_frame(2010 + ANIMATION_MS), LEVEL_SCALE);
    assert!(!s.is_animating && !s.needs_redraw);
    assert_eq!(ndfr::app::frame_delay(4), 12);
    assert_eq!(ndfr::app::frame_delay(16), 0);
    assert_eq!(ndfr::app::frame_delay(40), 0);
}

#[test]
fn touch_just_beside_slider_closes_it() {
    let players = Vec::new();
    let mut s = state(&players);
    open_brightness_slider(&mut s, &players);
    // the track starts at pixel 502
    touch(&mut s, TouchEvent::Down(raw_at(497)), 3000, &players);
    assert!(matches!(s.page, Page::BrightnessSliderClosing(_)));
    assert_eq!(s.gesture, Gesture::Idle);
    assert_eq!(s.brightness_value, LEVEL_SCALE / 2);
}

#[test]
fn scrubber_drag_beyond_bar_clamps() {
    let players = vec![player("one", "firefox"), player("two", "spotify")];
    let mut s = state(&players);
    show_media(&mut s, &players);
    touch(&mut s, TouchEvent::Down(raw_at(500)), 3000, &players);
    touch(&mut s, TouchEvent::Motion(raw_at(100)), 3010, &players);
    let at_start = touch(&mut s, TouchEvent::Up, 3020, &players);
    assert_eq!(at_start, vec![Effect::Seek { player_id: "one".to_string(), position_usecs: 0 }]);
    touch(&mut s, TouchEvent::Down(raw_at(500)), 4000, &players);
    touch(&mut s, TouchEvent::Motion(raw_at(2000)), 4010, &players);
    let at_end = touch(&mut s, TouchEvent::Up, 4020, &players);
    assert_eq!(at_end, vec![Effect::Seek { player_id: "one".to_string(), position_usecs: 200_000_000 }]);
}

#[test]
fn transitions_last_their_full_length() {
    let players = Vec::new();
    let mut s = state(&players);
    tap(&mut s, 1738, 2000, &players);
    let start = s.animation_start;
    assert!(s.get_animation_progress(start + ANIMATION_MS - 1) < LEVEL_SCALE);
    s.update_animations(start + ANIMATION_MS - 1);
    assert!(s.is_animating);
    s.update_animations(start + ANIMATION_MS);
    assert!(!s.is_animating);
    touch(&mut s, TouchEvent::Down(raw_at(100)), 3000, &players);
    assert!(s.get_animation_progress(3000 + ANIMATION_MS - 1) > 0);
    s.update_animations(3000 + ANIMATION_MS - 2);
    assert!(matches!(s.page, Page::BrightnessSliderClosing(_)));
    s.update_animations(3000 + ANIMATION_MS);
    assert!(matches!(s.page, Page::Default(_)));
}

#[test]
fn stale_player_index_wraps() {
    let players = vec![player("one", "a"), player("two", "b")];
    let mut s = state(&players);
    s.active_player_index = 3;
    show_media(&mut s, &players);
    match &s.dynamic_drawable {
        ndfr::dynamic::DynamicDrawable::Media { primary_info, .. } => assert_eq!(primary_info.player_id, "two"),
        _ => panic!("media expected"),
    }
}
