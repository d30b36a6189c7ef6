use crate::backlight::{differs, levels_differ};
use crate::config::Layout;
use crate::dynamic::{
    icon_slot, icon_slot_of, media_widget, same_content, DynamicDrawable, DynamicManager, Rect,
};
use crate::input::{InputEvent, TouchEvent};
use crate::media::MediaInfo;
use crate::ui::{
    centred_slider, create_brightness_slider_layout, create_default_layout,
    create_expanded_layout, create_fn_layout, create_volume_slider_layout, is_default_layout,
    is_fn_layout, is_strip_layout, layout_fits, level_at, level_for, span_contains, span_hit,
    touch_position, touch_scaled, Button, Key, Page, Slider, SliderKind, LEVEL_SCALE,
};
use std::sync::Arc;
use vstd::prelude::*;

verus! {

/// Length of every page transition, in milliseconds.
pub const ANIMATION_MS: u64 = 350;

/// Quiet time after which an expanded control strip folds away, in milliseconds.
pub const IDLE_COLLAPSE_MS: u64 = 5000;

/// Linux key codes of the keys that the screenshot chord watches.
pub const KEY_LEFTSHIFT: u16 = 42;
pub const KEY_RIGHTSHIFT: u16 = 54;
pub const KEY_LEFTMETA: u16 = 125;
pub const KEY_RIGHTMETA: u16 = 126;
pub const KEY_6: u16 = 7;

/// The pointer interaction in progress.
#[derive(Clone, Debug, PartialEq)]
pub enum Gesture {
    Idle,
    ButtonDown { button_index: usize },
    SliderDrag,
    ScrubberDrag { player_id: String },
}

/// A side effect that the state machine asks of its surroundings.
#[derive(Clone, Debug, PartialEq)]
pub enum Effect {
    /// Press and release `Key` on the virtual keyboard.
    KeyTap(Key),
    /// Ask the media controller to move `player_id` to `position_usecs`.
    Seek { player_id: String, position_usecs: i64 },
    /// Capture the current frame to a file.
    Screenshot,
}

/// The whole UI state of the daemon. Times are milliseconds of a monotonic clock;
/// brightness and volume are levels scaled by `LEVEL_SCALE`.
pub struct AppState {
    pub page: Page,
    pub brightness_value: u32,
    pub volume_value: u32,
    pub gesture: Gesture,
    pub animation_start: u64,
    pub needs_redraw: bool,
    pub is_animating: bool,
    pub last_input_time: u64,
    pub last_volume_update: u64,
    pub default_layout: Arc<Vec<Button>>,
    pub fn_layout: Arc<Vec<Button>>,
    pub expanded_layout: Arc<Vec<Button>>,
    pub control_strip_expanded: bool,
    pub ignore_input: bool,
    pub width: i32,
    pub height: i32,
    pub has_physical_esc: bool,
    pub is_shift_pressed: bool,
    pub is_super_pressed: bool,
    pub default_dynamic_area_bounds: Rect,
    pub dynamic_drawable: DynamicDrawable,
    pub media_button_visible: bool,
    pub media_info_visible: bool,
    pub active_player_index: usize,
}

/// Pages that animate towards being shown.
pub open spec fn is_opening(p: Page) -> bool {
    p is BrightnessSlider || p is VolumeSlider || p is ControlStripExpanding || p is MediaInfoShowing
}

/// Pages that animate towards being hidden.
pub open spec fn is_closing(p: Page) -> bool {
    p is BrightnessSliderClosing || p is VolumeSliderClosing || p is ControlStripClosing
        || p is MediaInfoHiding
}

/// Pages that exist only while a transition runs.
pub open spec fn is_transitional(p: Page) -> bool {
    is_closing(p) || p is ControlStripExpanding || p is MediaInfoShowing
}

/// The buttons of a page that has buttons to press.
pub open spec fn page_buttons(p: Page) -> Option<Seq<Button>> {
    match p {
        Page::Default(b) => Some(b@),
        Page::FnKeys(b) => Some(b@),
        Page::ControlStripExpanding(b) => Some(b@),
        Page::ControlStripClosing(b) => Some(b@),
        _ => None,
    }
}

/// The index of the first button, from `k` on, whose span holds `sx`.
pub open spec fn first_hit(bs: Seq<Button>, sx: int, k: int) -> Option<int>
    decreases bs.len() - k,
{
    if k < 0 || k >= bs.len() {
        None
    } else if span_hit(sx, bs[k].x as int, bs[k].width as int) {
        Some(k)
    } else {
        first_hit(bs, sx, k + 1)
    }
}

/// The eased share of a transition, scaled by `LEVEL_SCALE`, after `e` of its
/// `ANIMATION_MS` milliseconds: quadratic ease-in over the first half, ease-out over the
/// second. The ease-in is rounded down and the remainder of the ease-out up, so the
/// share is full only once the whole length has run.
pub open spec fn eased(e: int) -> int {
    let d = ANIMATION_MS as int;
    let s = LEVEL_SCALE as int;
    if 2 * e < d {
        2 * s * e * e / (d * d)
    } else {
        s - (2 * s * (d - e) * (d - e) + d * d - 1) / (d * d)
    }
}

/// Milliseconds of a transition started at `start` that have run at `now`, capped at its
/// length.
pub open spec fn elapsed(start: u64, now: u64) -> int {
    if now <= start {
        0
    } else if now - start >= ANIMATION_MS {
        ANIMATION_MS as int
    } else {
        now - start
    }
}

/// Where the scrubber's playhead moves for a level of the bar: the level's share of
/// `duration`, rounded toward zero.
pub open spec fn scrub_position(level: int, duration: int) -> int {
    if duration >= 0 {
        level * duration / (LEVEL_SCALE as int)
    } else {
        -(level * (-duration) / (LEVEL_SCALE as int))
    }
}

impl AppState {
    /// The invariant of the state: transitional pages only while animating; input is
    /// ignored only during a control-strip transition; a gesture only while nothing
    /// animates; the strip is flagged expanded while it expands and not while it folds;
    /// the free area is a panel region as tall as the panel.
    pub open spec fn wf(&self) -> bool {
        &&& is_transitional(self.page) ==> self.is_animating
        &&& self.ignore_input ==> self.is_animating && (self.page is ControlStripExpanding
            || self.page is ControlStripClosing)
        &&& self.default_dynamic_area_bounds.in_range()
        &&& !(self.gesture is Idle) ==> !self.is_animating
        &&& self.page is ControlStripExpanding ==> self.control_strip_expanded
        &&& self.page is ControlStripClosing ==> !self.control_strip_expanded
        &&& self.default_dynamic_area_bounds.height == self.height
    }

    /// Handlers other than the transition's own completion do nothing.
    pub open spec fn blocked(&self) -> bool {
        self.is_animating || self.ignore_input
    }

    /// The state with the input clock moved to `now`, unless input is being ignored.
    pub open spec fn noted(self, now: u64) -> AppState {
        if self.ignore_input {
            self
        } else {
            AppState { last_input_time: now, ..self }
        }
    }

    /// Progress of the current transition at `now`, scaled by `LEVEL_SCALE`.
    pub open spec fn progress(&self, now: u64) -> int {
        if !self.is_animating {
            LEVEL_SCALE as int
        } else if is_opening(self.page) {
            eased(elapsed(self.animation_start, now))
        } else if is_closing(self.page) {
            LEVEL_SCALE - eased(elapsed(self.animation_start, now))
        } else {
            LEVEL_SCALE as int
        }
    }

    /// The transition has reached its terminal bound at `now`.
    pub open spec fn finished(&self, now: u64) -> bool {
        if is_opening(self.page) {
            self.progress(now) >= LEVEL_SCALE
        } else if is_closing(self.page) {
            self.progress(now) <= 0
        } else {
            true
        }
    }

    /// The steady page that the current transition resolves to.
    pub open spec fn settled_page(&self) -> Page {
        match self.page {
            Page::BrightnessSliderClosing(_) => Page::Default(self.default_layout),
            Page::VolumeSliderClosing(_) => Page::Default(self.default_layout),
            Page::ControlStripClosing(_) => Page::Default(self.default_layout),
            Page::ControlStripExpanding(_) => Page::Default(self.expanded_layout),
            Page::MediaInfoShowing(_) => Page::Default(self.default_layout),
            Page::MediaInfoHiding(_) => Page::Default(self.default_layout),
            p => p,
        }
    }

    /// `t` is `self` once its transition has settled: steady page, input accepted, no
    /// transition running; leaving the media widget brings the clock back.
    pub open spec fn settled_into(self, t: AppState) -> bool {
        &&& !t.is_animating
        &&& !t.ignore_input
        &&& !t.needs_redraw
        &&& t.page == self.settled_page()
        &&& self.page is MediaInfoHiding ==> t.dynamic_drawable is Clock
        &&& !(self.page is MediaInfoHiding) ==> t.dynamic_drawable == self.dynamic_drawable
        &&& t.gesture == self.gesture
        &&& t.control_strip_expanded == self.control_strip_expanded
        &&& t.default_layout == self.default_layout
        &&& t.expanded_layout == self.expanded_layout
        &&& t.fn_layout == self.fn_layout
        &&& t.brightness_value == self.brightness_value
        &&& t.volume_value == self.volume_value
        &&& t.media_info_visible == self.media_info_visible
        &&& t.active_player_index == self.active_player_index
        &&& t.last_input_time == self.last_input_time
        &&& t.default_dynamic_area_bounds == self.default_dynamic_area_bounds
    }

    /// `t` is `self` after the control strip starts folding away at `now`.
    pub open spec fn collapsed_into(self, t: AppState, now: u64) -> bool {
        t == AppState {
            control_strip_expanded: false,
            page: Page::ControlStripClosing(self.expanded_layout),
            animation_start: now,
            is_animating: true,
            ignore_input: true,
            gesture: Gesture::Idle,
            needs_redraw: true,
            ..self
        }
    }

    /// The media widget is on screen and answers touches.
    pub open spec fn media_area_live(&self) -> bool {
        &&& self.media_info_visible
        &&& self.page is Default
        &&& !self.control_strip_expanded
        &&& self.dynamic_drawable is Media
    }

    /// Start folding the control strip away.
    fn collapse_control_strip(&mut self, now_ms: u64)
        ensures
            old(self).collapsed_into(*final(self), now_ms),
    {
        self.control_strip_expanded = false;
        self.page = Page::ControlStripClosing(Arc::clone(&self.expanded_layout));
        self.animation_start = now_ms;
        self.is_animating = true;
        self.ignore_input = true;
        self.gesture = Gesture::Idle;
        self.needs_redraw = true;
    }

    /// Progress of the running transition at `now_ms`, in `[0, LEVEL_SCALE]`; a state
    /// that is not animating is fully shown.
    pub fn get_animation_progress(&self, now_ms: u64) -> (r: u32)
        ensures
            r == self.progress(now_ms),
            r <= LEVEL_SCALE,
    {
        if !self.is_animating {
            return LEVEL_SCALE;
        }
        let e: u64 = if now_ms <= self.animation_start {
            0
        } else if now_ms - self.animation_start >= ANIMATION_MS {
            ANIMATION_MS
        } else {
            now_ms - self.animation_start
        };
        let eased_value = ease(e);
        if is_opening_page(&self.page) {
            eased_value
        } else if is_closing_page(&self.page) {
            LEVEL_SCALE - eased_value
        } else {
            LEVEL_SCALE
        }
    }

    /// Once per frame: where the running transition has reached its terminal bound,
    /// settle on its steady page and accept input again.
    pub fn update_animations(&mut self, now_ms: u64)
        requires
            old(self).wf(),
        ensures
            final(self).wf(),
            !old(self).is_animating ==> *final(self) == *old(self),
            old(self).is_animating && !old(self).finished(now_ms) ==> (*final(self) == AppState {
                needs_redraw: true,
                ..*old(self)
            }),
            old(self).is_animating && old(self).finished(now_ms) ==> old(self).settled_into(
                *final(self),
            ),
    {
        if !self.is_animating {
            return;
        }
        let progress = self.get_animation_progress(now_ms);
        let done = if is_opening_page(&self.page) {
            progress >= LEVEL_SCALE
        } else if is_closing_page(&self.page) {
            progress == 0
        } else {
            true
        };
        if done {
            self.is_animating = false;
            self.ignore_input = false;
            match &self.page {
                Page::BrightnessSliderClosing(_)
                | Page::VolumeSliderClosing(_)
                | Page::ControlStripClosing(_)
                | Page::MediaInfoShowing(_) => {
                    self.page = Page::Default(Arc::clone(&self.default_layout));
                },
                Page::ControlStripExpanding(_) => {
                    self.page = Page::Default(Arc::clone(&self.expanded_layout));
                },
                Page::MediaInfoHiding(_) => {
                    self.page = Page::Default(Arc::clone(&self.default_layout));
                    self.dynamic_drawable = DynamicManager::create_clock_drawable();
                },
                _ => {},
            }
        }
        self.needs_redraw = self.is_animating;
    }

    /// The idle check: an expanded control strip with no transition running and no
    /// input for more than `IDLE_COLLAPSE_MS` folds away as its close button would fold
    /// it. Returns whether it did.
    pub fn check_idle_timeout(&mut self, now_ms: u64) -> (r: bool)
        requires
            old(self).wf(),
        ensures
            final(self).wf(),
            r == (old(self).control_strip_expanded && !old(self).is_animating && now_ms
                > old(self).last_input_time && now_ms - old(self).last_input_time
                > IDLE_COLLAPSE_MS),
            r ==> old(self).collapsed_into(*final(self), now_ms),
            !r ==> *final(self) == *old(self),
    {
        if self.control_strip_expanded && !self.is_animating && now_ms > self.last_input_time
            && now_ms - self.last_input_time > IDLE_COLLAPSE_MS {
            self.collapse_control_strip(now_ms);
            true
        } else {
            false
        }
    }
}


/// The key bound to button `i` of the page, where the page has such a button.
pub open spec fn pressed_action(p: Page, i: int) -> Option<Key> {
    match page_buttons(p) {
        Some(bs) => if 0 <= i < bs.len() {
            Some(bs[i].action)
        } else {
            None
        },
        None => None,
    }
}

impl AppState {
    /// `self` with the gesture over and a frame due.
    pub open spec fn released(self) -> AppState {
        AppState { gesture: Gesture::Idle, needs_redraw: true, ..self }
    }

    /// `t` follows from a touch landing at scaled position `sx` on a slider or button
    /// page, at `now`.
    pub open spec fn page_down_into(self, t: AppState, sx: int, now: u64) -> bool {
        match self.page {
            Page::BrightnessSlider(sl) => if span_hit(sx, sl.x as int, sl.width as int) {
                let v = level_at(sx, sl.x as int, sl.width as int) as u32;
                t == (AppState {
                    page: Page::BrightnessSlider(Slider { value: v, ..sl }),
                    brightness_value: v,
                    gesture: Gesture::SliderDrag,
                    needs_redraw: true,
                    ..self
                })
            } else {
                t == (AppState {
                    page: Page::BrightnessSliderClosing(sl),
                    animation_start: now,
                    is_animating: true,
                    gesture: Gesture::Idle,
                    needs_redraw: true,
                    ..self
                })
            },
            Page::VolumeSlider(sl) => if span_hit(sx, sl.x as int, sl.width as int) {
                let v = level_at(sx, sl.x as int, sl.width as int) as u32;
                t == (AppState {
                    page: Page::VolumeSlider(Slider { value: v, ..sl }),
                    volume_value: v,
                    gesture: Gesture::SliderDrag,
                    needs_redraw: true,
                    ..self
                })
            } else {
                t == (AppState {
                    page: Page::VolumeSliderClosing(sl),
                    animation_start: now,
                    is_animating: true,
                    gesture: Gesture::Idle,
                    needs_redraw: true,
                    ..self
                })
            },
            _ => match page_buttons(self.page) {
                Some(bs) => match first_hit(bs, sx, 0) {
                    Some(i) => t == (AppState {
                        gesture: Gesture::ButtonDown { button_index: i as usize },
                        needs_redraw: true,
                        ..self
                    }),
                    None => t == self,
                },
                None => t == self,
            },
        }
    }

    /// `t` follows from a touch landing at scaled position `sx`, at `now`, with
    /// `players` known: taps on the media widget first, then the page.
    pub open spec fn down_into(self, t: AppState, sx: int, now: u64, players: Seq<MediaInfo>) -> bool {
        let b = self.default_dynamic_area_bounds;
        if self.media_area_live() {
            let primary = self.dynamic_drawable->primary_info;
            let p = if primary.icon_name@.len() > 0 { icon_slot(b.height as int) } else { 0 };
            if span_hit(sx, b.x as int, p) {
                if players.len() > 1 {
                    t == (AppState {
                        active_player_index: ((self.active_player_index + 1) % (players.len() as int)) as usize,
                        needs_redraw: true,
                        ..self
                    })
                } else {
                    t == self
                }
            } else if self.dynamic_drawable->secondary_info is Some && span_hit(
                sx,
                b.x + p,
                icon_slot(b.height as int),
            ) {
                t == self
            } else if self.dynamic_drawable.scrubber_spec(b) matches Some(sb) && span_hit(
                sx,
                sb.x as int,
                sb.width as int,
            ) {
                t == (AppState {
                    gesture: Gesture::ScrubberDrag { player_id: primary.player_id },
                    needs_redraw: true,
                    ..self
                })
            } else {
                self.page_down_into(t, sx, now)
            }
        } else {
            self.page_down_into(t, sx, now)
        }
    }

    /// `t` follows from the touch moving to scaled position `sx`.
    pub open spec fn motion_into(self, t: AppState, sx: int) -> bool {
        match self.gesture {
            Gesture::SliderDrag => match self.page {
                Page::BrightnessSlider(sl) => {
                    let v = level_at(sx, sl.x as int, sl.width as int) as u32;
                    t == (AppState {
                        page: Page::BrightnessSlider(Slider { value: v, ..sl }),
                        brightness_value: v,
                        needs_redraw: true,
                        ..self
                    })
                },
                Page::VolumeSlider(sl) => {
                    let v = level_at(sx, sl.x as int, sl.width as int) as u32;
                    t == (AppState {
                        page: Page::VolumeSlider(Slider { value: v, ..sl }),
                        volume_value: v,
                        needs_redraw: true,
                        ..self
                    })
                },
                _ => t == self,
            },
            Gesture::ScrubberDrag { .. } => if self.control_strip_expanded
                || !(self.dynamic_drawable is Media) {
                t == self
            } else {
                match self.dynamic_drawable.scrubber_spec(self.default_dynamic_area_bounds) {
                    Some(sb) => {
                        let primary = self.dynamic_drawable->primary_info;
                        let level = level_at(sx, sb.x as int, sb.width as int);
                        t == (AppState {
                            dynamic_drawable: DynamicDrawable::Media {
                                primary_info: MediaInfo {
                                    position_usecs: scrub_position(
                                        level,
                                        primary.duration_usecs as int,
                                    ) as i64,
                                    ..primary
                                },
                                secondary_info: self.dynamic_drawable->secondary_info,
                            },
                            needs_redraw: true,
                            ..self
                        })
                    },
                    None => t == self,
                }
            },
            _ => t == self,
        }
    }

    /// `t` and `effects` follow from the press of button `k` when the touch lifts, at
    /// `now`, with `players` known.
    pub open spec fn action_into(
        self,
        t: AppState,
        effects: Seq<Effect>,
        k: Key,
        now: u64,
        players: Seq<MediaInfo>,
    ) -> bool {
        if self.control_strip_expanded {
            if k == Key::Close || k == Key::Stop {
                self.collapsed_into(t, now) && effects.len() == 0
            } else {
                t == self.released() && effects == seq![Effect::KeyTap(k)]
            }
        } else if k == Key::Unknown {
            effects.len() == 0 && t == (AppState {
                control_strip_expanded: true,
                page: Page::ControlStripExpanding(self.expanded_layout),
                animation_start: now,
                is_animating: true,
                ignore_input: true,
                ..self.released()
            })
        } else if k == Key::BrightnessDown || k == Key::BrightnessUp {
            effects.len() == 0 && t == (AppState {
                page: Page::BrightnessSlider(
                    centred_slider(self.width as int, self.brightness_value, SliderKind::Brightness),
                ),
                animation_start: now,
                is_animating: true,
                ..self.released()
            })
        } else if k == Key::VolumeUp || k == Key::VolumeDown {
            effects.len() == 0 && t == (AppState {
                page: Page::VolumeSlider(
                    centred_slider(self.width as int, self.volume_value, SliderKind::Volume),
                ),
                animation_start: now,
                is_animating: true,
                ..self.released()
            })
        } else if k == Key::Stop {
            let vis = !self.media_info_visible;
            effects.len() == 0 && t == (AppState {
                media_info_visible: vis,
                animation_start: now,
                is_animating: true,
                page: if vis {
                    Page::MediaInfoShowing(self.default_layout)
                } else {
                    Page::MediaInfoHiding(self.default_layout)
                },
                dynamic_drawable: if vis && players.len() > 0 {
                    media_widget(players, self.active_player_index as int)
                } else {
                    self.dynamic_drawable
                },
                ..self.released()
            })
        } else {
            t == self.released() && effects == seq![Effect::KeyTap(k)]
        }
    }

    /// `t` and `effects` follow from the touch lifting, at `now`, with `players` known.
    pub open spec fn up_into(
        self,
        t: AppState,
        effects: Seq<Effect>,
        now: u64,
        players: Seq<MediaInfo>,
    ) -> bool {
        match self.gesture {
            Gesture::Idle => t == self && effects.len() == 0,
            Gesture::ScrubberDrag { .. } => {
                &&& t == self.released()
                &&& if !self.control_strip_expanded && self.dynamic_drawable is Media {
                    let primary = self.dynamic_drawable->primary_info;
                    effects == seq![
                        Effect::Seek {
                            player_id: primary.player_id,
                            position_usecs: primary.position_usecs,
                        },
                    ]
                } else {
                    effects.len() == 0
                }
            },
            Gesture::SliderDrag => effects.len() == 0 && match self.page {
                Page::VolumeSlider(sl) => t == (AppState {
                    volume_value: sl.value,
                    last_volume_update: now,
                    ..self.released()
                }),
                _ => t == self.released(),
            },
            Gesture::ButtonDown { button_index } => match pressed_action(
                self.page,
                button_index as int,
            ) {
                Some(k) => self.action_into(t, effects, k, now, players),
                None => t == self.released() && effects.len() == 0,
            },
        }
    }

    /// `t` follows from the Fn key going down (`pressed`) or up.
    pub open spec fn fn_key_into(self, t: AppState, pressed: bool) -> bool {
        t == (AppState {
            page: if pressed {
                Page::FnKeys(self.fn_layout)
            } else if self.control_strip_expanded {
                Page::Default(self.expanded_layout)
            } else {
                Page::Default(self.default_layout)
            },
            ..self.released()
        })
    }

    /// `t` and `effects` follow from key `code` going down: modifiers are tracked, and
    /// the screenshot chord (Shift, Super and 6) asks for a capture.
    pub open spec fn key_press_into(self, t: AppState, effects: Seq<Effect>, code: u16) -> bool {
        if code == KEY_LEFTSHIFT || code == KEY_RIGHTSHIFT {
            t == (AppState { is_shift_pressed: true, ..self }) && effects.len() == 0
        } else if code == KEY_LEFTMETA || code == KEY_RIGHTMETA {
            t == (AppState { is_super_pressed: true, ..self }) && effects.len() == 0
        } else if code == KEY_6 && self.is_super_pressed && self.is_shift_pressed {
            t == self && effects == seq![Effect::Screenshot]
        } else {
            t == self && effects.len() == 0
        }
    }

    /// `t` follows from key `code` going up.
    pub open spec fn key_release_into(self, t: AppState, code: u16) -> bool {
        if code == KEY_LEFTSHIFT || code == KEY_RIGHTSHIFT {
            t == (AppState { is_shift_pressed: false, ..self })
        } else if code == KEY_LEFTMETA || code == KEY_RIGHTMETA {
            t == (AppState { is_super_pressed: false, ..self })
        } else {
            t == self
        }
    }

    /// `t` and `effects` follow from `event` at `now` with `players` known. Touches and
    /// the Fn key do nothing while a transition runs or input is ignored.
    pub open spec fn step_into(
        self,
        t: AppState,
        effects: Seq<Effect>,
        event: InputEvent,
        now: u64,
        players: Seq<MediaInfo>,
    ) -> bool {
        match event {
            InputEvent::Touch(e) => if self.blocked() {
                t == self && effects.len() == 0
            } else {
                match e {
                    TouchEvent::Down(raw) => effects.len() == 0 && self.down_into(
                        t,
                        touch_scaled(raw as int, self.width as int),
                        now,
                        players,
                    ),
                    TouchEvent::Motion(raw) => effects.len() == 0 && self.motion_into(
                        t,
                        touch_scaled(raw as int, self.width as int),
                    ),
                    TouchEvent::Up => self.up_into(t, effects, now, players),
                }
            },
            InputEvent::FnKeyPressed => effects.len() == 0 && if self.blocked() {
                t == self
            } else {
                self.fn_key_into(t, true)
            },
            InputEvent::FnKeyReleased => effects.len() == 0 && if self.blocked() {
                t == self
            } else {
                self.fn_key_into(t, false)
            },
            InputEvent::KeyPressed(code) => self.key_press_into(t, effects, code),
            InputEvent::KeyReleased(code) => effects.len() == 0 && self.key_release_into(t, code),
        }
    }
}


impl AppState {
    /// The state at start-up on a panel `width` by `height` pixels, at `now_ms`: the
    /// default page laid out from `layout`, levels at one half, nothing in progress.
    /// Fails where the layout does not fit.
    pub fn new(
        width: i32,
        height: i32,
        has_physical_esc: bool,
        layout: &Layout,
        media_info: &Vec<MediaInfo>,
        now_ms: u64,
    ) -> (r: Option<AppState>)
        ensures
            r is Some <==> layout_fits(*layout, has_physical_esc, media_info@),
            r matches Some(s) ==> {
                &&& s.wf()
                &&& is_default_layout(
                    s.default_layout@,
                    s.default_dynamic_area_bounds,
                    width as int,
                    height as int,
                    *layout,
                    has_physical_esc,
                    media_info@,
                )
                &&& is_fn_layout(s.fn_layout@, width as int)
                &&& is_strip_layout(s.expanded_layout@, width as int)
                &&& s.page == Page::Default(s.default_layout)
                &&& s.gesture is Idle
                &&& s.brightness_value == LEVEL_SCALE / 2
                &&& s.volume_value == LEVEL_SCALE / 2
                &&& s.needs_redraw && !s.is_animating && !s.ignore_input
                &&& !s.control_strip_expanded && !s.media_info_visible
                &&& !s.is_shift_pressed && !s.is_super_pressed
                &&& s.media_button_visible == (media_info@.len() > 0)
                &&& s.dynamic_drawable is Clock
                &&& s.active_player_index == 0
                &&& s.animation_start == now_ms && s.last_input_time == now_ms
                    && s.last_volume_update == now_ms
                &&& s.width == width && s.height == height
                &&& s.has_physical_esc == has_physical_esc
            },
    {
        let (default_buttons, bounds) = match create_default_layout(
            width,
            height,
            has_physical_esc,
            layout,
            media_info,
        ) {
            Some(v) => v,
            None => return None,
        };
        let default_layout = Arc::new(default_buttons);
        let fn_layout = Arc::new(create_fn_layout(width, height));
        let expanded_layout = Arc::new(create_expanded_layout(width, height));
        Some(
            AppState {
                page: Page::Default(Arc::clone(&default_layout)),
                brightness_value: LEVEL_SCALE / 2,
                volume_value: LEVEL_SCALE / 2,
                gesture: Gesture::Idle,
                animation_start: now_ms,
                needs_redraw: true,
                is_animating: false,
                last_input_time: now_ms,
                last_volume_update: now_ms,
                default_layout,
                fn_layout,
                expanded_layout,
                control_strip_expanded: false,
                ignore_input: false,
                width,
                height,
                has_physical_esc,
                is_shift_pressed: false,
                is_super_pressed: false,
                default_dynamic_area_bounds: bounds,
                dynamic_drawable: DynamicManager::create_clock_drawable(),
                media_button_visible: media_info.len() > 0,
                media_info_visible: false,
                active_player_index: 0,
            },
        )
    }
}

impl AppState {
    /// Dispatches one input event at `now_ms`, with `players` the media snapshot, and
    /// returns the side effects it asks for.
    pub fn handle_event(&mut self, event: InputEvent, now_ms: u64, players: &Vec<MediaInfo>) -> (effects: Vec<Effect>)
        requires
            old(self).wf(),
        ensures
            final(self).wf(),
            old(self).noted(now_ms).step_into(*final(self), effects@, event, now_ms, players@),
            event == InputEvent::Touch(TouchEvent::Up) ==> final(self).gesture is Idle,
            event matches InputEvent::Touch(TouchEvent::Motion(_)) ==> final(self).gesture
                == old(self).gesture,
            event == InputEvent::Touch(TouchEvent::Up) && old(self).gesture is Idle ==> *final(self)
                == old(self).noted(now_ms) && effects@.len() == 0,
            event is Touch && old(self).blocked() ==> *final(self) == old(self).noted(now_ms)
                && effects@.len() == 0,
    {
        if !self.ignore_input {
            self.last_input_time = now_ms;
        }
        match event {
            InputEvent::Touch(t) => {
                if self.is_animating || self.ignore_input {
                    return Vec::new();
                }
                match t {
                    TouchEvent::Down(raw) => {
                        let sx = touch_position(raw, self.width);
                        self.handle_touch_down(sx, now_ms, players);
                        Vec::new()
                    },
                    TouchEvent::Motion(raw) => {
                        let sx = touch_position(raw, self.width);
                        self.handle_touch_motion(sx);
                        Vec::new()
                    },
                    TouchEvent::Up => self.handle_touch_up(now_ms, players),
                }
            },
            InputEvent::FnKeyPressed => {
                self.handle_fn_key(true);
                Vec::new()
            },
            InputEvent::FnKeyReleased => {
                self.handle_fn_key(false);
                Vec::new()
            },
            InputEvent::KeyPressed(code) => self.handle_key_press(code),
            InputEvent::KeyReleased(code) => {
                self.handle_key_release(code);
                Vec::new()
            },
        }
    }

    fn handle_fn_key(&mut self, pressed: bool)
        requires
            old(self).wf(),
        ensures
            final(self).wf(),
            old(self).blocked() ==> *final(self) == *old(self),
            !old(self).blocked() ==> old(self).fn_key_into(*final(self), pressed),
    {
        if self.is_animating || self.ignore_input {
            return;
        }
        self.gesture = Gesture::Idle;
        if pressed {
            self.page = Page::FnKeys(Arc::clone(&self.fn_layout));
        } else if self.control_strip_expanded {
            self.page = Page::Default(Arc::clone(&self.expanded_layout));
        } else {
            self.page = Page::Default(Arc::clone(&self.default_layout));
        }
        self.needs_redraw = true;
    }

    fn handle_page_down(&mut self, sx: i64, now_ms: u64)
        requires
            old(self).wf(),
            !old(self).blocked(),
        ensures
            final(self).wf(),
            old(self).page_down_into(*final(self), sx as int, now_ms),
    {
        match &self.page {
            Page::BrightnessSlider(sl) => {
                let mut slider = *sl;
                if slider.is_hit(sx) {
                    slider.update_value(sx);
                    self.brightness_value = slider.value;
                    self.page = Page::BrightnessSlider(slider);
                    self.gesture = Gesture::SliderDrag;
                } else {
                    self.page = Page::BrightnessSliderClosing(slider);
                    self.animation_start = now_ms;
                    self.is_animating = true;
                    self.gesture = Gesture::Idle;
                }
                self.needs_redraw = true;
            },
            Page::VolumeSlider(sl) => {
                let mut slider = *sl;
                if slider.is_hit(sx) {
                    slider.update_value(sx);
                    self.volume_value = slider.value;
                    self.page = Page::VolumeSlider(slider);
                    self.gesture = Gesture::SliderDrag;
                } else {
                    self.page = Page::VolumeSliderClosing(slider);
                    self.animation_start = now_ms;
                    self.is_animating = true;
                    self.gesture = Gesture::Idle;
                }
                self.needs_redraw = true;
            },
            _ => {
                if let Some(i) = page_hit(&self.page, sx) {
                    self.gesture = Gesture::ButtonDown { button_index: i };
                    self.needs_redraw = true;
                }
            },
        }
    }

    fn handle_touch_down(&mut self, sx: i64, now_ms: u64, players: &Vec<MediaInfo>)
        requires
            old(self).wf(),
            !old(self).blocked(),
        ensures
            final(self).wf(),
            old(self).down_into(*final(self), sx as int, now_ms, players@),
    {
        if self.media_info_visible && matches!(self.page, Page::Default(_)) && !self.control_strip_expanded {
            let b = self.default_dynamic_area_bounds;
            let scrubber = self.dynamic_drawable.scrubber_bounds(&b);
            match &self.dynamic_drawable {
                DynamicDrawable::Media { primary_info, secondary_info } => {
                    let slot = icon_slot_of(b.height);
                    let p: i64 = if !primary_info.icon_name.as_str().is_empty() {
                        slot
                    } else {
                        0
                    };
                    if span_contains(sx, b.x, p) {
                        let n = players.len();
                        if n > 1 {
                            self.active_player_index = ((self.active_player_index as u128 + 1)
                                % n as u128) as usize;
                            self.needs_redraw = true;
                        }
                        return;
                    }
                    if secondary_info.is_some() && span_contains(sx, b.x + p, slot) {
                        return;
                    }
                    if let Some(sb) = scrubber {
                        if span_contains(sx, sb.x, sb.width) {
                            let id = primary_info.player_id.clone();
                            self.gesture = Gesture::ScrubberDrag { player_id: id };
                            self.needs_redraw = true;
                            return;
                        }
                    }
                },
                DynamicDrawable::Clock(_) => {},
            }
        }
        self.handle_page_down(sx, now_ms);
    }

    fn handle_touch_motion(&mut self, sx: i64)
        requires
            old(self).wf(),
            !old(self).blocked(),
        ensures
            final(self).wf(),
            old(self).motion_into(*final(self), sx as int),
    {
        match &self.gesture {
            Gesture::SliderDrag => match &self.page {
                Page::BrightnessSlider(sl) => {
                    let mut slider = *sl;
                    slider.update_value(sx);
                    self.brightness_value = slider.value;
                    self.page = Page::BrightnessSlider(slider);
                    self.needs_redraw = true;
                },
                Page::VolumeSlider(sl) => {
                    let mut slider = *sl;
                    slider.update_value(sx);
                    self.volume_value = slider.value;
                    self.page = Page::VolumeSlider(slider);
                    self.needs_redraw = true;
                },
                _ => {},
            },
            Gesture::ScrubberDrag { .. } => {
                if self.control_strip_expanded {
                    return;
                }
                let found = self.dynamic_drawable.scrubber_bounds(&self.default_dynamic_area_bounds);
                if let Some(sb) = found {
                    let level = level_for(sx, sb.x, sb.width);
                    match &mut self.dynamic_drawable {
                        DynamicDrawable::Media { primary_info, .. } => {
                            let pos = scrub_to(level, primary_info.duration_usecs);
                            primary_info.set_position(pos);
                            self.needs_redraw = true;
                        },
                        DynamicDrawable::Clock(_) => {},
                    }
                }
            },
            _ => {},
        }
    }

    fn perform_action(&mut self, k: Key, now_ms: u64, players: &Vec<MediaInfo>) -> (effects: Vec<Effect>)
        requires
            old(self).wf(),
            !old(self).blocked(),
        ensures
            final(self).wf(),
            old(self).action_into(*final(self), effects@, k, now_ms, players@),
    {
        let mut effects: Vec<Effect> = Vec::new();
        self.gesture = Gesture::Idle;
        self.needs_redraw = true;
        if self.control_strip_expanded {
            if k == Key::Close || k == Key::Stop {
                self.collapse_control_strip(now_ms);
            } else {
                effects.push(Effect::KeyTap(k));
            }
        } else if k == Key::Unknown {
            self.control_strip_expanded = true;
            self.page = Page::ControlStripExpanding(Arc::clone(&self.expanded_layout));
            self.animation_start = now_ms;
            self.is_animating = true;
            self.ignore_input = true;
        } else if k == Key::BrightnessDown || k == Key::BrightnessUp {
            self.page = Page::BrightnessSlider(
                create_brightness_slider_layout(self.width, self.height, self.brightness_value),
            );
            self.animation_start = now_ms;
            self.is_animating = true;
        } else if k == Key::VolumeUp || k == Key::VolumeDown {
            self.page = Page::VolumeSlider(
                create_volume_slider_layout(self.width, self.height, self.volume_value),
            );
            self.animation_start = now_ms;
            self.is_animating = true;
        } else if k == Key::Stop {
            self.media_info_visible = !self.media_info_visible;
            self.animation_start = now_ms;
            self.is_animating = true;
            if self.media_info_visible {
                if players.len() > 0 {
                    self.dynamic_drawable = DynamicManager::create_media_drawable(
                        players,
                        self.active_player_index,
                    );
                }
                self.page = Page::MediaInfoShowing(Arc::clone(&self.default_layout));
            } else {
                self.page = Page::MediaInfoHiding(Arc::clone(&self.default_layout));
            }
        } else {
            effects.push(Effect::KeyTap(k));
        }
        effects
    }

    fn handle_touch_up(&mut self, now_ms: u64, players: &Vec<MediaInfo>) -> (effects: Vec<Effect>)
        requires
            old(self).wf(),
            !old(self).blocked(),
        ensures
            final(self).wf(),
            old(self).up_into(*final(self), effects@, now_ms, players@),
    {
        let mut effects: Vec<Effect> = Vec::new();
        match &self.gesture {
            Gesture::Idle => {
                return effects;
            },
            Gesture::ScrubberDrag { .. } => {
                if !self.control_strip_expanded {
                    if let DynamicDrawable::Media { primary_info, .. } = &self.dynamic_drawable {
                        effects.push(
                            Effect::Seek {
                                player_id: primary_info.player_id.clone(),
                                position_usecs: primary_info.position_usecs,
                            },
                        );
                    }
                }
            },
            Gesture::ButtonDown { button_index } => {
                if let Some(k) = pressed_key(&self.page, *button_index) {
                    return self.perform_action(k, now_ms, players);
                }
            },
            Gesture::SliderDrag => {
                if let Page::VolumeSlider(sl) = &self.page {
                    self.volume_value = sl.value;
                    self.last_volume_update = now_ms;
                }
            },
        }
        self.gesture = Gesture::Idle;
        self.needs_redraw = true;
        effects
    }

    fn handle_key_press(&mut self, code: u16) -> (effects: Vec<Effect>)
        requires
            old(self).wf(),
        ensures
            final(self).wf(),
            old(self).key_press_into(*final(self), effects@, code),
    {
        let mut effects: Vec<Effect> = Vec::new();
        if code == KEY_LEFTSHIFT || code == KEY_RIGHTSHIFT {
            self.is_shift_pressed = true;
        } else if code == KEY_LEFTMETA || code == KEY_RIGHTMETA {
            self.is_super_pressed = true;
        } else if code == KEY_6 && self.is_super_pressed && self.is_shift_pressed {
            effects.push(Effect::Screenshot);
        }
        effects
    }

    fn handle_key_release(&mut self, code: u16)
        requires
            old(self).wf(),
        ensures
            final(self).wf(),
            old(self).key_release_into(*final(self), code),
    {
        if code == KEY_LEFTSHIFT || code == KEY_RIGHTSHIFT {
            self.is_shift_pressed = false;
        } else if code == KEY_LEFTMETA || code == KEY_RIGHTMETA {
            self.is_super_pressed = false;
        }
    }
}

/// Frame budget of the render loop while a transition runs: sixty frames a second.
pub const FRAME_MS: u64 = 1000 / 60;

/// How long the render loop sleeps after a frame that took `elapsed_ms` while a
/// transition runs: the rest of the frame budget, if any.
pub fn frame_delay(elapsed_ms: u64) -> (r: u64)
    ensures
        r == if elapsed_ms < FRAME_MS { FRAME_MS - elapsed_ms } else { 0 },
{
    if elapsed_ms < FRAME_MS {
        FRAME_MS - elapsed_ms
    } else {
        0
    }
}

impl AppState {
    /// The render loop must wake: there is unseen visual state, or a transition runs.
    pub fn should_wake(&self) -> (r: bool)
        ensures
            r == (self.needs_redraw || self.is_animating),
    {
        self.needs_redraw || self.is_animating
    }

    /// The render loop's step under the lock at `now_ms`: settle a finished transition,
    /// then return the progress to draw with; once nothing animates the frame counts as
    /// seen.
    pub fn begin_frame(&mut self, now_ms: u64) -> (r: u32)
        requires
            old(self).wf(),
        ensures
            final(self).wf(),
            r == final(self).progress(now_ms),
            r <= LEVEL_SCALE,
            !final(self).is_animating ==> !final(self).needs_redraw,
            final(self).is_animating ==> final(self).needs_redraw,
            !old(self).is_animating ==> *final(self) == (AppState {
                needs_redraw: false,
                ..*old(self)
            }),
            old(self).is_animating && !old(self).finished(now_ms) ==> *final(self) == (AppState {
                needs_redraw: true,
                ..*old(self)
            }),
            old(self).is_animating && old(self).finished(now_ms) ==> old(self).settled_into(
                *final(self),
            ),
    {
        self.update_animations(now_ms);
        if !self.is_animating {
            self.needs_redraw = false;
        }
        self.get_animation_progress(now_ms)
    }
}

/// Quiet time after the last volume write before the next one, in milliseconds.
pub const VOLUME_DEBOUNCE_MS: u64 = 100;

impl AppState {
    /// The volume writer's decision at `now_ms`: while the volume slider is open, push the
    /// level when it differs from the last one written (or none was) and the last push is
    /// more than `VOLUME_DEBOUNCE_MS` old.
    pub fn volume_push_due(&self, last_written: Option<u32>, now_ms: u64) -> (r: bool)
        ensures
            r == (self.page is VolumeSlider && match last_written {
                Some(l) => differs(self.volume_value as int, l as int),
                None => true,
            } && now_ms > self.last_volume_update && now_ms - self.last_volume_update
                > VOLUME_DEBOUNCE_MS),
    {
        let differ = match last_written {
            Some(l) => levels_differ(self.volume_value, l),
            None => true,
        };
        matches!(self.page, Page::VolumeSlider(_)) && differ && now_ms > self.last_volume_update
            && now_ms - self.last_volume_update > VOLUME_DEBOUNCE_MS
    }

    /// Takes in a brightness read from the system where it differs from the shown one by
    /// more than `LEVEL_EPSILON`; returns whether it did.
    pub fn apply_brightness_reading(&mut self, level: u32) -> (r: bool)
        requires
            old(self).wf(),
        ensures
            final(self).wf(),
            r == differs(level as int, old(self).brightness_value as int),
            r ==> *final(self) == (AppState {
                brightness_value: level,
                needs_redraw: true,
                ..*old(self)
            }),
            !r ==> *final(self) == *old(self),
    {
        if levels_differ(level, self.brightness_value) {
            self.brightness_value = level;
            self.needs_redraw = true;
            true
        } else {
            false
        }
    }

    /// Takes in a volume read from the system where it differs from the shown one by
    /// more than `LEVEL_EPSILON`; returns whether it did.
    pub fn apply_volume_reading(&mut self, level: u32) -> (r: bool)
        requires
            old(self).wf(),
        ensures
            final(self).wf(),
            r == differs(level as int, old(self).volume_value as int),
            r ==> *final(self) == (AppState { volume_value: level, needs_redraw: true, ..*old(self) }),
            !r ==> *final(self) == *old(self),
    {
        if levels_differ(level, self.volume_value) {
            self.volume_value = level;
            self.needs_redraw = true;
            true
        } else {
            false
        }
    }
}

impl AppState {
    /// `t` differs from `self` at most in the default page's layout and free area, the
    /// media-button flag, the page, the dynamic content and the redraw flag.
    pub open spec fn refreshed_fields(self, t: AppState) -> bool {
        t == (AppState {
            default_layout: t.default_layout,
            default_dynamic_area_bounds: t.default_dynamic_area_bounds,
            media_button_visible: t.media_button_visible,
            page: t.page,
            dynamic_drawable: t.dynamic_drawable,
            needs_redraw: t.needs_redraw,
            ..self
        })
    }

    /// The periodic refresh of the free area with `players` the media snapshot: the
    /// media widget while it is shown and players are known, else the clock; the default
    /// layout gains its media button when players appear and loses it when they go
    /// (keeping the old layout where the new one does not fit). Nothing happens during a
    /// scrubber drag. Returns whether a frame is due.
    pub fn refresh_dynamic(&mut self, players: &Vec<MediaInfo>, layout: &Layout) -> (r: bool)
        requires
            old(self).wf(),
        ensures
            final(self).wf(),
            old(self).gesture is ScrubberDrag ==> *final(self) == *old(self) && !r,
            !(old(self).gesture is ScrubberDrag) ==> {
                let grow = !old(self).media_button_visible && players@.len() > 0 && layout_fits(
                    *layout,
                    old(self).has_physical_esc,
                    players@,
                );
                let shrink = old(self).media_button_visible && players@.len() == 0
                    && layout_fits(*layout, old(self).has_physical_esc, Seq::empty());
                &&& old(self).refreshed_fields(*final(self))
                &&& grow ==> final(self).media_button_visible && is_default_layout(
                    final(self).default_layout@,
                    final(self).default_dynamic_area_bounds,
                    old(self).width as int,
                    old(self).height as int,
                    *layout,
                    old(self).has_physical_esc,
                    players@,
                )
                &&& shrink ==> !final(self).media_button_visible && is_default_layout(
                    final(self).default_layout@,
                    final(self).default_dynamic_area_bounds,
                    old(self).width as int,
                    old(self).height as int,
                    *layout,
                    old(self).has_physical_esc,
                    Seq::empty(),
                )
                &&& !grow && !shrink ==> final(self).default_layout == old(self).default_layout
                    && final(self).default_dynamic_area_bounds
                    == old(self).default_dynamic_area_bounds && final(self).media_button_visible
                    == old(self).media_button_visible && final(self).page == old(self).page
                &&& (grow || shrink) ==> final(self).page == (if old(self).page is Default {
                    Page::Default(final(self).default_layout)
                } else {
                    old(self).page
                })
                &&& old(self).media_info_visible && players@.len() > 0 ==> same_content(
                    final(self).dynamic_drawable,
                    media_widget(players@, old(self).active_player_index as int),
                )
                &&& !(old(self).media_info_visible && players@.len() > 0)
                    ==> final(self).dynamic_drawable is Clock
                &&& r ==> final(self).needs_redraw
                &&& !r ==> final(self).needs_redraw == old(self).needs_redraw
                    && final(self).dynamic_drawable == old(self).dynamic_drawable
                &&& (grow || shrink) ==> r
            },
    {
        if let Gesture::ScrubberDrag { .. } = &self.gesture {
            return false;
        }
        let fresh = if self.media_info_visible && players.len() > 0 {
            DynamicManager::create_media_drawable(players, self.active_player_index)
        } else {
            DynamicManager::create_clock_drawable()
        };
        let mut changed = false;
        if !self.media_button_visible && players.len() > 0 {
            if let Some((buttons, bounds)) = create_default_layout(
                self.width,
                self.height,
                self.has_physical_esc,
                layout,
                players,
            ) {
                self.default_layout = Arc::new(buttons);
                self.default_dynamic_area_bounds = bounds;
                self.media_button_visible = true;
                changed = true;
            }
        } else if self.media_button_visible && players.len() == 0 {
            let none: Vec<MediaInfo> = Vec::new();
            if let Some((buttons, bounds)) = create_default_layout(
                self.width,
                self.height,
                self.has_physical_esc,
                layout,
                &none,
            ) {
                self.default_layout = Arc::new(buttons);
                self.default_dynamic_area_bounds = bounds;
                self.media_button_visible = false;
                changed = true;
            }
        }
        if changed && matches!(self.page, Page::Default(_)) {
            self.page = Page::Default(Arc::clone(&self.default_layout));
        }
        if changed || !self.dynamic_drawable.eq(&fresh) {
            self.dynamic_drawable = fresh;
            self.needs_redraw = true;
            true
        } else {
            false
        }
    }
}

/// The idle check folds an expanded control strip away exactly as its close button
/// does: from the same state at the same time, both give the same state and neither
/// asks for a side effect.
pub proof fn lemma_idle_collapse_is_close(
    s: AppState,
    by_button: AppState,
    effects: Seq<Effect>,
    by_timeout: AppState,
    now: u64,
    players: Seq<MediaInfo>,
)
    requires
        s.control_strip_expanded,
        s.action_into(by_button, effects, Key::Close, now, players),
        s.collapsed_into(by_timeout, now),
    ensures
        by_button == by_timeout,
        effects.len() == 0,
{
}

/// A lift always ends the gesture: whatever the state, after the touch goes up no
/// gesture is in progress.
pub proof fn lemma_lift_ends_gesture(
    s: AppState,
    t: AppState,
    effects: Seq<Effect>,
    now: u64,
    players: Seq<MediaInfo>,
)
    requires
        s.wf(),
        s.step_into(t, effects, InputEvent::Touch(TouchEvent::Up), now, players),
    ensures
        t.gesture is Idle,
{
    if !s.blocked() {
        match s.gesture {
            Gesture::ButtonDown { button_index } => {
                if let Some(k) = pressed_action(s.page, button_index as int) {
                    if s.control_strip_expanded && (k == Key::Close || k == Key::Stop) {
                        assert(s.collapsed_into(t, now));
                    }
                }
            },
            _ => {},
        }
    }
}

/// Between touch-down and lift there is one gesture: moving the touch never starts,
/// ends or swaps it.
pub proof fn lemma_motion_keeps_gesture(
    s: AppState,
    t: AppState,
    effects: Seq<Effect>,
    raw: i32,
    now: u64,
    players: Seq<MediaInfo>,
)
    requires
        s.step_into(t, effects, InputEvent::Touch(TouchEvent::Motion(raw)), now, players),
    ensures
        t.gesture == s.gesture,
        effects.len() == 0,
{
}

/// A lift with no gesture in progress changes nothing and asks for nothing.
pub proof fn lemma_idle_lift_is_noop(
    s: AppState,
    t: AppState,
    effects: Seq<Effect>,
    now: u64,
    players: Seq<MediaInfo>,
)
    requires
        s.gesture is Idle,
        s.step_into(t, effects, InputEvent::Touch(TouchEvent::Up), now, players),
    ensures
        t == s,
        effects.len() == 0,
{
}

/// While a transition runs or input is ignored, touches change nothing and ask for
/// nothing.
pub proof fn lemma_blocked_touch_is_noop(
    s: AppState,
    t: AppState,
    effects: Seq<Effect>,
    e: TouchEvent,
    now: u64,
    players: Seq<MediaInfo>,
)
    requires
        s.blocked(),
        s.step_into(t, effects, InputEvent::Touch(e), now, players),
    ensures
        t == s,
        effects.len() == 0,
{
}

/// Once the control strip's transition settles, the expanded strip is up and flagged
/// expanded, or the default layout is back and the strip is flagged folded; either way
/// input is accepted again.
pub proof fn lemma_strip_settles(s: AppState, t: AppState)
    requires
        s.wf(),
        s.page is ControlStripExpanding || s.page is ControlStripClosing,
        s.settled_into(t),
    ensures
        !t.is_animating && !t.ignore_input,
        s.page is ControlStripExpanding ==> t.page == Page::Default(s.expanded_layout)
            && t.control_strip_expanded,
        s.page is ControlStripClosing ==> t.page == Page::Default(s.default_layout)
            && !t.control_strip_expanded,
{
}

/// Folding the strip away, by its close button or by the idle check, ends on the
/// default layout with the strip flagged folded and input accepted.
pub proof fn lemma_collapse_settles(s: AppState, t: AppState, u: AppState, now: u64)
    requires
        s.collapsed_into(t, now),
        t.settled_into(u),
    ensures
        u.page == Page::Default(s.default_layout),
        !u.control_strip_expanded && !u.is_animating && !u.ignore_input,
{
}

/// Lifting the touch from a brightness key opens the brightness slider, centred on the
/// panel at the current level, and starts its transition; no key is sent.
pub proof fn lemma_brightness_key_opens_slider(
    s: AppState,
    t: AppState,
    effects: Seq<Effect>,
    i: usize,
    now: u64,
    players: Seq<MediaInfo>,
)
    requires
        s.wf(),
        !s.control_strip_expanded,
        s.gesture == (Gesture::ButtonDown { button_index: i }),
        pressed_action(s.page, i as int) == Some(Key::BrightnessUp) || pressed_action(
            s.page,
            i as int,
        ) == Some(Key::BrightnessDown),
        s.step_into(t, effects, InputEvent::Touch(TouchEvent::Up), now, players),
    ensures
        t.page == Page::BrightnessSlider(
            centred_slider(s.width as int, s.brightness_value, SliderKind::Brightness),
        ),
        t.is_animating && t.animation_start == now,
        t.gesture is Idle,
        effects.len() == 0,
{
}

/// Dragging on the open brightness slider sets the brightness to the touch's clamped
/// share of the track, and lifting the touch keeps it.
pub proof fn lemma_brightness_drag_sets_level(
    s: AppState,
    t: AppState,
    u: AppState,
    effects: Seq<Effect>,
    raw: i32,
    sl: Slider,
    now: u64,
    players: Seq<MediaInfo>,
)
    requires
        s.wf(),
        !s.blocked(),
        s.gesture is SliderDrag,
        s.page == Page::BrightnessSlider(sl),
        s.step_into(t, Seq::empty(), InputEvent::Touch(TouchEvent::Motion(raw)), now, players),
        t.step_into(u, effects, InputEvent::Touch(TouchEvent::Up), now, players),
    ensures
        t.brightness_value == level_at(
            touch_scaled(raw as int, s.width as int),
            sl.x as int,
            sl.width as int,
        ),
        u.brightness_value == t.brightness_value,
        u.page == t.page,
        u.gesture is Idle,
        effects.len() == 0,
{
    lemma_level_in_range(touch_scaled(raw as int, s.width as int), sl.x as int, sl.width as int);
}

proof fn lemma_level_in_range(sx: int, x: int, width: int)
    ensures
        0 <= level_at(sx, x, width) <= LEVEL_SCALE,
{
    let num = sx - x * 32767;
    let den = width * 32767;
    if width > 0 && 0 < num < den {
        assert(0 <= num * 10000 / den <= 10000) by (nonlinear_arith)
            requires
                0 < num < den,
        ;
    }
}

/// On the media widget, a tap on the primary player's icon makes the next known player
/// primary, round the list; nothing else changes but the frame.
pub proof fn lemma_primary_tap_cycles(
    s: AppState,
    t: AppState,
    effects: Seq<Effect>,
    raw: i32,
    now: u64,
    players: Seq<MediaInfo>,
)
    requires
        s.wf(),
        !s.blocked(),
        s.media_area_live(),
        s.dynamic_drawable->primary_info.icon_name@.len() > 0,
        players.len() > 1,
        span_hit(
            touch_scaled(raw as int, s.width as int),
            s.default_dynamic_area_bounds.x as int,
            icon_slot(s.height as int),
        ),
        s.step_into(t, effects, InputEvent::Touch(TouchEvent::Down(raw)), now, players),
    ensures
        t == (AppState {
            active_player_index: ((s.active_player_index + 1) % (players.len() as int)) as usize,
            needs_redraw: true,
            ..s
        }),
        effects.len() == 0,
{
}

fn first_hit_index(bs: &Vec<Button>, sx: i64) -> (r: Option<usize>)
    ensures
        r matches Some(i) ==> first_hit(bs@, sx as int, 0) == Some(i as int),
        r is None ==> first_hit(bs@, sx as int, 0) is None,
{
    let mut k: usize = 0;
    while k < bs.len()
        invariant
            k <= bs@.len(),
            first_hit(bs@, sx as int, 0) == first_hit(bs@, sx as int, k as int),
        decreases bs@.len() - k,
    {
        if bs[k].is_hit(sx) {
            return Some(k);
        }
        k = k + 1;
    }
    None
}

fn pressed_key(page: &Page, i: usize) -> (r: Option<Key>)
    ensures
        r == pressed_action(*page, i as int),
{
    match page {
        Page::Default(bs) | Page::FnKeys(bs) | Page::ControlStripExpanding(bs)
        | Page::ControlStripClosing(bs) => {
            if i < bs.len() {
                Some(bs[i].action)
            } else {
                None
            }
        },
        _ => None,
    }
}

fn page_hit(page: &Page, sx: i64) -> (r: Option<usize>)
    ensures
        page_buttons(*page) is None ==> r is None,
        page_buttons(*page) matches Some(bs) ==> (r matches Some(i) ==> first_hit(bs, sx as int, 0)
            == Some(i as int)) && (r is None ==> first_hit(bs, sx as int, 0) is None),
{
    match page {
        Page::Default(bs) | Page::FnKeys(bs) | Page::ControlStripExpanding(bs)
        | Page::ControlStripClosing(bs) => first_hit_index(bs, sx),
        _ => None,
    }
}

/// A scrubber level's share of `duration`, rounded toward zero.
fn scrub_to(level: u32, duration: i64) -> (r: i64)
    requires
        level <= LEVEL_SCALE,
    ensures
        r == scrub_position(level as int, duration as int),
{
    let l = level as i128;
    let d = duration as i128;
    if d >= 0 {
        assert(0 <= l * d / 10000 <= d) by (nonlinear_arith)
            requires
                0 <= l <= 10000,
                d >= 0,
        ;
        (l * d / LEVEL_SCALE as i128) as i64
    } else {
        assert(0 <= l * (-d) / 10000 <= -d) by (nonlinear_arith)
            requires
                0 <= l <= 10000,
                d < 0,
        ;
        (-(l * (-d) / LEVEL_SCALE as i128)) as i64
    }
}

fn is_opening_page(p: &Page) -> (r: bool)
    ensures
        r == is_opening(*p),
{
    match p {
        Page::BrightnessSlider(_)
        | Page::VolumeSlider(_)
        | Page::ControlStripExpanding(_)
        | Page::MediaInfoShowing(_) => true,
        _ => false,
    }
}

fn is_closing_page(p: &Page) -> (r: bool)
    ensures
        r == is_closing(*p),
{
    match p {
        Page::BrightnessSliderClosing(_)
        | Page::VolumeSliderClosing(_)
        | Page::ControlStripClosing(_)
        | Page::MediaInfoHiding(_) => true,
        _ => false,
    }
}

proof fn lemma_eased_bounds(e: int)
    requires
        0 <= e <= ANIMATION_MS,
    ensures
        0 <= eased(e) <= LEVEL_SCALE,
        e == ANIMATION_MS ==> eased(e) == LEVEL_SCALE,
        e < ANIMATION_MS ==> eased(e) < LEVEL_SCALE,
        e == 0 ==> eased(e) == 0,
{
    if 2 * e < 350 {
        assert(eased(e) == 20000 * e * e / 122500);
        assert(0 <= 20000 * e * e / 122500 <= 4943) by (nonlinear_arith)
            requires
                0 <= e <= 174,
        ;
        if e == 0 {
            assert(20000 * e * e == 0) by (nonlinear_arith)
                requires
                    e == 0,
            ;
        }
    } else {
        assert(eased(e) == 10000 - (20000 * (350 - e) * (350 - e) + 122499) / 122500);
        assert(0 <= (20000 * (350 - e) * (350 - e) + 122499) / 122500 <= 5000) by (nonlinear_arith)
            requires
                175 <= e <= 350,
        ;
        if e == 350 {
            assert(20000 * (350 - e) * (350 - e) == 0) by (nonlinear_arith)
                requires
                    e == 350,
            ;
        } else {
            assert((20000 * (350 - e) * (350 - e) + 122499) / 122500 >= 1) by (nonlinear_arith)
                requires
                    175 <= e < 350,
            ;
        }
    }
}

proof fn lemma_eased_monotone(e1: int, e2: int)
    requires
        0 <= e1 <= e2 <= ANIMATION_MS,
    ensures
        eased(e1) <= eased(e2),
{
    if 2 * e2 < 350 {
        assert(eased(e1) == 20000 * e1 * e1 / 122500);
        assert(eased(e2) == 20000 * e2 * e2 / 122500);
        assert(20000 * e1 * e1 / 122500 <= 20000 * e2 * e2 / 122500) by (nonlinear_arith)
            requires
                0 <= e1 <= e2,
        ;
    } else if 2 * e1 < 350 {
        lemma_eased_bounds(e1);
        assert(eased(e1) == 20000 * e1 * e1 / 122500);
        assert(20000 * e1 * e1 / 122500 <= 4943) by (nonlinear_arith)
            requires
                0 <= e1 <= 174,
        ;
        assert(eased(e2) == 10000 - (20000 * (350 - e2) * (350 - e2) + 122499) / 122500);
        assert((20000 * (350 - e2) * (350 - e2) + 122499) / 122500 <= 5000) by (nonlinear_arith)
            requires
                175 <= e2 <= 350,
        ;
    } else {
        assert(eased(e1) == 10000 - (20000 * (350 - e1) * (350 - e1) + 122499) / 122500);
        assert(eased(e2) == 10000 - (20000 * (350 - e2) * (350 - e2) + 122499) / 122500);
        assert((20000 * (350 - e2) * (350 - e2) + 122499) / 122500 <= (20000 * (350 - e1) * (350 - e1) + 122499) / 122500)
            by (nonlinear_arith)
            requires
                175 <= e1 <= e2 <= 350,
        ;
    }
}

/// Transition progress depends on wall-clock time alone: it stays within
/// `[0, LEVEL_SCALE]`, never falls as time passes on a page being shown, never rises on a
/// page being hidden, and a shown page is complete once its full length has run.
pub proof fn lemma_progress_monotone(s: AppState, t1: u64, t2: u64)
    requires
        t1 <= t2,
    ensures
        0 <= s.progress(t1) <= LEVEL_SCALE,
        s.is_animating && is_opening(s.page) ==> s.progress(t1) <= s.progress(t2),
        s.is_animating && is_closing(s.page) ==> s.progress(t1) >= s.progress(t2),
        s.is_animating && is_opening(s.page) && t1 >= s.animation_start + ANIMATION_MS
            ==> s.progress(t1) == LEVEL_SCALE,
        s.is_animating && is_closing(s.page) && t1 >= s.animation_start + ANIMATION_MS
            ==> s.progress(t1) == 0,
{
    let e1 = elapsed(s.animation_start, t1);
    let e2 = elapsed(s.animation_start, t2);
    assert(0 <= e1 <= e2 <= ANIMATION_MS);
    lemma_eased_bounds(e1);
    lemma_eased_monotone(e1, e2);
}

/// A transition reaches its terminal bound exactly when its full length has run: a
/// page being shown or hidden settles at `ANIMATION_MS` and not a millisecond before, so
/// the tick of `update_animations` that finds it there settles it (and, with nothing
/// animating any more, later ticks leave the state as it is).
pub proof fn lemma_settles_once(s: AppState, now: u64)
    requires
        s.is_animating,
        is_opening(s.page) || is_closing(s.page),
    ensures
        s.finished(now) <==> now >= s.animation_start + ANIMATION_MS,
{
    let e = elapsed(s.animation_start, now);
    lemma_eased_bounds(e);
}

fn ease(e: u64) -> (r: u32)
    requires
        e <= ANIMATION_MS,
    ensures
        r == eased(e as int),
        r <= LEVEL_SCALE,
{
    proof {
        lemma_eased_bounds(e as int);
    }
    let d: u64 = ANIMATION_MS;
    let s: u64 = LEVEL_SCALE as u64;
    if 2 * e < d {
        assert(2 * s * e * e <= 20000 * 350 * 350) by (nonlinear_arith)
            requires
                e <= 350,
                s == 10000,
        ;
        (2 * s * e * e / (d * d)) as u32
    } else {
        assert(2 * s * (d - e) * (d - e) <= 20000 * 175 * 175) by (nonlinear_arith)
            requires
                175 <= e <= 350,
                d == 350,
                s == 10000,
        ;
        (s - (2 * s * (d - e) * (d - e) + d * d - 1) / (d * d)) as u32
    }
}

} // verus!
