pub use crate::config::ButtonRenderMode;
use crate::config::{ButtonConfig, ConfigView, Layout};
use crate::dynamic::Rect;
use crate::media::MediaInfo;
use std::sync::Arc;
use vstd::prelude::*;

verus! {

/// Largest raw coordinate that the touch digitiser reports across the panel.
pub const TOUCH_MAX: i64 = 32767;

/// Fixed-point scale of a slider level: `LEVEL_SCALE` stands for 1.0.
pub const LEVEL_SCALE: u32 = 10000;

/// A key that a button can emit, or the control-strip toggle (`Unknown`).
#[derive(Clone, Copy, Debug, PartialEq, Eq, Structural)]
pub enum Key {
    Esc,
    BrightnessDown,
    BrightnessUp,
    VolumeUp,
    VolumeDown,
    Mute,
    F1,
    F2,
    F3,
    F4,
    F5,
    F6,
    F7,
    F8,
    F9,
    F10,
    F11,
    F12,
    F13,
    PreviousSong,
    PlayPause,
    NextSong,
    Stop,
    Close,
    Unknown,
}

#[derive(Clone, Copy, Debug, PartialEq, Eq, Structural)]
pub enum RoundedCorners {
    All,
    Left,
    Right,
    Square,
}

/// What a button shows: a text label, or the name of an icon that the renderer resolves.
#[derive(Clone, Debug)]
pub enum ButtonContent {
    Text(String),
    Icon(String),
}

/// A button of a layout; `x` and `width` are in panel pixels.
#[derive(Clone, Debug)]
pub struct Button {
    pub content: ButtonContent,
    pub action: Key,
    pub x: i64,
    pub width: i64,
    pub rounded_corners: RoundedCorners,
    pub render_mode: ButtonRenderMode,
}

/// A touch coordinate `sx` is a panel position in units of `1 / TOUCH_MAX` pixel
/// (the raw coordinate times the panel width), so that hit tests are exact.
pub open spec fn scaled(px: int) -> int {
    px * TOUCH_MAX
}

/// The scaled position of raw touch coordinate `raw` on a panel `width` pixels wide.
pub open spec fn touch_scaled(raw: int, width: int) -> int {
    raw * width
}

pub fn touch_position(raw: i32, width: i32) -> (r: i64)
    ensures
        r == touch_scaled(raw as int, width as int),
{
    assert(-0x8000_0000 * 0x7fff_ffff <= raw * width <= 0x8000_0000 * 0x8000_0000) by (nonlinear_arith)
        requires
            -0x8000_0000 <= raw <= 0x7fff_ffff,
            -0x8000_0000 <= width <= 0x7fff_ffff,
    ;
    raw as i64 * width as i64
}

/// `px` pixels in scaled units; an `i128` holds the product for every `i64`.
fn scale_px(px: i128) -> (r: i128)
    requires
        -0x4_0000_0000_0000_0000 <= px <= 0x4_0000_0000_0000_0000,
    ensures
        r == scaled(px as int),
        -0x4_0000_0000_0000_0000 * 32767 <= r <= 0x4_0000_0000_0000_0000 * 32767,
{
    assert(-0x4_0000_0000_0000_0000 * 32767 <= px * 32767 <= 0x4_0000_0000_0000_0000 * 32767)
        by (nonlinear_arith)
        requires
            -0x4_0000_0000_0000_0000 <= px <= 0x4_0000_0000_0000_0000,
    ;
    px * TOUCH_MAX as i128
}

/// `sx` lies within `[x, x + width]`.
pub open spec fn span_hit(sx: int, x: int, width: int) -> bool {
    scaled(x) <= sx && sx <= scaled(x + width)
}

/// Whether the scaled touch position `sx` lies within `[x, x + width]`.
pub fn span_contains(sx: i64, x: i64, width: i64) -> (r: bool)
    ensures
        r == span_hit(sx as int, x as int, width as int),
{
    let lo = scale_px(x as i128);
    let hi = scale_px(x as i128 + width as i128);
    lo <= sx as i128 && sx as i128 <= hi
}

impl Button {
    pub fn is_hit(&self, sx: i64) -> (r: bool)
        ensures
            r == span_hit(sx as int, self.x as int, self.width as int),
    {
        span_contains(sx, self.x, self.width)
    }
}

#[derive(Clone, Copy, Debug, PartialEq, Eq, Structural)]
pub enum SliderKind {
    Brightness,
    Volume,
}

/// A horizontal slider; `x` and `width` are in panel pixels, `value` is a level scaled by
/// `LEVEL_SCALE`.
#[derive(Clone, Copy, Debug, PartialEq, Eq, Structural)]
pub struct Slider {
    pub x: i64,
    pub width: i64,
    pub value: u32,
    pub kind: SliderKind,
}

/// The level of a slider track at `[x, x + width]` for a touch at scaled position `sx`:
/// the fraction `(sx - x) / width`, clamped to `[0, 1]` and scaled by `LEVEL_SCALE`.
/// A track without length is a step: full right of `x`, empty elsewhere.
pub open spec fn level_at(sx: int, x: int, width: int) -> int {
    let num = sx - scaled(x);
    let den = scaled(width);
    if width <= 0 {
        if num > 0 { LEVEL_SCALE as int } else { 0 }
    } else if num <= 0 {
        0
    } else if num >= den {
        LEVEL_SCALE as int
    } else {
        num * LEVEL_SCALE / den
    }
}

/// The level of a slider track at `[x, x + width]` for a touch at scaled position `sx`.
pub fn level_for(sx: i64, x: i64, width: i64) -> (r: u32)
    ensures
        r == level_at(sx as int, x as int, width as int),
        r <= LEVEL_SCALE,
{
    let num: i128 = sx as i128 - scale_px(x as i128);
    let den: i128 = scale_px(width as i128);
    if width <= 0 {
        if num > 0 { LEVEL_SCALE } else { 0 }
    } else if num <= 0 {
        0
    } else if num >= den {
        LEVEL_SCALE
    } else {
        let ghost n = num as int;
        let ghost d = den as int;
        assert(0 <= n * 10000 / d < 10000 && n * 10000 < d * 10000) by (nonlinear_arith)
            requires
                0 < n < d,
        ;
        (num * LEVEL_SCALE as i128 / den) as u32
    }
}

impl Slider {
    /// The touch lies on the track `[x, x + width]`.
    pub fn is_hit(&self, sx: i64) -> (r: bool)
        ensures
            r == span_hit(sx as int, self.x as int, self.width as int),
    {
        span_contains(sx, self.x, self.width)
    }

    pub fn update_value(&mut self, sx: i64)
        ensures
            final(self).value == level_at(sx as int, old(self).x as int, old(self).width as int),
            final(self).value <= LEVEL_SCALE,
            final(self).x == old(self).x,
            final(self).width == old(self).width,
            final(self).kind == old(self).kind,
    {
        let v = level_for(sx, self.x, self.width);
        self.value = v;
    }
}

#[derive(Clone, Debug)]
pub enum Page {
    Default(Arc<Vec<Button>>),
    FnKeys(Arc<Vec<Button>>),
    BrightnessSlider(Slider),
    BrightnessSliderClosing(Slider),
    VolumeSlider(Slider),
    VolumeSliderClosing(Slider),
    ControlStripExpanding(Arc<Vec<Button>>),
    ControlStripClosing(Arc<Vec<Button>>),
    MediaInfoShowing(Arc<Vec<Button>>),
    MediaInfoHiding(Arc<Vec<Button>>),
}


/// Gap, in pixels, between function keys.
pub const FN_KEY_SPACING: i64 = 10;

/// Number of function keys on the function-row page.
pub const FN_KEY_COUNT: usize = 12;

/// Width of each function key on a panel `width` pixels wide: the panel shared among the
/// twelve keys after the gaps, rounded down; none where the gaps alone do not fit.
pub open spec fn fn_key_width(width: int) -> int {
    if width >= 11 * FN_KEY_SPACING {
        (width - 11 * FN_KEY_SPACING) / 12
    } else {
        0
    }
}

/// The key of function-row position `i` (F1 first).
pub open spec fn fn_key(i: int) -> Key {
    if i == 0 {
        Key::F1
    } else if i == 1 {
        Key::F2
    } else if i == 2 {
        Key::F3
    } else if i == 3 {
        Key::F4
    } else if i == 4 {
        Key::F5
    } else if i == 5 {
        Key::F6
    } else if i == 6 {
        Key::F7
    } else if i == 7 {
        Key::F8
    } else if i == 8 {
        Key::F9
    } else if i == 9 {
        Key::F10
    } else if i == 10 {
        Key::F11
    } else {
        Key::F12
    }
}

/// The label of function-row position `i`.
pub open spec fn fn_label(i: int) -> Seq<char> {
    if i == 0 {
        "F1"@
    } else if i == 1 {
        "F2"@
    } else if i == 2 {
        "F3"@
    } else if i == 3 {
        "F4"@
    } else if i == 4 {
        "F5"@
    } else if i == 5 {
        "F6"@
    } else if i == 6 {
        "F7"@
    } else if i == 7 {
        "F8"@
    } else if i == 8 {
        "F9"@
    } else if i == 9 {
        "F10"@
    } else if i == 10 {
        "F11"@
    } else {
        "F12"@
    }
}

/// `b` shows text `label`.
pub open spec fn shows_text(b: Button, label: Seq<char>) -> bool {
    b.content matches ButtonContent::Text(t) && t@ == label
}

/// `b` shows the icon named `name`.
pub open spec fn shows_icon(b: Button, name: Seq<char>) -> bool {
    b.content matches ButtonContent::Icon(n) && n@ == name
}

/// `bs` is the function-row page of a panel `width` pixels wide.
pub open spec fn is_fn_layout(bs: Seq<Button>, width: int) -> bool {
    &&& bs.len() == FN_KEY_COUNT
    &&& forall|i: int|
        0 <= i < FN_KEY_COUNT ==> {
            let b = #[trigger] bs[i];
            &&& b.x == i * (fn_key_width(width) + FN_KEY_SPACING)
            &&& b.width == fn_key_width(width)
            &&& b.action == fn_key(i)
            &&& shows_text(b, fn_label(i))
            &&& b.rounded_corners == RoundedCorners::All
            &&& b.render_mode == ButtonRenderMode::Mask
        }
}

/// The function-row page: F1 to F12 side by side, `FN_KEY_SPACING` apart.
pub fn create_fn_layout(width: i32, _height: i32) -> (r: Vec<Button>)
    ensures
        is_fn_layout(r@, width as int),
{
    let w: i64 = if width as i64 >= 11 * FN_KEY_SPACING {
        (width as i64 - 11 * FN_KEY_SPACING) / 12
    } else {
        0
    };
    let labels: [&str; 12] = ["F1", "F2", "F3", "F4", "F5", "F6", "F7", "F8", "F9", "F10", "F11", "F12"];
    let keys: [Key; 12] = [
        Key::F1,
        Key::F2,
        Key::F3,
        Key::F4,
        Key::F5,
        Key::F6,
        Key::F7,
        Key::F8,
        Key::F9,
        Key::F10,
        Key::F11,
        Key::F12,
    ];
    let mut buttons: Vec<Button> = Vec::new();
    let mut i: usize = 0;
    while i < FN_KEY_COUNT
        invariant
            i <= FN_KEY_COUNT,
            w == fn_key_width(width as int),
            0 <= w <= 0x1000_0000,
            forall|k: int| 0 <= k < 12 ==> (#[trigger] labels@[k])@ == fn_label(k),
            forall|k: int| 0 <= k < 12 ==> #[trigger] keys@[k] == fn_key(k),
            buttons@.len() == i,
            forall|k: int|
                0 <= k < i ==> {
                    let b = #[trigger] buttons@[k];
                    &&& b.x == k * (w + FN_KEY_SPACING)
                    &&& b.width == w
                    &&& b.action == fn_key(k)
                    &&& shows_text(b, fn_label(k))
                    &&& b.rounded_corners == RoundedCorners::All
                    &&& b.render_mode == ButtonRenderMode::Mask
                },
        decreases FN_KEY_COUNT - i,
    {
        assert(0 <= i * (w + 10) <= 12 * 0x1000_0010) by (nonlinear_arith)
            requires
                0 <= i <= 12,
                0 <= w <= 0x1000_0000,
        ;
        buttons.push(
            Button {
                content: ButtonContent::Text(labels[i].to_owned()),
                action: keys[i],
                x: i as i64 * (w + FN_KEY_SPACING),
                width: w,
                rounded_corners: RoundedCorners::All,
                render_mode: ButtonRenderMode::Mask,
            },
        );
        i = i + 1;
    }
    buttons
}

/// Width of a slider track on a panel `width` pixels wide: half the panel.
pub open spec fn slider_width(width: int) -> int {
    if width > 0 {
        width / 2
    } else {
        0
    }
}

/// Left edge of a slider track: the track is centred on the panel.
pub open spec fn slider_x(width: int) -> int {
    if width > 0 {
        (width - width / 2) / 2
    } else {
        0
    }
}

/// The slider of kind `kind` at level `value` on a panel `width` pixels wide.
pub open spec fn centred_slider(width: int, value: u32, kind: SliderKind) -> Slider {
    Slider { x: slider_x(width) as i64, width: slider_width(width) as i64, value, kind }
}

fn centred(width: i32, value: u32, kind: SliderKind) -> (r: Slider)
    ensures
        r == centred_slider(width as int, value, kind),
{
    if width > 0 {
        let w = width as i64 / 2;
        Slider { x: (width as i64 - w) / 2, width: w, value, kind }
    } else {
        Slider { x: 0, width: 0, value, kind }
    }
}

pub fn create_brightness_slider_layout(width: i32, _height: i32, value: u32) -> (r: Slider)
    ensures
        r == centred_slider(width as int, value, SliderKind::Brightness),
{
    centred(width, value, SliderKind::Brightness)
}

pub fn create_volume_slider_layout(width: i32, _height: i32, value: u32) -> (r: Slider)
    ensures
        r == centred_slider(width as int, value, SliderKind::Volume),
{
    centred(width, value, SliderKind::Volume)
}

/// Number of buttons of the expanded control strip.
pub const STRIP_BUTTON_COUNT: usize = 10;

/// Gap between two buttons of one group of the control strip.
pub const STRIP_SPACING: i64 = 2;

/// Gap between two groups of the control strip.
pub const STRIP_GROUP_SPACING: i64 = 15;

/// The icon, key and corners of control-strip button `i`.
pub open spec fn strip_entry(i: int) -> (Seq<char>, Key, RoundedCorners) {
    if i == 0 {
        ("close.svg"@, Key::Close, RoundedCorners::All)
    } else if i == 1 {
        ("brightness-down.svg"@, Key::BrightnessDown, RoundedCorners::Left)
    } else if i == 2 {
        ("brightness-up.svg"@, Key::BrightnessUp, RoundedCorners::Right)
    } else if i == 3 {
        ("mission-control.svg"@, Key::F13, RoundedCorners::All)
    } else if i == 4 {
        ("previous.svg"@, Key::PreviousSong, RoundedCorners::Left)
    } else if i == 5 {
        ("play-pause.svg"@, Key::PlayPause, RoundedCorners::Square)
    } else if i == 6 {
        ("next.svg"@, Key::NextSong, RoundedCorners::Right)
    } else if i == 7 {
        ("mute.svg"@, Key::Mute, RoundedCorners::Left)
    } else if i == 8 {
        ("volume-down.svg"@, Key::VolumeDown, RoundedCorners::Square)
    } else {
        ("volume-up.svg"@, Key::VolumeUp, RoundedCorners::Right)
    }
}

/// Control-strip button `i` closes its group (close; brightness; mission control;
/// media transport; volume).
pub open spec fn strip_group_end(i: int) -> bool {
    i == 0 || i == 2 || i == 3 || i == 6 || i == 9
}

/// The gaps to the left of control-strip button `i`.
pub open spec fn strip_gaps_before(i: int) -> int
    decreases i,
{
    if i <= 0 {
        0
    } else {
        strip_gaps_before(i - 1) + if strip_group_end(i - 1) {
            STRIP_GROUP_SPACING
        } else {
            STRIP_SPACING
        }
    }
}

/// Width of each control-strip button: the panel shared among the ten buttons after the
/// gaps, rounded down; none where the gaps alone do not fit.
pub open spec fn strip_button_width(width: int) -> int {
    let gaps = 5 * STRIP_SPACING + 4 * STRIP_GROUP_SPACING;
    if width >= gaps {
        (width - gaps) / 10
    } else {
        0
    }
}

/// `bs` is the expanded control strip of a panel `width` pixels wide.
pub open spec fn is_strip_layout(bs: Seq<Button>, width: int) -> bool {
    &&& bs.len() == STRIP_BUTTON_COUNT
    &&& forall|i: int|
        0 <= i < STRIP_BUTTON_COUNT ==> {
            let b = #[trigger] bs[i];
            &&& b.x == i * strip_button_width(width) + strip_gaps_before(i)
            &&& b.width == strip_button_width(width)
            &&& b.action == strip_entry(i).1
            &&& shows_icon(b, strip_entry(i).0)
            &&& b.rounded_corners == strip_entry(i).2
            &&& b.render_mode == ButtonRenderMode::Mask
        }
}

/// The expanded control strip: close, brightness, mission control, media transport and
/// volume groups, in that order.
pub fn create_expanded_layout(width: i32, _height: i32) -> (r: Vec<Button>)
    ensures
        is_strip_layout(r@, width as int),
{
    let gaps: i64 = 5 * STRIP_SPACING + 4 * STRIP_GROUP_SPACING;
    let w: i64 = if width as i64 >= gaps { (width as i64 - gaps) / 10 } else { 0 };
    let icons: [&str; 10] = [
        "close.svg",
        "brightness-down.svg",
        "brightness-up.svg",
        "mission-control.svg",
        "previous.svg",
        "play-pause.svg",
        "next.svg",
        "mute.svg",
        "volume-down.svg",
        "volume-up.svg",
    ];
    let keys: [Key; 10] = [
        Key::Close,
        Key::BrightnessDown,
        Key::BrightnessUp,
        Key::F13,
        Key::PreviousSong,
        Key::PlayPause,
        Key::NextSong,
        Key::Mute,
        Key::VolumeDown,
        Key::VolumeUp,
    ];
    let corners: [RoundedCorners; 10] = [
        RoundedCorners::All,
        RoundedCorners::Left,
        RoundedCorners::Right,
        RoundedCorners::All,
        RoundedCorners::Left,
        RoundedCorners::Square,
        RoundedCorners::Right,
        RoundedCorners::Left,
        RoundedCorners::Square,
        RoundedCorners::Right,
    ];
    let ends: [bool; 10] = [true, false, true, true, false, false, true, false, false, true];
    let mut buttons: Vec<Button> = Vec::new();
    let mut x: i64 = 0;
    let mut i: usize = 0;
    while i < STRIP_BUTTON_COUNT
        invariant
            i <= STRIP_BUTTON_COUNT,
            w == strip_button_width(width as int),
            0 <= w <= 0x1000_0000,
            forall|k: int| 0 <= k < 10 ==> (#[trigger] icons@[k])@ == strip_entry(k).0,
            forall|k: int| 0 <= k < 10 ==> #[trigger] keys@[k] == strip_entry(k).1,
            forall|k: int| 0 <= k < 10 ==> #[trigger] corners@[k] == strip_entry(k).2,
            forall|k: int| 0 <= k < 10 ==> #[trigger] ends@[k] == strip_group_end(k),
            x == i * w + strip_gaps_before(i as int),
            0 <= strip_gaps_before(i as int) <= 15 * i,
            buttons@.len() == i,
            forall|k: int|
                0 <= k < i ==> {
                    let b = #[trigger] buttons@[k];
                    &&& b.x == k * w + strip_gaps_before(k)
                    &&& b.width == w
                    &&& b.action == strip_entry(k).1
                    &&& shows_icon(b, strip_entry(k).0)
                    &&& b.rounded_corners == strip_entry(k).2
                    &&& b.render_mode == ButtonRenderMode::Mask
                },
        decreases STRIP_BUTTON_COUNT - i,
    {
        assert(0 <= i * w <= 10 * 0x1000_0000 && (i + 1) * w == i * w + w) by (nonlinear_arith)
            requires
                0 <= i <= 10,
                0 <= w <= 0x1000_0000,
        ;
        buttons.push(
            Button {
                content: ButtonContent::Icon(icons[i].to_owned()),
                action: keys[i],
                x,
                width: w,
                rounded_corners: corners[i],
                render_mode: ButtonRenderMode::Mask,
            },
        );
        x = x + w + if ends[i] { STRIP_GROUP_SPACING } else { STRIP_SPACING };
        i = i + 1;
    }
    buttons
}


/// The key named by a configured action; an unknown name, or the name of the strip
/// toggle, gives `Key::Unknown`, and the media toggle is `Key::Stop`.
pub open spec fn key_of(s: Seq<char>) -> Key {
    if s == "KEY_ESC"@ {
        Key::Esc
    } else if s == "KEY_BRIGHTNESSDOWN"@ {
        Key::BrightnessDown
    } else if s == "KEY_BRIGHTNESSUP"@ {
        Key::BrightnessUp
    } else if s == "KEY_VOLUMEUP"@ {
        Key::VolumeUp
    } else if s == "KEY_VOLUMEDOWN"@ {
        Key::VolumeDown
    } else if s == "KEY_MUTE"@ {
        Key::Mute
    } else if s == "KEY_F1"@ {
        Key::F1
    } else if s == "KEY_F2"@ {
        Key::F2
    } else if s == "KEY_F3"@ {
        Key::F3
    } else if s == "KEY_F4"@ {
        Key::F4
    } else if s == "KEY_F5"@ {
        Key::F5
    } else if s == "KEY_F6"@ {
        Key::F6
    } else if s == "KEY_F7"@ {
        Key::F7
    } else if s == "KEY_F8"@ {
        Key::F8
    } else if s == "KEY_F9"@ {
        Key::F9
    } else if s == "KEY_F10"@ {
        Key::F10
    } else if s == "KEY_F11"@ {
        Key::F11
    } else if s == "KEY_F12"@ {
        Key::F12
    } else if s == "KEY_F13"@ {
        Key::F13
    } else if s == "KEY_PREVIOUSSONG"@ {
        Key::PreviousSong
    } else if s == "KEY_PLAYPAUSE"@ {
        Key::PlayPause
    } else if s == "KEY_NEXTSONG"@ {
        Key::NextSong
    } else if s == "KEY_TOGGLE_MEDIA"@ {
        Key::Stop
    } else {
        Key::Unknown
    }
}

fn same_text(a: &str, b: &str) -> (r: bool)
    ensures
        r == (a@ == b@),
{
    a.to_owned() == b.to_owned()
}

/// The key that a configured action name stands for.
pub fn string_to_key(s: &str) -> (r: Key)
    ensures
        r == key_of(s@),
{
    if same_text(s, "KEY_ESC") {
        Key::Esc
    } else if same_text(s, "KEY_BRIGHTNESSDOWN") {
        Key::BrightnessDown
    } else if same_text(s, "KEY_BRIGHTNESSUP") {
        Key::BrightnessUp
    } else if same_text(s, "KEY_VOLUMEUP") {
        Key::VolumeUp
    } else if same_text(s, "KEY_VOLUMEDOWN") {
        Key::VolumeDown
    } else if same_text(s, "KEY_MUTE") {
        Key::Mute
    } else if same_text(s, "KEY_F1") {
        Key::F1
    } else if same_text(s, "KEY_F2") {
        Key::F2
    } else if same_text(s, "KEY_F3") {
        Key::F3
    } else if same_text(s, "KEY_F4") {
        Key::F4
    } else if same_text(s, "KEY_F5") {
        Key::F5
    } else if same_text(s, "KEY_F6") {
        Key::F6
    } else if same_text(s, "KEY_F7") {
        Key::F7
    } else if same_text(s, "KEY_F8") {
        Key::F8
    } else if same_text(s, "KEY_F9") {
        Key::F9
    } else if same_text(s, "KEY_F10") {
        Key::F10
    } else if same_text(s, "KEY_F11") {
        Key::F11
    } else if same_text(s, "KEY_F12") {
        Key::F12
    } else if same_text(s, "KEY_F13") {
        Key::F13
    } else if same_text(s, "KEY_PREVIOUSSONG") {
        Key::PreviousSong
    } else if same_text(s, "KEY_PLAYPAUSE") {
        Key::PlayPause
    } else if same_text(s, "KEY_NEXTSONG") {
        Key::NextSong
    } else if same_text(s, "KEY_TOGGLE_MEDIA") {
        Key::Stop
    } else {
        Key::Unknown
    }
}


/// Largest extent, in pixels, of a configured button group.
pub const LAYOUT_LIMIT: u64 = 0xffff_ffff;

/// Width of the media button that appears while a player is known.
pub const MEDIA_BUTTON_WIDTH: u32 = 80;

/// Gap between the free area of the default page and the right-hand group.
pub const DYNAMIC_AREA_GAP: i64 = 10;

/// A configured button stays unless it is an Escape key on a keyboard that has one.
pub open spec fn kept(c: ButtonConfig, has_physical_esc: bool) -> bool {
    !(key_of(c.action@) == Key::Esc && has_physical_esc)
}

/// The configured buttons that stay, in order.
pub open spec fn kept_configs(cs: Seq<ButtonConfig>, has_physical_esc: bool) -> Seq<ButtonConfig>
    decreases cs.len(),
{
    if cs.len() == 0 {
        cs
    } else {
        let rest = kept_configs(cs.drop_last(), has_physical_esc);
        if kept(cs.last(), has_physical_esc) {
            rest.push(cs.last())
        } else {
            rest
        }
    }
}

pub open spec fn views_of(cs: Seq<ButtonConfig>) -> Seq<ConfigView> {
    cs.map_values(|c: ButtonConfig| c.view_of())
}

/// The configured button that toggles the media widget, showing the player's icon.
pub open spec fn media_view(icon: Seq<char>) -> ConfigView {
    ConfigView {
        text: None,
        icon: Some(icon),
        action: "KEY_TOGGLE_MEDIA"@,
        width: MEDIA_BUTTON_WIDTH,
        render_mode: ButtonRenderMode::Color,
    }
}

/// Pixels that buttons `vs` take, each followed by a gap of `spacing`.
pub open spec fn span(vs: Seq<ConfigView>, spacing: int) -> int
    decreases vs.len(),
{
    if vs.len() == 0 {
        0
    } else {
        span(vs.drop_last(), spacing) + vs.last().width + spacing
    }
}

/// Pixels that a group takes from its first to its last button.
pub open spec fn group_width(vs: Seq<ConfigView>, spacing: int) -> int {
    if vs.len() == 0 {
        0
    } else {
        span(vs, spacing) - spacing
    }
}

/// The left-hand group of the default page.
pub open spec fn left_views(layout: Layout, has_physical_esc: bool) -> Seq<ConfigView> {
    views_of(kept_configs(layout.left.buttons@, has_physical_esc))
}

/// The right-hand group of the default page: while a player with an icon is known, its
/// media button goes second.
pub open spec fn right_views(
    layout: Layout,
    has_physical_esc: bool,
    players: Seq<MediaInfo>,
) -> Seq<ConfigView> {
    let k = views_of(kept_configs(layout.right.buttons@, has_physical_esc));
    if players.len() > 0 && players[0].icon_name@.len() > 0 {
        k.insert(if k.len() >= 1 { 1 } else { 0 }, media_view(players[0].icon_name@))
    } else {
        k
    }
}

/// Corners of button `j` of a right-hand group of `n`: the group reads as one pill.
pub open spec fn edge_corners(j: int, n: int) -> RoundedCorners {
    if n == 1 {
        RoundedCorners::All
    } else if j == 0 {
        RoundedCorners::Left
    } else if j == n - 1 {
        RoundedCorners::Right
    } else {
        RoundedCorners::Square
    }
}

/// `b` is configured button `v` placed at `x` with `corners`.
pub open spec fn placed(b: Button, v: ConfigView, x: int, corners: RoundedCorners) -> bool {
    &&& b.x == x
    &&& b.width == v.width
    &&& b.action == key_of(v.action)
    &&& b.rounded_corners == corners
    &&& b.render_mode == v.render_mode
    &&& match v.icon {
        Some(n) => shows_icon(b, n),
        None => shows_text(
            b,
            match v.text {
                Some(t) => t,
                None => Seq::empty(),
            },
        ),
    }
}

/// The default page can be laid out: each group fits in `LAYOUT_LIMIT` pixels.
pub open spec fn layout_fits(
    layout: Layout,
    has_physical_esc: bool,
    players: Seq<MediaInfo>,
) -> bool {
    &&& span(left_views(layout, has_physical_esc), layout.left.spacing as int) <= LAYOUT_LIMIT
    &&& span(right_views(layout, has_physical_esc, players), layout.right.spacing as int)
        <= LAYOUT_LIMIT
}

proof fn lemma_span_prefix(vs: Seq<ConfigView>, spacing: int, i: int, j: int)
    requires
        0 <= i <= j <= vs.len(),
        spacing >= 0,
    ensures
        0 <= span(vs.take(i), spacing) <= span(vs.take(j), spacing),
    decreases j - i,
{
    if i < j {
        lemma_span_prefix(vs, spacing, i, j - 1);
        assert(vs.take(j).drop_last() =~= vs.take(j - 1));
    } else {
        lemma_span_nonneg(vs.take(i), spacing);
    }
}

proof fn lemma_span_nonneg(vs: Seq<ConfigView>, spacing: int)
    requires
        spacing >= 0,
    ensures
        span(vs, spacing) >= 0,
    decreases vs.len(),
{
    if vs.len() > 0 {
        lemma_span_nonneg(vs.drop_last(), spacing);
    }
}

fn keep_configs(cs: &Vec<ButtonConfig>, has_physical_esc: bool) -> (r: Vec<ButtonConfig>)
    ensures
        r@ == kept_configs(cs@, has_physical_esc),
{
    let mut out: Vec<ButtonConfig> = Vec::new();
    let mut i: usize = 0;
    while i < cs.len()
        invariant
            i <= cs@.len(),
            out@ == kept_configs(cs@.take(i as int), has_physical_esc),
        decreases cs@.len() - i,
    {
        assert(cs@.take(i as int + 1).drop_last() =~= cs@.take(i as int));
        if !(string_to_key(cs[i].action.as_str()) == Key::Esc && has_physical_esc) {
            out.push(cs[i].duplicate());
        }
        i = i + 1;
    }
    assert(cs@.take(cs@.len() as int) =~= cs@);
    out
}

/// The extent of a group, where it fits in `LAYOUT_LIMIT` pixels.
fn group_extent(cs: &Vec<ButtonConfig>, spacing: u32) -> (r: Option<u64>)
    ensures
        r matches Some(v) ==> v == span(views_of(cs@), spacing as int) && v <= LAYOUT_LIMIT,
        r is None ==> span(views_of(cs@), spacing as int) > LAYOUT_LIMIT,
{
    let ghost vs = views_of(cs@);
    let mut acc: u64 = 0;
    let mut i: usize = 0;
    while i < cs.len()
        invariant
            i <= cs@.len(),
            vs == views_of(cs@),
            acc == span(vs.take(i as int), spacing as int),
            acc <= LAYOUT_LIMIT,
        decreases cs@.len() - i,
    {
        assert(vs.take(i as int + 1).drop_last() =~= vs.take(i as int));
        acc = acc + cs[i].width as u64 + spacing as u64;
        if acc > LAYOUT_LIMIT {
            proof {
                lemma_span_prefix(vs, spacing as int, i as int + 1, vs.len() as int);
                assert(vs.take(vs.len() as int) =~= vs);
            }
            return None;
        }
        i = i + 1;
    }
    assert(vs.take(vs.len() as int) =~= vs);
    Some(acc)
}

/// Appends the buttons of group `cs`, the first at `start`, each `spacing` after the
/// last; with `edges` the group's corners are rounded as one pill, else each button's.
fn place_group(out: &mut Vec<Button>, cs: &Vec<ButtonConfig>, start: i64, spacing: u32, edges: bool)
    requires
        span(views_of(cs@), spacing as int) <= LAYOUT_LIMIT,
        -0x4_0000_0000 <= start <= 0x4_0000_0000,
    ensures
        final(out)@.len() == old(out)@.len() + cs@.len(),
        forall|k: int| 0 <= k < old(out)@.len() ==> #[trigger] final(out)@[k] == old(out)@[k],
        forall|j: int|
            0 <= j < cs@.len() ==> placed(
                #[trigger] final(out)@[old(out)@.len() + j],
                cs@[j].view_of(),
                start + span(views_of(cs@).take(j), spacing as int),
                if edges {
                    edge_corners(j, cs@.len() as int)
                } else {
                    RoundedCorners::All
                },
            ),
{
    let ghost vs = views_of(cs@);
    let ghost base = old(out)@.len();
    let n = cs.len();
    let mut x: i64 = start;
    let mut i: usize = 0;
    while i < n
        invariant
            i <= n == cs@.len(),
            vs == views_of(cs@),
            span(vs, spacing as int) <= LAYOUT_LIMIT,
            -0x4_0000_0000 <= start <= 0x4_0000_0000,
            x == start + span(vs.take(i as int), spacing as int),
            out@.len() == base + i,
            forall|k: int| 0 <= k < base ==> #[trigger] out@[k] == old(out)@[k],
            forall|j: int|
                0 <= j < i ==> placed(
                    #[trigger] out@[base + j],
                    cs@[j].view_of(),
                    start + span(vs.take(j), spacing as int),
                    if edges {
                        edge_corners(j, n as int)
                    } else {
                        RoundedCorners::All
                    },
                ),
        decreases n - i,
    {
        let c = &cs[i];
        let content = match &c.icon {
            Some(name) => ButtonContent::Icon(name.clone()),
            None => ButtonContent::Text(
                match &c.text {
                    Some(t) => t.clone(),
                    None => String::new(),
                },
            ),
        };
        let corners = if !edges || n == 1 {
            RoundedCorners::All
        } else if i == 0 {
            RoundedCorners::Left
        } else if i == n - 1 {
            RoundedCorners::Right
        } else {
            RoundedCorners::Square
        };
        proof {
            lemma_span_prefix(vs, spacing as int, i as int + 1, vs.len() as int);
            assert(vs.take(vs.len() as int) =~= vs);
            assert(vs.take(i as int + 1).drop_last() =~= vs.take(i as int));
        }
        out.push(
            Button {
                content,
                action: string_to_key(c.action.as_str()),
                x,
                width: c.width as i64,
                rounded_corners: corners,
                render_mode: c.render_mode,
            },
        );
        x = x + c.width as i64 + spacing as i64;
        i = i + 1;
    }
}

/// `bs` and `bounds` are the default page laid out from `layout` on a panel `width` by
/// `height` pixels, with `players` known.
pub open spec fn is_default_layout(
    bs: Seq<Button>,
    bounds: Rect,
    width: int,
    height: int,
    layout: Layout,
    has_physical_esc: bool,
    players: Seq<MediaInfo>,
) -> bool {
    let lv = left_views(layout, has_physical_esc);
    let rv = right_views(layout, has_physical_esc, players);
    let ls = layout.left.spacing as int;
    let rs = layout.right.spacing as int;
    let start = width - group_width(rv, rs);
    &&& bs.len() == lv.len() + rv.len()
    &&& forall|i: int|
        0 <= i < lv.len() ==> placed(
            #[trigger] bs[i],
            lv[i],
            span(lv.take(i), ls),
            RoundedCorners::All,
        )
    &&& forall|j: int|
        0 <= j < rv.len() ==> placed(
            #[trigger] bs[lv.len() + j],
            rv[j],
            start + span(rv.take(j), rs),
            edge_corners(j, rv.len() as int),
        )
    &&& bounds == (Rect {
        x: group_width(lv, ls) as i64,
        y: 0,
        width: (start - group_width(lv, ls) - DYNAMIC_AREA_GAP) as i64,
        height: height as i64,
    })
    &&& bounds.in_range()
}

/// Lays out the default page from `layout`: the left group from the panel's left edge,
/// the right group flush with its right edge, and between them the free area for the
/// clock or media widget. Escape buttons are left out where the keyboard has its own
/// Escape key; while a player with an icon is known, its media button goes second in
/// the right group. Fails where a group is wider than `LAYOUT_LIMIT` pixels.
pub fn create_default_layout(
    width: i32,
    height: i32,
    has_physical_esc: bool,
    layout: &Layout,
    media_info: &Vec<MediaInfo>,
) -> (r: Option<(Vec<Button>, Rect)>)
    ensures
        r is Some <==> layout_fits(*layout, has_physical_esc, media_info@),
        r matches Some((buttons, bounds)) ==> is_default_layout(
            buttons@,
            bounds,
            width as int,
            height as int,
            *layout,
            has_physical_esc,
            media_info@,
        ),
{
    let left = keep_configs(&layout.left.buttons, has_physical_esc);
    let mut right = keep_configs(&layout.right.buttons, has_physical_esc);
    let ghost kr = right@;
    if media_info.len() > 0 && !media_info[0].icon_name.as_str().is_empty() {
        let media = ButtonConfig {
            text: None,
            icon: Some(media_info[0].icon_name.clone()),
            action: "KEY_TOGGLE_MEDIA".to_owned(),
            width: MEDIA_BUTTON_WIDTH,
            render_mode: ButtonRenderMode::Color,
        };
        let at: usize = if right.len() >= 1 { 1 } else { 0 };
        right.insert(at, media);
        assert(views_of(right@) =~= views_of(kr).insert(at as int, media_view(media_info@[0].icon_name@)));
    }
    assert(views_of(left@) == left_views(*layout, has_physical_esc));
    assert(views_of(right@) == right_views(*layout, has_physical_esc, media_info@));
    let ls = layout.left.spacing;
    let rs = layout.right.spacing;
    let left_extent = match group_extent(&left, ls) {
        Some(v) => v,
        None => return None,
    };
    let right_extent = match group_extent(&right, rs) {
        Some(v) => v,
        None => return None,
    };
    let left_width: i64 = if left.len() == 0 { 0 } else { left_extent as i64 - ls as i64 };
    let right_width: i64 = if right.len() == 0 { 0 } else { right_extent as i64 - rs as i64 };
    let start: i64 = width as i64 - right_width;
    let mut buttons: Vec<Button> = Vec::new();
    place_group(&mut buttons, &left, 0, ls, false);
    let ghost placed_left = buttons@;
    place_group(&mut buttons, &right, start, rs, true);
    let bounds = Rect {
        x: left_width,
        y: 0,
        width: start - left_width - DYNAMIC_AREA_GAP,
        height: height as i64,
    };
    proof {
        let lv = left_views(*layout, has_physical_esc);
        let rv = right_views(*layout, has_physical_esc, media_info@);
        assert(lv.len() == left@.len());
        assert(rv.len() == right@.len());
        assert(left_width == group_width(lv, ls as int));
        assert(right_width == group_width(rv, rs as int));
        assert forall|i: int| 0 <= i < lv.len() implies placed(
            #[trigger] buttons@[i],
            lv[i],
            span(lv.take(i), ls as int),
            RoundedCorners::All,
        ) by {
            assert(lv[i] == left@[i].view_of());
            assert(buttons@[i] == placed_left[i]);
            assert(placed_left[0 + i] == placed_left[i]);
        }
        assert forall|j: int| 0 <= j < rv.len() implies placed(
            #[trigger] buttons@[lv.len() + j],
            rv[j],
            start + span(rv.take(j), rs as int),
            edge_corners(j, rv.len() as int),
        ) by {
            assert(rv[j] == right@[j].view_of());
        }
    }
    Some((buttons, bounds))
}

} // verus!
