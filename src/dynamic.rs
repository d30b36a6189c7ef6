use crate::media::{same_info, MediaInfo};
use vstd::prelude::*;

verus! {

/// Bound on the magnitude of each coordinate of a region of the panel, in pixels.
pub const COORD_LIMIT: i64 = 0x100_0000_0000;

/// An axis-aligned region of the panel, in pixels.
#[derive(Clone, Copy, Debug, PartialEq, Eq, Structural)]
pub struct Rect {
    pub x: i64,
    pub y: i64,
    pub width: i64,
    pub height: i64,
}

impl Rect {
    /// Every coordinate lies within `COORD_LIMIT` of the origin.
    pub open spec fn in_range(&self) -> bool {
        -COORD_LIMIT <= self.x <= COORD_LIMIT && -COORD_LIMIT <= self.y <= COORD_LIMIT
            && -COORD_LIMIT <= self.width <= COORD_LIMIT && -COORD_LIMIT <= self.height
            <= COORD_LIMIT
    }
}

/// The content of the free area of the default page: a clock, or the media widget
/// for a primary player and, where another player is known, a secondary one.
#[derive(Clone, Debug)]
pub enum DynamicDrawable {
    Clock(String),
    Media { primary_info: MediaInfo, secondary_info: Option<MediaInfo> },
}

/// Side of a player icon in the media widget: seven tenths of the widget's height.
pub open spec fn icon_size(height: int) -> int {
    if height > 0 {
        height * 7 / 10
    } else {
        0
    }
}

/// Room that a player icon takes in the media widget, padding included.
pub open spec fn icon_slot(height: int) -> int {
    icon_size(height) + 20
}

/// The draggable playback bar of a media widget laid out in `bounds`.
pub open spec fn scrubber_of(
    bounds: Rect,
    primary_has_icon: bool,
    has_secondary: bool,
) -> Option<Rect> {
    let p = if primary_has_icon { icon_slot(bounds.height as int) } else { 0 };
    let s = if has_secondary { icon_slot(bounds.height as int) } else { 0 };
    let w = bounds.width - p - s - 10;
    if w <= 0 {
        None
    } else {
        Some(
            Rect {
                x: (bounds.x + p + s) as i64,
                y: (bounds.y + 5) as i64,
                width: w as i64,
                height: (bounds.height - 10) as i64,
            },
        )
    }
}

/// Side of a player icon, in pixels, in a media widget `height` pixels tall.
pub fn icon_size_px(height: i64) -> (r: i64)
    requires
        -COORD_LIMIT <= height <= COORD_LIMIT,
    ensures
        r == icon_size(height as int),
        0 <= r <= COORD_LIMIT,
{
    if height > 0 {
        assert(0 <= height * 7 / 10 <= height) by (nonlinear_arith)
            requires
                height > 0,
        ;
        height * 7 / 10
    } else {
        0
    }
}

pub(crate) fn icon_slot_of(height: i64) -> (r: i64)
    requires
        -COORD_LIMIT <= height <= COORD_LIMIT,
    ensures
        r == icon_slot(height as int),
        20 <= r <= COORD_LIMIT + 20,
{
    icon_size_px(height) + 20
}

/// Two contents show the same: the same clock text, or the same players.
pub open spec fn same_content(a: DynamicDrawable, b: DynamicDrawable) -> bool {
    match (a, b) {
        (DynamicDrawable::Clock(x), DynamicDrawable::Clock(y)) => x@ == y@,
        (
            DynamicDrawable::Media { primary_info: p1, secondary_info: s1 },
            DynamicDrawable::Media { primary_info: p2, secondary_info: s2 },
        ) => same_info(p1, p2) && match (s1, s2) {
            (Some(x), Some(y)) => same_info(x, y),
            (None, None) => true,
            _ => false,
        },
        _ => false,
    }
}

impl PartialEq for DynamicDrawable {
    fn eq(&self, other: &DynamicDrawable) -> (r: bool) {
        match (self, other) {
            (DynamicDrawable::Clock(x), DynamicDrawable::Clock(y)) => x.eq(y),
            (
                DynamicDrawable::Media { primary_info: p1, secondary_info: s1 },
                DynamicDrawable::Media { primary_info: p2, secondary_info: s2 },
            ) => {
                p1.eq(p2) && match (s1, s2) {
                    (Some(x), Some(y)) => x.eq(y),
                    (None, None) => true,
                    _ => false,
                }
            },
            _ => false,
        }
    }
}

impl vstd::std_specs::cmp::PartialEqSpecImpl for DynamicDrawable {
    open spec fn obeys_eq_spec() -> bool {
        true
    }

    open spec fn eq_spec(&self, other: &DynamicDrawable) -> bool {
        same_content(*self, *other)
    }
}

impl DynamicDrawable {
    pub open spec fn scrubber_spec(&self, bounds: Rect) -> Option<Rect> {
        match self {
            DynamicDrawable::Media { primary_info, secondary_info } => scrubber_of(
                bounds,
                primary_info.icon_name@.len() > 0,
                secondary_info.is_some(),
            ),
            _ => None,
        }
    }

    /// The scrubber's region when the media widget is laid out in `bounds`; none for a
    /// clock, or where the icons leave the bar no width.
    pub fn scrubber_bounds(&self, bounds: &Rect) -> (r: Option<Rect>)
        requires
            bounds.in_range(),
        ensures
            r == self.scrubber_spec(*bounds),
    {
        match self {
            DynamicDrawable::Media { primary_info, secondary_info } => {
                let slot = icon_slot_of(bounds.height);
                let p: i64 = if !primary_info.icon_name.as_str().is_empty() { slot } else { 0 };
                let s: i64 = if secondary_info.is_some() { slot } else { 0 };
                let w = bounds.width - p - s - 10;
                if w <= 0 {
                    None
                } else {
                    Some(Rect { x: bounds.x + p + s, y: bounds.y + 5, width: w, height: bounds.height - 10 })
                }
            },
            DynamicDrawable::Clock(_) => None,
        }
    }
}


/// Relies on chrono's `Local::now` and `DelayedFormat`: the local time of day as
/// hour, minutes and AM/PM. It depends on the clock, so nothing is stated of it.
#[verifier::external_body]
fn local_clock_text() -> (r: String) {
    chrono::Local::now().format("%-l:%M %p").to_string()
}

/// Relies on `String::push_str`: appends `tail`.
#[verifier::external_body]
fn append(s: &mut String, tail: &str)
    ensures
        final(s)@ == old(s)@ + tail@,
{
    s.push_str(tail)
}

/// The player shown first: the active one, with the index taken round the list.
pub open spec fn primary_index(active: int, len: int) -> int {
    active % len
}

/// The first player after `a`, going round the list from offset `k`, whose id differs
/// from that of player `a`.
pub open spec fn first_other(players: Seq<MediaInfo>, a: int, k: int) -> Option<int>
    decreases players.len() - k,
{
    if k >= players.len() || k < 1 {
        None
    } else if players[(a + k) % players.len() as int].player_id@ != players[a].player_id@ {
        Some((a + k) % players.len() as int)
    } else {
        first_other(players, a, k + 1)
    }
}

/// The widget for `players` with `active` as the primary one.
pub open spec fn media_widget(players: Seq<MediaInfo>, active: int) -> DynamicDrawable {
    let a = primary_index(active, players.len() as int);
    DynamicDrawable::Media {
        primary_info: players[a],
        secondary_info: match first_other(players, a, 1) {
            Some(j) => Some(players[j]),
            None => None,
        },
    }
}

/// Builds the content of the free area of the default page.
pub struct DynamicManager;

impl DynamicManager {
    pub fn create_clock_drawable() -> (r: DynamicDrawable)
        ensures
            r is Clock,
    {
        DynamicDrawable::Clock(local_clock_text())
    }

    /// The media widget for the known players, or a clock where there are none.
    pub fn create_media_drawable(players: &Vec<MediaInfo>, active_player_index: usize) -> (r:
        DynamicDrawable)
        ensures
            players@.len() == 0 ==> r is Clock,
            players@.len() > 0 ==> r == media_widget(players@, active_player_index as int),
    {
        let len = players.len();
        if len == 0 {
            return DynamicManager::create_clock_drawable();
        }
        let a: usize = active_player_index % len;
        let primary_info = players[a].duplicate();
        let mut k: usize = 1;
        let mut found: Option<usize> = None;
        while found.is_none() && k < len
            invariant
                1 <= k <= len,
                len == players@.len(),
                a < len,
                primary_info == players@[a as int],
                found is None ==> first_other(players@, a as int, 1) == first_other(
                    players@,
                    a as int,
                    k as int,
                ),
                found matches Some(j) ==> j < len && first_other(players@, a as int, 1) == Some(
                    j as int,
                ),
            decreases len - k, (if found is None { 1int } else { 0int }),
        {
            let j: usize = ((a as u128 + k as u128) % len as u128) as usize;
            if players[j].player_id != primary_info.player_id {
                found = Some(j);
            } else {
                k = k + 1;
            }
        }
        let secondary_info = match found {
            Some(j) => Some(players[j].duplicate()),
            None => None,
        };
        DynamicDrawable::Media { primary_info, secondary_info }
    }
}

/// The directories searched for an application icon, in order.
pub open spec fn icon_dir(i: int) -> Seq<char> {
    if i == 0 {
        "/usr/share/icons/hicolor/scalable/apps/"@
    } else if i == 1 {
        "/usr/share/icons/hicolor/48x48/apps/"@
    } else {
        "/usr/share/pixmaps/"@
    }
}

/// The file that would hold icon `name` in search directory `i`.
pub open spec fn icon_candidate(i: int, name: Seq<char>) -> Seq<char> {
    icon_dir(i) + name + ".svg"@
}

/// A call of `is_file` reported candidate `j` for `name` absent.
pub open spec fn reported_absent<F: Fn(&String) -> bool>(is_file: F, j: int, name: Seq<char>) -> bool {
    exists|q: String| q@ == icon_candidate(j, name) && #[trigger] is_file.ensures((&q,), false)
}

/// Finds the SVG icon of an application by name: the first of the search directories
/// for which `is_file` reports the file. An empty name has no icon.
pub fn find_icon_path<F: Fn(&String) -> bool>(icon_name: &str, is_file: F) -> (r: Option<String>)
    requires
        forall|p: &String| #[trigger] is_file.requires((p,)),
    ensures
        icon_name@.len() == 0 ==> r is None,
        icon_name@.len() > 0 && r is None ==> forall|j: int|
            0 <= j < 3 ==> #[trigger] reported_absent(is_file, j, icon_name@),
        r matches Some(p) ==> icon_name@.len() > 0 && exists|i: int|
            0 <= i < 3 && p@ == icon_candidate(i, icon_name@) && is_file.ensures((&p,), true)
                && forall|j: int| 0 <= j < i ==> #[trigger] reported_absent(is_file, j, icon_name@),
{
    if icon_name.is_empty() {
        return None;
    }
    let dirs: [&str; 3] = [
        "/usr/share/icons/hicolor/scalable/apps/",
        "/usr/share/icons/hicolor/48x48/apps/",
        "/usr/share/pixmaps/",
    ];
    let mut i: usize = 0;
    while i < 3
        invariant
            i <= 3,
            icon_name@.len() > 0,
            forall|p: &String| #[trigger] is_file.requires((p,)),
            forall|k: int| 0 <= k < 3 ==> (#[trigger] dirs@[k])@ == icon_dir(k),
            forall|j: int| 0 <= j < i ==> #[trigger] reported_absent(is_file, j, icon_name@),
        decreases 3 - i,
    {
        let mut path = dirs[i].to_owned();
        append(&mut path, icon_name);
        append(&mut path, ".svg");
        assert(path@ == icon_candidate(i as int, icon_name@));
        if is_file(&path) {
            return Some(path);
        }
        assert(reported_absent(is_file, i as int, icon_name@));
        i = i + 1;
    }
    None
}

} // verus!
