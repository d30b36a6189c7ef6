use vstd::prelude::*;

verus! {

/// Whether a display whose preferred mode is `width` by `height` pixels is the strip
/// panel: the strip is mounted on its side, so its mode is at least five times as tall
/// as it is wide, which no ordinary monitor is.
pub fn looks_like_touch_bar(width: u16, height: u16) -> (r: bool)
    ensures
        r == (height as int >= width as int * 5),
{
    height as u32 >= width as u32 * 5
}

} // verus!
