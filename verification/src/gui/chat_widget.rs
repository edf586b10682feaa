//! The chat widget's state: the window it writes into, its own region, the
//! name padder, and the per-user color cache.  The drawing itself runs
//! outside the library.
use vstd::prelude::*;

use crate::color_holder::ColorCache;
use crate::gui::window::Window;
use crate::gui::{Pos, Size};
use crate::string_padder::StringPadder;

verus! {

/// The chat area: where it sits, how large it is, and the display state it
/// accumulates while printing messages.
pub struct ChatWidget {
    pub window: Window,
    pub size: Size,
    pub pos: Pos,
    pub padder: StringPadder,
    pub color_cache: ColorCache,
}

impl ChatWidget {
    /// A fresh chat area over `window`: nothing padded yet, no colors cached.
    pub fn new(window: Window, pos: Pos, size: Size) -> (r: ChatWidget)
        ensures
            r.window == window,
            r.pos == pos,
            r.size == size,
            r.padder.current_max == 0,
            r.color_cache@ == Map::<Seq<char>, (u8, u8, u8)>::empty(),
            r.color_cache.wf(),
    {
        ChatWidget {
            window,
            pos,
            size,
            padder: StringPadder::new(),
            color_cache: ColorCache::new(),
        }
    }
}

} // verus!
