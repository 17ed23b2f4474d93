use vstd::prelude::*;
use crate::channel::{CueChannel, CueEvent};

verus! {

/// What the monitor shows: the most recently delivered cue identifier, and the
/// size of the surface it is drawn on. Owned by the display thread alone.
pub struct Display {
    current_cue: String,
    width: u32,
    height: u32,
}

impl Display {
    /// The cue identifier on screen.
    pub closed spec fn cue_view(&self) -> Seq<char> {
        self.current_cue@
    }

    /// The surface size in pixels, width then height.
    pub closed spec fn size_view(&self) -> (u32, u32) {
        (self.width, self.height)
    }

    /// A display of the given size, showing the sentinel `-` until the first
    /// cue arrives.
    pub fn new(width: u32, height: u32) -> (r: Display)
        ensures
            r.cue_view() == seq!['-'],
            r.size_view() == (width, height),
    {
        let current_cue = "-".to_string();
        proof {
            reveal_strlit("-");
        }
        Display { current_cue, width, height }
    }

    /// The cue identifier on screen, for the renderer.
    pub fn current_cue(&self) -> (r: &str)
        ensures
            r@ == self.cue_view(),
    {
        self.current_cue.as_str()
    }

    /// The surface width in pixels.
    pub fn width(&self) -> (r: u32)
        ensures
            r == self.size_view().0,
    {
        self.width
    }

    /// The surface height in pixels.
    pub fn height(&self) -> (r: u32)
        ensures
            r == self.size_view().1,
    {
        self.height
    }

    /// A cue was delivered: it replaces what is shown, whole. The caller then
    /// asks the renderer to redraw.
    pub fn on_cue_event(&mut self, event: CueEvent)
        ensures
            final(self).cue_view() == event.cue_id@,
            final(self).size_view() == old(self).size_view(),
    {
        self.current_cue = event.cue_id;
    }

    /// The surface was resized; the cue shown stays.
    pub fn on_resize(&mut self, width: u32, height: u32)
        ensures
            final(self).cue_view() == old(self).cue_view(),
            final(self).size_view() == (width, height),
    {
        self.width = width;
        self.height = height;
    }

    /// Takes the oldest waiting cue from `channel`, if any, and shows it.
    /// Returns whether a cue was taken (and so a redraw is due).
    pub fn deliver_next(&mut self, channel: &mut CueChannel) -> (r: bool)
        ensures
            r == (old(channel).pending().len() > 0),
            r ==> {
                &&& final(self).cue_view() == old(channel).pending()[0]
                &&& final(channel).pending() == old(channel).pending().drop_first()
                &&& final(channel).delivered() == old(channel).delivered().push(
                    old(channel).pending()[0],
                )
            },
            !r ==> {
                &&& *final(self) == *old(self)
                &&& final(channel).pending() == old(channel).pending()
                &&& final(channel).delivered() == old(channel).delivered()
            },
            final(self).size_view() == old(self).size_view(),
            final(channel).sent() == old(channel).sent(),
    {
        match channel.receive() {
            Some(event) => {
                self.on_cue_event(event);
                true
            },
            None => false,
        }
    }
}

} // verus!
