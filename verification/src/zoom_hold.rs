//! The buttons of the zoom bar, which go on zooming while they are held.

use crate::overlays::MediaType;
use vstd::prelude::*;

verus! {

#[derive(Clone, Copy, Debug, PartialEq, Eq, Structural)]
pub enum ZoomDirection {
    In,
    Out,
}

/// How a new zoom factor is applied.
#[derive(Clone, Copy, Debug, PartialEq, Eq, Structural)]
pub enum ZoomChange {
    Nothing,
    /// Around a point of the screen.
    AroundPoint,
    /// Around the page in the middle of the screen.
    AroundPage,
    /// Around the middle of the picture.
    AroundMiddle,
}

/// How a new zoom factor is applied.  `noticeable` says whether it differs from the
/// old one.
pub fn zoom_change(manga_mode: bool, masonry_mode: bool, noticeable: bool) -> (change: ZoomChange)
    ensures
        change == (if !noticeable {
            ZoomChange::Nothing
        } else if !manga_mode {
            ZoomChange::AroundMiddle
        } else if masonry_mode {
            ZoomChange::AroundPoint
        } else {
            ZoomChange::AroundPage
        }),
{
    if !noticeable {
        ZoomChange::Nothing
    } else if !manga_mode {
        ZoomChange::AroundMiddle
    } else if masonry_mode {
        ZoomChange::AroundPoint
    } else {
        ZoomChange::AroundPage
    }
}

/// The button that is held, if any, and since when.
#[derive(Clone, Copy, Debug, PartialEq, Eq, Structural)]
pub struct ZoomHold {
    pub held: Option<ZoomDirection>,
    pub since: u64,
}

/// The hold after the pointer pressed a button.
pub open spec fn pressed(hold: ZoomHold, direction: ZoomDirection, now: u64) -> ZoomHold {
    if hold.held == Some(direction) {
        hold
    } else {
        ZoomHold { held: Some(direction), since: now }
    }
}

impl ZoomHold {
    pub fn new(now: u64) -> (hold: Self)
        ensures
            hold == (ZoomHold { held: None, since: now }),
    {
        ZoomHold { held: None, since: now }
    }

    /// Whether the bar is shown.  A bar that disappears lets go of its buttons.
    pub fn show_bar(
        &mut self,
        fullscreen: bool,
        wanted: bool,
        manga_mode: bool,
        media_type: Option<MediaType>,
    ) -> (shown: bool)
        ensures
            shown == (fullscreen && wanted && (manga_mode || media_type is Some)),
            *final(self) == (ZoomHold {
                held: if shown {
                    old(self).held
                } else {
                    None
                },
                ..*old(self)
            }),
    {
        let shown = fullscreen && wanted && (manga_mode || media_type.is_some());
        if !shown {
            self.held = None;
        }
        shown
    }

    /// In which direction the held button zooms in this frame.  A button counts as
    /// held until the mouse button is let go, wherever the pointer is.
    pub fn frame(&mut self, primary_down: bool) -> (direction: Option<ZoomDirection>)
        ensures
            direction == (if primary_down {
                old(self).held
            } else {
                None
            }),
            *final(self) == (ZoomHold { held: direction, ..*old(self) }),
    {
        if !primary_down {
            self.held = None;
        }
        self.held
    }

    /// Takes note that the pointer holds a button.  Says whether it does so only
    /// now, and one step is due.
    pub fn press(&mut self, direction: ZoomDirection, now: u64) -> (step: bool)
        ensures
            step == (old(self).held != Some(direction)),
            *final(self) == pressed(*old(self), direction, now),
    {
        let held = match self.held {
            Some(other) => other == direction,
            None => false,
        };
        if held {
            return false;
        }
        self.held = Some(direction);
        self.since = now;
        true
    }

    /// Takes note that the slider is moved, which lets go of the buttons.
    pub fn slide(&mut self)
        ensures
            *final(self) == (ZoomHold { held: None, ..*old(self) }),
    {
        self.held = None;
    }
}

/// Holding a button on makes one step only, however many frames it takes, and the
/// hold counts from the first of them.
pub proof fn law_one_step_per_press(hold: ZoomHold, direction: ZoomDirection, first: u64, later: u64)
    ensures
        pressed(pressed(hold, direction, first), direction, later) == pressed(hold, direction, first),
{
}

/// A change of zoom that can be seen is applied around the middle of a picture that is
/// shown by itself, around the pointer in a wall of columns, and around the page in a
/// long strip.
pub proof fn law_zoom_has_its_centre(
    manga_mode: bool,
    masonry_mode: bool,
    noticeable: bool,
    change: ZoomChange,
)
    requires
        call_ensures(zoom_change, (manga_mode, masonry_mode, noticeable), change),
    ensures
        change is Nothing <==> !noticeable,
        change is AroundMiddle <==> noticeable && !manga_mode,
        change is AroundPoint <==> noticeable && manga_mode && masonry_mode,
        change is AroundPage <==> noticeable && manga_mode && !masonry_mode,
{
}

/// Pressing a button holds that button from then on, and pressing the other one
/// instead begins anew.
pub proof fn law_pressed_button_is_held(hold: ZoomHold, direction: ZoomDirection, now: u64)
    ensures
        pressed(hold, direction, now).held == Some(direction),
        hold.held != Some(direction) ==> pressed(hold, direction, now).since == now,
        hold.held == Some(direction) ==> pressed(hold, direction, now).since == hold.since,
{
}

/// The zoom bar is shown in full screen where it is wanted and there is something to
/// zoom; a button of a bar that is hidden is let go, and so is one when the slider moves.
pub proof fn law_hidden_bars_are_let_go(
    shown_hold: &mut ZoomHold,
    fullscreen: bool,
    wanted: bool,
    manga_mode: bool,
    media_type: Option<MediaType>,
    shown: bool,
    sliding: &mut ZoomHold,
)
    requires
        call_ensures(
            ZoomHold::show_bar,
            (shown_hold, fullscreen, wanted, manga_mode, media_type),
            shown,
        ),
        call_ensures(ZoomHold::slide, (sliding,), ()),
    ensures
        shown <==> fullscreen && wanted && (manga_mode || media_type is Some),
        shown ==> *final(shown_hold) == *old(shown_hold),
        !shown ==> final(shown_hold).held is None,
        final(sliding).held is None,
{
}

/// A press zooms one step and holds its button; a press of the button that is held
/// already does nothing.
pub proof fn law_presses_zoom_once(
    hold: &mut ZoomHold,
    direction: ZoomDirection,
    now: u64,
    step: bool,
)
    requires
        call_ensures(ZoomHold::press, (hold, direction, now), step),
    ensures
        final(hold).held == Some(direction),
        step <==> old(hold).held != Some(direction),
        step ==> final(hold).since == now,
        !step ==> *final(hold) == *old(hold),
{
}

} // verus!
