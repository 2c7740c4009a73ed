//! Screensaver inhibition through the desktop session's screensaver service.
//!
//! Inhibiting returns a cookie that must be handed back to lift the
//! inhibition. [`ScreensaverInhibitor`] keeps that cookie and decides which
//! call each request makes.

use vstd::prelude::*;

verus! {

/// The call to make to the screensaver service.
#[derive(Debug, Clone, Copy, PartialEq, Eq, Structural)]
pub enum InhibitCall {
    /// No call.
    Nothing,
    /// Ask for inhibition; the cookie that comes back goes to
    /// [`ScreensaverInhibitor::inhibited`].
    Inhibit,
    /// Lift the inhibition that this cookie holds.
    UnInhibit(u32),
}

pub struct ScreensaverInhibitor {
    cookie: Option<u32>,
}

impl View for ScreensaverInhibitor {
    type V = Option<u32>;

    /// Cookie of the inhibition in force, if any.
    closed spec fn view(&self) -> Option<u32> {
        self.cookie
    }
}

impl ScreensaverInhibitor {
    pub fn new() -> (r: ScreensaverInhibitor)
        ensures
            r@ == None::<u32>,
    {
        ScreensaverInhibitor { cookie: None }
    }

    /// Decides the call for a request to enable (`true`) or disable the
    /// screensaver. Enabling hands back the held cookie, if any, and forgets
    /// it; disabling asks for an inhibition.
    pub fn request(&mut self, enabled: bool) -> (r: InhibitCall)
        ensures
            enabled ==> final(self)@ == None::<u32>,
            enabled ==> r == match old(self)@ {
                Some(c) => InhibitCall::UnInhibit(c),
                None => InhibitCall::Nothing,
            },
            !enabled ==> final(self)@ == old(self)@ && r == InhibitCall::Inhibit,
    {
        if enabled {
            match self.cookie.take() {
                Some(c) => InhibitCall::UnInhibit(c),
                None => InhibitCall::Nothing,
            }
        } else {
            InhibitCall::Inhibit
        }
    }

    /// Records the cookie that an inhibition returned.
    pub fn inhibited(&mut self, cookie: u32)
        ensures
            final(self)@ == Some(cookie),
    {
        self.cookie = Some(cookie);
    }
}

} // verus!
