//! Persisted window geometry.
//!
//! The settings store keeps the main window's last windowed placement and
//! whether it was maximized. Saving reads the window's state and decides what
//! to write ([`plan_geometry_save`]); the record in the store is modelled by
//! [`SavedGeometry`], and [`SavedGeometry::restore_plan`] decides what to
//! apply at startup. Sizes under 200×150 are invalid captures (taken during
//! a minimize, for instance): they are never written and never restored.

use vstd::prelude::*;

verus! {

pub const MIN_WIDTH: u32 = 200;

pub const MIN_HEIGHT: u32 = 150;

/// Outer position and size of a window, in physical pixels.
#[derive(Debug, Clone, Copy, PartialEq, Eq, Structural)]
pub struct WindowPlacement {
    pub x: i32,
    pub y: i32,
    pub width: u32,
    pub height: u32,
}

/// Whether a size is large enough to be a real windowed capture.
pub open spec fn is_sane_size(width: int, height: int) -> bool {
    width >= MIN_WIDTH && height >= MIN_HEIGHT
}

/// What a save writes to the store.
#[derive(Debug, Clone, Copy, PartialEq, Eq, Structural)]
pub enum GeometryWrite {
    /// Nothing: the window is fullscreen, or its size is an invalid capture.
    Skip,
    /// Only the maximized flag, set; the windowed placement stays as it was.
    MaximizedOnly,
    /// The whole windowed placement, with the maximized flag cleared.
    Windowed(WindowPlacement),
}

pub open spec fn plan_spec(fullscreen: bool, maximized: bool, placement: Result<WindowPlacement, String>) -> Result<GeometryWrite, String> {
    if fullscreen {
        Ok(GeometryWrite::Skip)
    } else if maximized {
        Ok(GeometryWrite::MaximizedOnly)
    } else {
        match placement {
            Err(e) => Err(e),
            Ok(p) => if is_sane_size(p.width as int, p.height as int) {
                Ok(GeometryWrite::Windowed(p))
            } else {
                Ok(GeometryWrite::Skip)
            },
        }
    }
}

/// Decides what a save writes, from the window's fullscreen and maximized
/// state and its placement as read (or the error reading it gave). The
/// placement matters only for a windowed window; its read error is then the
/// save's error.
pub fn plan_geometry_save(fullscreen: bool, maximized: bool, placement: Result<WindowPlacement, String>) -> (r: Result<GeometryWrite, String>)
    ensures
        r == plan_spec(fullscreen, maximized, placement),
{
    if fullscreen {
        Ok(GeometryWrite::Skip)
    } else if maximized {
        Ok(GeometryWrite::MaximizedOnly)
    } else {
        match placement {
            Err(e) => Err(e),
            Ok(p) => if p.width >= MIN_WIDTH && p.height >= MIN_HEIGHT {
                Ok(GeometryWrite::Windowed(p))
            } else {
                Ok(GeometryWrite::Skip)
            },
        }
    }
}

/// The geometry record in the settings store, as read back: a field is
/// `None` when its key is missing or does not hold a value of its kind.
#[derive(Debug, Clone, Copy, PartialEq, Eq, Structural)]
pub struct SavedGeometry {
    pub x: Option<i64>,
    pub y: Option<i64>,
    pub w: Option<u64>,
    pub h: Option<u64>,
    pub maximized: Option<bool>,
}

/// What startup applies to the main window.
#[derive(Debug, Clone, Copy, PartialEq, Eq, Structural)]
pub struct RestorePlan {
    /// Placement to move and resize the window to, if any.
    pub placement: Option<WindowPlacement>,
    /// Whether to maximize the window.
    pub maximize: bool,
}

pub open spec fn applied_spec(saved: SavedGeometry, write: GeometryWrite) -> SavedGeometry {
    match write {
        GeometryWrite::Skip => saved,
        GeometryWrite::MaximizedOnly => SavedGeometry { maximized: Some(true), ..saved },
        GeometryWrite::Windowed(p) => SavedGeometry {
            x: Some(p.x as i64),
            y: Some(p.y as i64),
            w: Some(p.width as u64),
            h: Some(p.height as u64),
            maximized: Some(false),
        },
    }
}

/// Placement that a record restores: all four fields present, in range of
/// their window types, and of a sane size.
pub open spec fn restored_placement(saved: SavedGeometry) -> Option<WindowPlacement> {
    match (saved.x, saved.y, saved.w, saved.h) {
        (Some(x), Some(y), Some(w), Some(h)) => if i32::MIN <= x <= i32::MAX && i32::MIN <= y
            <= i32::MAX && w <= u32::MAX && h <= u32::MAX && is_sane_size(w as int, h as int) {
            Some(WindowPlacement { x: x as i32, y: y as i32, width: w as u32, height: h as u32 })
        } else {
            None
        },
        _ => None,
    }
}

pub open spec fn restore_spec(saved: SavedGeometry, fullscreen_requested: bool) -> RestorePlan {
    if fullscreen_requested {
        RestorePlan { placement: None, maximize: false }
    } else {
        RestorePlan { placement: restored_placement(saved), maximize: saved.maximized == Some(true) }
    }
}

impl SavedGeometry {
    /// Applies a save's write to the record.
    pub fn apply(&mut self, write: GeometryWrite)
        ensures
            *final(self) == applied_spec(*old(self), write),
    {
        match write {
            GeometryWrite::Skip => {},
            GeometryWrite::MaximizedOnly => {
                self.maximized = Some(true);
            },
            GeometryWrite::Windowed(p) => {
                self.x = Some(p.x as i64);
                self.y = Some(p.y as i64);
                self.w = Some(p.width as u64);
                self.h = Some(p.height as u64);
                self.maximized = Some(false);
            },
        }
    }

    /// What startup applies from this record; nothing when the command line
    /// asked for fullscreen.
    pub fn restore_plan(&self, fullscreen_requested: bool) -> (r: RestorePlan)
        ensures
            r == restore_spec(*self, fullscreen_requested),
    {
        if fullscreen_requested {
            return RestorePlan { placement: None, maximize: false };
        }
        let placement = match (self.x, self.y, self.w, self.h) {
            (Some(x), Some(y), Some(w), Some(h)) => {
                if i32::MIN as i64 <= x && x <= i32::MAX as i64 && i32::MIN as i64 <= y && y
                    <= i32::MAX as i64 && w <= u32::MAX as u64 && h <= u32::MAX as u64 && w
                    >= MIN_WIDTH as u64 && h >= MIN_HEIGHT as u64 {
                    Some(WindowPlacement { x: x as i32, y: y as i32, width: w as u32, height: h as u32 })
                } else {
                    None
                }
            },
            _ => None,
        };
        let maximize = match self.maximized {
            Some(m) => m,
            None => false,
        };
        RestorePlan { placement, maximize }
    }
}

/// A placement under the minimum size is never persisted and never
/// restored: a save leaves the stored size as it was, and a record holding
/// such a size restores no placement.
pub proof fn lemma_undersized_never_persisted_or_restored(
    fullscreen: bool,
    maximized: bool,
    p: WindowPlacement,
    saved: SavedGeometry,
    fullscreen_requested: bool,
)
    requires
        !is_sane_size(p.width as int, p.height as int),
    ensures
        plan_spec(fullscreen, maximized, Ok(p)) is Ok,
        applied_spec(saved, plan_spec(fullscreen, maximized, Ok(p))->Ok_0).w == saved.w,
        applied_spec(saved, plan_spec(fullscreen, maximized, Ok(p))->Ok_0).h == saved.h,
        saved.w is Some && saved.h is Some && !is_sane_size(saved.w->0 as int, saved.h->0 as int)
            ==> restore_spec(saved, fullscreen_requested).placement is None,
{
}

/// Saving again while the window stays maximized leaves the stored windowed
/// placement as it was and keeps the maximized flag set.
pub proof fn lemma_maximized_save_keeps_placement(
    saved: SavedGeometry,
    placement: Result<WindowPlacement, String>,
)
    requires
        saved.maximized == Some(true),
    ensures
        plan_spec(false, true, placement) is Ok,
        applied_spec(saved, plan_spec(false, true, placement)->Ok_0) == saved,
{
}

/// A sane windowed placement that is saved is restored as it was, without
/// maximizing, unless the command line asks for fullscreen.
pub proof fn lemma_windowed_save_restores(saved: SavedGeometry, p: WindowPlacement)
    requires
        is_sane_size(p.width as int, p.height as int),
    ensures
        plan_spec(false, false, Ok(p)) == Ok::<GeometryWrite, String>(GeometryWrite::Windowed(p)),
        restore_spec(applied_spec(saved, GeometryWrite::Windowed(p)), false) == (RestorePlan {
            placement: Some(p),
            maximize: false,
        }),
{
}

} // verus!
