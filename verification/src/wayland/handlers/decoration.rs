//! Who draws the decorations of windows.

use crate::seqs::without;
use vstd::prelude::*;

verus! {

/// Who draws the decorations of a window.
#[derive(Clone, Copy, Debug, PartialEq, Eq, Structural)]
pub enum DecorationMode {
    ClientSide,
    ServerSide,
}

/// What a window prefers.
#[derive(Clone, Copy, Debug, PartialEq, Eq, Structural)]
pub enum PreferredDecorationMode {
    /// It was never asked for.
    Unset,
    /// The preference, if the window has one.
    Known(Option<DecorationMode>),
}

impl PreferredDecorationMode {
    /// Whether the preference was never asked for.
    pub fn is_unset(&self) -> (r: bool)
        ensures
            r == (*self == PreferredDecorationMode::Unset),
    {
        match self {
            PreferredDecorationMode::Unset => true,
            PreferredDecorationMode::Known(_) => false,
        }
    }

    /// The preference of the window; from then on it counts as asked for.
    pub fn mode(&mut self) -> (r: Option<DecorationMode>)
        ensures
            r == match *old(self) {
                PreferredDecorationMode::Unset => None,
                PreferredDecorationMode::Known(mode) => mode,
            },
            *final(self) == PreferredDecorationMode::Known(r),
    {
        match *self {
            PreferredDecorationMode::Unset => {
                *self = PreferredDecorationMode::Known(None);
                None
            },
            PreferredDecorationMode::Known(mode) => mode,
        }
    }

    /// Changes the preference.
    pub fn update(&mut self, update: Option<DecorationMode>)
        ensures
            *final(self) == PreferredDecorationMode::Known(update),
    {
        *self = PreferredDecorationMode::Known(update);
    }
}

/// What is known of the window of a request.
#[derive(Clone, Copy, Debug, PartialEq, Eq, Structural)]
pub enum WindowLookup {
    /// The window is shown.
    Shown,
    /// The element of the window is known, but the window is not found in it.
    Missing,
    /// The window is not shown yet.
    Unknown,
}

/// What a request for decorations leads to.
#[derive(Clone, Copy, Debug, PartialEq, Eq, Structural)]
pub struct DecorationChange {
    /// Whether the preference of the window changes.
    pub updates_preference: bool,
    /// Whether the mode that the window is told next changes.
    pub updates_pending: bool,
    /// Whether the window is told at once.
    pub configures: bool,
}

/// A client asks for a mode: a window that is shown prefers it and is told; one that is not yet
/// is told when it is.
pub fn request_mode(window: WindowLookup) -> (r: DecorationChange)
    ensures
        r == (DecorationChange {
            updates_preference: window == WindowLookup::Shown,
            updates_pending: window != WindowLookup::Missing,
            configures: window == WindowLookup::Shown,
        }),
{
    match window {
        WindowLookup::Shown => DecorationChange {
            updates_preference: true,
            updates_pending: true,
            configures: true,
        },
        WindowLookup::Missing => DecorationChange {
            updates_preference: false,
            updates_pending: false,
            configures: false,
        },
        WindowLookup::Unknown => DecorationChange {
            updates_preference: false,
            updates_pending: true,
            configures: false,
        },
    }
}

/// A client leaves the mode to the compositor: only a window that is shown is told.
pub fn unset_mode(window: WindowLookup) -> (r: DecorationChange)
    ensures
        ({
            let shown = window == WindowLookup::Shown;
            r == DecorationChange {
                updates_preference: shown,
                updates_pending: shown,
                configures: shown,
            }
        }),
{
    let shown: bool = window == WindowLookup::Shown;
    DecorationChange { updates_preference: shown, updates_pending: shown, configures: shown }
}

/// A mode of the other protocol for decorations.
#[derive(Clone, Copy, Debug, PartialEq, Eq, Structural)]
pub enum KdeMode {
    NoDecoration,
    Client,
    Server,
}

/// The decorations of a surface in the other protocol.
#[derive(Debug, PartialEq, Eq)]
pub struct KdeDecorationSurfaceState {
    pub mode: Option<KdeMode>,
    /// The objects of the client.
    pub objs: Vec<u64>,
}

impl Default for KdeDecorationSurfaceState {
    /// No mode and no objects.
    fn default() -> (r: Self)
        ensures
            r.mode is None,
            r.objs@.len() == 0,
    {
        KdeDecorationSurfaceState { mode: None, objs: Vec::new() }
    }
}

impl KdeDecorationSurfaceState {
    /// A client creates an object; no mode is chosen for it.
    pub fn new_decoration(&mut self, decoration: u64)
        ensures
            final(self).objs@ == old(self).objs@.push(decoration),
            final(self).mode == old(self).mode,
    {
        self.objs.push(decoration);
    }

    /// A client asks for a mode, which is granted where it is known; returns the mode that the
    /// client is told.
    pub fn request_mode(&mut self, mode: Option<KdeMode>) -> (r: Option<KdeMode>)
        ensures
            r == mode,
            final(self).objs == old(self).objs,
            final(self).mode == match mode {
                Some(mode) => Some(mode),
                None => old(self).mode,
            },
    {
        if mode.is_some() {
            self.mode = mode;
        }
        mode
    }

    /// A client gives an object up; with the last one the mode is forgotten.
    pub fn release(&mut self, decoration: u64)
        ensures
            final(self).objs@ == old(self).objs@.filter(|n: u64| n != decoration),
            final(self).mode == if final(self).objs@.len() == 0 {
                None
            } else {
                old(self).mode
            },
    {
        self.objs = without(&self.objs, decoration);
        if self.objs.len() == 0 {
            self.mode = None;
        }
    }
}

} // verus!
