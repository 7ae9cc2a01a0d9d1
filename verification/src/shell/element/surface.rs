//! What the shell knows of a client's window, and what it has asked of it.

use crate::geometry::{Rectangle, Size};
use vstd::prelude::*;

verus! {

/// A geometry asked of a window, below a header of the given height.
#[derive(Clone, Copy, Debug, PartialEq, Eq, Structural)]
pub struct GeometryRequest {
    pub geometry: Rectangle,
    pub header: u32,
}

/// A client's window.
///
/// The first group of fields is what the client has committed, the second what the compositor
/// has asked for. `configure` is set when the client has to be told of a change.
#[derive(Clone, Copy, Debug, PartialEq, Eq, Structural)]
pub struct CosmicSurface {
    /// Identity of the window.
    pub id: u64,
    /// The surface of the window, where it has one.
    pub wl_surface: Option<u64>,
    pub alive: bool,
    pub geometry: Rectangle,
    pub bbox: Rectangle,
    pub min_size: Option<Size>,
    pub max_size: Option<Size>,
    pub pending_size: Option<Size>,
    pub maximized: bool,
    /// Whether the client draws its own decorations, now and after the pending state.
    pub decorated: bool,
    pub pending_decorated: bool,
    /// Whether the client knows itself as tiled.
    pub tiled_state: Option<bool>,
    pub force_undecorated: bool,
    pub tiled: bool,
    pub activated: bool,
    pub suspended: bool,
    /// The geometry last asked for.
    pub requested: Option<GeometryRequest>,
    pub configure: bool,
}

impl CosmicSurface {
    /// The window asked to drop (or keep) its decorations and told whether it is tiled.
    pub open spec fn with_chrome(self, undecorated: bool, tiled: bool) -> CosmicSurface {
        CosmicSurface { force_undecorated: undecorated, tiled: tiled, ..self }
    }

    /// The window told whether it is activated.
    pub open spec fn with_activation(self, activated: bool) -> CosmicSurface {
        CosmicSurface { activated: activated, configure: true, ..self }
    }

    /// The window told whether it is suspended.
    pub open spec fn with_suspension(self, suspended: bool) -> CosmicSurface {
        CosmicSurface { suspended: suspended, configure: true, ..self }
    }

    /// The window asked to take a geometry.
    pub open spec fn with_geometry(self, geo: Rectangle, header: u32) -> CosmicSurface {
        CosmicSurface { requested: Some(GeometryRequest { geometry: geo, header }), ..self }
    }

    /// The window to which a configure is sent.
    pub open spec fn configured(self) -> CosmicSurface {
        CosmicSurface { configure: true, ..self }
    }

    /// Asks the client to leave decorations to the compositor, or no longer does.
    pub fn try_force_undecorated(&mut self, enable: bool)
        ensures
            *final(self) == (CosmicSurface { force_undecorated: enable, ..*old(self) }),
    {
        self.force_undecorated = enable;
    }

    /// Sets whether the client is told that it is tiled.
    pub fn set_tiled(&mut self, tiled: bool)
        ensures
            *final(self) == (CosmicSurface { tiled: tiled, ..*old(self) }),
    {
        self.tiled = tiled;
    }

    /// Sets whether the client is told that it is activated.
    pub fn set_activated(&mut self, activated: bool)
        ensures
            *final(self) == (CosmicSurface { activated: activated, ..*old(self) }),
    {
        self.activated = activated;
    }

    /// Sets whether the client is told that it is suspended.
    pub fn set_suspended(&mut self, suspended: bool)
        ensures
            *final(self) == (CosmicSurface { suspended: suspended, ..*old(self) }),
    {
        self.suspended = suspended;
    }

    /// Asks for a geometry below a header of the given height.
    pub fn set_geometry(&mut self, geo: Rectangle, header: u32)
        ensures
            *final(self) == old(self).with_geometry(geo, header),
    {
        self.requested = Some(GeometryRequest { geometry: geo, header });
    }

    /// Marks that the client has to be told of the changes.
    pub fn send_configure(&mut self)
        ensures
            *final(self) == old(self).configured(),
    {
        self.configure = true;
    }
}

} // verus!
