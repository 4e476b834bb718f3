//! What the host reports about the window, and how a missing window is made.

use vstd::prelude::*;

verus! {

/// A question about the window could not be answered.
#[derive(Clone, Copy, Debug, PartialEq, Eq, Structural)]
pub struct QueryError;

/// One observation of the window, taken afresh for every press.
///
/// `visible` and `minimized` are answered independently and either may fail.
/// When `exists` is false the two flags carry no meaning.
#[derive(Clone, Copy, Debug, PartialEq, Eq)]
pub struct WindowState {
    pub exists: bool,
    pub visible: Result<bool, QueryError>,
    pub minimized: Result<bool, QueryError>,
}

impl WindowState {
    /// The observation of a host that has no such window.
    pub fn absent() -> (w: WindowState)
        ensures
            !w.exists,
            w.visible == Err::<bool, QueryError>(QueryError),
            w.minimized == Err::<bool, QueryError>(QueryError),
    {
        WindowState { exists: false, visible: Err(QueryError), minimized: Err(QueryError) }
    }

    /// The observation of an existing window with the two answers given.
    pub fn present(visible: Result<bool, QueryError>, minimized: Result<bool, QueryError>) -> (w:
        WindowState)
        ensures
            w == (WindowState { exists: true, visible, minimized }),
    {
        WindowState { exists: true, visible, minimized }
    }

    /// The window is known to be shown.
    pub open spec fn shown(self) -> bool {
        self.visible == Ok::<bool, QueryError>(true)
    }

    /// The window is known to be minimized.
    pub open spec fn iconified(self) -> bool {
        self.minimized == Ok::<bool, QueryError>(true)
    }

    /// The window is known not to be minimized.
    pub open spec fn upright(self) -> bool {
        self.minimized == Ok::<bool, QueryError>(false)
    }
}

/// The fixed parameters with which the window is created.
#[derive(Clone, Copy, Debug, PartialEq, Eq)]
pub struct WindowParams {
    pub label: &'static str,
    pub document: &'static str,
    pub title: &'static str,
    pub width: u32,
    pub height: u32,
}

/// The parameters of the one window this crate ever asks for: the identifier
/// "main", the default document, a fixed title and a fixed inner size.
pub open spec fn main_window_params() -> WindowParams {
    WindowParams {
        label: "main",
        document: "index.html",
        title: "frog-memo",
        width: 800,
        height: 600,
    }
}

/// Builds the parameters of the window named "main".
pub fn main_window() -> (p: WindowParams)
    ensures
        p == main_window_params(),
{
    WindowParams {
        label: "main",
        document: "index.html",
        title: "frog-memo",
        width: 800,
        height: 600,
    }
}

} // verus!
