//! Client-ordering and focus-tracking core of a tiling window manager's
//! per-workspace state: a cyclic ring of elements with one focused position,
//! and the workspace logic (clients plus layouts) built on top of it.

pub mod layout;
pub mod ring;
pub mod workspace;
