//! Coordination core of a desktop-icon daemon: the surface registry of the
//! compositor client, the path/surface bimap, the grid layout, pixel
//! conversion for shared-memory buffers, and the event-loop engine that ties
//! them together.

pub mod pixels;
pub mod grid;
pub mod input;
pub mod paths;
pub mod wayland;
pub mod canvas;
pub mod daemon;
pub mod lifecycle;
pub mod scripts;
