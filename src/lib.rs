//! A small 2D rendering and input substrate for canvas targets: a keyboard state
//! tracker, a sprite atlas cut into a grid of tiles, and the bounds rules of drawing.

/// The setup of a frame loop.
pub mod app;

/// Drawing: the canvas surface, sprite atlases and the bounds rules of each draw.
pub mod render;

/// Keyboard state: which keys of a fixed vocabulary are held down.
pub mod update;
