//! The view-state core of an interactive image viewer.
//!
//! An image is fitted into a window, then panned by dragging, zoomed around
//! the cursor, turned in quarter or finer steps, and dimmed outside a
//! spotlight around the cursor. Window events come in as plain values, the
//! state changes by exact rules, and the caller learns what to do next:
//! configure the surface, draw a frame, or leave.
//!
//! All continuous quantities are integers in fixed units (see `geometry`),
//! so every rule is stated and checked exactly:
//!
//! - `fit`: centering and scaling an image to fit a window;
//! - `scroll`: zoom multipliers and rotation steps from scroll input;
//! - `view`: the interaction state machine and its window events;
//! - `lemmas`: laws of the state machine (reset, zoom, drag, rotation);
//! - `transform`: the image-to-screen matrix, rotating about the image center;
//! - `sync`: which GPU uniform blocks to rewrite before a frame;
//! - `surface`: choices made when configuring the drawing surface;
//! - `screenshot`: placing several monitors' captures side by side;
//! - `overlay`: a decorative box that bounces inside the image;
//! - `config`: command-line options and the settings derived from them.
pub mod geometry;
pub mod fit;
pub mod scroll;
pub mod view;
pub mod lemmas;
pub mod transform;
pub mod sync;
pub mod surface;
pub mod screenshot;
pub mod overlay;
pub mod config;
