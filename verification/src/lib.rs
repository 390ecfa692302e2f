//! Core logic of an interactive image-effect viewer.
//!
//! The viewer shows one still image through a user-selectable pixel shader in
//! a resizable, overlay-capable window. This crate holds the verified session
//! core: the effect catalog and its uniform recipes, the input edge tracker
//! that drives chord commands, the window display-mode state machine, the
//! shader-program uniform table, and the image gallery. The graphics backend,
//! the windowing backend and the image decoder are external collaborators;
//! an unverified shell performs their calls and feeds plain values in and out.

pub mod effects;
pub mod error;
pub mod gallery;
pub mod input;
pub mod select_shader;
pub mod session;
pub mod shader_program;
pub mod texture;
pub mod window;

pub use select_shader::SelectShader;
