//! Persistent state for a docking-layout UI that redraws every frame.
//!
//! Two independent pieces: [`window_state::WindowState`] keeps a floating
//! surface's geometry and interaction flags alive across frames and turns
//! them into a one-shot window descriptor each frame, and
//! [`tab_removal::TabRemoval`] records a deletion target found during a tree
//! traversal so it can be applied safely after the traversal ends.

pub mod geometry;
pub mod tab_removal;
pub mod window_state;

pub use geometry::{Point, Rect, Size};
pub use tab_removal::{NodeIndex, SurfaceIndex, TabIndex, TabRemoval};
pub use window_state::{WindowDescriptor, WindowState, WindowStateView};
