//! Scene model, bone hierarchy and editing logic for an SDF shape editor.

pub mod bits;
pub mod text;
pub mod ids;
pub mod shape;
pub mod bone;
pub mod bone_laws;
pub mod scene;
pub mod undo;
pub mod nodes;
pub mod demos;
pub mod demo_scenes;
pub mod expression;
pub mod encode;
pub mod commands;
pub mod flat;
pub mod ik;
pub mod persist;
pub mod fields;
pub mod editor;
pub mod panel;
pub mod codegen;
pub mod same;
pub mod actions;
pub mod wiring;
pub mod presets;


