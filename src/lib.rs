//! The logic of a screenshot utility: the annotation model (strokes, labels,
//! tools and undo), the keyboard-shortcut registry and its dispatch, the
//! capture countdown, display selection and the effect of each action.

pub mod action;
pub mod controller;
pub mod editor;
pub mod keys;
pub mod naming;
pub mod screenshots;
pub mod settings;
pub mod shortcut;
pub mod stroke;
pub mod timer;
