//! Verified core of the smash terminal UI toolkit: components as plain state
//! values with views, their event handling and layout, the component
//! gallery's state, and the choice of a syntax for highlighting.
pub mod button;
pub mod content_detection;
pub mod controls;
pub mod cookbook;
pub mod cookbook_state;
pub mod dialog;
pub mod events;
pub mod footer;
pub mod geometry;
pub mod heuristics;
pub mod highlight;
pub mod layout;
pub mod look;
pub mod message;
pub mod reactive;
pub mod syntax;
pub mod syntax_select;
pub mod terminal;
pub mod text;
pub mod text_selection;
pub mod textbox;
pub mod theme;
pub mod virtual_list;

pub use geometry::Rect;
