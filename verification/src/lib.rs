//! Verified core of a modal terminal Bible reader: text utilities, the
//! verse data model, search filtering, canonical book ordering, the
//! navigation state machine (lists, filters, jump history, quick jump, key
//! bindings, translation switcher and manager) and the text shown on screen.

pub mod text;
pub mod model;
pub mod search;
pub mod books;
pub mod pane;
pub mod app;
pub mod laws;
pub mod jump;
pub mod navigate;
pub mod keys;
pub mod display;
pub mod manager;
pub mod canon;
