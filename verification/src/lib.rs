//! Hot-reload glue for UI component modules.
//!
//! A module that registers a component with the refresh runtime is a
//! *refresh boundary*. Such a module gets a fixed header in front of its
//! statements and a fixed footer behind them; every other module is left
//! as it is.

pub mod ast;
pub mod visitor;
pub mod template;
pub mod folder;
pub mod module_id;
pub mod options;
pub mod laws;
