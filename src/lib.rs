//! A domain-configuration assistant's engine: it reads the changes that a free-form reply
//! proposes, checks each against what its kind needs, and runs them one at a time behind a
//! confirmation protocol whose strictness follows each change's declared risk.
//!
//! - `extract` reads an `ActionPlan` out of a reply; it never fails.
//! - `dispatch` turns an `Action` into the one remote operation it asks for, or says why not.
//! - `executor` decides each step of a run; the caller asks the questions and sends the operations.

pub mod json;
pub mod text;
pub mod action;
pub mod extract;
pub mod models;
pub mod dispatch;
pub mod executor;
pub mod format;
pub mod ui;
pub mod settings;
pub mod analysis;
pub mod release;
pub mod analytics;
