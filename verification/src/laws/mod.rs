//! What the helper's operations are for: laws that relate what goes in to what comes out.

pub mod changes;
pub mod operations;
pub mod questions;
pub mod server;
pub mod settings;
pub mod soap;
pub mod states;
pub mod texts;
pub mod values;
pub mod vcenter;
