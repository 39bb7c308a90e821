//! The rules of the DBH Insights Helper, a local program that lets one website
//! read from the vCenters its user has configured.

pub mod call;
pub mod clock;
pub mod config;
pub mod http;
pub mod ids;
pub mod json;
pub mod laws;
pub mod listener;
pub mod probe;
pub mod request;
pub mod route;
pub mod server;
pub mod session;
pub mod settings;
pub mod soap;
pub mod text;
pub mod vcenter;
pub mod xml;
