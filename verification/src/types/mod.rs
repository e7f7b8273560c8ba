//! The data that the controller, the webhook server and the audit worker
//! work on, as plain values with their mathematical views.

pub mod labels;
pub mod object;
pub mod rule;
pub mod testcase;
pub mod views;
pub mod policy;
