//! Nimbus: connection management and diagnostics for EC2 instances reached
//! through SSM Session Manager.
//!
//! The library holds the rules of the tool: error classification and recovery
//! planning, configuration validation and environment overrides, diagnostic
//! aggregation, automatic-fix planning, IAM policy analysis, the checks and
//! suggestions of the AWS configuration validation, health thresholds and the
//! state machine of the interactive feedback view.

pub mod text;
pub mod time;
pub mod json;
pub mod diagnostic;
pub mod auto_fix;
pub mod error;
pub mod error_recovery;
pub mod config;
pub mod env_overrides;
pub mod feedback;
pub mod commands;
pub mod fix_run;
pub mod report;
pub mod validator;
pub mod aws;
pub mod health;
pub mod iam;
pub mod diagnostic_run;
pub mod connect;
pub mod validation;
