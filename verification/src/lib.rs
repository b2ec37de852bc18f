//! Validation, reconciliation and output rules of the CodeMie GitOps CLI.
//!
//! The library holds the decision logic of the `codemie-gitops` command:
//! identity constraints, pagination and enumeration invariants, marker
//! classification, request routing, the closed diagnostic taxonomy and the
//! renderer that turns outcomes into single output lines.

pub mod kind;
pub mod error;
pub mod render;
pub mod text;
pub mod json;
pub mod output;
pub mod pagination;
pub mod json_value;
pub mod http;
pub mod projection;
pub mod adapters;
pub mod domain;
pub mod parse;
pub mod cancellation;
pub mod index;
pub mod lint;
pub mod config;
pub mod auth;
pub mod preflight;
pub mod coordinator;
pub mod cli;
pub mod discovery;
pub mod input;
