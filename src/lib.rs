//! Command composition for a cluster orchestrator that drives Ansible.
//!
//! The library turns a validated request (a subcommand and its options) into
//! the argument vectors of the external tools, encodes module parameters so
//! that they can be decoded back, and decides, step by step, how a batch of
//! playbooks is materialized and run. Running processes and writing files is
//! left to the caller.

pub mod ansible;
pub mod dispatch;
pub mod logging;
pub mod parameters;
pub mod playbook;
pub mod service;
pub mod settings;
