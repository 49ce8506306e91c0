//! Verified decision core of the kailo governance service: admission,
//! approval, dispatch and reconciliation decisions over plain values.

pub mod approval;
pub mod bootstrap;
pub mod buzz;
pub mod client_keys;
pub mod config;
pub mod contracts;
pub mod converge;
pub mod digest;
pub mod dispatch;
pub mod governance;
pub mod ids;
pub mod invitation;
pub mod launch;
pub mod lifecycle;
pub mod oidc;
pub mod paging;
pub mod platform;
pub mod projection;
pub mod relay_page;
pub mod reconcile;
pub mod rerun;
pub mod roles;
pub mod roster;
pub mod server_keys;
pub mod service;
pub mod signers;
pub mod stream;
pub mod subject;
pub mod subscription;
pub mod targets;
pub mod tasks;
pub mod temporal;
pub mod text;
pub mod workflow;
pub mod views;
