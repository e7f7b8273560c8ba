//! Decision logic of a policy controller for a container orchestrator.
//!
//! Users of a cluster write rules and policies that carry a short script.
//! A rule's script decides whether an object may be admitted, and how it is
//! changed on the way; a policy's script audits what the cluster holds, on a
//! schedule. This library decides what the processes around it do:
//!
//! - [`reconcile`]: the objects that the cluster is to hold for each rule
//!   and each policy;
//! - [`handler`]: the answer to an admission request, and what a script may
//!   ask of the cluster;
//! - [`checker`]: what the audit worker fetches and what it sends;
//! - [`leader_election`]: who may act, by a lease;
//! - [`util`]: which API groups and versions serve a kind.
//!
//! Everything is stated over plain values. Reading and writing the cluster,
//! serving HTTP and running the scripts is left to the caller.

pub mod checker;
pub mod config;
pub mod crdgen;
pub mod filewatcher;
pub mod handler;
pub mod leader_election;
pub mod reconcile;
pub mod text;
pub mod types;
pub mod util;
