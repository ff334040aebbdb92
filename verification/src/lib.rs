//! Keeps the containers that a directory of manifests describes in step with
//! what a container management runs.
//!
//! The library holds the decisions; reading files, connecting, calling the
//! container management and listening to the broker are the caller's part.
//! Each piece of work is a value that is told what happened and answers with
//! what to do next:
//!
//! - [`manifest_parser`] reads a manifest, in canonical or in simplified
//!   shape, into a [`container::Container`]; [`json`] holds the documents and
//!   their merge, [`canonical`] and [`serialize`] the canonical shape.
//! - [`retry`] decides whether a failed connection is attempted again, and
//!   after which delay.
//! - [`reconcile`] plans and issues the calls that bring one container in
//!   line with its manifest.
//! - [`deploy`] takes one manifest from its file to its reconciliation, and
//!   sums up the deployment of a whole directory.
//! - [`fs_watcher`] decides what a change in the directory leads to, and when
//!   the watch ends.
//! - [`mqtt_listener`] decides when the daemon hands over to the fleet-update
//!   agent.
//!
//! [`kantui`], [`kantui_config`], [`kanto_api`] and
//! [`containers_table_view`] hold what the dashboard works out, and
//! [`blueprint_fetchers`] what the blueprint selector does.

pub mod blueprint_fetchers;
pub mod canonical;
pub mod cli;
pub mod container;
pub mod containers_table_view;
pub mod deploy;
pub mod fs_watcher;
pub mod json;
pub mod kanto_api;
pub mod kantui;
pub mod kantui_config;
pub mod manifest_parser;
pub mod mqtt_listener;
pub mod number;
pub mod reconcile;
pub mod retry;
pub mod serialize;
pub mod text;
