//! A watcher for new releases of GitHub repositories and Docker images.
//!
//! The connectors turn what the registries answer into release descriptors.
//! The detector compares each descriptor with the version store and records
//! what is new before anybody is told. The dispatcher renders one
//! announcement per enabled notification channel and judges every delivery
//! on its own. Nothing here touches the network or the disk: requests come
//! out as values, and answers go in as values.

pub mod api;
pub mod auth;
pub mod config;
pub mod database;
pub mod detector;
pub mod dispatcher;
pub mod docker;
pub mod github;
pub mod models;
pub mod notifications;
pub mod poll;
pub mod release;
pub mod text;
pub mod wire;
