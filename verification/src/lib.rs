//! Reacts to changes in Git repositories by running jobs in a Kubernetes cluster.
//!
//! Triggers watch sources (Git repositories) on a schedule or on request, and run actions
//! (Kubernetes jobs) when a source has changed. The modules here decide what happens: what to ask
//! the cluster, the repositories and the file system for, and what to do with the answers.
pub mod cache;
pub mod cli;
pub mod cloner;
pub mod config;
pub mod controller;
pub mod controllers;
pub mod error;
pub mod jobs;
pub mod laws;
pub mod leader;
pub mod metrics;
pub mod resources;
pub mod string_map;
pub mod text;
pub mod time;
pub mod web;

pub use error::{Error, KubeError};
