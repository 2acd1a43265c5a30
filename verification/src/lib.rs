//! Coordination logic for operators of the `ExposedApp` custom resource,
//! which turns an image, a replica count and a port into a Deployment and a
//! Service.
//!
//! The library decides and computes; it performs no I/O. Each of its loops is
//! a state machine that its caller feeds with what happened and that answers
//! with what to do next.
//!
//! - [`k8s_types`], [`labels`]: the objects of the API as plain data.
//! - [`k8s_client`], [`json`]: the requests of the API client, its errors,
//!   its retry policy and the patch document of the lease.
//! - [`cache`]: the version cache that suppresses redundant work.
//! - [`leader_election`], [`offset_date_time_parser`]: the lease protocol
//!   and the times it reads and writes.
//! - [`operator`]: the watch loops and the reconcile queue with its backoff.
//! - [`reconciler`]: the children of a parent and the order of the writes.
//! - [`exposed_app`], [`exposed_app_controller`]: the same resource under the
//!   group `stable.kube-rs-o6r.com`, reconciled as a list of operations.
//! - [`admission_review`]: admission reviews and two webhooks on pods.
//! - [`assoc`], [`text`]: association lists as maps, and text helpers.

pub mod admission_review;
pub mod assoc;
pub mod cache;
pub mod exposed_app;
pub mod exposed_app_controller;
pub mod json;
pub mod k8s_client;
pub mod k8s_types;
pub mod labels;
pub mod leader_election;
pub mod offset_date_time_parser;
pub mod operator;
pub mod reconciler;
pub mod text;
