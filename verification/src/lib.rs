//! Client-side logic for the Google Compute Engine metadata service.
//!
//! The crate performs no input or output of its own. Callers hand it the
//! transport as a function from [`wire::Request`] to [`wire::Reply`], or send the
//! requests themselves and have the replies read by the questions in [`query`],
//! and drive the state machines in [`cache`] and [`detect`] from their own event
//! loop.
pub mod cache;
pub mod client;
pub mod detect;
pub mod error;
pub mod fields;
pub mod foreign;
pub mod json;
pub mod metadata;
pub mod query;
pub mod text;
pub mod wire;

pub use crate::cache::{CacheEntry, State};
pub use crate::client::Client;
pub use crate::error::{Error, ErrorKind};
pub use crate::metadata::{
    external_ip, get, hostname, instance_attribute_value, instance_attributes, instance_id,
    instance_name, instance_tags, internal_ip, numeric_project_id, on_gce, project_attribute_value,
    project_attributes, project_id, scopes, zone,
};
pub use crate::wire::{Env, Reply, Request, Response};
