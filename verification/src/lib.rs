//! Verified core of the cloud-provider daemon: the provider-neutral
//! vocabulary, desired-state validation, diff-aware DNS planning, the
//! capability matrix, and the account / policy / plan store that gates every
//! provider effect behind owner approval.
pub mod vocabulary;
pub mod text;
pub mod http;
pub mod validation;
pub mod record_plan;
pub mod projection;
pub mod capability;
pub mod cloudflare;
pub mod cloudflare_cli;
pub mod hetzner;
pub mod digitalocean;
pub mod store;
pub mod effects;
pub mod engine;
pub mod client;
pub mod daemon;
pub mod schema_store;
pub mod schema_runtime;
