//! Pull-request management against GitHub and self-hosted GitLab: the
//! provider-neutral core. Requests are described here as plain values, and
//! responses handed back as parsed documents are normalised into one outcome
//! type and one pull-request record.

pub mod value;
pub mod text;
pub mod utils;
pub mod error;
pub mod structs;
pub mod request;
pub mod profile;
pub mod github;
pub mod gitlab;
pub mod login;
pub mod repository;
pub mod command;
