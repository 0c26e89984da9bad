//! Builder for workload-identity-federation external-account credential
//! configuration documents.
//!
//! The crate assembles the JSON document that tells a cloud SDK how to
//! exchange a locally obtained subject token for short-lived credentials:
//! identity-pool metadata, an impersonation target, and exactly one
//! credential source (URL-sourced or executable-sourced). Rendering to JSON
//! is done by the crate itself, and every renderer carries a contract that
//! pins the produced text down to the character.

pub mod json;
pub mod source;
pub mod selector;
pub mod key;

pub use source::{FormatSpec, URLSourced, Executable, ExecutableSourced, CredentialSource};
pub use selector::STSCredentialSource;
pub use key::{
    ExternalAccountKey, default_sts_external_account_key, build_external_account_key,
    external_account_document,
};
