//! A TLS-terminating development proxy: the decisions and rewrites that make
//! a remote preview backend look like the developer's own origin.

mod http_model;

pub mod accept;
pub mod log;
pub mod rewrite;

pub use http_model::{
    header_entries, https_form, name_text, uri_accepts, uri_authority, uri_path_and_query,
    valid_header_value, value_bytes,
};
