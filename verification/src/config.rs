//! Reading and rendering the one persisted configuration value.
//!
//! The configuration is a JSON object holding the base download directory
//! under the key `dir`. Where the file lives and how it moves to and from
//! disk is the surrounding application's business; this module interprets
//! and produces its contents, and the two contracts compose: what
//! [`render_config`] writes, [`config_dir_of`] reads back unchanged.

use vstd::prelude::*;
use crate::json::{read_string_field, render_string_field, string_field_of};
use crate::strutil::opt_view;

verus! {

/// The configured base download directory of a configuration document:
/// the string under `dir`, present exactly when the text is a JSON object
/// with a string there.
pub fn config_dir_of(contents: &str) -> (r: Option<String>)
    ensures
        opt_view(r) == string_field_of(contents@, "dir"@),
{
    read_string_field(contents, "dir")
}

/// Render the configuration document for a base download directory. The
/// document's `dir` field is exactly the given directory, so writing it
/// and reading it back through [`config_dir_of`] returns the same value.
pub fn render_config(dir: &str) -> (r: String)
    ensures
        string_field_of(r@, "dir"@) == Some(dir@),
{
    render_string_field("dir", dir)
}

} // verus!
