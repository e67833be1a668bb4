//! Rules for vendoring CodeMirror and its dependency closure from esm.sh:
//! which modules to fetch and from where, how their import specifiers map to
//! sibling files, the generated `index.js` entry, and the crawl over the
//! dependency graph. The downloads and file writes are the caller's.

pub mod crawl;
pub mod index_js;
pub mod names;
pub mod resolution;
pub mod rewrite;

use vstd::prelude::*;

pub use crate::vendor::{
    crawl::Crawl,
    index_js::{core_entries, languages, LanguageEntry},
    rewrite::{ModuleSource, ModuleVendored},
};

verus! {

/// Downloads CodeMirror and its dependency closure from esm.sh, rewriting
/// each module's bare imports to sibling files so the vendored tree is self
/// contained. This type holds the rules; the caller does the downloads and
/// writes.
pub struct CodemirrorVendor {}

} // verus!
