//! A verified safety layer over a host runtime's arena-allocated object graph:
//! a rewriter for scraped foreign declarations, arena pointer handles, host
//! lists, memory-context selection and relation handles.

pub mod decl;
pub mod extractor;
pub mod host;
pub mod list;
pub mod memcxt;
pub mod nodes;
pub mod pgptr;
pub mod rel;
pub mod relation_data;
pub mod rewriter;
pub mod trigger_support;
