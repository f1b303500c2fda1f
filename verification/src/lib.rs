//! A single-shot HTTP probe library: validates command-line style options into
//! a typed configuration, resolves HTTP Basic credentials from environment
//! lookups, plans one outgoing request, and renders every outcome as a single
//! JSON line for a monitoring system.

pub mod creds;
pub mod params;
pub mod render;
pub mod request;
