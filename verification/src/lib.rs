//! Resolution of request paths against an in-memory bundle of static assets,
//! with the fallback rule of a single-page application.
//!
//! An [`assets::AssetIndex`] holds every file of the bundle under its relative
//! path. [`router::static_handler`] answers a request path from it: the root
//! and the entry document by name give the entry document, a path of the
//! bundle gives its file, a missing path with a `.` gives status 404, and any
//! other missing path gives the entry document again, so that the
//! application can route it. [`content_type::get_content_type`] labels a path
//! by its extension; [`sniff`] holds the one call into `mime_guess`, whose
//! label the router prefers for the files it serves.

pub mod assets;
pub mod content_type;
pub mod request;
pub mod router;
pub mod sniff;
