//! The routing rule of the qvet server: which mount point serves a request
//! path, and what part of the path that mount is handed.
pub mod routing;
