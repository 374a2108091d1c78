//! Request planning for a small GitHub issue front end: which handler answers a
//! path, what the pages' query strings name, which requests go to the GitHub API,
//! and the JSON that is sent there and back.
pub mod text;
pub mod query;
pub mod model;
pub mod json;
pub mod render;
pub mod github;
pub mod routing;
pub mod service;
pub mod readback;
pub mod laws;
