//! Logic shared by the routes: both the JSON API and the browser upload
//! form save photos through the same pipeline.

pub mod photo;
