//! Verified core of a concert-photo archive: slugs for band galleries,
//! EXIF metadata extraction, HEIC to JPEG conversion, photo identifiers,
//! an in-memory photo store, and the error types that the web layer maps
//! to HTTP status codes.

pub mod error;
pub mod text;
pub mod domain;
pub mod exif;
pub mod conversion;
pub mod ids;
pub mod storage;
pub mod response;
pub mod auth;
pub mod database;
pub mod startup;
pub mod template;
pub mod services;
