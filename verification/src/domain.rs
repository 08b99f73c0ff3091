pub mod gallery;
pub mod photo;
