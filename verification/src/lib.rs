//! Core of a wallpaper search client: search URLs, multi-page result
//! aggregation, a thumbnail cache keyed by URL, and the download pipeline
//! that names, transforms and encodes a chosen image.

pub mod aggregate;
pub mod download;
pub mod gallery;
pub mod query;
pub mod raster;
pub mod text;
pub mod thumbs;
