//! Extraction of hunting-session figures from game screenshots: image
//! geometry, icon location, region selection, text parsing and the
//! reconciliation of a start and an end snapshot.
pub mod scan;
pub mod parser;
pub mod laws;
pub mod types;
pub mod session;
pub mod raster;
pub mod locator;
pub mod regions;
pub mod pipeline;
pub mod records;
