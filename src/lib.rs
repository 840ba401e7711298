//! Extraction of camera metadata and filesystem attributes from JPEG files
//! into one ordered record per file.
pub mod tags;
pub mod date;
pub mod record;
pub mod batch;
