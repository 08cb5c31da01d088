//! Verified core of a small file-dialog tool: validation of export
//! requests, MD5 checksum reporting, directory listings and the state
//! machine behind the dialog window.

pub mod text;
pub mod fields;
pub mod execpress;
pub mod checksum;
pub mod datetime;
pub mod listing;
pub mod dialog;
