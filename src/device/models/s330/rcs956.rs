//! Frame recovery and command builders for the RC-S956 (PN53x-compatible)
//! controller inside the S330.

pub mod builders;
pub mod extractor;


pub use builders::{build_deselect, build_get_version, build_in_list_passive_target, build_rf_on};
pub use extractor::extract_felica_from_pn532_response;

pub mod multi_frame;
pub use multi_frame::extract_all_felica_frames_from_pn532_response;
