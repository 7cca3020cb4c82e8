//! Core logic of the EterPix VRChat uploader: log parsing, OSC visibility
//! control, camera-grid decoding, upload bookkeeping and settings.

pub mod text;
pub mod visibility;
pub mod log_parser;
pub mod image_processor;
pub mod osc_handler;
pub mod uploader;
pub mod config;
pub mod startup;
pub mod offline_queue;
pub mod history;
pub mod worker;
pub mod session;

use vstd::prelude::*;

verus! {

} // verus!
