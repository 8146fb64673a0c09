//! Clip acquisition: quality tiers, the downloader and encoder runs of a clip job, their
//! progress lines, and the files a cancelled job leaves behind.
use vstd::prelude::*;

pub mod aggregate;
pub mod cleanup;
pub mod commands;
pub mod lines;
pub mod pipeline;
pub mod probe;
pub mod progress;
pub mod quality;
pub mod text;

verus! {

} // verus!
