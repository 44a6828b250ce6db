//! Native-side backend for a downloads-folder browser.
//!
//! The library holds the verified logic of the command surface: classifying
//! directory entries by extension, building file descriptors, producing
//! data URIs for inline display, and planning the "reveal in file manager"
//! action. The thin I/O shell around it (directory reading, deletion,
//! process spawning) lives outside the library.

pub mod chars;
pub mod classify;
pub mod descriptor;
pub mod encode;
pub mod finder;

use vstd::prelude::*;

verus! {

} // verus!
