//! Verified core of a bitmap-font text renderer.
//!
//! The renderer draws a monospace string as one instanced quad per glyph.
//! This crate holds the parts that are plain computation: the font-sheet
//! tile arithmetic, the instance-buffer fill and upload-size clamp, the
//! shader build decisions, and PNG pixel loading.

use vstd::prelude::*;

pub mod font;
pub mod shader;
pub mod strbuf;
pub mod texture;

verus! {

} // verus!
