//! Typed model and text codec for ID24 JSON lumps, centred on the
//! compatibility options of game configurations: which options each runtime
//! tier allows, their per-tier defaults, the option set of a document, and
//! its `name value` wire format.

use vstd::prelude::*;

pub mod bits;
pub mod catalog;
pub mod codec;
pub mod config;
pub mod demoloop;
pub mod document;
pub mod error;
pub mod finale;
pub mod json;
pub mod options;
pub mod sbardef;
pub mod skydefs;
pub mod text;
pub mod tier;

pub use bits::{Alignment, Duration, FrameType, HoriAlign, VertAlign};
pub use catalog::{ClipMasked, CompOption, OptionValue, TexWidthClamp, ValueShape, OPTION_COUNT};
pub use config::{Config, FileType};
pub use demoloop::{DemoType, OutRowWipe};
pub use document::{find_duplicate, LumpType, Version};
pub use error::CodecError;
pub use finale::{Bunny, CastMember, CastRollCall};
pub use options::Options;
pub use sbardef::{NumberFont, NumberFontType};
pub use skydefs::{FlatMapping, SkyType};
pub use tier::{Executable, Mode};

verus! {

} // verus!
