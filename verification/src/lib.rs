//! Decoder for line-delimited JSON journal files: each line is one telemetry
//! event, decoded into a closed set of typed records, with a configurable
//! per-line failure policy.

use vstd::prelude::*;

pub mod decode;
pub mod events;
pub mod fields;
pub mod json;
pub mod reader;
pub mod time;

pub use decode::decode;
pub use decode::decode_line;
pub use events::DecodeError;
pub use events::Event;
pub use events::FieldKind;
pub use reader::JournalReport;
pub use reader::LineFailure;
pub use reader::decode_journal;
pub use time::Timestamp;

verus! {

/// How the reader treats a line that fails to decode.
#[derive(Clone, Copy, PartialEq, Eq, Structural, Debug)]
pub enum Policy {
    /// The first decode failure aborts the whole read.
    Strict,
    /// A decode failure is recorded and the read continues.
    Lenient,
}

} // verus!
