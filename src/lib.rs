//! A random-access cursor over an in-memory byte buffer, with big-endian
//! scalar decoders and three seek modes, and the decoder of the fixed header
//! of an FLV container, which leaves the cursor where it was when it fails.

pub mod header;
pub mod reader;
