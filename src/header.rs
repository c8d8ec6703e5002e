use vstd::prelude::*;

use crate::reader::{be_u24, be_u32, FlvReader, SeekFrom};

verus! {

/// The three signature bytes "FLV", read as one big-endian value.
pub const SIGNATURE: u32 = 0x464C56;

/// The type flag bit that marks audio content.
pub const HAS_AUDIO: u8 = 0x80;

/// The type flag bit that marks video content.
pub const HAS_VIDEO: u8 = 0x20;

/// The capability bits of a header. Bits without a name are kept as they are.
#[derive(Clone, Copy, Debug, PartialEq, Eq, Structural)]
pub struct TypeFlags {
    bits: u8,
}

impl View for TypeFlags {
    type V = u8;

    closed spec fn view(&self) -> u8 {
        self.bits
    }
}

impl TypeFlags {
    /// The set of exactly the given bits, unknown ones included.
    pub fn from_bits_retain(bits: u8) -> (r: Self)
        ensures
            r@ == bits,
    {
        TypeFlags { bits }
    }

    /// The raw bits.
    pub fn bits(&self) -> (r: u8)
        ensures
            r == self@,
    {
        self.bits
    }

    /// Whether the audio bit is set.
    pub fn has_audio(&self) -> (r: bool)
        ensures
            r == (self@ & HAS_AUDIO != 0),
    {
        self.bits & HAS_AUDIO != 0
    }

    /// Whether the video bit is set.
    pub fn has_video(&self) -> (r: bool)
        ensures
            r == (self@ & HAS_VIDEO != 0),
    {
        self.bits & HAS_VIDEO != 0
    }
}

/// The fixed header at the start of an FLV container.
#[derive(Clone, Copy, Debug, PartialEq, Eq, Structural)]
pub struct Header {
    pub version: u8,
    pub type_flags: TypeFlags,
    pub data_offset: u32,
}

/// The signature bytes "FLV".
pub open spec fn signature_bytes() -> Seq<u8> {
    seq![0x46u8, 0x4Cu8, 0x56u8]
}

/// Whether the signature bytes stand in `data` at `pos`.
pub open spec fn signature_at(data: Seq<u8>, pos: int) -> bool {
    &&& 0 <= pos
    &&& pos + 3 <= data.len()
    &&& data.subrange(pos, pos + 3) == signature_bytes()
}

/// Whether a whole header, with its signature, lies in `data` at `pos`.
pub open spec fn header_fits_at(data: Seq<u8>, pos: int) -> bool {
    &&& signature_at(data, pos)
    &&& pos + 9 <= data.len()
}

/// Three bytes read as one big-endian value equal the signature value exactly
/// when they are the signature bytes.
proof fn lemma_signature_value(b: Seq<u8>)
    requires
        b.len() == 3,
    ensures
        (be_u24(b) == SIGNATURE) == (b == signature_bytes()),
{
    if b == signature_bytes() {
        assert(be_u24(b) == SIGNATURE);
    }
    if be_u24(b) == SIGNATURE {
        assert(b =~= signature_bytes());
    }
}

/// Whether `h` holds the fields of the header that starts in `data` at `pos`.
pub open spec fn is_header_at(h: Header, data: Seq<u8>, pos: int) -> bool {
    &&& h.version == data[pos + 3]
    &&& h.type_flags@ == data[pos + 4]
    &&& h.data_offset == be_u32(data.subrange(pos + 5, pos + 9))
}

impl Header {
    /// Decodes a header at the cursor's position.
    ///
    /// On success the cursor is left at the header's data offset, wherever
    /// that lies. On failure, for a wrong signature or too few bytes, the
    /// cursor is left where it was.
    pub fn parse(reader: &mut FlvReader<'_>) -> (r: Option<Self>)
        ensures
            final(reader)@.data == old(reader)@.data,
            header_fits_at(old(reader)@.data, old(reader)@.pos as int) ==> {
                &&& r is Some
                &&& is_header_at(r.unwrap(), old(reader)@.data, old(reader)@.pos as int)
                &&& final(reader)@.pos == r.unwrap().data_offset
            },
            !header_fits_at(old(reader)@.data, old(reader)@.pos as int) ==> {
                &&& r is None
                &&& final(reader)@ == old(reader)@
            },
    {
        let old_position = reader.position();
        let ret = Self::parse_fields(reader);
        match ret {
            Some(h) => {
                match reader.seek(SeekFrom::Start(h.data_offset as u64)) {
                    Ok(_) => Some(h),
                    Err(_) => {
                        let _ = reader.seek(SeekFrom::Start(old_position as u64));
                        None
                    },
                }
            },
            None => {
                let _ = reader.seek(SeekFrom::Start(old_position as u64));
                None
            },
        }
    }

    /// Reads the signature and the fields of a header, moving past what it
    /// reads.
    fn parse_fields(reader: &mut FlvReader<'_>) -> (r: Option<Self>)
        ensures
            final(reader)@.data == old(reader)@.data,
            header_fits_at(old(reader)@.data, old(reader)@.pos as int) ==> {
                &&& r is Some
                &&& is_header_at(r.unwrap(), old(reader)@.data, old(reader)@.pos as int)
            },
            !header_fits_at(old(reader)@.data, old(reader)@.pos as int) ==> r is None,
    {
        let ghost d = reader@.data;
        let ghost p = reader@.pos as int;
        proof {
            reader.lemma_data_fits();
        }
        let signature = match reader.read_u24() {
            Some(s) => s,
            None => return None,
        };
        proof {
            lemma_signature_value(d.subrange(p, p + 3));
        }
        if signature != SIGNATURE {
            return None;
        }
        let version = match reader.read_u8() {
            Some(v) => v,
            None => return None,
        };
        let type_flags = match reader.read_u8() {
            Some(f) => TypeFlags::from_bits_retain(f),
            None => return None,
        };
        let data_offset = match reader.read_u32() {
            Some(o) => o,
            None => return None,
        };
        Some(Header { version, type_flags, data_offset })
    }
}

/// Decoding fails on a buffer that does not begin with the signature, from
/// any position where the signature does not stand either.
pub proof fn lemma_no_signature_no_header(data: Seq<u8>, pos: int)
    requires
        !signature_at(data, 0),
        !signature_at(data, pos),
    ensures
        !header_fits_at(data, pos),
{
}

/// Decoding fails on a buffer shorter than a header, wherever the cursor is.
pub proof fn lemma_short_buffer_no_header(data: Seq<u8>, pos: int)
    requires
        data.len() < 9,
    ensures
        !header_fits_at(data, pos),
{
}

} // verus!
