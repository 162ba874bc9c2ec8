//! The decoded movie header, its layout, and the decoder.
//!
//! The container is a fixed-layout byte record:
//!
//! | offset | size | field          | encoding                                |
//! |--------|------|----------------|-----------------------------------------|
//! | 0      | 4    | magic          | the literal bytes `43 54 4D 1B`         |
//! | 4      | 8    | title id       | raw bytes, reversed, hex-rendered       |
//! | 12     | 20   | build hash     | raw bytes, hex-rendered                 |
//! | 32     | 8    | creation time  | signed 64-bit little-endian Unix seconds|
//! | 40     | 8    | movie id       | unsigned 64-bit little-endian           |
//! | 48     | 32   | author         | UTF-8 text, fixed capacity              |
//! | 80     | 4    | rerecords      | unsigned 32-bit little-endian           |
//! | 84     | 8    | input count    | unsigned 64-bit little-endian, only in  |
//! |        |      |                | the `WithInputCount` layout             |
//!
//! The full layout is 92 bytes; the reduced layout stops after the rerecord
//! counter at 84 bytes and carries no input count. Nothing on disk tells the
//! two apart: the caller chooses the layout, typically from the total length.
use vstd::prelude::*;

use crate::frames::frame_count_from_inputs;
use crate::frames::spec_frame_count;
use crate::hexenc::hex_encode;
use crate::hexenc::spec_hex;
use crate::reader::read_value;
use crate::timefmt::secs_in_calendar_range;
use crate::timefmt::utc_from_secs;
use crate::utf8::chars_are_scalars;
use crate::utf8::spec_utf8_scalars;
use crate::utf8::spec_utf8_valid;
use crate::utf8::string_from_utf8;
use vstd::bytes::spec_u32_from_le_bytes;
use vstd::bytes::spec_u64_from_le_bytes;
use vstd::bytes::u32_from_le_bytes;
use vstd::bytes::u64_from_le_bytes;

verus! {

/// The decoded header record. Immutable once constructed: a decode either
/// fills every field or fails with an error, never partially.
#[derive(Clone, Debug)]
pub struct CTM {
    /// The title identifier: its 8 raw bytes reversed, rendered as 16
    /// lowercase hexadecimal digits.
    pub title_id: String,
    /// The build/version hash: 20 raw bytes in stored order, rendered as 40
    /// lowercase hexadecimal digits.
    pub git_hash: String,
    /// The creation time, in Unix epoch seconds (UTC, second precision),
    /// always within the calendar-representable range.
    pub init_time: i64,
    /// The unique session identifier.
    pub movie_id: u64,
    /// The author label: all 32 bytes of the field decoded as UTF-8, with no
    /// trimming of trailing padding.
    pub author: String,
    /// How many times the session was rewound and replayed during capture.
    pub rerecords: u32,
    /// The derived frame count: a pure function of `inputs`, never stored in
    /// the container.
    pub frames: u64,
    /// The number of recorded input-polling events; zero in the reduced
    /// layout, which does not store it.
    pub inputs: u64,
}

impl Default for CTM {
    /// An empty record: empty identifiers and text, every counter zero, and
    /// the creation time at the Unix epoch.
    fn default() -> (r: CTM)
        ensures
            r.title_id@ == Seq::<char>::empty(),
            r.git_hash@ == Seq::<char>::empty(),
            r.init_time == 0,
            r.movie_id == 0,
            r.author@ == Seq::<char>::empty(),
            r.rerecords == 0,
            r.frames == 0,
            r.inputs == 0,
    {
        CTM {
            title_id: String::new(),
            git_hash: String::new(),
            init_time: 0,
            movie_id: 0,
            author: String::new(),
            rerecords: 0,
            frames: 0,
            inputs: 0,
        }
    }
}

/// Why a decode failed. Every variant is terminal: the decode returns no
/// partial record.
#[derive(Clone, Copy, Debug, PartialEq, Eq, Structural)]
pub enum DecodeError {
    /// The first four bytes are not the container signature.
    InvalidMagic,
    /// The buffer ended before a fixed-width field could be read in full.
    UnexpectedEnd,
    /// The creation-time seconds value lies outside the representable
    /// calendar range.
    InvalidTimestamp,
    /// The author field is not valid UTF-8.
    InvalidText,
}

impl DecodeError {
    /// A short diagnostic description of the failure.
    pub fn message(&self) -> (r: String)
        ensures
            r@ == spec_error_message(*self),
    {
        match self {
            DecodeError::InvalidMagic => "Invalid magic".to_owned(),
            DecodeError::UnexpectedEnd => "Unexpected end of buffer".to_owned(),
            DecodeError::InvalidTimestamp => "Timestamp out of range".to_owned(),
            DecodeError::InvalidText => "Author is not valid UTF-8".to_owned(),
        }
    }
}

/// The diagnostic description of each failure.
pub open spec fn spec_error_message(e: DecodeError) -> Seq<char> {
    match e {
        DecodeError::InvalidMagic => "Invalid magic"@,
        DecodeError::UnexpectedEnd => "Unexpected end of buffer"@,
        DecodeError::InvalidTimestamp => "Timestamp out of range"@,
        DecodeError::InvalidText => "Author is not valid UTF-8"@,
    }
}

/// The two layouts found in the wild. The container carries no version
/// discriminator: the caller picks the layout, typically from the buffer
/// length.
#[derive(Clone, Copy, Debug, PartialEq, Eq, Structural)]
pub enum FormatVariant {
    /// 84 bytes, ending at the rerecord counter; no input count is stored
    /// and the derived frame count is zero.
    Reduced,
    /// 92 bytes, with the trailing input count; the canonical layout for new
    /// data.
    WithInputCount,
}

/// The container signature: `"CTM"` followed by `0x1B`.
pub open spec fn spec_magic() -> Seq<u8> {
    seq![0x43u8, 0x54u8, 0x4Du8, 0x1Bu8]
}

/// Whether the buffer begins with the container signature.
pub open spec fn spec_magic_ok(s: Seq<u8>) -> bool {
    s.len() >= 4 && s.subrange(0, 4) == spec_magic()
}

/// The total byte length each layout requires.
pub open spec fn spec_required_len(v: FormatVariant) -> int {
    match v {
        FormatVariant::Reduced => 84,
        FormatVariant::WithInputCount => 92,
    }
}

/// The raw title-identifier bytes, in stored order.
pub open spec fn spec_title_id_bytes(s: Seq<u8>) -> Seq<u8> {
    s.subrange(4, 12)
}

/// The raw build-hash bytes.
pub open spec fn spec_build_hash_bytes(s: Seq<u8>) -> Seq<u8> {
    s.subrange(12, 32)
}

/// The two's-complement reading of an unsigned 64-bit value.
pub open spec fn spec_u64_le_as_signed(u: u64) -> int {
    if u < 0x8000_0000_0000_0000 {
        u as int
    } else {
        u - 0x1_0000_0000_0000_0000
    }
}

/// The creation time: the signed 64-bit little-endian integer stored at
/// offset 32, as Unix epoch seconds.
pub open spec fn spec_init_secs(s: Seq<u8>) -> int {
    spec_u64_le_as_signed(spec_u64_from_le_bytes(s.subrange(32, 40)))
}

/// The raw author bytes.
pub open spec fn spec_author_bytes(s: Seq<u8>) -> Seq<u8> {
    s.subrange(48, 80)
}

/// The stored input count: present only in the full layout, zero otherwise.
pub open spec fn spec_inputs(s: Seq<u8>, v: FormatVariant) -> u64 {
    match v {
        FormatVariant::Reduced => 0,
        FormatVariant::WithInputCount => spec_u64_from_le_bytes(s.subrange(84, 92)),
    }
}

/// The outcome of the sequential decode pass over `s` for layout `v`: the
/// error it stops at, or `None` when every check passes. The order mirrors
/// the cursor walk: the signature is read and checked first, the creation
/// time is read and range-checked before the fields behind it, and the
/// author text is checked once its 32 bytes are present.
pub open spec fn spec_decode_error(s: Seq<u8>, v: FormatVariant) -> Option<DecodeError> {
    if s.len() < 4 {
        Some(DecodeError::UnexpectedEnd)
    } else if !spec_magic_ok(s) {
        Some(DecodeError::InvalidMagic)
    } else if s.len() < 40 {
        Some(DecodeError::UnexpectedEnd)
    } else if !secs_in_calendar_range(spec_init_secs(s)) {
        Some(DecodeError::InvalidTimestamp)
    } else if s.len() < 80 {
        Some(DecodeError::UnexpectedEnd)
    } else if !spec_utf8_valid(spec_author_bytes(s)) {
        Some(DecodeError::InvalidText)
    } else if s.len() < spec_required_len(v) {
        Some(DecodeError::UnexpectedEnd)
    } else {
        None
    }
}

/// Whether the record `h` holds exactly the fields encoded in `s` under
/// layout `v`.
pub open spec fn spec_header_matches(h: CTM, s: Seq<u8>, v: FormatVariant) -> bool {
    &&& h.title_id@ == spec_hex(spec_title_id_bytes(s).reverse())
    &&& h.git_hash@ == spec_hex(spec_build_hash_bytes(s))
    &&& h.init_time == spec_init_secs(s)
    &&& h.movie_id == spec_u64_from_le_bytes(s.subrange(40, 48))
    &&& chars_are_scalars(h.author@, spec_utf8_scalars(spec_author_bytes(s)))
    &&& h.rerecords == spec_u32_from_le_bytes(s.subrange(80, 84))
    &&& h.inputs == spec_inputs(s, v)
    &&& h.frames == spec_frame_count(h.inputs as int)
}

/// Reads `count` bytes at the cursor, or reports that the buffer ended.
fn read_checked(content: &Vec<u8>, position: &mut usize, count: usize) -> (r: Result<
    Vec<u8>,
    DecodeError,
>)
    requires
        *old(position) <= content@.len(),
    ensures
        *old(position) + count <= content@.len() ==> (r matches Ok(bytes) && bytes@ == content@.subrange(
            *old(position) as int,
            *old(position) + count,
        ) && *final(position) == *old(position) + count),
        *old(position) + count > content@.len() ==> (r == Result::<Vec<u8>, DecodeError>::Err(
            DecodeError::UnexpectedEnd,
        ) && *final(position) == *old(position)),
        *final(position) <= content@.len(),
{
    if count > content.len() - *position {
        Err(DecodeError::UnexpectedEnd)
    } else {
        Ok(read_value(content, position, count))
    }
}

/// Decodes the signed little-endian creation time stored in `raw`.
fn init_secs_from_bytes(raw: &Vec<u8>) -> (r: i64)
    requires
        raw@.len() == 8,
    ensures
        r == spec_u64_le_as_signed(spec_u64_from_le_bytes(raw@)),
{
    let unsigned: u64 = u64_from_le_bytes(raw.as_slice());
    if unsigned < 0x8000_0000_0000_0000u64 {
        unsigned as i64
    } else {
        let distance_to_max: u64 = u64::MAX - unsigned;
        -(distance_to_max as i64) - 1
    }
}

/// Reverses a byte sequence.
fn reverse_bytes(bytes: &Vec<u8>) -> (r: Vec<u8>)
    ensures
        r@ == bytes@.reverse(),
{
    let mut result: Vec<u8> = Vec::new();
    let mut remaining: usize = bytes.len();
    while remaining > 0
        invariant
            remaining <= bytes@.len(),
            result@.len() == bytes@.len() - remaining,
            forall|j: int|
                0 <= j < result@.len() ==> result@[j] == bytes@[bytes@.len() - 1 - j],
        decreases remaining,
    {
        remaining -= 1;
        result.push(bytes[remaining]);
    }
    proof {
        assert(result@ =~= bytes@.reverse());
    }
    result
}

/// Decodes a header from `content` under layout `variant`.
///
/// The result is pinned by [`spec_decode_error`] and [`spec_header_matches`]:
/// it is `Ok` exactly when the sequential pass finds no fault, the record
/// then holds precisely the fields encoded in the buffer, and a failing pass
/// returns the error it stopped at — never a partial record.
pub fn decode(content: &Vec<u8>, variant: FormatVariant) -> (r: Result<CTM, DecodeError>)
    ensures
        r is Ok <==> spec_decode_error(content@, variant) is None,
        (r matches Err(e) ==> Some(e) == spec_decode_error(content@, variant)),
        (r matches Ok(h) ==> spec_header_matches(h, content@, variant)),
{
    let mut position: usize = 0;
    let magic = match read_checked(content, &mut position, 4) {
        Ok(bytes) => bytes,
        Err(e) => { return Err(e) },
    };
    if !(magic[0] == 0x43 && magic[1] == 0x54 && magic[2] == 0x4D && magic[3] == 0x1B) {
        return Err(DecodeError::InvalidMagic);
    }
    proof {
        assert(magic@ =~= spec_magic());
    }

    let title_id_raw = match read_checked(content, &mut position, 8) {
        Ok(bytes) => bytes,
        Err(e) => { return Err(e) },
    };
    let git_hash_raw = match read_checked(content, &mut position, 20) {
        Ok(bytes) => bytes,
        Err(e) => { return Err(e) },
    };
    let init_time_raw = match read_checked(content, &mut position, 8) {
        Ok(bytes) => bytes,
        Err(e) => { return Err(e) },
    };
    let init_time = init_secs_from_bytes(&init_time_raw);
    if utc_from_secs(init_time).is_none() {
        return Err(DecodeError::InvalidTimestamp);
    }

    let movie_id_raw = match read_checked(content, &mut position, 8) {
        Ok(bytes) => bytes,
        Err(e) => { return Err(e) },
    };
    let movie_id: u64 = u64_from_le_bytes(movie_id_raw.as_slice());

    let author_raw = match read_checked(content, &mut position, 32) {
        Ok(bytes) => bytes,
        Err(e) => { return Err(e) },
    };
    let author = match string_from_utf8(author_raw) {
        Some(text) => text,
        None => { return Err(DecodeError::InvalidText) },
    };

    let rerecords_raw = match read_checked(content, &mut position, 4) {
        Ok(bytes) => bytes,
        Err(e) => { return Err(e) },
    };
    let rerecords: u32 = u32_from_le_bytes(rerecords_raw.as_slice());

    let inputs: u64 = match variant {
        FormatVariant::Reduced => 0,
        FormatVariant::WithInputCount => {
            let inputs_raw = match read_checked(content, &mut position, 8) {
                Ok(bytes) => bytes,
                Err(e) => { return Err(e) },
            };
            u64_from_le_bytes(inputs_raw.as_slice())
        },
    };
    let frames = frame_count_from_inputs(inputs);

    let title_id = hex_encode(&reverse_bytes(&title_id_raw));
    let git_hash = hex_encode(&git_hash_raw);

    Ok(
        CTM {
            title_id,
            git_hash,
            init_time,
            movie_id,
            author,
            rerecords,
            frames,
            inputs,
        },
    )
}

/// A buffer that begins with the signature, stores an in-range creation
/// time, holds valid UTF-8 author text and is long enough for its layout
/// decodes without fault: `decode` then returns a record holding exactly the
/// fields encoded at their offsets.
pub proof fn lemma_well_formed_buffer_decodes(s: Seq<u8>, v: FormatVariant)
    requires
        s.len() >= spec_required_len(v),
        spec_magic_ok(s),
        secs_in_calendar_range(spec_init_secs(s)),
        spec_utf8_valid(spec_author_bytes(s)),
    ensures
        spec_decode_error(s, v) is None,
{
}

/// Corrupting the signature is always fatal: whatever the rest of the buffer
/// holds, a buffer whose first four bytes differ anywhere from the signature
/// decodes to the invalid-magic error.
pub proof fn lemma_corrupt_magic_rejected(s: Seq<u8>, v: FormatVariant)
    requires
        s.len() >= 4,
        exists|i: int| 0 <= i < 4 && s[i] != spec_magic()[i],
    ensures
        spec_decode_error(s, v) == Some(DecodeError::InvalidMagic),
{
    assert(s.subrange(0, 4) != spec_magic()) by {
        let i = choose|i: int| 0 <= i < 4 && s[i] != spec_magic()[i];
        assert(s.subrange(0, 4)[i] != spec_magic()[i]);
    }
}

/// A buffer shorter than its layout requires never yields a record: no field
/// is ever fabricated from a truncated buffer.
pub proof fn lemma_truncated_never_decodes(s: Seq<u8>, v: FormatVariant)
    requires
        s.len() < spec_required_len(v),
    ensures
        spec_decode_error(s, v) is Some,
{
}

/// A truncated buffer whose present bytes are themselves faultless — the
/// signature is intact where present, and the creation time and author text
/// pass their checks where the cursor reaches them — decodes to the
/// unexpected-end error.
pub proof fn lemma_truncated_unexpected_end(s: Seq<u8>, v: FormatVariant)
    requires
        s.len() < spec_required_len(v),
        s.len() >= 4 ==> spec_magic_ok(s),
        s.len() >= 40 ==> secs_in_calendar_range(spec_init_secs(s)),
        s.len() >= 80 ==> spec_utf8_valid(spec_author_bytes(s)),
    ensures
        spec_decode_error(s, v) == Some(DecodeError::UnexpectedEnd),
{
}

/// Ill-formed author text is always fatal: once the 32 author bytes are
/// present behind an intact signature and an in-range creation time, a
/// byte sequence that is not valid UTF-8 decodes to the invalid-text error,
/// whatever the rest of the buffer holds.
pub proof fn lemma_invalid_author_rejected(s: Seq<u8>, v: FormatVariant)
    requires
        s.len() >= 80,
        spec_magic_ok(s),
        secs_in_calendar_range(spec_init_secs(s)),
        !spec_utf8_valid(spec_author_bytes(s)),
    ensures
        spec_decode_error(s, v) == Some(DecodeError::InvalidText),
{
}

/// Decodes a full-layout buffer, input count included.
pub fn from_vec(content: Vec<u8>) -> (r: Result<CTM, DecodeError>)
    ensures
        r is Ok <==> spec_decode_error(content@, FormatVariant::WithInputCount) is None,
        (r matches Err(e) ==> Some(e) == spec_decode_error(content@, FormatVariant::WithInputCount)),
        (r matches Ok(h) ==> spec_header_matches(h, content@, FormatVariant::WithInputCount)),
{
    decode(&content, FormatVariant::WithInputCount)
}

} // verus!
