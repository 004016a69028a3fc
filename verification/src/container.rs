//! Reading of texture containers through the `ktx2` crate. The index that
//! the reader walks is looked over first.
use crate::spirv::spec_word;
use crate::texture_loading::ContainerFormat;
use crate::texture_loading::ContainerHeader;
use crate::texture_loading::Supercompression;
use vstd::prelude::*;

verus! {

/// Number of bytes of the header of a container.
pub const HEADER_LENGTH: usize = 80;

/// Number of bytes of the entry of one level in the level index.
pub const LEVEL_ENTRY_LENGTH: usize = 24;

/// Where the header holds the number of levels.
pub const LEVEL_COUNT_AT: usize = 40;

/// Where the header holds the offset of the data format descriptor.
pub const DESCRIPTOR_OFFSET_AT: usize = 48;

/// Where the header holds the length of the data format descriptor.
pub const DESCRIPTOR_LENGTH_AT: usize = 52;

/// The 32-bit number that `bytes` holds at `at`, least significant byte
/// first.
pub open spec fn spec_u32_at(bytes: Seq<u8>, at: int) -> u32 {
    spec_word(bytes[at], bytes[at + 1], bytes[at + 2], bytes[at + 3])
}

/// The 64-bit number that `bytes` holds at `at`, least significant byte
/// first.
pub open spec fn spec_u64_at(bytes: Seq<u8>, at: int) -> u64 {
    (spec_u32_at(bytes, at) as int + 0x1_0000_0000 * (spec_u32_at(bytes, at + 4) as int)) as u64
}

/// The 32-bit number that `bytes` holds at `at`.
pub fn u32_at(bytes: &[u8], at: usize) -> (value: u32)
    requires
        at + 4 <= bytes.len(),
    ensures
        value == spec_u32_at(bytes@, at as int),
{
    let b0: u32 = bytes[at] as u32;
    let b1: u32 = bytes[at + 1] as u32;
    let b2: u32 = bytes[at + 2] as u32;
    let b3: u32 = bytes[at + 3] as u32;
    b0 + 256 * b1 + 65536 * b2 + 16777216 * b3
}

/// The 64-bit number that `bytes` holds at `at`.
pub fn u64_at(bytes: &[u8], at: usize) -> (value: u64)
    requires
        at + 8 <= bytes.len(),
    ensures
        value == spec_u64_at(bytes@, at as int),
{
    let low: u64 = u32_at(bytes, at) as u64;
    let high: u64 = u32_at(bytes, at + 4) as u64;
    low + 0x1_0000_0000 * high
}

/// Number of entries of the level index: the number of levels that the
/// header gives, and one where it gives none.
pub open spec fn spec_index_entries(bytes: Seq<u8>) -> int {
    let levels = spec_u32_at(bytes, LEVEL_COUNT_AT as int);
    if levels == 0 {
        1
    } else {
        levels as int
    }
}

/// Where the entry of level `level` starts.
pub open spec fn spec_entry_at(level: int) -> int {
    HEADER_LENGTH + LEVEL_ENTRY_LENGTH * level
}

/// Where the data of level `level` starts.
pub open spec fn spec_level_offset(bytes: Seq<u8>, level: int) -> u64 {
    spec_u64_at(bytes, spec_entry_at(level))
}

/// Number of bytes of the data of level `level` as the container holds them.
pub open spec fn spec_level_length(bytes: Seq<u8>, level: int) -> u64 {
    spec_u64_at(bytes, spec_entry_at(level) + 8)
}

/// Number of bytes of the data of level `level` once they are no longer
/// compressed.
pub open spec fn spec_level_size(bytes: Seq<u8>, level: int) -> u64 {
    spec_u64_at(bytes, spec_entry_at(level) + 16)
}

/// Whether the whole level index lies within the container.
pub open spec fn spec_index_present(bytes: Seq<u8>) -> bool {
    bytes.len() >= HEADER_LENGTH && spec_entry_at(spec_index_entries(bytes)) <= bytes.len()
}

/// Whether a container is handed to the reader: the place of its data
/// format descriptor can be worked out in 32 bits and every level that its
/// index lists lies within it. A container that is too short to have a
/// header or an index is accepted, for the reader tells that by itself.
pub open spec fn spec_container_accepted(bytes: Seq<u8>) -> bool {
    bytes.len() >= HEADER_LENGTH ==> {
        &&& spec_u32_at(bytes, DESCRIPTOR_OFFSET_AT as int) + spec_u32_at(
            bytes,
            DESCRIPTOR_LENGTH_AT as int,
        ) <= u32::MAX
        &&& spec_index_present(bytes) ==> forall|level: int|
            0 <= level < spec_index_entries(bytes) ==> #[trigger] spec_level_offset(bytes, level)
                + spec_level_length(bytes, level) <= bytes.len()
    }
}

/// Whether a container is handed to the reader.
pub fn container_accepted(bytes: &[u8]) -> (accepted: bool)
    ensures
        accepted == spec_container_accepted(bytes@),
{
    if bytes.len() < HEADER_LENGTH {
        return true;
    }
    let descriptor_offset = u32_at(bytes, DESCRIPTOR_OFFSET_AT);
    let descriptor_length = u32_at(bytes, DESCRIPTOR_LENGTH_AT);
    if descriptor_length > u32::MAX - descriptor_offset {
        return false;
    }
    let levels = u32_at(bytes, LEVEL_COUNT_AT);
    let entries: usize = if levels == 0 {
        1
    } else {
        levels as usize
    };
    if entries > (bytes.len() - HEADER_LENGTH) / LEVEL_ENTRY_LENGTH {
        assert(!spec_index_present(bytes@));
        return true;
    }
    assert(spec_index_present(bytes@));
    let mut level: usize = 0;
    while level < entries
        invariant
            level <= entries,
            entries == spec_index_entries(bytes@),
            HEADER_LENGTH + LEVEL_ENTRY_LENGTH * entries <= bytes.len(),
            forall|l: int|
                0 <= l < level ==> #[trigger] spec_level_offset(bytes@, l) + spec_level_length(
                    bytes@,
                    l,
                ) <= bytes@.len(),
        decreases entries - level,
    {
        let at = HEADER_LENGTH + LEVEL_ENTRY_LENGTH * level;
        let offset = u64_at(bytes, at);
        let length = u64_at(bytes, at + 8);
        if offset > bytes.len() as u64 || length > bytes.len() as u64 - offset {
            assert(spec_level_offset(bytes@, level as int) + spec_level_length(bytes@, level as int)
                > bytes@.len());
            return false;
        }
        level = level + 1;
    }
    true
}

/// What the reader tells of the header of a container, with the numbers
/// under which the container names its format and its compression.
pub struct ContainerFields {
    pub format: Option<u32>,
    pub pixel_width: u32,
    pub pixel_height: u32,
    pub pixel_depth: u32,
    pub face_count: u32,
    pub level_count: u32,
    pub supercompression_scheme: Option<u32>,
}

/// What `ktx2::Reader::new` and `ktx2::Reader::header` make of a container:
/// its header, or nothing where the reader rejects it.
pub uninterp spec fn ktx2_fields(bytes: Seq<u8>) -> Option<ContainerFields>;

/// What `ktx2::Reader::new` and `ktx2::Reader::levels` make of a container:
/// the data of its levels, or nothing where the reader rejects it.
pub uninterp spec fn ktx2_levels(bytes: Seq<u8>) -> Option<Seq<Seq<u8>>>;

/// Whether `levels` are the levels that the index of the container lists:
/// the index lies within the container, and the levels are as many as it
/// has entries, each the bytes from its offset on.
pub open spec fn spec_levels_as_indexed(bytes: Seq<u8>, levels: Seq<Seq<u8>>) -> bool {
    &&& spec_index_present(bytes)
    &&& levels.len() == spec_index_entries(bytes)
    &&& forall|level: int|
        0 <= level < levels.len() ==> #[trigger] levels[level] == bytes.subrange(
            spec_level_offset(bytes, level) as int,
            spec_level_offset(bytes, level) + spec_level_length(bytes, level),
        )
}

/// The number that the header stores, where it stores one: zero stands for
/// none.
pub open spec fn spec_stored(raw: u32) -> Option<u32> {
    if raw == 0 {
        None
    } else {
        Some(raw)
    }
}

/// Whether `fields` are what the header of the container stores: the
/// container is as long as a header, and each field is the number at its
/// place.
pub open spec fn spec_fields_as_stored(bytes: Seq<u8>, fields: ContainerFields) -> bool {
    &&& bytes.len() >= HEADER_LENGTH
    &&& fields.format == spec_stored(spec_u32_at(bytes, 12))
    &&& fields.pixel_width == spec_u32_at(bytes, 20)
    &&& fields.pixel_height == spec_u32_at(bytes, 24)
    &&& fields.pixel_depth == spec_u32_at(bytes, 28)
    &&& fields.face_count == spec_u32_at(bytes, 36)
    &&& fields.level_count == spec_u32_at(bytes, LEVEL_COUNT_AT as int)
    &&& fields.supercompression_scheme == spec_stored(spec_u32_at(bytes, 44))
}

/// Calls `ktx2::Reader::new` and then `ktx2::Reader::header`, and hands the
/// public fields of the header out; `None` stands for every error of the
/// reader. The reader reads each field from its fixed place in the first
/// eighty bytes, and takes a format or a compression of zero for none. The precondition leaves out the containers on which the reader
/// panics: it adds the offset and the length of the data format descriptor
/// in 32 bits, and the offset and the length of a level in 64 bits.
#[verifier::external_body]
fn container_fields(bytes: &[u8]) -> (fields: Option<ContainerFields>)
    requires
        spec_container_accepted(bytes@),
    ensures
        fields == ktx2_fields(bytes@),
        match fields {
            Some(fields) => spec_fields_as_stored(bytes@, fields),
            None => true,
        },
{
    let header = ktx2::Reader::new(bytes).ok()?.header();
    Some(ContainerFields {
        format: header.format.map(|format| format.0.get()),
        pixel_width: header.pixel_width,
        pixel_height: header.pixel_height,
        pixel_depth: header.pixel_depth,
        face_count: header.face_count,
        level_count: header.level_count,
        supercompression_scheme: header.supercompression_scheme.map(|scheme| scheme.0.get()),
    })
}

/// Calls `ktx2::Reader::new` and then `ktx2::Reader::levels`, and copies
/// each level; `None` stands for every error of the reader. The reader
/// accepts a container only where the whole level index lies within it,
/// and hands out one slice for each entry of the index, from the offset of
/// the entry and of its length. The precondition leaves out the
/// containers on which the reader panics: besides those of the header, the
/// ones with a level that does not lie within the container, which it
/// slices all the same.
#[verifier::external_body]
fn container_levels(bytes: &[u8]) -> (levels: Option<Vec<Vec<u8>>>)
    requires
        spec_container_accepted(bytes@),
    ensures
        match levels {
            Some(levels) => ktx2_levels(bytes@) == Some(levels.deep_view())
                && spec_levels_as_indexed(bytes@, levels.deep_view()),
            None => ktx2_levels(bytes@) is None,
        },
{
    Some(ktx2::Reader::new(bytes).ok()?.levels().map(|level| level.to_vec()).collect())
}

/// The format that the container names by `raw`.
pub open spec fn spec_container_format(raw: u32) -> ContainerFormat {
    if raw == 123 {
        ContainerFormat::E5B9G9R9UfloatPack32
    } else if raw == 43 {
        ContainerFormat::R8G8B8A8Srgb
    } else if raw == 37 {
        ContainerFormat::R8G8B8A8Unorm
    } else {
        ContainerFormat::Other
    }
}

/// The compression that the container names by `raw`.
pub open spec fn spec_supercompression(raw: u32) -> Supercompression {
    if raw == 2 {
        Supercompression::Zstandard
    } else {
        Supercompression::Other
    }
}

/// The header that the fields of a container stand for.
pub open spec fn spec_container_header(fields: ContainerFields) -> ContainerHeader {
    ContainerHeader {
        format: match fields.format {
            Some(raw) => Some(spec_container_format(raw)),
            None => None,
        },
        pixel_width: fields.pixel_width,
        pixel_height: fields.pixel_height,
        pixel_depth: fields.pixel_depth,
        face_count: fields.face_count,
        level_count: fields.level_count,
        supercompression_scheme: match fields.supercompression_scheme {
            Some(raw) => Some(spec_supercompression(raw)),
            None => None,
        },
    }
}

/// The header that the fields of a container stand for.
pub fn container_header(fields: &ContainerFields) -> (header: ContainerHeader)
    ensures
        header == spec_container_header(*fields),
{
    ContainerHeader {
        format: match fields.format {
            Some(raw) => Some(
                if raw == 123 {
                    ContainerFormat::E5B9G9R9UfloatPack32
                } else if raw == 43 {
                    ContainerFormat::R8G8B8A8Srgb
                } else if raw == 37 {
                    ContainerFormat::R8G8B8A8Unorm
                } else {
                    ContainerFormat::Other
                },
            ),
            None => None,
        },
        pixel_width: fields.pixel_width,
        pixel_height: fields.pixel_height,
        pixel_depth: fields.pixel_depth,
        face_count: fields.face_count,
        level_count: fields.level_count,
        supercompression_scheme: match fields.supercompression_scheme {
            Some(raw) => Some(
                if raw == 2 {
                    Supercompression::Zstandard
                } else {
                    Supercompression::Other
                },
            ),
            None => None,
        },
    }
}

/// Whether `header` is the header that the container stores.
pub open spec fn spec_header_as_stored(bytes: Seq<u8>, header: ContainerHeader) -> bool {
    exists|fields: ContainerFields| #[trigger]
        spec_fields_as_stored(bytes, fields) && header == spec_container_header(fields)
}

/// What the reader makes of a container that is handed to it: its header
/// and the data of its levels.
pub open spec fn spec_read_container(bytes: Seq<u8>) -> Option<(ContainerHeader, Seq<Seq<u8>>)> {
    match (ktx2_fields(bytes), ktx2_levels(bytes)) {
        (Some(fields), Some(levels)) => Some((spec_container_header(fields), levels)),
        _ => None,
    }
}

/// Reads the header and the levels of a container; `None` where the
/// container is not handed to the reader or the reader rejects it.
pub fn read_container(bytes: &[u8]) -> (r: Option<(ContainerHeader, Vec<Vec<u8>>)>)
    ensures
        match r {
            Some((header, levels)) => spec_container_accepted(bytes@) && spec_read_container(bytes@)
                == Some((header, levels.deep_view())) && spec_levels_as_indexed(
                bytes@,
                levels.deep_view(),
            ) && spec_header_as_stored(bytes@, header),
            None => !spec_container_accepted(bytes@) || spec_read_container(bytes@) is None,
        },
{
    if !container_accepted(bytes) {
        return None;
    }
    let fields = match container_fields(bytes) {
        Some(fields) => fields,
        None => {
            return None;
        },
    };
    let levels = match container_levels(bytes) {
        Some(levels) => levels,
        None => {
            return None;
        },
    };
    Some((container_header(&fields), levels))
}

} // verus!
