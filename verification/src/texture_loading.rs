//! Layout of the texel data of a texture container: where each mip level
//! lies, and in which order the faces of a cube map are handed on.
use crate::container::read_container;
use crate::container::spec_container_accepted;
use crate::container::spec_index_present;
use crate::container::spec_level_size;
use crate::container::spec_levels_as_indexed;
use crate::container::spec_read_container;
use crate::container::u64_at;
use crate::container::HEADER_LENGTH;
use crate::container::LEVEL_ENTRY_LENGTH;
use crate::format::TextureFormat;
use crate::resource::TextureDescriptor;
use crate::resource::TextureDimension;
use crate::resource::TextureUsages;
use crate::resource::USAGE_TEXTURE_BINDING;
use vstd::prelude::*;

verus! {

/// Number of faces of a cube map.
pub const CUBE_FACES: usize = 6;

/// Texel format as the container names it.
#[derive(Clone, Copy, Debug, PartialEq, Eq, Structural)]
pub enum ContainerFormat {
    E5B9G9R9UfloatPack32,
    R8G8B8A8Srgb,
    R8G8B8A8Unorm,
    /// A format that the bridge has no mapping for.
    Other,
}

/// How the levels of a container are compressed.
#[derive(Clone, Copy, Debug, PartialEq, Eq, Structural)]
pub enum Supercompression {
    Zstandard,
    /// A scheme that the bridge does not undo.
    Other,
}

/// What the header of a container says of its texture.
#[derive(Clone, Copy, Debug, PartialEq, Eq, Structural)]
pub struct ContainerHeader {
    pub format: Option<ContainerFormat>,
    pub pixel_width: u32,
    pub pixel_height: u32,
    pub pixel_depth: u32,
    pub face_count: u32,
    pub level_count: u32,
    pub supercompression_scheme: Option<Supercompression>,
}

/// Why a container cannot be loaded.
#[derive(Clone, Copy, Debug, PartialEq, Eq, Structural)]
pub enum TextureError {
    /// The container names no format, or one that is not mapped.
    UnsupportedFormat,
    /// The levels are compressed in a way that the bridge does not undo.
    UnsupportedCompression,
    /// The levels hold more bytes than the data has.
    LevelsOutOfRange,
    /// The levels together hold more bytes than can be addressed.
    TooLarge,
    /// The bytes are no container that the reader accepts.
    MalformedContainer,
    /// The data of a level cannot be decompressed to the size that the
    /// container gives for it.
    CorruptLevel,
}

/// What has to be done to the bytes of each level.
#[derive(Clone, Copy, Debug, PartialEq, Eq, Structural)]
pub enum LevelAction {
    Copy,
    Decompress,
}

/// What has to be done to the bytes of each level of a container.
pub fn level_action(header: &ContainerHeader) -> (r: Result<LevelAction, TextureError>)
    ensures
        r == match header.supercompression_scheme {
            None => Ok::<LevelAction, TextureError>(LevelAction::Copy),
            Some(Supercompression::Zstandard) => Ok::<LevelAction, TextureError>(
                LevelAction::Decompress,
            ),
            Some(Supercompression::Other) => Err::<LevelAction, TextureError>(
                TextureError::UnsupportedCompression,
            ),
        },
{
    match header.supercompression_scheme {
        None => Ok(LevelAction::Copy),
        Some(Supercompression::Zstandard) => Ok(LevelAction::Decompress),
        Some(Supercompression::Other) => Err(TextureError::UnsupportedCompression),
    }
}

/// The larger of two numbers.
pub open spec fn spec_max(a: u32, b: u32) -> u32 {
    if a >= b {
        a
    } else {
        b
    }
}

/// The texture that the backend is asked for to hold the container: as deep
/// as the container, or as many layers as it has faces; three-dimensional
/// where it is deeper than one texel; only ever sampled.
pub open spec fn spec_container_descriptor(header: ContainerHeader) -> Result<
    TextureDescriptor,
    TextureError,
> {
    let format = match header.format {
        Some(ContainerFormat::E5B9G9R9UfloatPack32) => Some(TextureFormat::Rgb9e5Ufloat),
        Some(ContainerFormat::R8G8B8A8Srgb) => Some(TextureFormat::Rgba8UnormSrgb),
        Some(ContainerFormat::R8G8B8A8Unorm) => Some(TextureFormat::Rgba8Unorm),
        _ => None,
    };
    match format {
        None => Err(TextureError::UnsupportedFormat),
        Some(format) => Ok(
            TextureDescriptor {
                width: header.pixel_width,
                height: header.pixel_height,
                depth_or_array_layers: spec_max(spec_max(header.pixel_depth, 1), header.face_count),
                mip_level_count: header.level_count,
                sample_count: 1,
                dimension: if header.pixel_depth > 1 {
                    TextureDimension::D3
                } else {
                    TextureDimension::D2
                },
                format,
                usage: TextureUsages { bits: USAGE_TEXTURE_BINDING },
            },
        ),
    }
}

/// The texture that the backend is asked for to hold the container.
pub fn container_descriptor(header: &ContainerHeader) -> (r: Result<TextureDescriptor, TextureError>)
    ensures
        r == spec_container_descriptor(*header),
{
    let format = match header.format {
        Some(ContainerFormat::E5B9G9R9UfloatPack32) => TextureFormat::Rgb9e5Ufloat,
        Some(ContainerFormat::R8G8B8A8Srgb) => TextureFormat::Rgba8UnormSrgb,
        Some(ContainerFormat::R8G8B8A8Unorm) => TextureFormat::Rgba8Unorm,
        _ => {
            return Err(TextureError::UnsupportedFormat);
        },
    };
    let depth = if header.pixel_depth >= 1 {
        header.pixel_depth
    } else {
        1
    };
    let layers = if depth >= header.face_count {
        depth
    } else {
        header.face_count
    };
    Ok(
        TextureDescriptor {
            width: header.pixel_width,
            height: header.pixel_height,
            depth_or_array_layers: layers,
            mip_level_count: header.level_count,
            sample_count: 1,
            dimension: if header.pixel_depth > 1 {
                TextureDimension::D3
            } else {
                TextureDimension::D2
            },
            format,
            usage: TextureUsages { bits: USAGE_TEXTURE_BINDING },
        },
    )
}

/// Number of bytes of the first `n` levels together.
pub open spec fn spec_levels_size(lengths: Seq<usize>, n: int) -> int
    decreases n,
{
    if n <= 0 {
        0
    } else {
        spec_levels_size(lengths, n - 1) + lengths[n - 1]
    }
}

/// The bytes of face `face` of the level that starts at `offset` and is
/// `length` bytes long: the level holds its faces one after the other, each
/// a sixth of it.
pub open spec fn spec_face_of_level(bytes: Seq<u8>, offset: int, length: int, face: int) -> Seq<u8> {
    bytes.subrange(offset + face * (length / 6), offset + (face + 1) * (length / 6))
}

/// The bytes of face `face` of the first `n` levels, level after level.
pub open spec fn spec_face(bytes: Seq<u8>, lengths: Seq<usize>, face: int, n: int) -> Seq<u8>
    decreases n,
{
    if n <= 0 {
        Seq::empty()
    } else {
        spec_face(bytes, lengths, face, n - 1) + spec_face_of_level(
            bytes,
            spec_levels_size(lengths, n - 1),
            lengths[n - 1] as int,
            face,
        )
    }
}

/// The bytes of the first `faces` faces, face after face, each with all its
/// levels.
pub open spec fn spec_swizzled(bytes: Seq<u8>, lengths: Seq<usize>, faces: int) -> Seq<u8>
    decreases faces,
{
    if faces <= 0 {
        Seq::empty()
    } else {
        spec_swizzled(bytes, lengths, faces - 1) + spec_face(
            bytes,
            lengths,
            faces - 1,
            lengths.len() as int,
        )
    }
}

proof fn lemma_levels_size_monotonic(lengths: Seq<usize>, m: int, n: int)
    requires
        0 <= m <= n <= lengths.len(),
    ensures
        0 <= spec_levels_size(lengths, m) <= spec_levels_size(lengths, n),
    decreases n,
{
    if n > 0 {
        if m < n {
            lemma_levels_size_monotonic(lengths, m, n - 1);
        } else {
            lemma_levels_size_monotonic(lengths, m - 1, n - 1);
        }
    }
}

/// Number of bytes of all levels together; `None` where they hold more bytes
/// than `limit`.
pub fn levels_size(lengths: &Vec<usize>, limit: usize) -> (total: Option<usize>)
    ensures
        match total {
            Some(total) => total == spec_levels_size(lengths@, lengths@.len() as int) && total
                <= limit,
            None => spec_levels_size(lengths@, lengths@.len() as int) > limit,
        },
{
    let mut total: usize = 0;
    let mut i: usize = 0;
    while i < lengths.len()
        invariant
            i <= lengths.len(),
            total == spec_levels_size(lengths@, i as int),
            total <= limit,
        decreases lengths.len() - i,
    {
        if lengths[i] > limit - total {
            proof {
                lemma_levels_size_monotonic(lengths@, i as int + 1, lengths@.len() as int);
            }
            return None;
        }
        total = total + lengths[i];
        i = i + 1;
    }
    Some(total)
}

/// Reorders the texel data of a cube map. `bytes` holds the levels one after
/// the other, each `lengths[l]` bytes long with its six faces one after the
/// other; the result holds the faces one after the other, each with all its
/// levels. Fails where the levels hold more bytes than `bytes` has.
pub fn swizzle_faces(bytes: &Vec<u8>, lengths: &Vec<usize>) -> (r: Result<Vec<u8>, TextureError>)
    ensures
        match r {
            Ok(swizzled) => swizzled@ == spec_swizzled(bytes@, lengths@, CUBE_FACES as int)
                && spec_levels_size(lengths@, lengths@.len() as int) <= bytes@.len(),
            Err(e) => e == TextureError::LevelsOutOfRange && spec_levels_size(
                lengths@,
                lengths@.len() as int,
            ) > bytes@.len(),
        },
{
    let total = match levels_size(lengths, bytes.len()) {
        Some(total) => total,
        None => {
            return Err(TextureError::LevelsOutOfRange);
        },
    };
    let mut swizzled: Vec<u8> = Vec::new();
    let mut face: usize = 0;
    while face < CUBE_FACES
        invariant
            face <= CUBE_FACES,
            total == spec_levels_size(lengths@, lengths@.len() as int),
            total <= bytes@.len(),
            swizzled@ == spec_swizzled(bytes@, lengths@, face as int),
        decreases CUBE_FACES - face,
    {
        let ghost done = swizzled@;
        let mut offset: usize = 0;
        let mut level: usize = 0;
        while level < lengths.len()
            invariant
                face < CUBE_FACES,
                level <= lengths.len(),
                total == spec_levels_size(lengths@, lengths@.len() as int),
                total <= bytes@.len(),
                offset == spec_levels_size(lengths@, level as int),
                swizzled@ == done + spec_face(bytes@, lengths@, face as int, level as int),
            decreases lengths.len() - level,
        {
            proof {
                lemma_levels_size_monotonic(lengths@, level as int + 1, lengths@.len() as int);
            }
            let length = lengths[level];
            let face_length = length / CUBE_FACES;
            assert(face * face_length + face_length <= length) by (nonlinear_arith)
                requires
                    face < 6,
                    face_length == length / 6,
            ;
            assert(offset + length == spec_levels_size(lengths@, level as int + 1));
            assert(offset + length <= bytes@.len());
            let start = offset + face * face_length;
            let ghost before = swizzled@;
            let mut k: usize = 0;
            while k < face_length
                invariant
                    k <= face_length,
                    start + face_length <= bytes.len(),
                    swizzled@ == before + bytes@.subrange(start as int, start + k),
                decreases face_length - k,
            {
                swizzled.push(bytes[start + k]);
                assert(bytes@.subrange(start as int, start + k + 1) =~= bytes@.subrange(
                    start as int,
                    start + k,
                ).push(bytes@[start + k]));
                k = k + 1;
            }
            assert(bytes@.subrange(start as int, start + face_length) == spec_face_of_level(
                bytes@,
                offset as int,
                length as int,
                face as int,
            )) by {
                assert((face + 1) * face_length == face * face_length + face_length)
                    by (nonlinear_arith);
            }
            assert(swizzled@ =~= done + spec_face(bytes@, lengths@, face as int, level as int + 1));
            offset = offset + length;
            level = level + 1;
        }
        face = face + 1;
    }
    Ok(swizzled)
}

/// The bytes of each level.
pub open spec fn spec_level_bytes(levels: Seq<Vec<u8>>) -> Seq<Seq<u8>> {
    levels.map_values(|level: Vec<u8>| level@)
}

/// The lengths of the levels.
pub open spec fn spec_lengths(levels: Seq<Seq<u8>>) -> Seq<usize> {
    levels.map_values(|level: Seq<u8>| level.len() as usize)
}

/// The bytes of the first `n` levels, one level after the other.
pub open spec fn spec_joined(levels: Seq<Seq<u8>>, n: int) -> Seq<u8>
    decreases n,
{
    if n <= 0 {
        Seq::empty()
    } else {
        spec_joined(levels, n - 1) + levels[n - 1]
    }
}

/// The texel data that goes to the backend: the levels one after the other,
/// reordered face by face for a cube map.
pub open spec fn spec_texel_data(header: ContainerHeader, levels: Seq<Seq<u8>>) -> Seq<u8> {
    let joined = spec_joined(levels, levels.len() as int);
    if header.face_count == 6 {
        spec_swizzled(joined, spec_lengths(levels), 6)
    } else {
        joined
    }
}

/// What a texture is laid out as: what the backend is asked to allocate and
/// the texel data to fill it with. Fails where the container was compressed
/// in a way that the bridge does not undo, where the levels together are too
/// large to be held, and where the format is not mapped, in this order.
pub open spec fn spec_lay_out_texture(header: ContainerHeader, levels: Seq<Seq<u8>>) -> Result<
    (TextureDescriptor, Seq<u8>),
    TextureError,
> {
    if header.supercompression_scheme matches Some(Supercompression::Other) {
        Err(TextureError::UnsupportedCompression)
    } else if spec_joined(levels, levels.len() as int).len() > usize::MAX {
        Err(TextureError::TooLarge)
    } else {
        match spec_container_descriptor(header) {
            Ok(descriptor) => Ok((descriptor, spec_texel_data(header, levels))),
            Err(e) => Err(e),
        }
    }
}

proof fn lemma_joined_length(levels: Seq<Seq<u8>>, n: int)
    requires
        0 <= n <= levels.len(),
        forall|l: int| 0 <= l < levels.len() ==> (#[trigger] levels[l]).len() <= usize::MAX,
    ensures
        spec_joined(levels, n).len() == spec_levels_size(spec_lengths(levels), n),
    decreases n,
{
    if n > 0 {
        lemma_joined_length(levels, n - 1);
    }
}

/// Lays out a texture from the header of its container and the bytes of its
/// levels, which are no longer compressed.
pub fn lay_out_texture(header: &ContainerHeader, levels: &Vec<Vec<u8>>) -> (r: Result<
    (TextureDescriptor, Vec<u8>),
    TextureError,
>)
    ensures
        match r {
            Ok((descriptor, data)) => spec_lay_out_texture(*header, spec_level_bytes(levels@)) == Ok::<
                (TextureDescriptor, Seq<u8>),
                TextureError,
            >((descriptor, data@)),
            Err(e) => spec_lay_out_texture(*header, spec_level_bytes(levels@)) == Err::<
                (TextureDescriptor, Seq<u8>),
                TextureError,
            >(e),
        },
{
    if let Err(e) = level_action(header) {
        return Err(e);
    }
    let ghost all = spec_level_bytes(levels@);
    assert forall|l: int| 0 <= l < all.len() implies (#[trigger] all[l]).len() <= usize::MAX by {
        assert(all[l] == levels@[l]@);
        assert(levels@[l].len() == levels@[l]@.len());
    }
    let mut joined: Vec<u8> = Vec::new();
    let mut lengths: Vec<usize> = Vec::new();
    let mut l: usize = 0;
    while l < levels.len()
        invariant
            l <= levels.len(),
            all == spec_level_bytes(levels@),
            forall|k: int| 0 <= k < all.len() ==> (#[trigger] all[k]).len() <= usize::MAX,
            !(header.supercompression_scheme matches Some(Supercompression::Other)),
            joined@ == spec_joined(all, l as int),
            lengths@ == spec_lengths(all).take(l as int),
        decreases levels.len() - l,
    {
        let level = &levels[l];
        assert(all[l as int] == level@);
        if level.len() > usize::MAX - joined.len() {
            proof {
                lemma_joined_length(all, l as int + 1);
                lemma_joined_length(all, all.len() as int);
                lemma_levels_size_monotonic(spec_lengths(all), l as int + 1, all.len() as int);
            }
            return Err(TextureError::TooLarge);
        }
        let ghost before = joined@;
        let mut k: usize = 0;
        while k < level.len()
            invariant
                k <= level.len(),
                joined@ == before + level@.take(k as int),
                before.len() + level.len() <= usize::MAX,
            decreases level.len() - k,
        {
            joined.push(level[k]);
            assert(level@.take(k as int + 1) =~= level@.take(k as int).push(level@[k as int]));
            k = k + 1;
        }
        assert(level@.take(k as int) =~= level@);
        lengths.push(level.len());
        assert(lengths@ =~= spec_lengths(all).take(l as int + 1));
        l = l + 1;
    }
    assert(lengths@ =~= spec_lengths(all));
    assert(spec_joined(all, all.len() as int).len() == joined.len());
    proof {
        lemma_joined_length(all, all.len() as int);
    }
    let data = if header.face_count == 6 {
        match swizzle_faces(&joined, &lengths) {
            Ok(swizzled) => swizzled,
            Err(e) => {
                assert(false);
                return Err(e);
            },
        }
    } else {
        joined
    };
    match container_descriptor(header) {
        Ok(descriptor) => Ok((descriptor, data)),
        Err(e) => Err(e),
    }
}

/// What `zstd::bulk::decompress` makes of `data` with room for `capacity`
/// bytes: the decompressed bytes, or nothing where it fails.
pub uninterp spec fn zstd_decompressed(data: Seq<u8>, capacity: usize) -> Option<Seq<u8>>;

/// Calls `zstd::bulk::decompress`; `None` stands for every error of it. What
/// comes back is never longer than `capacity`. The precondition leaves out
/// the capacities that no vector can have, for which the allocation of the
/// result panics.
#[verifier::external_body]
fn zstd_decompress(data: &[u8], capacity: usize) -> (out: Option<Vec<u8>>)
    requires
        capacity <= isize::MAX,
    ensures
        match out {
            Some(bytes) => zstd_decompressed(data@, capacity) == Some(bytes@) && bytes@.len()
                <= capacity,
            None => zstd_decompressed(data@, capacity) is None,
        },
{
    zstd::bulk::decompress(data, capacity).ok()
}

/// What the action of a container makes of the data of level `level`: the
/// data itself, or the data decompressed to the size that the index of the
/// container gives for the level.
pub open spec fn spec_unpacked_level(
    bytes: Seq<u8>,
    data: Seq<u8>,
    level: int,
    action: LevelAction,
) -> Result<Seq<u8>, TextureError> {
    match action {
        LevelAction::Copy => Ok(data),
        LevelAction::Decompress => if spec_level_size(bytes, level) > isize::MAX {
            Err(TextureError::TooLarge)
        } else {
            match zstd_decompressed(data, spec_level_size(bytes, level) as usize) {
                Some(unpacked) => Ok(unpacked),
                None => Err(TextureError::CorruptLevel),
            }
        },
    }
}

/// The first `n` levels, each unpacked; the first failure ends it.
pub open spec fn spec_unpacked(
    bytes: Seq<u8>,
    levels: Seq<Seq<u8>>,
    action: LevelAction,
    n: int,
) -> Result<Seq<Seq<u8>>, TextureError>
    decreases n,
{
    if n <= 0 {
        Ok(Seq::empty())
    } else {
        match spec_unpacked(bytes, levels, action, n - 1) {
            Err(e) => Err(e),
            Ok(before) => match spec_unpacked_level(bytes, levels[n - 1], n - 1, action) {
                Ok(unpacked) => Ok(before.push(unpacked)),
                Err(e) => Err(e),
            },
        }
    }
}

/// What has to be done to the bytes of each level of a container.
pub open spec fn spec_level_action(header: ContainerHeader) -> Result<LevelAction, TextureError> {
    match header.supercompression_scheme {
        None => Ok(LevelAction::Copy),
        Some(Supercompression::Zstandard) => Ok(LevelAction::Decompress),
        Some(Supercompression::Other) => Err(TextureError::UnsupportedCompression),
    }
}

/// What a container is loaded as: the texture that the backend is asked to
/// allocate and the texel data to fill it with.
pub open spec fn spec_load_ktx2(bytes: Seq<u8>) -> Result<(TextureDescriptor, Seq<u8>), TextureError> {
    if !spec_container_accepted(bytes) {
        Err(TextureError::MalformedContainer)
    } else {
        match spec_read_container(bytes) {
            None => Err(TextureError::MalformedContainer),
            Some((header, levels)) => match spec_level_action(header) {
                Err(e) => Err(e),
                Ok(action) => match spec_unpacked(bytes, levels, action, levels.len() as int) {
                    Err(e) => Err(e),
                    Ok(unpacked) => spec_lay_out_texture(header, unpacked),
                },
            },
        }
    }
}

proof fn lemma_unpacked_fails(
    bytes: Seq<u8>,
    levels: Seq<Seq<u8>>,
    action: LevelAction,
    m: int,
    n: int,
)
    requires
        0 <= m <= n,
        spec_unpacked(bytes, levels, action, m) is Err,
    ensures
        spec_unpacked(bytes, levels, action, n) == spec_unpacked(bytes, levels, action, m),
    decreases n - m,
{
    if m < n {
        lemma_unpacked_fails(bytes, levels, action, m, n - 1);
    }
}

/// Loads the texture that the container `bytes` holds: reads its header and
/// its levels, undoes the compression of each level, and lays the texture
/// out for the backend.
///
/// Fails where the bytes are no container that the reader takes, where a
/// level cannot be decompressed, and where the texture cannot be laid out.
pub fn load_ktx2(bytes: &[u8]) -> (r: Result<(TextureDescriptor, Vec<u8>), TextureError>)
    ensures
        match r {
            Ok((descriptor, data)) => spec_load_ktx2(bytes@) == Ok::<
                (TextureDescriptor, Seq<u8>),
                TextureError,
            >((descriptor, data@)),
            Err(e) => spec_load_ktx2(bytes@) == Err::<(TextureDescriptor, Seq<u8>), TextureError>(e),
        },
{
    let (header, levels) = match read_container(bytes) {
        Some(read) => read,
        None => {
            return Err(TextureError::MalformedContainer);
        },
    };
    let ghost packed = levels.deep_view();
    let action = match level_action(&header) {
        Ok(action) => action,
        Err(e) => {
            return Err(e);
        },
    };
    let mut unpacked: Vec<Vec<u8>> = Vec::new();
    let mut l: usize = 0;
    assert(spec_level_bytes(unpacked@) =~= Seq::<Seq<u8>>::empty());
    assert(packed.len() == levels@.len());
    while l < levels.len()
        invariant
            l <= levels.len(),
            packed == levels.deep_view(),
            packed.len() == levels@.len(),
            spec_container_accepted(bytes@),
            spec_read_container(bytes@) == Some((header, packed)),
            spec_level_action(header) == Ok::<LevelAction, TextureError>(action),
            spec_levels_as_indexed(bytes@, packed),
            spec_unpacked(bytes@, packed, action, l as int) == Ok::<Seq<Seq<u8>>, TextureError>(
                spec_level_bytes(unpacked@),
            ),
        decreases levels.len() - l,
    {
        assert(packed[l as int] == levels@[l as int]@);
        let level = match action {
            LevelAction::Copy => {
                let mut copy: Vec<u8> = Vec::new();
                let mut k: usize = 0;
                while k < levels[l].len()
                    invariant
                        k <= levels@[l as int]@.len(),
                        l < levels.len(),
                        copy@ == levels@[l as int]@.take(k as int),
                    decreases levels@[l as int]@.len() - k,
                {
                    copy.push(levels[l][k]);
                    assert(levels@[l as int]@.take(k as int + 1) =~= levels@[l as int]@.take(
                        k as int,
                    ).push(levels@[l as int]@[k as int]));
                    k = k + 1;
                }
                assert(levels@[l as int]@.take(k as int) =~= levels@[l as int]@);
                copy
            },
            LevelAction::Decompress => {
                assert(spec_index_present(bytes@));
                assert(80 + 24 * packed.len() <= bytes.len());
                assert(80 + 24 * l + 24 <= bytes.len());
                let size = u64_at(bytes, HEADER_LENGTH + LEVEL_ENTRY_LENGTH * l + 16);
                assert(size == spec_level_size(bytes@, l as int));
                if size > isize::MAX as u64 {
                    proof {
                        assert(spec_unpacked(bytes@, packed, action, l as int + 1) == Err::<
                            Seq<Seq<u8>>,
                            TextureError,
                        >(TextureError::TooLarge));
                        lemma_unpacked_fails(bytes@, packed, action, l as int + 1, packed.len() as int);
                    }
                    return Err(TextureError::TooLarge);
                }
                match zstd_decompress(levels[l].as_slice(), size as usize) {
                    Some(level) => level,
                    None => {
                        proof {
                            assert(spec_unpacked(bytes@, packed, action, l as int + 1) == Err::<
                                Seq<Seq<u8>>,
                                TextureError,
                            >(TextureError::CorruptLevel));
                            lemma_unpacked_fails(
                                bytes@,
                                packed,
                                action,
                                l as int + 1,
                                packed.len() as int,
                            );
                        }
                        return Err(TextureError::CorruptLevel);
                    },
                }
            },
        };
        let ghost before = spec_level_bytes(unpacked@);
        unpacked.push(level);
        assert(spec_level_bytes(unpacked@) =~= before.push(level@));
        l = l + 1;
    }
    lay_out_texture(&header, &unpacked)
}

} // verus!
