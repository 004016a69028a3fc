//! Bookkeeping of what a loaded model puts into the buffers that all models
//! share: indices are moved to where the vertices of the model lie, and
//! textures are named by their place in the registry of texture views.
use std::ops::Range;
use vstd::prelude::*;

verus! {

/// The texture index that stands for "no texture".
pub const NO_TEXTURE: u32 = 0xFFFF_FFFF;

/// Index ranges of what a loaded model put into the shared buffers and into
/// the registry of texture views.
pub struct Model {
    pub indices: Range<u32>,
    pub vertices: Range<u32>,
    pub textures: Range<u32>,
    pub material_infos: Range<u32>,
}

/// The index in the registry of the texture that a material names by its
/// place `local` among the textures of its model, the first of which has
/// the index `first_texture`. A material that names no texture gets
/// `NO_TEXTURE`. `None` where the index does not fit.
pub fn texture_index(first_texture: u32, local: Option<usize>) -> (index: Option<u32>)
    ensures
        index == match local {
            None => Some(NO_TEXTURE),
            Some(local) => if first_texture + local <= u32::MAX {
                Some((first_texture + local) as u32)
            } else {
                None
            },
        },
{
    match local {
        None => Some(NO_TEXTURE),
        Some(local) => {
            if local > (u32::MAX - first_texture) as usize {
                None
            } else {
                Some(first_texture + local as u32)
            }
        },
    }
}

/// Each of `indices`, moved up by `base`.
pub open spec fn spec_moved(indices: Seq<u32>, base: u32) -> Seq<u32> {
    indices.map_values(|index: u32| (index + base) as u32)
}

/// Whether each of `indices` can be moved up by `base`.
pub open spec fn spec_movable(indices: Seq<u32>, base: u32) -> bool {
    forall|i: int| 0 <= i < indices.len() ==> #[trigger] indices[i] + base <= u32::MAX
}

/// Appends the indices `read` of one primitive to `indices`, each moved up
/// by `base`, the number of vertices that came before it. Where an index
/// does not fit, nothing is appended and the result is `false`.
pub fn append_indices(indices: &mut Vec<u32>, read: &Vec<u32>, base: u32) -> (fits: bool)
    ensures
        fits == spec_movable(read@, base),
        fits ==> final(indices)@ == old(indices)@ + spec_moved(read@, base),
        !fits ==> final(indices)@ == old(indices)@,
{
    let mut i: usize = 0;
    while i < read.len()
        invariant
            i <= read.len(),
            forall|k: int| 0 <= k < i ==> #[trigger] read@[k] + base <= u32::MAX,
        decreases read.len() - i,
    {
        if read[i] > u32::MAX - base {
            return false;
        }
        i = i + 1;
    }
    let ghost before = indices@;
    let mut j: usize = 0;
    while j < read.len()
        invariant
            j <= read.len(),
            spec_movable(read@, base),
            indices@ == before + spec_moved(read@, base).take(j as int),
        decreases read.len() - j,
    {
        indices.push(read[j] + base);
        assert(indices@ =~= before + spec_moved(read@, base).take(j as int + 1));
        j = j + 1;
    }
    assert(spec_moved(read@, base).take(j as int) =~= spec_moved(read@, base));
    true
}

/// Moves each of `indices` up by `base`, the place of the first vertex of
/// the model in the shared buffer. Where an index does not fit, nothing is
/// changed and the result is `false`.
pub fn offset_indices(indices: &mut Vec<u32>, base: u32) -> (fits: bool)
    ensures
        fits == spec_movable(old(indices)@, base),
        fits ==> final(indices)@ == spec_moved(old(indices)@, base),
        !fits ==> final(indices)@ == old(indices)@,
{
    let mut i: usize = 0;
    while i < indices.len()
        invariant
            i <= indices.len(),
            *indices == *old(indices),
            forall|k: int| 0 <= k < i ==> #[trigger] indices@[k] + base <= u32::MAX,
        decreases indices.len() - i,
    {
        if indices[i] > u32::MAX - base {
            return false;
        }
        i = i + 1;
    }
    let ghost before = indices@;
    let mut j: usize = 0;
    while j < indices.len()
        invariant
            j <= indices.len(),
            indices@.len() == before.len(),
            spec_movable(before, base),
            forall|k: int| 0 <= k < j ==> indices@[k] == (#[trigger] before[k] + base) as u32,
            forall|k: int| j <= k < before.len() ==> indices@[k] == #[trigger] before[k],
        decreases indices.len() - j,
    {
        assert(indices@[j as int] == before[j as int]);
        assert(before[j as int] + base <= u32::MAX);
        let moved = indices[j] + base;
        indices.set(j, moved);
        j = j + 1;
    }
    assert(indices@ =~= spec_moved(before, base));
    true
}

/// Appends `id`, the material of one primitive, once for each of its
/// `count` vertices.
pub fn append_material_ids(ids: &mut Vec<u32>, id: u32, count: usize)
    ensures
        final(ids)@ == old(ids)@ + Seq::new(count as nat, |i: int| id),
{
    let mut i: usize = 0;
    while i < count
        invariant
            i <= count,
            ids@ == old(ids)@ + Seq::new(i as nat, |k: int| id),
        decreases count - i,
    {
        ids.push(id);
        assert(ids@ =~= old(ids)@ + Seq::new((i + 1) as nat, |k: int| id));
        i = i + 1;
    }
}

/// The bytes of a buffer view: `length` bytes of `buffer` from `offset` on;
/// `None` where the buffer is too short.
pub fn buffer_view_bytes(buffer: &[u8], offset: usize, length: usize) -> (bytes: Option<Vec<u8>>)
    ensures
        match bytes {
            Some(bytes) => offset + length <= buffer@.len() && bytes@ == buffer@.subrange(
                offset as int,
                offset + length,
            ),
            None => offset + length > buffer@.len(),
        },
{
    if offset > buffer.len() || length > buffer.len() - offset {
        return None;
    }
    let mut bytes: Vec<u8> = Vec::new();
    let mut i: usize = 0;
    while i < length
        invariant
            i <= length,
            offset + length <= buffer.len(),
            bytes@ == buffer@.subrange(offset as int, offset + i),
        decreases length - i,
    {
        bytes.push(buffer[offset + i]);
        assert(bytes@ =~= buffer@.subrange(offset as int, offset + i + 1));
        i = i + 1;
    }
    Some(bytes)
}

/// The range that `count` new items get at the end of a buffer that holds
/// `len` items; `None` where the buffer cannot hold that many.
pub fn reserve(len: u32, count: u32) -> (range: Option<Range<u32>>)
    ensures
        match range {
            Some(range) => range.start == len && range.end == len + count,
            None => len + count > u32::MAX,
        },
{
    if count > u32::MAX - len {
        None
    } else {
        Some(len..len + count)
    }
}

/// The capacity of a buffer of capacity `capacity` once it has to hold
/// `needed` items: as it is where that is enough, else doubled until it is,
/// and never beyond what indices can reach.
pub fn grown_capacity(capacity: u32, needed: u32) -> (grown: u32)
    ensures
        grown >= needed,
        grown >= capacity,
        capacity >= needed ==> grown == capacity,
        capacity < needed ==> grown < 2 * needed || grown == u32::MAX,
{
    if capacity >= needed {
        return capacity;
    }
    let mut grown: u32 = if capacity == 0 {
        1
    } else {
        capacity
    };
    while grown < needed
        invariant
            grown >= 1,
            grown >= capacity,
            capacity < needed,
            grown < 2 * needed || grown == u32::MAX,
        decreases u32::MAX - grown,
    {
        if grown > u32::MAX / 2 {
            grown = u32::MAX;
        } else {
            grown = grown * 2;
        }
    }
    grown
}

/// Why the buffer that a model embeds cannot be had.
#[derive(Clone, Copy, Debug, PartialEq, Eq, Structural)]
pub enum BufferError {
    /// The address has no comma after which the data would stand.
    MissingPayload,
    /// What stands after the comma is no base64.
    Undecodable,
}

/// Whether `uri` is an address that holds its data itself: it starts with
/// the letters of "data".
pub open spec fn spec_is_data_uri(uri: Seq<u8>) -> bool {
    uri.len() >= 4 && uri[0] == 100 && uri[1] == 97 && uri[2] == 116 && uri[3] == 97
}

/// Whether the first comma of `uri` stands at `at`.
pub open spec fn spec_first_comma_at(uri: Seq<u8>, at: int) -> bool {
    0 <= at < uri.len() && uri[at] == 44 && forall|i: int| 0 <= i < at ==> uri[i] != 44
}

/// What `base64::Engine::decode` of the standard engine makes of `text`:
/// the bytes that it encodes, or nothing where it is no base64.
pub uninterp spec fn base64_decoded(text: Seq<u8>) -> Option<Seq<u8>>;

/// Calls `base64::Engine::decode` on the standard engine; `None` stands for
/// every error of it.
#[verifier::external_body]
fn base64_decode(text: &[u8]) -> (bytes: Option<Vec<u8>>)
    ensures
        match bytes {
            Some(bytes) => base64_decoded(text@) == Some(bytes@),
            None => base64_decoded(text@) is None,
        },
{
    base64::Engine::decode(&base64::engine::general_purpose::STANDARD, text).ok()
}

/// The buffer that a model embeds in the address `uri`: what stands after
/// the first comma, decoded from base64. `None` where the address names a
/// file instead.
pub fn embedded_buffer(uri: &[u8]) -> (r: Option<Result<Vec<u8>, BufferError>>)
    ensures
        match r {
            None => !spec_is_data_uri(uri@),
            Some(Err(BufferError::MissingPayload)) => spec_is_data_uri(uri@) && forall|i: int|
                0 <= i < uri@.len() ==> uri@[i] != 44,
            Some(Err(BufferError::Undecodable)) => spec_is_data_uri(uri@) && exists|at: int|
                #[trigger] spec_first_comma_at(uri@, at) && base64_decoded(
                    uri@.subrange(at + 1, uri@.len() as int),
                ) is None,
            Some(Ok(bytes)) => spec_is_data_uri(uri@) && exists|at: int|
                #[trigger] spec_first_comma_at(uri@, at) && base64_decoded(
                    uri@.subrange(at + 1, uri@.len() as int),
                ) == Some(bytes@),
        },
{
    if !(uri.len() >= 4 && uri[0] == 100 && uri[1] == 97 && uri[2] == 116 && uri[3] == 97) {
        return None;
    }
    let mut at: usize = 0;
    while at < uri.len() && uri[at] != 44
        invariant
            at <= uri.len(),
            forall|i: int| 0 <= i < at ==> uri@[i] != 44,
        decreases uri.len() - at,
    {
        at = at + 1;
    }
    if at == uri.len() {
        return Some(Err(BufferError::MissingPayload));
    }
    assert(spec_first_comma_at(uri@, at as int));
    let mut payload: Vec<u8> = Vec::new();
    let mut k: usize = at + 1;
    while k < uri.len()
        invariant
            at + 1 <= k <= uri.len(),
            payload@ == uri@.subrange(at + 1, k as int),
        decreases uri.len() - k,
    {
        payload.push(uri[k]);
        assert(payload@ =~= uri@.subrange(at + 1, k + 1));
        k = k + 1;
    }
    match base64_decode(payload.as_slice()) {
        Some(bytes) => Some(Ok(bytes)),
        None => Some(Err(BufferError::Undecodable)),
    }
}

} // verus!
