use render_bridge::format::TextureFormat;
use render_bridge::container::{
    container_accepted, container_header, read_container, u32_at, u64_at, ContainerFields,
};
use render_bridge::model_loading::{
    append_indices, append_material_ids, buffer_view_bytes, embedded_buffer, grown_capacity,
    offset_indices, reserve, texture_index, BufferError, Model, NO_TEXTURE,
};
use render_bridge::resource::{TextureDimension, USAGE_TEXTURE_BINDING};
use render_bridge::texture_loading::{
    container_descriptor, lay_out_texture, level_action, levels_size, load_ktx2, swizzle_faces,
    ContainerFormat, ContainerHeader, LevelAction, Supercompression, TextureError,
};

fn header(face_count: u32, pixel_depth: u32) -> ContainerHeader {
    ContainerHeader {
        format: Some(ContainerFormat::R8G8B8A8Srgb),
        pixel_width: 64,
        pixel_height: 32,
        pixel_depth,
        face_count,
        level_count: 2,
        supercompression_scheme: None,
    }
}

#[test]
fn cube_faces_are_gathered_level_by_level() {
    let mut bytes = Vec::new();
    for face in 0..6u8 {
        bytes.extend_from_slice(&[face * 10, face * 10 + 1]);
    }
    for face in 0..6u8 {
        bytes.push(100 + face);
    }
    let swizzled = swizzle_faces(&bytes, &vec![12, 6]).unwrap();
    assert_eq!(
        swizzled,
        vec![0, 1, 100, 10, 11, 101, 20, 21, 102, 30, 31, 103, 40, 41, 104, 50, 51, 105]
    );
}

#[test]
fn swizzle_leaves_out_what_is_no_full_face() {
    let bytes: Vec<u8> = (0..20).collect();
    let swizzled = swizzle_faces(&bytes, &vec![13, 7]).unwrap();
    assert_eq!(swizzled, vec![0, 1, 13, 2, 3, 14, 4, 5, 15, 6, 7, 16, 8, 9, 17, 10, 11, 18]);
    assert_eq!(swizzle_faces(&bytes, &vec![]).unwrap(), Vec::<u8>::new());
    assert_eq!(swizzle_faces(&bytes, &vec![5]).unwrap(), Vec::<u8>::new());
}

#[test]
fn swizzle_refuses_levels_beyond_the_data() {
    let bytes: Vec<u8> = (0..20).collect();
    assert_eq!(swizzle_faces(&bytes, &vec![12, 9]), Err(TextureError::LevelsOutOfRange));
    assert_eq!(swizzle_faces(&bytes, &vec![usize::MAX, 2]), Err(TextureError::LevelsOutOfRange));
    assert_eq!(levels_size(&vec![12, 8], 20), Some(20));
    assert_eq!(levels_size(&vec![12, 9], 20), None);
    assert_eq!(levels_size(&vec![], 0), Some(0));
    assert_eq!(levels_size(&vec![usize::MAX, usize::MAX], usize::MAX), None);
}

#[test]
fn container_descriptor_follows_the_header() {
    let flat = container_descriptor(&header(1, 0)).unwrap();
    assert_eq!((flat.width, flat.height, flat.depth_or_array_layers), (64, 32, 1));
    assert_eq!(flat.mip_level_count, 2);
    assert_eq!(flat.sample_count, 1);
    assert_eq!(flat.dimension, TextureDimension::D2);
    assert_eq!(flat.format, TextureFormat::Rgba8UnormSrgb);
    assert_eq!(flat.usage.bits, USAGE_TEXTURE_BINDING);
    let cube = container_descriptor(&header(6, 0)).unwrap();
    assert_eq!(cube.depth_or_array_layers, 6);
    assert_eq!(cube.dimension, TextureDimension::D2);
    let volume = container_descriptor(&header(1, 16)).unwrap();
    assert_eq!(volume.depth_or_array_layers, 16);
    assert_eq!(volume.dimension, TextureDimension::D3);
    let single = container_descriptor(&header(1, 1)).unwrap();
    assert_eq!(single.dimension, TextureDimension::D2);
    assert_eq!(single.depth_or_array_layers, 1);
}

#[test]
fn container_formats_map_or_fail() {
    let mut h = header(1, 0);
    h.format = Some(ContainerFormat::E5B9G9R9UfloatPack32);
    assert_eq!(container_descriptor(&h).unwrap().format, TextureFormat::Rgb9e5Ufloat);
    h.format = Some(ContainerFormat::R8G8B8A8Unorm);
    assert_eq!(container_descriptor(&h).unwrap().format, TextureFormat::Rgba8Unorm);
    h.format = Some(ContainerFormat::Other);
    assert_eq!(container_descriptor(&h), Err(TextureError::UnsupportedFormat));
    h.format = None;
    assert_eq!(container_descriptor(&h), Err(TextureError::UnsupportedFormat));
}

#[test]
fn levels_are_copied_or_decompressed() {
    let mut h = header(1, 0);
    assert_eq!(level_action(&h), Ok(LevelAction::Copy));
    h.supercompression_scheme = Some(Supercompression::Zstandard);
    assert_eq!(level_action(&h), Ok(LevelAction::Decompress));
    h.supercompression_scheme = Some(Supercompression::Other);
    assert_eq!(level_action(&h), Err(TextureError::UnsupportedCompression));
}

#[test]
fn textures_are_laid_out_for_the_backend() {
    let levels = vec![vec![1u8, 2, 3, 4], vec![5u8]];
    let (descriptor, data) = lay_out_texture(&header(1, 0), &levels).unwrap();
    assert_eq!(descriptor.depth_or_array_layers, 1);
    assert_eq!(data, vec![1, 2, 3, 4, 5]);
    let cube_levels = vec![(0..12u8).collect::<Vec<u8>>(), (20..26u8).collect::<Vec<u8>>()];
    let (descriptor, data) = lay_out_texture(&header(6, 0), &cube_levels).unwrap();
    assert_eq!(descriptor.depth_or_array_layers, 6);
    assert_eq!(data, vec![0, 1, 20, 2, 3, 21, 4, 5, 22, 6, 7, 23, 8, 9, 24, 10, 11, 25]);
    let (_, none) = lay_out_texture(&header(1, 0), &vec![]).unwrap();
    assert!(none.is_empty());
}

#[test]
fn layout_fails_before_anything_is_allocated() {
    let levels = vec![vec![1u8, 2, 3, 4]];
    let mut compressed = header(1, 0);
    compressed.supercompression_scheme = Some(Supercompression::Other);
    compressed.format = None;
    assert_eq!(lay_out_texture(&compressed, &levels), Err(TextureError::UnsupportedCompression));
    let mut unnamed = header(6, 0);
    unnamed.format = None;
    assert_eq!(lay_out_texture(&unnamed, &levels), Err(TextureError::UnsupportedFormat));
}

#[test]
fn material_textures_are_named_by_registry_index() {
    assert_eq!(texture_index(10, Some(3)), Some(13));
    assert_eq!(texture_index(0, Some(0)), Some(0));
    assert_eq!(texture_index(10, None), Some(NO_TEXTURE));
    assert_eq!(texture_index(u32::MAX - 1, Some(1)), Some(u32::MAX));
    assert_eq!(texture_index(u32::MAX - 1, Some(2)), None);
    assert_eq!(texture_index(0, Some(usize::MAX)), None);
}

#[test]
fn indices_move_with_their_vertices() {
    let mut indices = vec![0, 1, 2];
    assert!(append_indices(&mut indices, &vec![0, 2, 1], 3));
    assert_eq!(indices, vec![0, 1, 2, 3, 5, 4]);
    assert!(!append_indices(&mut indices, &vec![0, u32::MAX], 1));
    assert_eq!(indices, vec![0, 1, 2, 3, 5, 4]);
    assert!(append_indices(&mut indices, &vec![], u32::MAX));
    assert!(offset_indices(&mut indices, 100));
    assert_eq!(indices, vec![100, 101, 102, 103, 105, 104]);
    assert!(!offset_indices(&mut indices, u32::MAX - 104));
    assert_eq!(indices, vec![100, 101, 102, 103, 105, 104]);
    assert!(offset_indices(&mut indices, u32::MAX - 105));
    assert_eq!(indices[4], u32::MAX);
}

#[test]
fn material_ids_repeat_for_each_vertex() {
    let mut ids = vec![7];
    append_material_ids(&mut ids, 2, 3);
    append_material_ids(&mut ids, 9, 0);
    append_material_ids(&mut ids, 4, 1);
    assert_eq!(ids, vec![7, 2, 2, 2, 4]);
}

#[test]
fn buffer_views_are_cut_from_their_buffer() {
    let buffer = [1u8, 2, 3, 4, 5];
    assert_eq!(buffer_view_bytes(&buffer, 1, 3), Some(vec![2, 3, 4]));
    assert_eq!(buffer_view_bytes(&buffer, 0, 5), Some(vec![1, 2, 3, 4, 5]));
    assert_eq!(buffer_view_bytes(&buffer, 5, 0), Some(vec![]));
    assert_eq!(buffer_view_bytes(&buffer, 3, 3), None);
    assert_eq!(buffer_view_bytes(&buffer, 6, 0), None);
    assert_eq!(buffer_view_bytes(&buffer, usize::MAX, usize::MAX), None);
}

#[test]
fn model_keeps_its_ranges() {
    let model = Model { indices: 0..36, vertices: 0..24, textures: 2..5, material_infos: 1..2 };
    assert_eq!(model.indices.len(), 36);
    assert_eq!(model.textures.start, 2);
    assert_eq!(model.material_infos, 1..2);
    assert_eq!(model.vertices.end, 24);
}

const MAGIC: [u8; 12] = [0xAB, 0x4B, 0x54, 0x58, 0x20, 0x32, 0x30, 0xBB, 0x0D, 0x0A, 0x1A, 0x0A];

fn container(format: u32, faces: u32, scheme: u32, levels: &[(&[u8], u64)]) -> Vec<u8> {
    let mut bytes = MAGIC.to_vec();
    for field in [format, 1, 4, 2, 0, 0, faces, levels.len() as u32, scheme, 0, 0, 0, 0] {
        bytes.extend_from_slice(&field.to_le_bytes());
    }
    bytes.extend_from_slice(&0u64.to_le_bytes());
    bytes.extend_from_slice(&0u64.to_le_bytes());
    let mut offset = 80 + 24 * levels.len().max(1) as u64;
    for (data, size) in levels {
        bytes.extend_from_slice(&offset.to_le_bytes());
        bytes.extend_from_slice(&(data.len() as u64).to_le_bytes());
        bytes.extend_from_slice(&size.to_le_bytes());
        offset += data.len() as u64;
    }
    for (data, _) in levels {
        bytes.extend_from_slice(data);
    }
    bytes
}

fn stored_frame(data: &[u8]) -> Vec<u8> {
    let mut frame = vec![0x28, 0xB5, 0x2F, 0xFD, 0x20, data.len() as u8];
    let block = 1u32 | ((data.len() as u32) << 3);
    frame.extend_from_slice(&block.to_le_bytes()[..3]);
    frame.extend_from_slice(data);
    frame
}

#[test]
fn numbers_are_read_least_significant_byte_first() {
    let bytes = [1u8, 2, 3, 4, 5, 6, 7, 8, 9];
    assert_eq!(u32_at(&bytes, 0), 0x04030201);
    assert_eq!(u32_at(&bytes, 5), 0x09080706);
    assert_eq!(u64_at(&bytes, 1), 0x0908070605040302);
    assert_eq!(u64_at(&[255u8; 8], 0), u64::MAX);
}

#[test]
fn container_is_read_by_its_index() {
    let bytes = container(43, 1, 0, &[(&[1, 2, 3, 4, 5, 6, 7, 8], 8), (&[9, 10], 2)]);
    assert!(container_accepted(&bytes));
    let (header, levels) = read_container(&bytes).unwrap();
    assert_eq!(header.format, Some(ContainerFormat::R8G8B8A8Srgb));
    assert_eq!((header.pixel_width, header.pixel_height, header.pixel_depth), (4, 2, 0));
    assert_eq!((header.face_count, header.level_count), (1, 2));
    assert_eq!(header.supercompression_scheme, None);
    assert_eq!(levels, vec![vec![1, 2, 3, 4, 5, 6, 7, 8], vec![9, 10]]);
}

#[test]
fn container_loads_as_it_is_stored() {
    let bytes = container(37, 1, 0, &[(&[1, 2, 3, 4, 5, 6, 7, 8], 8), (&[9, 10], 2)]);
    let (descriptor, data) = load_ktx2(&bytes).unwrap();
    assert_eq!((descriptor.width, descriptor.height, descriptor.depth_or_array_layers), (4, 2, 1));
    assert_eq!(descriptor.mip_level_count, 2);
    assert_eq!(descriptor.format, TextureFormat::Rgba8Unorm);
    assert_eq!(data, vec![1, 2, 3, 4, 5, 6, 7, 8, 9, 10]);
}

#[test]
fn compressed_levels_are_decompressed() {
    let first = stored_frame(&[1, 2, 3, 4, 5, 6, 7, 8]);
    let second = stored_frame(&[9, 10]);
    let bytes = container(123, 1, 2, &[(&first, 8), (&second, 2)]);
    let (header, levels) = read_container(&bytes).unwrap();
    assert_eq!(header.supercompression_scheme, Some(Supercompression::Zstandard));
    assert_eq!(levels[0], first);
    let (descriptor, data) = load_ktx2(&bytes).unwrap();
    assert_eq!(descriptor.format, TextureFormat::Rgb9e5Ufloat);
    assert_eq!(data, vec![1, 2, 3, 4, 5, 6, 7, 8, 9, 10]);
}

#[test]
fn cube_container_is_reordered() {
    let first: Vec<u8> = (0..12).collect();
    let second: Vec<u8> = (20..26).collect();
    let bytes = container(43, 6, 0, &[(&first, 12), (&second, 6)]);
    let (descriptor, data) = load_ktx2(&bytes).unwrap();
    assert_eq!(descriptor.depth_or_array_layers, 6);
    assert_eq!(data, vec![0, 1, 20, 2, 3, 21, 4, 5, 22, 6, 7, 23, 8, 9, 24, 10, 11, 25]);
}

#[test]
fn level_that_does_not_decompress_is_an_error() {
    let bytes = container(43, 1, 2, &[(&[1, 2, 3, 4, 5, 6, 7, 8], 8)]);
    assert_eq!(load_ktx2(&bytes), Err(TextureError::CorruptLevel));
    let frame = stored_frame(&[1, 2, 3, 4]);
    let short = container(43, 1, 2, &[(&frame, 3)]);
    assert_eq!(load_ktx2(&short), Err(TextureError::CorruptLevel));
    let huge = container(43, 1, 2, &[(&frame, u64::MAX)]);
    assert_eq!(load_ktx2(&huge), Err(TextureError::TooLarge));
    let roomy = container(43, 1, 2, &[(&frame, 4096)]);
    assert_eq!(load_ktx2(&roomy).unwrap().1, vec![1, 2, 3, 4]);
}

#[test]
fn containers_out_of_shape_are_errors() {
    assert_eq!(load_ktx2(&[]), Err(TextureError::MalformedContainer));
    assert_eq!(load_ktx2(&[0u8; 200]), Err(TextureError::MalformedContainer));
    let good = container(43, 1, 0, &[(&[1, 2, 3, 4], 4)]);
    let mut no_width = good.clone();
    no_width[20] = 0;
    assert_eq!(load_ktx2(&no_width), Err(TextureError::MalformedContainer));
    let mut no_faces = good.clone();
    no_faces[36] = 0;
    assert_eq!(load_ktx2(&no_faces), Err(TextureError::MalformedContainer));
    let mut beyond = good.clone();
    beyond[88] = 5;
    assert!(!container_accepted(&beyond));
    assert_eq!(load_ktx2(&beyond), Err(TextureError::MalformedContainer));
    let mut far = good.clone();
    for i in 80..88 {
        far[i] = 255;
    }
    assert!(!container_accepted(&far));
    assert!(read_container(&far).is_none());
    let mut descriptor = good.clone();
    for i in 48..56 {
        descriptor[i] = 255;
    }
    assert!(!container_accepted(&descriptor));
    assert_eq!(load_ktx2(&descriptor), Err(TextureError::MalformedContainer));
    let mut many = good.clone();
    many[40] = 200;
    assert!(container_accepted(&many));
    assert_eq!(load_ktx2(&many), Err(TextureError::MalformedContainer));
    let mut other = good.clone();
    other[44] = 1;
    assert_eq!(load_ktx2(&other), Err(TextureError::UnsupportedCompression));
    let mut unnamed = good.clone();
    unnamed[12] = 0;
    assert_eq!(load_ktx2(&unnamed), Err(TextureError::UnsupportedFormat));
    unnamed[12] = 44;
    assert_eq!(load_ktx2(&unnamed), Err(TextureError::UnsupportedFormat));
    assert!(load_ktx2(&good).is_ok());
}

#[test]
fn container_numbers_name_formats() {
    let fields = |format, scheme| ContainerFields {
        format,
        pixel_width: 1,
        pixel_height: 2,
        pixel_depth: 3,
        face_count: 4,
        level_count: 5,
        supercompression_scheme: scheme,
    };
    let header = container_header(&fields(Some(123), Some(2)));
    assert_eq!(header.format, Some(ContainerFormat::E5B9G9R9UfloatPack32));
    assert_eq!(header.supercompression_scheme, Some(Supercompression::Zstandard));
    assert_eq!((header.pixel_width, header.pixel_height, header.pixel_depth), (1, 2, 3));
    assert_eq!((header.face_count, header.level_count), (4, 5));
    assert_eq!(container_header(&fields(Some(43), None)).format, Some(ContainerFormat::R8G8B8A8Srgb));
    assert_eq!(container_header(&fields(Some(37), None)).format, Some(ContainerFormat::R8G8B8A8Unorm));
    assert_eq!(container_header(&fields(Some(1), Some(3))).format, Some(ContainerFormat::Other));
    assert_eq!(
        container_header(&fields(None, Some(3))).supercompression_scheme,
        Some(Supercompression::Other)
    );
    assert_eq!(container_header(&fields(None, None)).format, None);
}

#[test]
fn embedded_buffers_are_decoded() {
    assert_eq!(
        embedded_buffer(b"data:application/octet-stream;base64,aGVsbG8="),
        Some(Ok(b"hello".to_vec()))
    );
    assert_eq!(embedded_buffer(b"data:,AAEC/w=="), Some(Ok(vec![0, 1, 2, 255])));
    assert_eq!(embedded_buffer(b"data:;base64,"), Some(Ok(vec![])));
    assert_eq!(embedded_buffer(b"data:a,b,aGk="), Some(Err(BufferError::Undecodable)));
    assert_eq!(embedded_buffer(b"data:application/octet-stream"), Some(Err(BufferError::MissingPayload)));
    assert_eq!(embedded_buffer(b"data:,not base64!"), Some(Err(BufferError::Undecodable)));
    assert_eq!(embedded_buffer(b"moon.bin"), None);
    assert_eq!(embedded_buffer(b"dat"), None);
    assert_eq!(embedded_buffer(b""), None);
    assert_eq!(embedded_buffer(b"Data:,aGk="), None);
}

#[test]
fn buffers_grow_at_their_end() {
    assert_eq!(reserve(0, 10), Some(0..10));
    assert_eq!(reserve(10, 0), Some(10..10));
    assert_eq!(reserve(u32::MAX - 1, 1), Some(u32::MAX - 1..u32::MAX));
    assert_eq!(reserve(u32::MAX, 1), None);
    assert_eq!(grown_capacity(1024, 10), 1024);
    assert_eq!(grown_capacity(1024, 1024), 1024);
    assert_eq!(grown_capacity(1024, 1025), 2048);
    assert_eq!(grown_capacity(1024, 5000), 8192);
    assert_eq!(grown_capacity(0, 0), 0);
    assert_eq!(grown_capacity(0, 3), 4);
    assert_eq!(grown_capacity(3, 100), 192);
    assert_eq!(grown_capacity(1 << 31, (1 << 31) + 1), u32::MAX);
    assert_eq!(grown_capacity(5, u32::MAX), u32::MAX);
}
