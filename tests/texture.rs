use doodle::texture::{
    load_skybox, read_le_u32, read_le_u64, select_skybox_format, skybox_format_priority,
    CompressionSupport, SkyboxFormat, TextureError, CUBE_FACES,
};

const IDENTIFIER: [u8; 12] = [0xAB, 0x4B, 0x54, 0x58, 0x20, 0x32, 0x30, 0xBB, 0x0D, 0x0A, 0x1A, 0x0A];

fn put_u32(b: &mut [u8], at: usize, v: u32) {
    b[at..at + 4].copy_from_slice(&v.to_le_bytes());
}

fn put_u64(b: &mut [u8], at: usize, v: u64) {
    b[at..at + 8].copy_from_slice(&v.to_le_bytes());
}

/// A KTX2 cubemap of `width` pixels a side whose level index lists `levels`
/// in order; the levels' bytes are stored smallest first, as KTX2 lays them out.
fn container(width: u32, declared_levels: u32, levels: &[Vec<u8>]) -> Vec<u8> {
    let index_end = 80 + 24 * levels.len();
    let dfd_len = 4;
    let data_start = index_end + dfd_len;
    let total = data_start + levels.iter().map(|l| l.len()).sum::<usize>();
    let mut b = vec![0u8; total];
    b[..12].copy_from_slice(&IDENTIFIER);
    put_u32(&mut b, 12, 43); // R8G8B8A8_SRGB
    put_u32(&mut b, 16, 1);
    put_u32(&mut b, 20, width);
    put_u32(&mut b, 24, width);
    put_u32(&mut b, 36, 6);
    put_u32(&mut b, 40, declared_levels);
    put_u32(&mut b, 48, index_end as u32);
    put_u32(&mut b, 52, dfd_len as u32);
    put_u32(&mut b, index_end, dfd_len as u32);
    let mut at = data_start;
    for (i, level) in levels.iter().enumerate().rev() {
        put_u64(&mut b, 80 + 24 * i, at as u64);
        put_u64(&mut b, 88 + 24 * i, level.len() as u64);
        put_u64(&mut b, 96 + 24 * i, level.len() as u64);
        b[at..at + level.len()].copy_from_slice(level);
        at += level.len();
    }
    b
}

fn faces(side: usize, fill: u8) -> Vec<u8> {
    (0..6 * side * side * 4).map(|i| fill.wrapping_add(i as u8)).collect()
}

const RGBA_ONLY: CompressionSupport = CompressionSupport { astc: false, etc2: false };

#[test]
fn single_level_cubemap() {
    let level = faces(2, 10);
    let bytes = container(2, 1, &[level.clone()]);
    let up = load_skybox(&bytes, &RGBA_ONLY, 2).unwrap();
    assert_eq!(up.mip_level_count, 1);
    assert_eq!(up.layers, 6);
    assert_eq!(up.layers, CUBE_FACES);
    assert_eq!(up.size, 2);
    assert_eq!(up.format, SkyboxFormat::Rgba8UnormSrgb);
    assert_eq!(up.data, level);
}

#[test]
fn levels_are_concatenated_largest_first() {
    let big = faces(2, 0);
    let small = faces(1, 200);
    let bytes = container(2, 2, &[big.clone(), small.clone()]);
    let up = load_skybox(&bytes, &RGBA_ONLY, 2).unwrap();
    assert_eq!(up.mip_level_count, 2);
    let mut expected = big;
    expected.extend_from_slice(&small);
    assert_eq!(up.data, expected);
}

#[test]
fn zero_declared_levels_uploads_base_level() {
    let level = faces(1, 3);
    let bytes = container(1, 0, &[level.clone()]);
    let up = load_skybox(&bytes, &RGBA_ONLY, 1).unwrap();
    assert_eq!(up.mip_level_count, 1);
    assert_eq!(up.data, level);
}

#[test]
fn level_past_end_is_rejected() {
    let mut bytes = container(1, 1, &[faces(1, 0)]);
    put_u64(&mut bytes, 88, 1000);
    assert!(matches!(load_skybox(&bytes, &RGBA_ONLY, 1), Err(TextureError::LevelOutOfBounds)));
}

#[test]
fn short_file_is_rejected() {
    let bytes = container(1, 1, &[faces(1, 0)]);
    assert!(matches!(load_skybox(&bytes[..60], &RGBA_ONLY, 1), Err(TextureError::LevelOutOfBounds)));
    assert!(matches!(load_skybox(&[], &RGBA_ONLY, 1), Err(TextureError::LevelOutOfBounds)));
}

#[test]
fn bad_identifier_is_a_container_error() {
    let mut bytes = container(1, 1, &[faces(1, 0)]);
    bytes[1] = b'X';
    assert!(matches!(
        load_skybox(&bytes, &RGBA_ONLY, 1),
        Err(TextureError::Container(ktx2::ParseError::BadMagic))
    ));
}

#[test]
fn zero_width_is_a_container_error() {
    let bytes = container(0, 1, &[faces(1, 0)]);
    assert!(matches!(
        load_skybox(&bytes, &RGBA_ONLY, 1),
        Err(TextureError::Container(ktx2::ParseError::ZeroWidth))
    ));
}

#[test]
fn descriptor_past_end_is_a_container_error() {
    let mut bytes = container(1, 1, &[faces(1, 0)]);
    let len = bytes.len() as u32;
    put_u32(&mut bytes, 52, len);
    assert!(matches!(
        load_skybox(&bytes, &RGBA_ONLY, 1),
        Err(TextureError::Container(ktx2::ParseError::UnexpectedEnd))
    ));
}

#[test]
fn compressed_formats_are_not_shipped() {
    let bytes = container(1, 1, &[faces(1, 0)]);
    let astc = CompressionSupport { astc: true, etc2: true };
    assert!(matches!(
        load_skybox(&bytes, &astc, 1),
        Err(TextureError::UnsupportedFormat(SkyboxFormat::Astc4x4UnormSrgb))
    ));
    let etc2 = CompressionSupport { astc: false, etc2: true };
    assert!(matches!(
        load_skybox(&bytes, &etc2, 1),
        Err(TextureError::UnsupportedFormat(SkyboxFormat::Etc2Rgb8A1UnormSrgb))
    ));
}

#[test]
fn format_priority_order() {
    assert_eq!(
        skybox_format_priority(),
        [SkyboxFormat::Astc4x4UnormSrgb, SkyboxFormat::Etc2Rgb8A1UnormSrgb, SkyboxFormat::Rgba8UnormSrgb]
    );
    assert_eq!(select_skybox_format(&CompressionSupport { astc: true, etc2: false }), SkyboxFormat::Astc4x4UnormSrgb);
    assert_eq!(select_skybox_format(&CompressionSupport { astc: false, etc2: true }), SkyboxFormat::Etc2Rgb8A1UnormSrgb);
    assert_eq!(select_skybox_format(&RGBA_ONLY), SkyboxFormat::Rgba8UnormSrgb);
}

#[test]
fn little_endian_reads() {
    let b = [0x01, 0x02, 0x03, 0x04, 0x05, 0x06, 0x07, 0x08, 0x09];
    assert_eq!(read_le_u32(&b, 0), 0x0403_0201);
    assert_eq!(read_le_u32(&b, 5), 0x0908_0706);
    assert_eq!(read_le_u64(&b, 1), 0x0908_0706_0504_0302);
}
