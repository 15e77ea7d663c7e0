//! Skybox texture loading: choosing the cubemap format from what the device
//! supports, and reading a KTX2 container into mip-major upload data.

use vstd::prelude::*;

verus! {

#[verifier::external_type_specification]
#[verifier::external_body]
pub struct ExKtx2ParseError(ktx2::ParseError);

/// Length of the fixed KTX2 header.
pub const HEADER_LEN: usize = 80;

/// Length of one entry of the level index that follows the header.
pub const LEVEL_ENTRY_LEN: usize = 24;

/// Little-endian `u32` stored at `at`.
pub open spec fn le_u32(b: Seq<u8>, at: int) -> int {
    b[at] + b[at + 1] * 0x100 + b[at + 2] * 0x1_0000 + b[at + 3] * 0x100_0000
}

/// Little-endian `u64` stored at `at`.
pub open spec fn le_u64(b: Seq<u8>, at: int) -> int {
    le_u32(b, at) + le_u32(b, at + 4) * 0x1_0000_0000
}

/// The twelve identifier bytes every KTX2 file starts with.
pub open spec fn has_ktx2_identifier(b: Seq<u8>) -> bool {
    &&& b.len() >= 12
    &&& b.subrange(0, 12) == seq![
        0xABu8,
        0x4Bu8,
        0x54u8,
        0x58u8,
        0x20u8,
        0x32u8,
        0x30u8,
        0xBBu8,
        0x0Du8,
        0x0Au8,
        0x1Au8,
        0x0Au8,
    ]
}

/// `levelCount` as the header declares it.
pub open spec fn declared_level_count(b: Seq<u8>) -> int {
    le_u32(b, 40)
}

/// Number of levels the file stores: a declared count of zero (mips to be
/// generated at load time) still stores the base level.
pub open spec fn stored_level_count(b: Seq<u8>) -> int {
    if declared_level_count(b) == 0 {
        1
    } else {
        declared_level_count(b)
    }
}

/// Byte offset of level `i`, from the level index.
pub open spec fn level_offset(b: Seq<u8>, i: int) -> int {
    le_u64(b, HEADER_LEN + LEVEL_ENTRY_LEN * i)
}

/// Byte length of level `i`, from the level index.
pub open spec fn level_length(b: Seq<u8>, i: int) -> int {
    le_u64(b, HEADER_LEN + LEVEL_ENTRY_LEN * i + 8)
}

/// End of the data format descriptor: its offset plus its length.
pub open spec fn descriptor_end(b: Seq<u8>) -> int {
    le_u32(b, 48) + le_u32(b, 52)
}

/// The level index lies inside the file, every level's byte range lies inside
/// the file, and the descriptor's end is a `u32`.
pub open spec fn container_in_bounds(b: Seq<u8>) -> bool {
    &&& HEADER_LEN + LEVEL_ENTRY_LEN * stored_level_count(b) <= b.len()
    &&& descriptor_end(b) <= u32::MAX
    &&& forall|i: int|
        0 <= i < stored_level_count(b) ==> #[trigger] level_offset(b, i) + level_length(b, i)
            <= b.len()
}

/// For a file whose ranges are in bounds: the header checks of a KTX2 reader
/// (identifier, non-zero width, non-zero face count, descriptor inside the file).
pub open spec fn header_accepted(b: Seq<u8>) -> bool {
    &&& has_ktx2_identifier(b)
    &&& le_u32(b, 20) != 0
    &&& le_u32(b, 36) != 0
    &&& descriptor_end(b) < b.len()
}

/// The bytes of level `i`.
pub open spec fn level_bytes(b: Seq<u8>, i: int) -> Seq<u8> {
    b.subrange(level_offset(b, i), level_offset(b, i) + level_length(b, i))
}

/// An opened KTX2 container. Verus cannot declare `ktx2::Reader` itself (its
/// type parameter is bound by `AsRef`), so the reader is held here, opaque.
#[verifier::external_body]
pub struct Container<'a> {
    reader: ktx2::Reader<&'a [u8]>,
}

/// The bytes a container was opened on (what its reader holds).
pub uninterp spec fn reader_input(c: Container) -> Seq<u8>;

/// Relies on `ktx2::Reader::new`: it fails on a short file, a wrong identifier,
/// a zero width or face count, a descriptor that ends outside the file, or a
/// level index or last level outside the file, and keeps the bytes it was
/// given. With the ranges in bounds (which also keeps its additions from
/// overflowing), only the header checks of [`header_accepted`] remain.
#[verifier::external_body]
fn open_container<'a>(bytes: &'a [u8]) -> (r: Result<Container<'a>, ktx2::ParseError>)
    requires
        container_in_bounds(bytes@),
    ensures
        r.is_ok() == header_accepted(bytes@),
        r matches Ok(reader) ==> reader_input(reader) == bytes@,
{
    ktx2::Reader::new(bytes).map(|reader| Container { reader })
}

/// Relies on `ktx2::Reader::header`: it decodes the first 80 bytes, and
/// `level_count` is the little-endian `u32` at byte 40.
#[verifier::external_body]
fn reader_level_count(c: &Container) -> (n: u32)
    requires
        reader_input(*c).len() >= HEADER_LEN,
    ensures
        n == declared_level_count(reader_input(*c)),
{
    c.reader.header().level_count
}

/// Relies on `ktx2::Reader::levels`: one slice per entry of the level index
/// (`level_count`, at least one), in index order, each the byte range
/// `offset .. offset + length` of its entry. It panics on a range outside the
/// file, which the requirement rules out.
#[verifier::external_body]
fn reader_levels<'b>(c: &'b Container) -> (v: Vec<&'b [u8]>)
    requires
        container_in_bounds(reader_input(*c)),
    ensures
        v.len() == stored_level_count(reader_input(*c)),
        forall|i: int| 0 <= i < v.len() ==> #[trigger] v@[i]@ == level_bytes(reader_input(*c), i),
{
    c.reader.levels().collect()
}

/// A cubemap texture format the skybox can be uploaded in.
#[derive(Clone, Copy, Debug, PartialEq, Eq, Structural)]
pub enum SkyboxFormat {
    /// ASTC, 4x4 blocks, sRGB.
    Astc4x4UnormSrgb,
    /// ETC2 RGB8 with 1-bit alpha, sRGB.
    Etc2Rgb8A1UnormSrgb,
    /// Uncompressed four-channel 8-bit, sRGB.
    Rgba8UnormSrgb,
}

/// The compressed texture families a device can sample.
#[derive(Clone, Copy, Debug, PartialEq, Eq, Structural)]
pub struct CompressionSupport {
    pub astc: bool,
    pub etc2: bool,
}

impl CompressionSupport {
    /// Whether the device can sample `f`; uncompressed data always can.
    pub open spec fn spec_supports(self, f: SkyboxFormat) -> bool {
        match f {
            SkyboxFormat::Astc4x4UnormSrgb => self.astc,
            SkyboxFormat::Etc2Rgb8A1UnormSrgb => self.etc2,
            SkyboxFormat::Rgba8UnormSrgb => true,
        }
    }

    pub fn supports(&self, f: SkyboxFormat) -> (r: bool)
        ensures
            r == self.spec_supports(f),
    {
        match f {
            SkyboxFormat::Astc4x4UnormSrgb => self.astc,
            SkyboxFormat::Etc2Rgb8A1UnormSrgb => self.etc2,
            SkyboxFormat::Rgba8UnormSrgb => true,
        }
    }
}

/// The format the skybox asset is stored in.
pub const SKYBOX_ASSET_FORMAT: SkyboxFormat = SkyboxFormat::Rgba8UnormSrgb;

/// Formats in order of preference: ASTC, then ETC2, then uncompressed.
pub open spec fn format_priority() -> Seq<SkyboxFormat> {
    seq![
        SkyboxFormat::Astc4x4UnormSrgb,
        SkyboxFormat::Etc2Rgb8A1UnormSrgb,
        SkyboxFormat::Rgba8UnormSrgb,
    ]
}

/// The first format of the priority list that the device supports.
pub open spec fn preferred_format(support: CompressionSupport) -> SkyboxFormat {
    if support.astc {
        SkyboxFormat::Astc4x4UnormSrgb
    } else if support.etc2 {
        SkyboxFormat::Etc2Rgb8A1UnormSrgb
    } else {
        SkyboxFormat::Rgba8UnormSrgb
    }
}

/// The skybox formats in order of preference.
pub fn skybox_format_priority() -> (r: [SkyboxFormat; 3])
    ensures
        r@ == format_priority(),
{
    let r = [
        SkyboxFormat::Astc4x4UnormSrgb,
        SkyboxFormat::Etc2Rgb8A1UnormSrgb,
        SkyboxFormat::Rgba8UnormSrgb,
    ];
    assert(r@ =~= format_priority());
    r
}

/// Walks the priority list and returns the first format the device supports.
pub fn select_skybox_format(support: &CompressionSupport) -> (f: SkyboxFormat)
    ensures
        f == preferred_format(*support),
{
    let priority = skybox_format_priority();
    let mut i: usize = 0;
    while i < 3
        invariant
            priority@ == format_priority(),
            i <= 3,
            forall|j: int| 0 <= j < i ==> !support.spec_supports(#[trigger] format_priority()[j]),
        decreases 3 - i,
    {
        let f = priority[i];
        if support.supports(f) {
            return f;
        }
        i = i + 1;
    }
    assert(!support.spec_supports(format_priority()[2]));
    SkyboxFormat::Rgba8UnormSrgb
}

/// Why the skybox cannot be loaded.
#[derive(Debug)]
pub enum TextureError {
    /// The preferred format is not the one the asset is stored in.
    UnsupportedFormat(SkyboxFormat),
    /// The level index, a level, or the descriptor lies outside the file.
    LevelOutOfBounds,
    /// The KTX2 reader rejected the header.
    Container(ktx2::ParseError),
}

/// What to upload for the skybox: a square cubemap of `size` pixels a side,
/// `layers` faces, `mip_level_count` levels, with `data` in mip-major order.
#[derive(Debug)]
pub struct SkyboxUpload {
    pub format: SkyboxFormat,
    pub size: u32,
    pub layers: u32,
    pub mip_level_count: u32,
    pub data: Vec<u8>,
}

/// Faces of a cubemap.
pub const CUBE_FACES: u32 = 6;

/// All stored levels of the container, largest first.
pub open spec fn container_levels(b: Seq<u8>) -> Seq<Seq<u8>> {
    Seq::new(stored_level_count(b) as nat, |i: int| level_bytes(b, i))
}

/// The level data, concatenated in mip-major order.
pub open spec fn mip_major_data(b: Seq<u8>) -> Seq<u8> {
    container_levels(b).flatten()
}

/// Reads the little-endian `u32` at `at`.
pub fn read_le_u32(b: &[u8], at: usize) -> (r: u32)
    requires
        at + 4 <= b@.len(),
    ensures
        r == le_u32(b@, at as int),
{
    (b[at] as u32) + (b[at + 1] as u32) * 0x100 + (b[at + 2] as u32) * 0x1_0000 + (b[at + 3] as u32)
        * 0x100_0000
}

/// Reads the little-endian `u64` at `at`.
pub fn read_le_u64(b: &[u8], at: usize) -> (r: u64)
    requires
        at + 8 <= b@.len(),
    ensures
        r == le_u64(b@, at as int),
{
    let _len = b.len();
    let lo = read_le_u32(b, at);
    let hi = read_le_u32(b, at + 4);
    (lo as u64) + (hi as u64) * 0x1_0000_0000
}

/// Checks that the level index, every level's bytes and the descriptor's end
/// lie within the file.
pub fn container_fits(b: &[u8]) -> (ok: bool)
    ensures
        ok == container_in_bounds(b@),
{
    let len = b.len();
    if len < HEADER_LEN + LEVEL_ENTRY_LEN {
        return false;
    }
    let declared = read_le_u32(b, 40);
    let count: u64 = if declared == 0 {
        1
    } else {
        declared as u64
    };
    if (HEADER_LEN as u64) + (LEVEL_ENTRY_LEN as u64) * count > len as u64 {
        return false;
    }
    if (read_le_u32(b, 48) as u64) + (read_le_u32(b, 52) as u64) > u32::MAX as u64 {
        return false;
    }
    let mut i: u64 = 0;
    while i < count
        invariant
            len == b@.len(),
            count == stored_level_count(b@),
            HEADER_LEN + LEVEL_ENTRY_LEN * count <= len,
            descriptor_end(b@) <= u32::MAX,
            i <= count,
            forall|j: int|
                0 <= j < i ==> #[trigger] level_offset(b@, j) + level_length(b@, j) <= len,
        decreases count - i,
    {
        assert(HEADER_LEN == 80 && LEVEL_ENTRY_LEN == 24);
        assert(24 * i + 24 <= 24 * count) by (nonlinear_arith)
            requires
                i < count,
        ;
        let at = (80 + 24 * i) as usize;
        let offset = read_le_u64(b, at);
        let length = read_le_u64(b, at + 8);
        if offset > len as u64 || length > len as u64 - offset {
            assert(level_offset(b@, i as int) + level_length(b@, i as int) > len);
            return false;
        }
        i = i + 1;
    }
    true
}

/// Loads the skybox cubemap from a KTX2 container.
///
/// The format is the first of ASTC, ETC2 and uncompressed that `support`
/// allows; it must be the format the asset is stored in. The container's
/// ranges must lie in the file and the KTX2 reader must accept its header.
/// The upload then holds every stored level, largest first, each level's six
/// faces together (mip-major order).
pub fn load_skybox(bytes: &[u8], support: &CompressionSupport, image_size: u32) -> (r: Result<
    SkyboxUpload,
    TextureError,
>)
    ensures
        ({
            let f = preferred_format(*support);
            let b = bytes@;
            match r {
                Ok(u) => f == SKYBOX_ASSET_FORMAT && container_in_bounds(b) && header_accepted(b)
                    && u.format == f && u.size == image_size && u.layers == CUBE_FACES
                    && u.mip_level_count == stored_level_count(b) && u.data@ == mip_major_data(b),
                Err(TextureError::UnsupportedFormat(g)) => g == f && f != SKYBOX_ASSET_FORMAT,
                Err(TextureError::LevelOutOfBounds) => f == SKYBOX_ASSET_FORMAT
                    && !container_in_bounds(b),
                Err(TextureError::Container(_)) => f == SKYBOX_ASSET_FORMAT && container_in_bounds(
                    b,
                ) && !header_accepted(b),
            }
        }),
{
    let format = select_skybox_format(support);
    if format != SKYBOX_ASSET_FORMAT {
        return Err(TextureError::UnsupportedFormat(format));
    }
    if !container_fits(bytes) {
        return Err(TextureError::LevelOutOfBounds);
    }
    let container = match open_container(bytes) {
        Ok(c) => c,
        Err(e) => {
            return Err(TextureError::Container(e));
        },
    };
    let declared = reader_level_count(&container);
    let mip_level_count: u32 = if declared == 0 {
        1
    } else {
        declared
    };
    let levels = reader_levels(&container);
    let ghost all = container_levels(bytes@);
    let mut data: Vec<u8> = Vec::new();
    let mut i: usize = 0;
    while i < levels.len()
        invariant
            levels.len() == all.len(),
            forall|k: int| 0 <= k < levels.len() ==> #[trigger] levels@[k]@ == all[k],
            i <= levels.len(),
            data@ == all.take(i as int).flatten(),
        decreases levels.len() - i,
    {
        let level: &[u8] = levels[i];
        let ghost before = data@;
        let mut j: usize = 0;
        while j < level.len()
            invariant
                j <= level@.len(),
                data@ == before + level@.take(j as int),
            decreases level.len() - j,
        {
            data.push(level[j]);
            assert(level@.take(j + 1) =~= level@.take(j as int).push(level@[j as int]));
            j = j + 1;
        }
        proof {
            assert(level@.take(level@.len() as int) =~= level@);
            assert(all.take(i + 1) =~= all.take(i as int).push(all[i as int]));
            all.take(i as int).lemma_flatten_push(all[i as int]);
        }
        i = i + 1;
    }
    assert(all.take(levels.len() as int) =~= all);
    Ok(
        SkyboxUpload {
            format,
            size: image_size,
            layers: CUBE_FACES,
            mip_level_count,
            data,
        },
    )
}

} // verus!
