//! Texture images: the pitches of a decoded image and the padded copy of its
//! rows that the upload buffer receives.
use vstd::prelude::*;
use vstd::arithmetic::div_mod::lemma_fundamental_div_mod_converse;
use vstd::arithmetic::mul::lemma_mul_inequality;

verus! {

/// Row pitches of a texture copied through a buffer must be multiples of this.
pub const TEXTURE_DATA_PITCH_ALIGNMENT: u32 = 256;

/// The `DXGI_FORMAT` code of four 8-bit unsigned normalized channels.
pub const FORMAT_R8G8B8A8_UNORM: u32 = 28;

/// The pixel layouts a decoder can produce.
#[derive(Clone, Copy, Debug, PartialEq, Eq, Structural)]
pub enum ColorKind {
    L8,
    La8,
    Rgb8,
    Rgba8,
    L16,
    La16,
    Rgb16,
    Rgba16,
    Rgb32F,
    Rgba32F,
    /// A layout this library does not know by name.
    Unknown,
}

/// A decoded texture together with the pitches used to upload it.
#[derive(Clone, Debug)]
pub struct Image {
    pub width: u64,
    pub height: u32,
    pub format: u32,
    pub row_pitch: usize,
    pub slice_pitch: usize,
    pub alignmented_row_pitch: u32,
    pub alignmented_slice_pitch: u64,
    pub raw_pointer: Vec<u8>,
}

/// Descriptive data of a texture resource.
#[derive(Clone, Debug)]
pub struct TexMetadata {
    pub width: u64,
    pub height: u64,
    pub depth: u64,
    pub array_size: u64,
    pub mip_levels: u64,
    pub misc_flags: u64,
    pub misc_flags2: u64,
    pub format: u64,
    pub dimension: u64,
}

/// Bytes given to one texel in a row: 8-bit RGB and RGBA take four (the size of
/// an RGBA texel), every other layout three (the size of an RGB texel).
pub open spec fn spec_texel_size(c: ColorKind) -> int {
    match c {
        ColorKind::Rgb8 | ColorKind::Rgba8 => 4,
        _ => 3,
    }
}

/// Pitch of a row in the upload buffer: the row pitch itself when the width is
/// a multiple of the alignment, else the least multiple of the alignment that
/// lies strictly above the row pitch.
pub open spec fn spec_aligned_row_pitch(width: int, row_pitch: int) -> int {
    if width % 256 == 0 {
        row_pitch
    } else {
        row_pitch + 256 - row_pitch % 256
    }
}

/// Whether the pitches of a `width` x `height` texture fit the 32-bit fields
/// that carry them.
pub open spec fn texture_fits(width: int, height: int, c: ColorKind) -> bool {
    let a = spec_aligned_row_pitch(width, spec_texel_size(c) * width);
    a <= u32::MAX && a * height <= u32::MAX
}

impl Image {
    /// The fields agree with one another as they do for a decoded texture.
    pub open spec fn is_texture_layout(&self) -> bool {
        &&& self.format == FORMAT_R8G8B8A8_UNORM
        &&& (self.row_pitch == 3 * self.width || self.row_pitch == 4 * self.width)
        &&& self.slice_pitch == self.row_pitch * self.height
        &&& self.alignmented_row_pitch == spec_aligned_row_pitch(self.width as int, self.row_pitch as int)
        &&& self.alignmented_slice_pitch == self.alignmented_row_pitch * self.height
        &&& self.alignmented_slice_pitch <= u32::MAX
    }

    /// What `upload_bytes` needs of the fields.
    pub open spec fn upload_ready(&self) -> bool {
        &&& self.slice_pitch == self.row_pitch * self.height
        &&& self.alignmented_slice_pitch == self.alignmented_row_pitch * self.height
        &&& self.alignmented_slice_pitch <= u32::MAX
    }
}

/// The byte at column `k` of padded row `r`: the source byte of that row
/// where the row and the source reach that far, zero elsewhere.
pub open spec fn row_byte(raw: Seq<u8>, row_pitch: int, r: int, k: int) -> u8 {
    if k < row_pitch && r * row_pitch + k < raw.len() {
        raw[r * row_pitch + k]
    } else {
        0
    }
}

/// The upload buffer's contents: `rows` rows of `pitch` bytes each.
pub open spec fn padded_rows(raw: Seq<u8>, row_pitch: int, pitch: int, rows: int) -> Seq<u8> {
    Seq::new((pitch * rows) as nat, |j: int| row_byte(raw, row_pitch, j / pitch, j % pitch))
}

/// Bytes given to one texel in a row of the given layout.
pub fn texel_size(c: ColorKind) -> (r: u64)
    ensures
        r == spec_texel_size(c),
{
    match c {
        ColorKind::Rgb8 | ColorKind::Rgba8 => 4,
        _ => 3,
    }
}

/// Pitch of a row in the upload buffer, for a texture `width` texels wide
/// whose rows are `row_pitch` bytes long.
pub fn aligned_row_pitch(width: u64, row_pitch: u64) -> (r: u64)
    requires
        row_pitch <= u64::MAX - 256,
    ensures
        r == spec_aligned_row_pitch(width as int, row_pitch as int),
{
    if width % 256 == 0 {
        row_pitch
    } else {
        row_pitch + 256 - row_pitch % 256
    }
}

/// A row pitch taken from a whole number of texels is a multiple of the
/// alignment once padded, and at most one alignment block longer.
pub proof fn lemma_aligned_row_pitch(width: int, texel: int)
    requires
        width >= 0,
        texel >= 1,
    ensures
        spec_aligned_row_pitch(width, texel * width) % 256 == 0,
        texel * width <= spec_aligned_row_pitch(width, texel * width) <= texel * width + 256,
{
    let rp = texel * width;
    assert(rp >= 0) by (nonlinear_arith)
        requires width >= 0, texel >= 1, rp == texel * width;
    if width % 256 == 0 {
        let m = width / 256;
        assert(rp == 256 * (texel * m)) by (nonlinear_arith)
            requires width % 256 == 0, m == width / 256, rp == texel * width;
        assert((256 * (texel * m)) % 256 == 0) by (nonlinear_arith);
    } else {
        assert((rp + 256 - rp % 256) % 256 == 0) by (nonlinear_arith)
            requires rp >= 0;
    }
}

/// Lays out a decoded texture of `width` x `height` texels of layout `color`
/// whose bytes are `bytes`; `None` when its pitches do not fit in 32 bits.
pub fn texture_image(width: u32, height: u32, color: ColorKind, bytes: Vec<u8>) -> (r: Option<Image>)
    ensures
        r is Some <==> texture_fits(width as int, height as int, color),
        r matches Some(img) ==> {
            &&& img.width == width
            &&& img.height == height
            &&& img.format == FORMAT_R8G8B8A8_UNORM
            &&& img.row_pitch == spec_texel_size(color) * width
            &&& img.slice_pitch == spec_texel_size(color) * width * height
            &&& img.alignmented_row_pitch == spec_aligned_row_pitch(width as int, spec_texel_size(color) * width)
            &&& img.alignmented_slice_pitch == img.alignmented_row_pitch * height
            &&& img.raw_pointer@ == bytes@
            &&& img.is_texture_layout()
        },
{
    let texel = texel_size(color);
    let row_pitch: u64 = texel * width as u64;
    let aligned = aligned_row_pitch(width as u64, row_pitch);
    proof {
        lemma_aligned_row_pitch(width as int, texel as int);
    }
    if aligned > u32::MAX as u64 {
        return None;
    }
    assert(aligned * (height as u64) <= u32::MAX * u32::MAX) by (nonlinear_arith)
        requires aligned <= u32::MAX, height <= u32::MAX;
    let aligned_slice: u64 = aligned * height as u64;
    if aligned_slice > u32::MAX as u64 {
        return None;
    }
    assert(row_pitch * height <= aligned * height) by (nonlinear_arith)
        requires row_pitch <= aligned;
    let slice: u64 = row_pitch * height as u64;
    Some(Image {
        width: width as u64,
        height,
        format: FORMAT_R8G8B8A8_UNORM,
        row_pitch: row_pitch as usize,
        slice_pitch: slice as usize,
        alignmented_row_pitch: aligned as u32,
        alignmented_slice_pitch: aligned_slice,
        raw_pointer: bytes,
    })
}

impl Image {
    /// The contents of the upload buffer: every row padded out to the aligned
    /// row pitch, the padding and any row that the source does not reach
    /// filled with zeros.
    pub fn upload_bytes(&self) -> (r: Vec<u8>)
        requires
            self.upload_ready(),
        ensures
            r@ == padded_rows(
                self.raw_pointer@,
                self.row_pitch as int,
                self.alignmented_row_pitch as int,
                self.height as int,
            ),
    {
        let pitch = self.alignmented_row_pitch as usize;
        let rp = self.row_pitch;
        let rows = self.height as usize;
        let ghost raw = self.raw_pointer@;
        let ghost target = padded_rows(raw, rp as int, pitch as int, rows as int);
        let mut out: Vec<u8> = Vec::new();
        let mut r: usize = 0;
        while r < rows
            invariant
                r <= rows,
                pitch == self.alignmented_row_pitch,
                rp == self.row_pitch,
                rows == self.height,
                raw == self.raw_pointer@,
                self.upload_ready(),
                out@ =~= Seq::new(
                    (r * pitch) as nat,
                    |j: int| row_byte(raw, rp as int, j / pitch as int, j % pitch as int),
                ),
            decreases rows - r,
        {
            assert((r + 1) * rp <= rows * rp) by (nonlinear_arith)
                requires r + 1 <= rows;
            let mut k: usize = 0;
            while k < pitch
                invariant
                    r < rows,
                    k <= pitch,
                    (r + 1) * rp <= rows * rp,
                    pitch == self.alignmented_row_pitch,
                    rp == self.row_pitch,
                    rows == self.height,
                    raw == self.raw_pointer@,
                    self.upload_ready(),
                    out@ =~= Seq::new(
                        (r * pitch + k) as nat,
                        |j: int| row_byte(raw, rp as int, j / pitch as int, j % pitch as int),
                    ),
                decreases pitch - k,
            {
                let b: u8 = if k < rp {
                    assert(r * rp + k < self.slice_pitch) by (nonlinear_arith)
                        requires
                            k < rp,
                            (r + 1) * rp <= rows * rp,
                            self.slice_pitch == rp * rows;
                    let at = r * rp + k;
                    if at < self.raw_pointer.len() {
                        self.raw_pointer[at]
                    } else {
                        0
                    }
                } else {
                    0
                };
                proof {
                    lemma_fundamental_div_mod_converse(
                        (r * pitch + k) as int, pitch as int, r as int, k as int);
                }
                out.push(b);
                k += 1;
            }
            assert(r * pitch + pitch == (r + 1) * pitch) by (nonlinear_arith);
            r += 1;
        }
        assert(rows * pitch == pitch * rows) by (nonlinear_arith);
        out
    }
}

} // verus!
