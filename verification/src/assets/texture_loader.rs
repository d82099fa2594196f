use vstd::arithmetic::power2::{
    lemma2_to64, lemma_pow2_strictly_increases, pow2,
};
use vstd::bits::{lemma_u16_low_bits_mask_is_mod, lemma_u16_shl_is_mul, lemma_u16_shr_is_div};
use crate::graphics::{face_layer, CubemapFace, RenderCapabilities};
use vstd::prelude::*;

verus! {

/// The `depth`-bit color component of `pixel` that starts at bit `shift`.
pub open spec fn component_bits(pixel: u16, shift: u16, depth: u16) -> nat {
    (pixel as nat / pow2(shift as nat)) % pow2(depth as nat)
}

/// `high` with its filled top `filled` bits copied below themselves, again and again, until all
/// 8 bits are filled.
pub open spec fn fill_low_bits(high: nat, filled: nat) -> nat
    decreases (if filled < 8 { 8 - filled } else { 0 }),
{
    if filled == 0 || filled >= 8 {
        high
    } else {
        fill_low_bits(high + high / pow2(filled), 2 * filled)
    }
}

/// A `depth`-bit component value widened to 8 bits: the value moves to the top bits, and the
/// freed low bits are filled with the value's own bits repeated, so that zero stays zero and the
/// largest value becomes 255.
pub open spec fn widen_to_8bits(value: nat, depth: nat) -> nat {
    fill_low_bits(value * pow2((8 - depth) as nat), depth)
}

/// The bit operations [`color_to_8bits`] widens a `depth`-bit `value` with.
pub open spec fn replicated_bits(value: u16, depth: u16) -> u16 {
    let high = value << ((8 - depth) as u16);
    let once = high | (high >> depth);
    let twice = if 2 * depth < 8 { once | (once >> ((2 * depth) as u16)) } else { once };
    if 4 * depth < 8 { twice | (twice >> ((4 * depth) as u16)) } else { twice }
}

/// The closed form of [`widen_to_8bits`] at each depth.
proof fn lemma_widen_closed_form(v: nat, depth: nat)
    requires
        0 < depth < 8,
    ensures
        depth == 1 ==> widen_to_8bits(v, depth) == v * 255,
        depth == 2 ==> widen_to_8bits(v, depth) == v * 85,
        depth == 3 ==> widen_to_8bits(v, depth) == v * 36 + (v * 36) / 64,
        depth == 4 ==> widen_to_8bits(v, depth) == v * 16 + v,
        depth == 5 ==> widen_to_8bits(v, depth) == v * 8 + (v * 8) / 32,
        depth == 6 ==> widen_to_8bits(v, depth) == v * 4 + (v * 4) / 64,
        depth == 7 ==> widen_to_8bits(v, depth) == v * 2 + (v * 2) / 128,
{
    lemma2_to64();
    reveal_with_fuel(fill_low_bits, 4);
    if depth == 1 {
        assert((v * 128) / 2 == v * 64);
        assert((v * 192) / 4 == v * 48);
        assert((v * 240) / 16 == v * 15);
    } else if depth == 2 {
        assert((v * 64) / 4 == v * 16);
        assert((v * 80) / 16 == v * 5);
    } else if depth == 3 {
        assert((v * 32) / 8 == v * 4);
    } else if depth == 4 {
        assert((v * 16) / 16 == v);
    }
}

/// The bit operations of [`color_to_8bits`] compute [`widen_to_8bits`].
proof fn lemma_replicated_bits(value: u16, depth: u16)
    requires
        0 < depth < 8,
        value < pow2(depth as nat),
    ensures
        replicated_bits(value, depth) == widen_to_8bits(value as nat, depth as nat),
        widen_to_8bits(value as nat, depth as nat) <= 255,
{
    lemma2_to64();
    lemma_widen_closed_form(value as nat, depth as nat);
    if depth == 1 {
        assert(replicated_bits(value, depth) == value * 255) by (bit_vector)
            requires depth == 1u16, value < 2u16;
    } else if depth == 2 {
        assert(replicated_bits(value, depth) == value * 85) by (bit_vector)
            requires depth == 2u16, value < 4u16;
    } else if depth == 3 {
        assert(replicated_bits(value, depth) == value * 36 + (value * 36) / 64) by (bit_vector)
            requires depth == 3u16, value < 8u16;
    } else if depth == 4 {
        assert(replicated_bits(value, depth) == value * 16 + value) by (bit_vector)
            requires depth == 4u16, value < 16u16;
    } else if depth == 5 {
        assert(replicated_bits(value, depth) == value * 8 + (value * 8) / 32) by (bit_vector)
            requires depth == 5u16, value < 32u16;
    } else if depth == 6 {
        assert(replicated_bits(value, depth) == value * 4 + (value * 4) / 64) by (bit_vector)
            requires depth == 6u16, value < 64u16;
    } else {
        assert(replicated_bits(value, depth) == value * 2 + (value * 2) / 128) by (bit_vector)
            requires depth == 7u16, value < 128u16;
    }
}

/// Converts a <8 bit color component to an 8-bit equivalent.
pub fn color_to_8bits(pixel_value: u16, shift: u16, depth: u16) -> (r: u8)
    requires
        0 < depth < 8,
        shift < 16,
    ensures
        r == widen_to_8bits(component_bits(pixel_value, shift, depth), depth as nat),
{
    // Extract the component value using bitops magic
    let shifted = pixel_value >> shift;
    let one_past_max = 1u16 << depth;
    proof {
        lemma_pow2_strictly_increases(depth as nat, 8);
        lemma2_to64();
        lemma_u16_shl_is_mul(1u16, depth);
    }
    let mask = one_past_max - 1;
    let value = shifted & mask;

    // Perform a basic bitshift to extend the value to an 8-bit depth
    let high = value << (8 - depth);

    // We could end here, but it'd cause some inaccuracies, when for example converting a 5-bit
    // component - the highest value of 31 wouldn't translate to 255, but to 248.
    //
    // The newly created low bits are filled with the value's own bits: the top `depth` bits hold
    // the value, and each step copies the filled part below itself, doubling it, until all 8
    // bits are filled. A source value of 0 still translates to 0, and the highest value of any
    // depth translates to 255.
    let once = high | (high >> depth);
    let twice = if 2 * depth < 8 { once | (once >> (2 * depth)) } else { once };
    let result = if 4 * depth < 8 { twice | (twice >> (4 * depth)) } else { twice };

    proof {
        let d = depth as nat;
        lemma_u16_shr_is_div(pixel_value, shift);
        lemma_u16_low_bits_mask_is_mod(shifted, d);
        assert(value == shifted % (pow2(d) as u16));
        assert(value < pow2(d));
        assert(result == replicated_bits(value, depth));
        lemma_replicated_bits(value, depth);
    }
    result as u8
}

/// Zero stays zero, the largest value of any depth becomes 255, and the value itself is kept
/// in the top bits of the widened one.
pub proof fn lemma_widen_extremes(depth: nat, value: nat)
    requires
        0 < depth < 8,
        value < pow2(depth),
    ensures
        widen_to_8bits(0, depth) == 0,
        widen_to_8bits((pow2(depth) - 1) as nat, depth) == 255,
        widen_to_8bits(value, depth) / pow2((8 - depth) as nat) == value,
{
    lemma2_to64();
    lemma_widen_closed_form(0, depth);
    lemma_widen_closed_form((pow2(depth) - 1) as nat, depth);
    lemma_widen_closed_form(value, depth);
    if depth == 1 {
        assert(value < 2);
    } else if depth == 2 {
        assert(value < 4);
        assert((value * 85) / 64 == value);
    } else if depth == 3 {
        assert(value < 8);
        assert((value * 36 + (value * 36) / 64) / 32 == value);
    } else if depth == 4 {
        assert(value < 16);
        assert((value * 16 + value) / 16 == value);
    } else if depth == 5 {
        assert(value < 32);
        assert((value * 8 + (value * 8) / 32) / 8 == value);
    } else if depth == 6 {
        assert(value < 64);
        assert((value * 4 + (value * 4) / 64) / 4 == value);
    } else {
        assert(value < 128);
        assert((value * 2 + (value * 2) / 128) / 2 == value);
    }
}

/// The little-endian 16-bit value of the pixel stored at `data[2 * k]` and `data[2 * k + 1]`.
pub open spec fn pixel16(data: Seq<u8>, k: int) -> u16 {
    (data[2 * k] + 256 * data[2 * k + 1]) as u16
}

/// Byte `i` of the 32-bit RGBA data made from 16-bit pixels whose red, green, blue and alpha
/// components have the given widths, stored from the top bits down with blue lowest.
/// A zero-width alpha becomes opaque.
pub open spec fn rgba_from_16bit_byte(data: Seq<u8>, i: int, r_bits: u16, g_bits: u16, b_bits: u16, a_bits: u16) -> u8 {
    let value = pixel16(data, i / 4);
    let channel = i % 4;
    if channel == 0 {
        widen_to_8bits(component_bits(value, (g_bits + b_bits) as u16, r_bits), r_bits as nat) as u8
    } else if channel == 1 {
        widen_to_8bits(component_bits(value, b_bits, g_bits), g_bits as nat) as u8
    } else if channel == 2 {
        widen_to_8bits(component_bits(value, 0, b_bits), b_bits as nat) as u8
    } else if a_bits == 0 {
        255
    } else {
        widen_to_8bits(component_bits(value, (r_bits + g_bits + b_bits) as u16, a_bits), a_bits as nat) as u8
    }
}

/// Converts a specificied D3D9 BGRA 16-bit color depth uncompressed texture to
/// a roughly equivalent 32-bit RGBA counterpart (what a mouthful).
/// A trailing odd byte is dropped.
pub fn convert_color_depth(data16: Vec<u8>, r_bits: u16, g_bits: u16, b_bits: u16, a_bits: u16) -> (r: Vec<u8>)
    requires
        r_bits + g_bits + b_bits + a_bits == 16,
        0 < r_bits < 8,
        0 < g_bits < 8,
        0 < b_bits < 8,
        a_bits < 8,
    ensures
        r@.len() == 4 * (data16@.len() / 2),
        forall|i: int| 0 <= i < r@.len() ==> #[trigger] r@[i] == rgba_from_16bit_byte(data16@, i, r_bits, g_bits, b_bits, a_bits),
{
    let pixels: usize = data16.len() / 2;
    let mut out: Vec<u8> = Vec::new();
    let a_offset: u16 = r_bits + g_bits + b_bits;
    let r_offset: u16 = g_bits + b_bits;
    let g_offset: u16 = b_bits;
    let b_offset: u16 = 0;
    let mut k: usize = 0;
    while k < pixels
        invariant
            pixels == data16@.len() / 2,
            data16@.len() <= usize::MAX,
            k <= pixels,
            r_bits + g_bits + b_bits + a_bits == 16,
            0 < r_bits < 8,
            0 < g_bits < 8,
            0 < b_bits < 8,
            a_bits < 8,
            a_offset == r_bits + g_bits + b_bits,
            r_offset == g_bits + b_bits,
            g_offset == b_bits,
            b_offset == 0,
            out@.len() == 4 * k,
            forall|i: int| 0 <= i < out@.len() ==> #[trigger] out@[i] == rgba_from_16bit_byte(data16@, i, r_bits, g_bits, b_bits, a_bits),
        decreases pixels - k,
    {
        assert(2 * k + 1 < data16@.len());
        let low: u8 = data16[2 * k];
        let high: u8 = data16[2 * k + 1];
        let value: u16 = low as u16 + (high as u16) * 256;
        let red: u8 = color_to_8bits(value, r_offset, r_bits);
        let green: u8 = color_to_8bits(value, g_offset, g_bits);
        let blue: u8 = color_to_8bits(value, b_offset, b_bits);
        let alpha: u8 = if a_bits == 0 {
            255
        } else {
            color_to_8bits(value, a_offset, a_bits)
        };
        let ghost before = out@;
        out.push(red);
        out.push(green);
        out.push(blue);
        out.push(alpha);
        proof {
            assert forall|i: int| 0 <= i < out@.len() implies #[trigger] out@[i] == rgba_from_16bit_byte(data16@, i, r_bits, g_bits, b_bits, a_bits) by {
                if i >= 4 * k {
                    assert(i / 4 == k);
                    assert(value == pixel16(data16@, k as int));
                } else {
                    assert(out@[i] == before[i]);
                }
            }
        }
        k = k + 1;
    }
    out
}

/// `anyhow::Error`, the error type that level-file parsing and reading report; it is carried
/// through unopened.
#[verifier::external_type_specification]
#[verifier::external_body]
pub struct ExAnyhowError(anyhow::Error);

/// Direct3D 9 texture formats that level files store textures in.
#[derive(Debug, Clone, Copy, PartialEq, Eq, Structural, Hash)]
pub enum D3DFormat {
    DXT1,
    DXT3,
    A8R8G8B8,
    R8G8B8,
    R5G6B5,
    A1R5G5B5,
    A4R4G4B4,
    A8,
    L8,
    A8L8,
    A4L4,
    V8U8,
}

/// The GPU texture formats that level-file textures are uploaded in.
#[derive(Debug, Clone, Copy, PartialEq, Eq, Structural, Hash)]
pub enum TextureFormat {
    Bc1RgbaUnorm,
    Bc2RgbaUnorm,
    Bgra8Unorm,
    Rgba8Unorm,
    R8Unorm,
    Rg8Unorm,
}

/// Whether a level-file texture is a plain 2D texture or a cubemap.
#[derive(Debug, Clone, Copy, PartialEq, Eq, Structural, Hash)]
pub enum LevelTextureKind {
    D2,
    Cubemap,
}

/// Description of one stored format of a level-file texture.
#[derive(Debug, Clone, Copy, PartialEq, Eq, Structural)]
pub struct LevelTextureFormatInfo {
    pub kind: LevelTextureKind,
    pub format: D3DFormat,
    pub width: u32,
    pub height: u32,
    pub mipmaps: u32,
}

/// Errors of texture loading.
#[derive(Debug)]
pub enum TextureLoadError {
    /// the texture had an invalid name
    BadName,
    /// no suitable format found in the texture
    NoFormat,
    /// the texture node had an improper amount of defined faces
    BadFaceAmount,
    /// a node parsing error occurred
    ParseError(anyhow::Error),
    /// a texture read error occurred
    ReadError(anyhow::Error),
}

/// The GPU format each Direct3D format is uploaded in.
pub open spec fn gpu_format_of(d3d: D3DFormat) -> TextureFormat {
    match d3d {
        D3DFormat::DXT1 => TextureFormat::Bc1RgbaUnorm,
        D3DFormat::DXT3 => TextureFormat::Bc2RgbaUnorm,
        D3DFormat::A8R8G8B8 => TextureFormat::Bgra8Unorm,
        D3DFormat::R5G6B5 => TextureFormat::Rgba8Unorm,
        D3DFormat::A1R5G5B5 => TextureFormat::Rgba8Unorm,
        D3DFormat::A4R4G4B4 => TextureFormat::Rgba8Unorm,
        D3DFormat::A8 => TextureFormat::R8Unorm,
        D3DFormat::L8 => TextureFormat::R8Unorm,
        D3DFormat::A8L8 => TextureFormat::Rg8Unorm,
        D3DFormat::A4L4 => TextureFormat::Rg8Unorm,
        D3DFormat::V8U8 => TextureFormat::Rg8Unorm,
        D3DFormat::R8G8B8 => TextureFormat::Rgba8Unorm,
    }
}

/// Maps a Direct3D texture format to the GPU format its converted data is uploaded in.
pub fn d3dformat_to_wgpu(d3d: D3DFormat) -> (r: TextureFormat)
    ensures
        r == gpu_format_of(d3d),
{
    match d3d {
        D3DFormat::DXT1 => TextureFormat::Bc1RgbaUnorm,
        D3DFormat::DXT3 => TextureFormat::Bc2RgbaUnorm,
        D3DFormat::A8R8G8B8 => TextureFormat::Bgra8Unorm,
        D3DFormat::R5G6B5 => TextureFormat::Rgba8Unorm,
        D3DFormat::A1R5G5B5 => TextureFormat::Rgba8Unorm,
        D3DFormat::A4R4G4B4 => TextureFormat::Rgba8Unorm,
        D3DFormat::A8 => TextureFormat::R8Unorm,
        D3DFormat::L8 => TextureFormat::R8Unorm,
        D3DFormat::A8L8 => TextureFormat::Rg8Unorm,
        D3DFormat::A4L4 => TextureFormat::Rg8Unorm,
        D3DFormat::V8U8 => TextureFormat::Rg8Unorm,
        D3DFormat::R8G8B8 => TextureFormat::Rgba8Unorm,
    }
}

/// How much a stored format is preferred: block-compressed formats score 10 when the renderer
/// allows BC compression and `i32::MIN` otherwise; the uncompressed ones score by fidelity.
pub open spec fn format_rank(format: D3DFormat, capabilities: RenderCapabilities) -> i32 {
    let compression_score = if capabilities.allow_bc_compression { 10i32 } else { i32::MIN };
    match format {
        D3DFormat::DXT1 => compression_score,
        D3DFormat::DXT3 => compression_score,
        D3DFormat::A8R8G8B8 => 5,
        D3DFormat::R8G8B8 => 4,
        D3DFormat::R5G6B5 => 3,
        _ => 1,
    }
}

/// Ranks a stored texture format; formats ranked below zero are never chosen.
pub fn rank_texture_format(format: &LevelTextureFormatInfo, capabilities: &RenderCapabilities) -> (r: i32)
    ensures
        r == format_rank(format.format, *capabilities),
{
    let compression_score = if capabilities.allow_bc_compression {
        10
    } else {
        i32::MIN
    };

    match format.format {
        D3DFormat::DXT1 => compression_score,
        D3DFormat::DXT3 => compression_score,
        D3DFormat::A8R8G8B8 => 5,
        D3DFormat::R8G8B8 => 4,
        D3DFormat::R5G6B5 => 3,
        D3DFormat::A1R5G5B5 => 1,
        D3DFormat::A4R4G4B4 => 1,
        D3DFormat::A8 => 1,
        D3DFormat::L8 => 1,
        D3DFormat::A8L8 => 1,
        D3DFormat::A4L4 => 1,
        D3DFormat::V8U8 => 1,
    }
}

/// Index `i` is the format that selection picks among `formats`: it is eligible (ranked at least
/// zero), no eligible format ranks higher, and every later eligible format ranks strictly lower.
pub open spec fn is_chosen_format(formats: Seq<LevelTextureFormatInfo>, capabilities: RenderCapabilities, i: int) -> bool {
    &&& 0 <= i < formats.len()
    &&& format_rank(formats[i].format, capabilities) >= 0
    &&& forall|j: int| 0 <= j < formats.len() && format_rank(formats[j].format, capabilities) >= 0 ==>
        format_rank(formats[j].format, capabilities) <= format_rank(formats[i].format, capabilities)
    &&& forall|j: int| i < j < formats.len() && format_rank(formats[j].format, capabilities) >= 0 ==>
        format_rank(formats[j].format, capabilities) < format_rank(formats[i].format, capabilities)
}

/// Picks the stored format to load: the highest-ranked one among those ranked at least zero,
/// the last of them on a tie; [`TextureLoadError::NoFormat`] if no format qualifies.
pub fn choose_texture_format(formats: &Vec<LevelTextureFormatInfo>, capabilities: &RenderCapabilities) -> (r: Result<usize, TextureLoadError>)
    ensures
        r matches Ok(i) ==> is_chosen_format(formats@, *capabilities, i as int),
        r is Err ==> r matches Err(TextureLoadError::NoFormat),
        r is Err <==> forall|j: int| 0 <= j < formats@.len() ==> format_rank(#[trigger] formats@[j].format, *capabilities) < 0,
{
    let mut best: Option<usize> = None;
    let mut i: usize = 0;
    while i < formats.len()
        invariant
            i <= formats@.len(),
            best is None <==> forall|j: int| 0 <= j < i ==> format_rank(#[trigger] formats@[j].format, *capabilities) < 0,
            best matches Some(b) ==> is_chosen_format(formats@.subrange(0, i as int), *capabilities, b as int),
        decreases formats@.len() - i,
    {
        let rank = rank_texture_format(&formats[i], capabilities);
        if rank >= 0 {
            match best {
                Some(b) => {
                    if rank >= rank_texture_format(&formats[b], capabilities) {
                        best = Some(i);
                    }
                },
                None => {
                    best = Some(i);
                },
            }
        }
        proof {
            let next = formats@.subrange(0, i + 1);
            assert forall|j: int| 0 <= j < i + 1 implies next[j] == formats@[j] by {}
        }
        i = i + 1;
    }
    assert(formats@.subrange(0, i as int) =~= formats@);
    match best {
        Some(b) => Ok(b),
        None => Err(TextureLoadError::NoFormat),
    }
}

/// The number of faces each kind of texture must store.
pub open spec fn required_faces(kind: LevelTextureKind) -> nat {
    match kind {
        LevelTextureKind::D2 => 1,
        LevelTextureKind::Cubemap => 6,
    }
}

/// Checks that a texture stores as many faces as its kind needs: one for a 2D texture, six for
/// a cubemap; [`TextureLoadError::BadFaceAmount`] otherwise.
pub fn check_face_amount(kind: LevelTextureKind, faces: usize) -> (r: Result<(), TextureLoadError>)
    ensures
        r is Ok <==> faces == required_faces(kind),
        r is Err ==> r matches Err(TextureLoadError::BadFaceAmount),
{
    let required: usize = match kind {
        LevelTextureKind::D2 => 1,
        LevelTextureKind::Cubemap => 6,
    };
    if faces != required {
        Err(TextureLoadError::BadFaceAmount)
    } else {
        Ok(())
    }
}

/// Byte `i` of the RGBA data made from 24-bit pixels stored as blue, green, red:
/// the colors are swapped into red, green, blue order and the pixel is made opaque.
pub open spec fn rgba_from_bgr_byte(data: Seq<u8>, i: int) -> u8 {
    let k = i / 4;
    let channel = i % 4;
    if channel == 0 {
        data[3 * k + 2]
    } else if channel == 1 {
        data[3 * k + 1]
    } else if channel == 2 {
        data[3 * k]
    } else {
        255
    }
}

/// Turns 24-bit blue-green-red pixels into opaque RGBA ones; trailing bytes short of a pixel are
/// dropped.
fn convert_bgr_to_rgba(data: Vec<u8>) -> (r: Vec<u8>)
    ensures
        r@.len() == 4 * (data@.len() / 3),
        forall|i: int| 0 <= i < r@.len() ==> #[trigger] r@[i] == rgba_from_bgr_byte(data@, i),
{
    let pixels: usize = data.len() / 3;
    let mut out: Vec<u8> = Vec::new();
    let mut k: usize = 0;
    while k < pixels
        invariant
            pixels == data@.len() / 3,
            data@.len() <= usize::MAX,
            k <= pixels,
            out@.len() == 4 * k,
            forall|i: int| 0 <= i < out@.len() ==> #[trigger] out@[i] == rgba_from_bgr_byte(data@, i),
        decreases pixels - k,
    {
        assert(3 * k + 2 < data@.len());
        let b: u8 = data[3 * k];
        let g: u8 = data[3 * k + 1];
        let r: u8 = data[3 * k + 2];
        let ghost before = out@;
        out.push(r);
        out.push(g);
        out.push(b);
        out.push(255);
        proof {
            assert forall|i: int| 0 <= i < out@.len() implies #[trigger] out@[i] == rgba_from_bgr_byte(data@, i) by {
                if i >= 4 * k {
                    assert(i / 4 == k);
                } else {
                    assert(out@[i] == before[i]);
                }
            }
        }
        k = k + 1;
    }
    out
}

/// Byte `i` of the two-channel data made from 8-bit pixels holding alpha in the high four bits and
/// luminance in the low four: each pixel becomes a widened luminance byte, then a widened alpha
/// byte, the layout that 8-bit luminance-alpha data has.
pub open spec fn rg_from_a4l4_byte(data: Seq<u8>, i: int) -> u8 {
    let pixel = data[i / 2] as u16;
    if i % 2 == 0 {
        widen_to_8bits(component_bits(pixel, 0, 4), 4) as u8
    } else {
        widen_to_8bits(component_bits(pixel, 4, 4), 4) as u8
    }
}

/// Turns 8-bit alpha-luminance pixels of four bits each into two-byte ones of eight bits each.
fn convert_a4l4_to_rg8(data: Vec<u8>) -> (r: Vec<u8>)
    ensures
        r@.len() == 2 * data@.len(),
        forall|i: int| 0 <= i < r@.len() ==> #[trigger] r@[i] == rg_from_a4l4_byte(data@, i),
{
    let mut out: Vec<u8> = Vec::new();
    let mut k: usize = 0;
    while k < data.len()
        invariant
            k <= data@.len(),
            out@.len() == 2 * k,
            forall|i: int| 0 <= i < out@.len() ==> #[trigger] out@[i] == rg_from_a4l4_byte(data@, i),
        decreases data@.len() - k,
    {
        let pixel: u16 = data[k] as u16;
        let luminance: u8 = color_to_8bits(pixel, 0, 4);
        let alpha: u8 = color_to_8bits(pixel, 4, 4);
        let ghost before = out@;
        out.push(luminance);
        out.push(alpha);
        proof {
            assert forall|i: int| 0 <= i < out@.len() implies #[trigger] out@[i] == rg_from_a4l4_byte(data@, i) by {
                if i >= 2 * k {
                    assert(i / 2 == k);
                } else {
                    assert(out@[i] == before[i]);
                }
            }
        }
        k = k + 1;
    }
    out
}

/// The uploadable data made from texture data stored in `format`: 16-bit color formats are
/// widened to 32-bit RGBA, 24-bit BGR becomes RGBA, 4-bit alpha-luminance becomes 8-bit
/// luminance-alpha, and every other format is kept as it is.
pub open spec fn converted_texture_data(format: D3DFormat, data: Seq<u8>) -> Seq<u8> {
    match format {
        D3DFormat::R5G6B5 => Seq::new(4 * (data.len() / 2), |i: int| rgba_from_16bit_byte(data, i, 5, 6, 5, 0)),
        D3DFormat::A1R5G5B5 => Seq::new(4 * (data.len() / 2), |i: int| rgba_from_16bit_byte(data, i, 5, 5, 5, 1)),
        D3DFormat::A4R4G4B4 => Seq::new(4 * (data.len() / 2), |i: int| rgba_from_16bit_byte(data, i, 4, 4, 4, 4)),
        D3DFormat::R8G8B8 => Seq::new(4 * (data.len() / 3), |i: int| rgba_from_bgr_byte(data, i)),
        D3DFormat::A4L4 => Seq::new(2 * data.len(), |i: int| rg_from_a4l4_byte(data, i)),
        _ => data,
    }
}

/// Converts D3D9 optimized texture data into data that can be used by the GPU.
/// If no conversion is necessary, the vector will be given back. The texture
/// format will match the result of [`d3dformat_to_wgpu`].
pub fn convert_texture_format(info: &LevelTextureFormatInfo, data: Vec<u8>) -> (r: Vec<u8>)
    ensures
        r@ == converted_texture_data(info.format, data@),
{
    let ghost input = data@;
    let r = match info.format {
        D3DFormat::DXT1 => data,
        D3DFormat::DXT3 => data,
        D3DFormat::A8R8G8B8 => data,
        D3DFormat::R5G6B5 => convert_color_depth(data, 5, 6, 5, 0),
        D3DFormat::A1R5G5B5 => convert_color_depth(data, 5, 5, 5, 1),
        D3DFormat::A4R4G4B4 => convert_color_depth(data, 4, 4, 4, 4),
        D3DFormat::A8 => data,
        D3DFormat::L8 => data,
        D3DFormat::A8L8 => data,
        D3DFormat::A4L4 => convert_a4l4_to_rg8(data),
        D3DFormat::V8U8 => data,
        D3DFormat::R8G8B8 => convert_bgr_to_rgba(data),
    };
    assert(r@ =~= converted_texture_data(info.format, input));
    r
}

/// Bytes per pixel of the uncompressed Direct3D formats; block-compressed ones have none.
pub open spec fn d3d_pixel_bytes(format: D3DFormat) -> Option<nat> {
    match format {
        D3DFormat::DXT1 => None,
        D3DFormat::DXT3 => None,
        D3DFormat::A8R8G8B8 => Some(4),
        D3DFormat::R8G8B8 => Some(3),
        D3DFormat::R5G6B5 => Some(2),
        D3DFormat::A1R5G5B5 => Some(2),
        D3DFormat::A4R4G4B4 => Some(2),
        D3DFormat::A8 => Some(1),
        D3DFormat::L8 => Some(1),
        D3DFormat::A8L8 => Some(2),
        D3DFormat::A4L4 => Some(1),
        D3DFormat::V8U8 => Some(2),
    }
}

/// Bytes per pixel of the uncompressed GPU formats; block-compressed ones have none.
pub open spec fn gpu_pixel_bytes(format: TextureFormat) -> Option<nat> {
    match format {
        TextureFormat::Bc1RgbaUnorm => None,
        TextureFormat::Bc2RgbaUnorm => None,
        TextureFormat::Bgra8Unorm => Some(4),
        TextureFormat::Rgba8Unorm => Some(4),
        TextureFormat::R8Unorm => Some(1),
        TextureFormat::Rg8Unorm => Some(2),
    }
}

/// The formats whose data is uploaded as stored.
pub open spec fn passes_through(format: D3DFormat) -> bool {
    !(format == D3DFormat::R5G6B5 || format == D3DFormat::A1R5G5B5 || format == D3DFormat::A4R4G4B4
        || format == D3DFormat::R8G8B8 || format == D3DFormat::A4L4)
}

/// Converted data holds one pixel of the GPU format that [`d3dformat_to_wgpu`] picks for every
/// whole stored pixel: data kept as stored already has the GPU format's pixel size (or is
/// block-compressed in both), and converted data has one GPU pixel per stored one.
pub proof fn lemma_converted_size_matches_gpu_format(format: D3DFormat, data: Seq<u8>)
    ensures
        passes_through(format) ==> converted_texture_data(format, data) == data
            && d3d_pixel_bytes(format) == gpu_pixel_bytes(gpu_format_of(format)),
        !passes_through(format) ==> converted_texture_data(format, data).len()
            == (data.len() / d3d_pixel_bytes(format)->0) * gpu_pixel_bytes(gpu_format_of(format))->0,
{
}


/// A color channel of a pixel.
#[derive(Debug, Clone, Copy, PartialEq, Eq, Structural)]
pub enum Channel {
    Red,
    Green,
    Blue,
    Alpha,
}

/// Where a channel sits in a pixel of a 16-bit Direct3D format, as the format's name lays the
/// channels out from the top bit down: the channel's lowest bit and its width. `None` where the
/// format has no such channel (or is not a 16-bit color format).
pub open spec fn d3d_channel_bits(format: D3DFormat, channel: Channel) -> Option<(u16, u16)> {
    match (format, channel) {
        (D3DFormat::R5G6B5, Channel::Red) => Some((11u16, 5u16)),
        (D3DFormat::R5G6B5, Channel::Green) => Some((5u16, 6u16)),
        (D3DFormat::R5G6B5, Channel::Blue) => Some((0u16, 5u16)),
        (D3DFormat::A1R5G5B5, Channel::Alpha) => Some((15u16, 1u16)),
        (D3DFormat::A1R5G5B5, Channel::Red) => Some((10u16, 5u16)),
        (D3DFormat::A1R5G5B5, Channel::Green) => Some((5u16, 5u16)),
        (D3DFormat::A1R5G5B5, Channel::Blue) => Some((0u16, 5u16)),
        (D3DFormat::A4R4G4B4, Channel::Alpha) => Some((12u16, 4u16)),
        (D3DFormat::A4R4G4B4, Channel::Red) => Some((8u16, 4u16)),
        (D3DFormat::A4R4G4B4, Channel::Green) => Some((4u16, 4u16)),
        (D3DFormat::A4R4G4B4, Channel::Blue) => Some((0u16, 4u16)),
        _ => None,
    }
}

/// The channels that the bytes of one pixel of an uncompressed GPU format hold, in order.
pub open spec fn gpu_channel_order(format: TextureFormat) -> Seq<Channel> {
    match format {
        TextureFormat::Rgba8Unorm => seq![Channel::Red, Channel::Green, Channel::Blue, Channel::Alpha],
        TextureFormat::Bgra8Unorm => seq![Channel::Blue, Channel::Green, Channel::Red, Channel::Alpha],
        TextureFormat::R8Unorm => seq![Channel::Red],
        TextureFormat::Rg8Unorm => seq![Channel::Red, Channel::Green],
        _ => Seq::empty(),
    }
}

/// The 8-bit value of `channel` in the 16-bit `pixel` of `format`: the channel's bits widened,
/// or fully opaque for an alpha the format lacks.
pub open spec fn d3d_channel_value(format: D3DFormat, pixel: u16, channel: Channel) -> u8 {
    match d3d_channel_bits(format, channel) {
        Some((shift, depth)) => widen_to_8bits(component_bits(pixel, shift, depth), depth as nat) as u8,
        None => 255,
    }
}

/// The 8-bit value of `channel` in pixel `k` of 24-bit data, which Direct3D stores as blue,
/// green, red; opaque alpha.
pub open spec fn bgr_channel_value(data: Seq<u8>, k: int, channel: Channel) -> u8 {
    match channel {
        Channel::Blue => data[3 * k],
        Channel::Green => data[3 * k + 1],
        Channel::Red => data[3 * k + 2],
        Channel::Alpha => 255,
    }
}

/// Converted texture data is read by the GPU in the channel order of the format it is uploaded
/// in: for every format the loader converts, the GPU format that [`d3dformat_to_wgpu`] picks has
/// four one-byte channels, and byte `c` of converted pixel `k` is the stored pixel's value of the
/// channel that the GPU format reads at `c`. In particular an A1R5G5B5 pixel is opaque exactly
/// when its top bit is set, and clear otherwise.
pub proof fn lemma_converted_channels_match_gpu_format(format: D3DFormat, data: Seq<u8>, k: int, c: int)
    requires
        format == D3DFormat::R5G6B5 || format == D3DFormat::A1R5G5B5 || format == D3DFormat::A4R4G4B4
            || format == D3DFormat::R8G8B8,
        0 <= c < 4,
    ensures
        gpu_channel_order(gpu_format_of(format)).len() == 4,
        format != D3DFormat::R8G8B8 && 0 <= k < data.len() / 2 ==>
            converted_texture_data(format, data)[4 * k + c]
                == d3d_channel_value(format, pixel16(data, k), gpu_channel_order(gpu_format_of(format))[c]),
        format == D3DFormat::R8G8B8 && 0 <= k < data.len() / 3 ==>
            converted_texture_data(format, data)[4 * k + c]
                == bgr_channel_value(data, k, gpu_channel_order(gpu_format_of(format))[c]),
        format == D3DFormat::A1R5G5B5 && 0 <= k < data.len() / 2 ==>
            converted_texture_data(format, data)[4 * k + 3] == if pixel16(data, k) >= 0x8000 { 255u8 } else { 0u8 },
{
    let i = 4 * k + c;
    assert(i / 4 == k && i % 4 == c);
    if format == D3DFormat::A1R5G5B5 && 0 <= k < data.len() / 2 {
        let j = 4 * k + 3;
        assert(j / 4 == k && j % 4 == 3);
        let p = pixel16(data, k);
        lemma2_to64();
        let bit = component_bits(p, 15, 1);
        assert(bit == (p as nat / 32768) % 2);
        lemma_widen_extremes(1, bit);
        if p >= 0x8000 {
            assert(bit == 1);
        } else {
            assert(bit == 0);
        }
    }
}

/// The channels that the bytes of one stored pixel hold, in order, for the byte-aligned color
/// formats: Direct3D stores A8R8G8B8 little-endian, so its bytes run blue, green, red, alpha.
pub open spec fn d3d_stored_byte_order(format: D3DFormat) -> Seq<Channel> {
    match format {
        D3DFormat::A8R8G8B8 => seq![Channel::Blue, Channel::Green, Channel::Red, Channel::Alpha],
        _ => Seq::empty(),
    }
}

/// The block-compression scheme of a Direct3D format: DXT1 is BC1 and DXT3 is BC2.
pub open spec fn d3d_block_scheme(format: D3DFormat) -> Option<nat> {
    match format {
        D3DFormat::DXT1 => Some(1),
        D3DFormat::DXT3 => Some(2),
        _ => None,
    }
}

/// The block-compression scheme of a GPU format.
pub open spec fn gpu_block_scheme(format: TextureFormat) -> Option<nat> {
    match format {
        TextureFormat::Bc1RgbaUnorm => Some(1),
        TextureFormat::Bc2RgbaUnorm => Some(2),
        _ => None,
    }
}

/// Data kept as stored is read by the GPU as it is laid out: a byte-aligned color format keeps
/// its byte order of channels, and a block-compressed format is uploaded in the same
/// compression scheme.
pub proof fn lemma_kept_data_matches_gpu_format(format: D3DFormat)
    ensures
        d3d_stored_byte_order(format).len() > 0 ==> passes_through(format)
            && gpu_channel_order(gpu_format_of(format)) == d3d_stored_byte_order(format),
        d3d_block_scheme(format) is Some ==> passes_through(format)
            && gpu_block_scheme(gpu_format_of(format)) == d3d_block_scheme(format),
{
}

/// Every uncompressed stored format can be loaded: it ranks at least zero whatever the renderer
/// allows. A block-compressed one ranks below zero exactly when BC compression is not allowed,
/// so format choice fails only for a texture stored in block-compressed formats alone on a
/// renderer without BC compression.
pub proof fn lemma_uncompressed_formats_are_usable(format: D3DFormat, capabilities: RenderCapabilities)
    ensures
        d3d_pixel_bytes(format) is Some ==> format_rank(format, capabilities) >= 0,
        d3d_pixel_bytes(format) is None ==> (format_rank(format, capabilities) < 0 <==> !capabilities.allow_bc_compression),
{
}

/// Choosing a format fails exactly when every stored format is block-compressed and the
/// renderer does not allow BC compression (or nothing is stored).
pub proof fn lemma_no_format_only_without_bc(formats: Seq<LevelTextureFormatInfo>, capabilities: RenderCapabilities)
    ensures
        no_usable_format(formats, capabilities) <==> forall|j: int| 0 <= j < formats.len() ==>
            d3d_pixel_bytes(#[trigger] formats[j].format) is None && !capabilities.allow_bc_compression,
{
    if no_usable_format(formats, capabilities) {
        assert forall|j: int| 0 <= j < formats.len() implies d3d_pixel_bytes(#[trigger] formats[j].format) is None
            && !capabilities.allow_bc_compression by {
            lemma_uncompressed_formats_are_usable(formats[j].format, capabilities);
        }
    }
    if forall|j: int| 0 <= j < formats.len() ==> d3d_pixel_bytes(#[trigger] formats[j].format) is None
        && !capabilities.allow_bc_compression {
        assert forall|j: int| 0 <= j < formats.len() implies format_rank(#[trigger] formats[j].format, capabilities) < 0 by {
            lemma_uncompressed_formats_are_usable(formats[j].format, capabilities);
        }
    }
}

/// One stored mip level of a texture face: its level, and its body as read from the level file
/// (or the error the read gave).
pub struct LevelMipmap {
    pub mip_level: u32,
    pub body: Result<Vec<u8>, anyhow::Error>,
}

/// The stored mip levels of one face of a texture.
pub struct LevelTextureFace {
    pub mipmaps: Vec<LevelMipmap>,
}

/// One stored format of a level-file texture: its description, its faces, and whether it is
/// to be sampled unfiltered.
pub struct LevelTextureFormat {
    pub info: LevelTextureFormatInfo,
    pub faces: Vec<LevelTextureFace>,
    pub unfiltered: bool,
}

/// A texture as stored in a level file: its name (`None` where the stored name is not valid
/// text) and the formats it is stored in.
pub struct LevelTexture {
    pub name: Option<String>,
    pub formats: Vec<LevelTextureFormat>,
}

/// What the renderer needs to create a 2D texture.
pub struct TextureDescriptor {
    pub name: String,
    pub width: u32,
    pub height: u32,
    pub mip_levels: u32,
    pub format: TextureFormat,
    pub unfiltered: bool,
}

/// What the renderer needs to create a cubemap.
pub struct CubemapDescriptor {
    pub name: String,
    pub width: u32,
    pub height: u32,
    pub mip_levels: u32,
    pub format: TextureFormat,
}

/// The data to upload into one mip level, already in the GPU format.
pub struct TextureWrite {
    pub mip_level: u32,
    pub data: Vec<u8>,
}

/// The uploads into one face of a cubemap.
pub struct CubemapFaceWrites {
    pub face: CubemapFace,
    pub writes: Vec<TextureWrite>,
}

/// A loaded texture, ready to be created and filled by the renderer.
pub enum LoadedTexture {
    Texture(TextureDescriptor, Vec<TextureWrite>),
    Cubemap(CubemapDescriptor, Vec<CubemapFaceWrites>),
}

/// Every mip level of `mipmaps` was read.
pub open spec fn mipmaps_read(mipmaps: Seq<LevelMipmap>) -> bool {
    forall|m: int| 0 <= m < mipmaps.len() ==> (#[trigger] mipmaps[m]).body is Ok
}

/// `e` is the error of the first mip level of `mipmaps` whose read failed.
pub open spec fn first_mipmap_error(mipmaps: Seq<LevelMipmap>, e: anyhow::Error) -> bool {
    exists|m: int|
        0 <= m < mipmaps.len() && (#[trigger] mipmaps[m]).body == Err::<Vec<u8>, anyhow::Error>(e)
            && mipmaps_read(mipmaps.take(m))
}

/// `writes` uploads each mip level of `mipmaps`, in order, converted from `format`.
pub open spec fn uploads_mipmaps(writes: Seq<TextureWrite>, mipmaps: Seq<LevelMipmap>, format: D3DFormat) -> bool {
    &&& writes.len() == mipmaps.len()
    &&& forall|m: int| 0 <= m < mipmaps.len() ==> {
        &&& (#[trigger] writes[m]).mip_level == mipmaps[m].mip_level
        &&& mipmaps[m].body matches Ok(data) && writes[m].data@ == converted_texture_data(format, data@)
    }
}

/// Converts the mip levels of one face for upload; the error of the first failed read, if any.
pub fn face_writes(face: LevelTextureFace, info: &LevelTextureFormatInfo) -> (r: Result<Vec<TextureWrite>, anyhow::Error>)
    ensures
        r is Ok <==> mipmaps_read(face.mipmaps@),
        r matches Ok(writes) ==> uploads_mipmaps(writes@, face.mipmaps@, info.format),
        r matches Err(e) ==> first_mipmap_error(face.mipmaps@, e),
{
    let ghost all = face.mipmaps@;
    let mut rest = face.mipmaps;
    let mut writes: Vec<TextureWrite> = Vec::new();
    while rest.len() > 0
        invariant
            all == face.mipmaps@,
            writes@.len() + rest@.len() == all.len(),
            rest@ == all.skip(writes@.len() as int),
            mipmaps_read(all.take(writes@.len() as int)),
            uploads_mipmaps(writes@, all.take(writes@.len() as int), info.format),
        decreases rest@.len(),
    {
        let ghost k = writes@.len() as int;
        let mipmap = rest.remove(0);
        assert(mipmap == all[k]);
        match mipmap.body {
            Ok(data) => {
                let converted = convert_texture_format(info, data);
                writes.push(TextureWrite { mip_level: mipmap.mip_level, data: converted });
                assert(all.take(k + 1) =~= all.take(k).push(all[k]));
                assert(rest@ =~= all.skip(k + 1));
            },
            Err(e) => {
                assert(all[k].body == Err::<Vec<u8>, anyhow::Error>(e));
                assert(!mipmaps_read(all));
                return Err(e);
            },
        }
    }
    assert(all.take(writes@.len() as int) =~= all);
    Ok(writes)
}

/// Every face of `faces` was read whole.
pub open spec fn faces_read(faces: Seq<LevelTextureFace>) -> bool {
    forall|f: int| 0 <= f < faces.len() ==> mipmaps_read((#[trigger] faces[f]).mipmaps@)
}

/// `e` is the error of the first failed read of `faces`, taken face by face and, within a face,
/// mip level by mip level.
pub open spec fn first_face_error(faces: Seq<LevelTextureFace>, e: anyhow::Error) -> bool {
    exists|f: int|
        0 <= f < faces.len() && first_mipmap_error((#[trigger] faces[f]).mipmaps@, e)
            && faces_read(faces.take(f))
}

/// `writes` holds, for each face of `faces` in layer order, the uploads of its mip levels.
pub open spec fn uploads_cubemap_faces(writes: Seq<CubemapFaceWrites>, faces: Seq<LevelTextureFace>, format: D3DFormat) -> bool {
    &&& writes.len() == faces.len()
    &&& forall|f: int| 0 <= f < faces.len() ==> {
        &&& face_layer((#[trigger] writes[f]).face) == f
        &&& uploads_mipmaps(writes[f].writes@, faces[f].mipmaps@, format)
    }
}

/// Converts the six faces of a cubemap for upload, giving each face its layer; the error of the
/// first failed read, if any.
pub fn cubemap_face_writes(faces: Vec<LevelTextureFace>, info: &LevelTextureFormatInfo) -> (r: Result<Vec<CubemapFaceWrites>, anyhow::Error>)
    requires
        faces@.len() == 6,
    ensures
        r is Ok <==> faces_read(faces@),
        r matches Ok(writes) ==> uploads_cubemap_faces(writes@, faces@, info.format),
        r matches Err(e) ==> first_face_error(faces@, e),
{
    let ghost all = faces@;
    let mut rest = faces;
    let mut out: Vec<CubemapFaceWrites> = Vec::new();
    while rest.len() > 0
        invariant
            all == faces@,
            all.len() == 6,
            out@.len() + rest@.len() == all.len(),
            rest@ == all.skip(out@.len() as int),
            faces_read(all.take(out@.len() as int)),
            uploads_cubemap_faces(out@, all.take(out@.len() as int), info.format),
        decreases rest@.len(),
    {
        let ghost k = out@.len() as int;
        let layer = out.len();
        let face = CubemapFace::try_from(layer as u8).unwrap();
        let level_face = rest.remove(0);
        assert(level_face == all[k]);
        match face_writes(level_face, info) {
            Ok(writes) => {
                out.push(CubemapFaceWrites { face, writes });
                assert(all.take(k + 1) =~= all.take(k).push(all[k]));
                assert(rest@ =~= all.skip(k + 1));
            },
            Err(e) => {
                assert(first_mipmap_error(all[k].mipmaps@, e));
                assert(!faces_read(all));
                return Err(e);
            },
        }
    }
    assert(all.take(out@.len() as int) =~= all);
    Ok(out)
}

/// The stored descriptions of `formats`, in order.
pub open spec fn format_infos(formats: Seq<LevelTextureFormat>) -> Seq<LevelTextureFormatInfo> {
    formats.map_values(|f: LevelTextureFormat| f.info)
}

/// No stored format ranks at least zero.
pub open spec fn no_usable_format(formats: Seq<LevelTextureFormatInfo>, capabilities: RenderCapabilities) -> bool {
    forall|j: int| 0 <= j < formats.len() ==> format_rank(#[trigger] formats[j].format, capabilities) < 0
}

/// The index of the format that selection picks.
pub open spec fn chosen_format(formats: Seq<LevelTextureFormatInfo>, capabilities: RenderCapabilities) -> int {
    choose|i: int| is_chosen_format(formats, capabilities, i)
}

/// At most one index is the one that selection picks.
pub proof fn lemma_chosen_format_unique(formats: Seq<LevelTextureFormatInfo>, capabilities: RenderCapabilities, i: int, k: int)
    requires
        is_chosen_format(formats, capabilities, i),
        is_chosen_format(formats, capabilities, k),
    ensures
        i == k,
{
}

/// `loaded` is the texture `name` stored in `format`, ready for upload: its descriptor carries
/// the stored size, mip count and the GPU format, and its writes the converted mip levels of each
/// face.
pub open spec fn loaded_from(loaded: LoadedTexture, name: String, format: LevelTextureFormat) -> bool {
    let info = format.info;
    match loaded {
        LoadedTexture::Texture(desc, writes) => {
            &&& info.kind == LevelTextureKind::D2
            &&& desc.name == name
            &&& desc.width == info.width
            &&& desc.height == info.height
            &&& desc.mip_levels == info.mipmaps
            &&& desc.format == gpu_format_of(info.format)
            &&& desc.unfiltered == format.unfiltered
            &&& uploads_mipmaps(writes@, format.faces@[0].mipmaps@, info.format)
        },
        LoadedTexture::Cubemap(desc, faces) => {
            &&& info.kind == LevelTextureKind::Cubemap
            &&& desc.name == name
            &&& desc.width == info.width
            &&& desc.height == info.height
            &&& desc.mip_levels == info.mipmaps
            &&& desc.format == gpu_format_of(info.format)
            &&& uploads_cubemap_faces(faces@, format.faces@, info.format)
        },
    }
}

/// What loading the texture `name` from its chosen stored `format` gives: a wrong number of faces
/// for its kind, else the first failed read, else the texture.
pub open spec fn loads_format(name: String, format: LevelTextureFormat, r: Result<(String, LoadedTexture), TextureLoadError>) -> bool {
    if format.faces@.len() != required_faces(format.info.kind) {
        r matches Err(TextureLoadError::BadFaceAmount)
    } else if !faces_read(format.faces@) {
        r matches Err(TextureLoadError::ReadError(e)) && first_face_error(format.faces@, e)
    } else {
        r matches Ok((n, loaded)) && n == name && loaded_from(loaded, name, format)
    }
}

/// Loads a parsed level-file texture: picks the stored format to use and converts its data
/// into what the renderer creates and fills. The name must be valid text
/// ([`TextureLoadError::BadName`]), some format must be usable ([`TextureLoadError::NoFormat`]),
/// the chosen format must store as many faces as its kind needs
/// ([`TextureLoadError::BadFaceAmount`]), and every mip level of it must have been read
/// ([`TextureLoadError::ReadError`]); a parse failure is passed on as
/// [`TextureLoadError::ParseError`].
pub fn load_texture(parsed: Result<LevelTexture, anyhow::Error>, capabilities: &RenderCapabilities) -> (r: Result<(String, LoadedTexture), TextureLoadError>)
    ensures
        parsed matches Err(e) ==> (r matches Err(TextureLoadError::ParseError(e2)) && e2 == e),
        parsed matches Ok(t) ==> {
            let infos = format_infos(t.formats@);
            &&& t.name is None ==> (r matches Err(TextureLoadError::BadName))
            &&& t.name is Some && no_usable_format(infos, *capabilities) ==> (r matches Err(TextureLoadError::NoFormat))
            &&& t.name is Some && !no_usable_format(infos, *capabilities) ==>
                loads_format(t.name->0, t.formats@[chosen_format(infos, *capabilities)], r)
        },
{
    let level_texture = match parsed {
        Ok(t) => t,
        Err(err) => return Err(TextureLoadError::ParseError(err)),
    };
    let ghost stored = level_texture.formats@;
    let texture_name = match level_texture.name {
        Some(name) => name,
        None => return Err(TextureLoadError::BadName),
    };
    let mut formats = level_texture.formats;
    let mut infos: Vec<LevelTextureFormatInfo> = Vec::new();
    let mut i: usize = 0;
    while i < formats.len()
        invariant
            formats@ == stored,
            i <= stored.len(),
            infos@ =~= format_infos(stored).take(i as int),
        decreases stored.len() - i,
    {
        infos.push(formats[i].info);
        i = i + 1;
    }
    assert(infos@ =~= format_infos(stored));
    let chosen = match choose_texture_format(&infos, capabilities) {
        Ok(index) => index,
        Err(_) => return Err(TextureLoadError::NoFormat),
    };
    proof {
        let c = chosen_format(infos@, *capabilities);
        lemma_chosen_format_unique(infos@, *capabilities, chosen as int, c);
    }
    let level_format = formats.remove(chosen);
    let ghost chosen_format_value = level_format;
    let LevelTextureFormat { info, faces, unfiltered } = level_format;
    let format = d3dformat_to_wgpu(info.format);
    match info.kind {
        LevelTextureKind::D2 => {
            let descriptor = TextureDescriptor {
                name: texture_name.clone(),
                width: info.width,
                height: info.height,
                mip_levels: info.mipmaps,
                format,
                unfiltered,
            };
            if faces.len() != 1 {
                return Err(TextureLoadError::BadFaceAmount);
            }
            let mut faces = faces;
            let ghost all_faces = faces@;
            let face = faces.remove(0);
            assert(faces_read(all_faces) <==> mipmaps_read(all_faces[0].mipmaps@)) by {
                assert(all_faces.take(0) =~= Seq::<LevelTextureFace>::empty());
            }
            match face_writes(face, &info) {
                Ok(writes) => Ok((texture_name, LoadedTexture::Texture(descriptor, writes))),
                Err(e) => {
                    assert(all_faces.take(0) =~= Seq::<LevelTextureFace>::empty());
                    Err(TextureLoadError::ReadError(e))
                },
            }
        },
        LevelTextureKind::Cubemap => {
            let descriptor = CubemapDescriptor {
                name: texture_name.clone(),
                width: info.width,
                height: info.height,
                mip_levels: info.mipmaps,
                format,
            };
            if faces.len() != 6 {
                return Err(TextureLoadError::BadFaceAmount);
            }
            match cubemap_face_writes(faces, &info) {
                Ok(writes) => Ok((texture_name, LoadedTexture::Cubemap(descriptor, writes))),
                Err(e) => Err(TextureLoadError::ReadError(e)),
            }
        },
    }
}

} // verus!
