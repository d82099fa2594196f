use zenit::assets::texture_loader::{
    check_face_amount, choose_texture_format, color_to_8bits, convert_color_depth,
    convert_texture_format, d3dformat_to_wgpu, load_texture, rank_texture_format, D3DFormat,
    LevelMipmap, LevelTexture, LevelTextureFace, LevelTextureFormat, LevelTextureFormatInfo,
    LevelTextureKind, LoadedTexture, TextureFormat, TextureLoadError,
};
use zenit::graphics::{CubemapFace, RenderCapabilities};

fn info(format: D3DFormat) -> LevelTextureFormatInfo {
    LevelTextureFormatInfo { kind: LevelTextureKind::D2, format, width: 4, height: 4, mipmaps: 1 }
}

#[test]
fn five_bit_component_extremes() {
    assert_eq!(color_to_8bits(0xF800, 11, 5), 255);
    assert_eq!(color_to_8bits(0x07FF, 11, 5), 0);
    assert_eq!(color_to_8bits(0x8000, 11, 5), 132);
}

#[test]
fn six_and_four_bit_components_fill_low_bits() {
    assert_eq!(color_to_8bits(0x07E0, 5, 6), 255);
    assert_eq!(color_to_8bits(0x0020, 5, 6), 4);
    assert_eq!(color_to_8bits(0x000F, 0, 4), 255);
    assert_eq!(color_to_8bits(0x0008, 0, 4), 136);
}

#[test]
fn one_bit_alpha_becomes_opaque_or_clear() {
    assert_eq!(color_to_8bits(0x8000, 15, 1), 255);
    assert_eq!(color_to_8bits(0x7FFF, 15, 1), 0);
}

#[test]
fn two_and_three_bit_components_repeat_their_bits() {
    assert_eq!(color_to_8bits(0b11, 0, 2), 255);
    assert_eq!(color_to_8bits(0b01, 0, 2), 85);
    assert_eq!(color_to_8bits(0b10, 0, 2), 170);
    assert_eq!(color_to_8bits(0b111, 0, 3), 255);
    assert_eq!(color_to_8bits(0b001, 0, 3), 36);
    assert_eq!(color_to_8bits(0b100, 0, 3), 146);
    assert_eq!(color_to_8bits(0, 0, 3), 0);
}

#[test]
fn r5g6b5_pixels_widen_to_rgba() {
    // Pure red, then pure green; a trailing odd byte is dropped.
    let data = vec![0x00, 0xF8, 0xE0, 0x07, 0x55];
    assert_eq!(convert_color_depth(data, 5, 6, 5, 0), vec![255, 0, 0, 255, 0, 255, 0, 255]);
}

#[test]
fn a1r5g5b5_and_a4r4g4b4_pixels() {
    // Opaque blue in A1R5G5B5: alpha bit set, blue 31.
    assert_eq!(convert_color_depth(vec![0x1F, 0x80], 5, 5, 5, 1), vec![0, 0, 255, 255]);
    // Opaque black, then transparent white.
    assert_eq!(
        convert_color_depth(vec![0x00, 0x80, 0xFF, 0x7F], 5, 5, 5, 1),
        vec![0, 0, 0, 255, 255, 255, 255, 0]
    );
    // A4R4G4B4 0xF80F: alpha 15, red 8, green 0, blue 15.
    assert_eq!(convert_color_depth(vec![0x0F, 0xF8], 4, 4, 4, 4), vec![136, 0, 255, 255]);
}

#[test]
fn texture_formats_convert_or_pass_through() {
    let bgr = vec![1, 2, 3, 4, 5, 6, 7];
    assert_eq!(convert_texture_format(&info(D3DFormat::R8G8B8), bgr), vec![3, 2, 1, 255, 6, 5, 4, 255]);
    let dxt = vec![9, 8, 7, 6, 5, 4, 3, 2];
    assert_eq!(convert_texture_format(&info(D3DFormat::DXT1), dxt.clone()), dxt);
    // A4L4: alpha in the high nibble, luminance in the low one; each becomes a byte.
    assert_eq!(convert_texture_format(&info(D3DFormat::A4L4), vec![0xF0, 0x0F, 0x81]), vec![0, 255, 255, 0, 17, 136]);
    assert_eq!(convert_texture_format(&info(D3DFormat::R5G6B5), vec![0xFF, 0xFF]), vec![255, 255, 255, 255]);
}

#[test]
fn gpu_formats_of_d3d_formats() {
    assert_eq!(d3dformat_to_wgpu(D3DFormat::DXT1), TextureFormat::Bc1RgbaUnorm);
    assert_eq!(d3dformat_to_wgpu(D3DFormat::DXT3), TextureFormat::Bc2RgbaUnorm);
    assert_eq!(d3dformat_to_wgpu(D3DFormat::A8R8G8B8), TextureFormat::Bgra8Unorm);
    assert_eq!(d3dformat_to_wgpu(D3DFormat::R8G8B8), TextureFormat::Rgba8Unorm);
    assert_eq!(d3dformat_to_wgpu(D3DFormat::L8), TextureFormat::R8Unorm);
    assert_eq!(d3dformat_to_wgpu(D3DFormat::V8U8), TextureFormat::Rg8Unorm);
}

#[test]
fn converted_data_size_matches_gpu_format() {
    let data = vec![0u8; 12];
    // 6 R5G6B5 pixels become 6 Rgba8 pixels.
    assert_eq!(convert_texture_format(&info(D3DFormat::R5G6B5), data.clone()).len(), 24);
    // 4 R8G8B8 pixels become 4 Rgba8 pixels.
    assert_eq!(convert_texture_format(&info(D3DFormat::R8G8B8), data.clone()).len(), 16);
    // 12 A4L4 pixels become 12 Rg8 pixels.
    assert_eq!(convert_texture_format(&info(D3DFormat::A4L4), data).len(), 24);
}

#[test]
fn ranks_depend_on_bc_support() {
    let bc = RenderCapabilities { allow_bc_compression: true };
    let no_bc = RenderCapabilities { allow_bc_compression: false };
    assert_eq!(rank_texture_format(&info(D3DFormat::DXT1), &bc), 10);
    assert_eq!(rank_texture_format(&info(D3DFormat::DXT3), &no_bc), i32::MIN);
    assert_eq!(rank_texture_format(&info(D3DFormat::A8R8G8B8), &no_bc), 5);
    assert_eq!(rank_texture_format(&info(D3DFormat::R8G8B8), &no_bc), 4);
    assert_eq!(rank_texture_format(&info(D3DFormat::R5G6B5), &no_bc), 3);
    assert_eq!(rank_texture_format(&info(D3DFormat::A8L8), &no_bc), 1);
}

#[test]
fn best_format_is_chosen_last_on_ties() {
    let bc = RenderCapabilities { allow_bc_compression: true };
    let no_bc = RenderCapabilities { allow_bc_compression: false };
    let formats = vec![info(D3DFormat::L8), info(D3DFormat::DXT1), info(D3DFormat::A8L8), info(D3DFormat::R8G8B8)];
    assert_eq!(choose_texture_format(&formats, &bc).unwrap(), 1);
    assert_eq!(choose_texture_format(&formats, &no_bc).unwrap(), 3);
    let ties = vec![info(D3DFormat::L8), info(D3DFormat::A8)];
    assert_eq!(choose_texture_format(&ties, &no_bc).unwrap(), 1);
}

#[test]
fn no_format_when_none_qualifies() {
    let no_bc = RenderCapabilities { allow_bc_compression: false };
    let formats = vec![info(D3DFormat::DXT1), info(D3DFormat::DXT3)];
    assert!(matches!(choose_texture_format(&formats, &no_bc), Err(TextureLoadError::NoFormat)));
    assert!(matches!(choose_texture_format(&Vec::new(), &no_bc), Err(TextureLoadError::NoFormat)));
}

#[test]
fn face_amounts() {
    assert!(check_face_amount(LevelTextureKind::D2, 1).is_ok());
    assert!(check_face_amount(LevelTextureKind::Cubemap, 6).is_ok());
    assert!(matches!(check_face_amount(LevelTextureKind::D2, 6), Err(TextureLoadError::BadFaceAmount)));
    assert!(matches!(check_face_amount(LevelTextureKind::Cubemap, 1), Err(TextureLoadError::BadFaceAmount)));
}

fn stored(kind: LevelTextureKind, format: D3DFormat, faces: Vec<Vec<Result<Vec<u8>, anyhow::Error>>>) -> LevelTextureFormat {
    let faces = faces
        .into_iter()
        .map(|bodies| LevelTextureFace {
            mipmaps: bodies
                .into_iter()
                .enumerate()
                .map(|(level, body)| LevelMipmap { mip_level: level as u32, body })
                .collect(),
        })
        .collect();
    LevelTextureFormat {
        info: LevelTextureFormatInfo { kind, format, width: 2, height: 1, mipmaps: 1 },
        faces,
        unfiltered: false,
    }
}

const NO_BC: RenderCapabilities = RenderCapabilities { allow_bc_compression: false };
const BC: RenderCapabilities = RenderCapabilities { allow_bc_compression: true };

#[test]
fn load_texture_converts_the_best_format() {
    let texture = LevelTexture {
        name: Some("grass".to_string()),
        formats: vec![
            stored(LevelTextureKind::D2, D3DFormat::A8, vec![vec![Ok(vec![9, 9])]]),
            stored(LevelTextureKind::D2, D3DFormat::R8G8B8, vec![vec![Ok(vec![1, 2, 3, 4, 5, 6]), Ok(vec![7, 8, 9])]]),
        ],
    };
    match load_texture(Ok(texture), &NO_BC) {
        Ok((name, LoadedTexture::Texture(desc, writes))) => {
            assert_eq!(name, "grass");
            assert_eq!(desc.name, "grass");
            assert_eq!((desc.width, desc.height, desc.mip_levels), (2, 1, 1));
            assert_eq!(desc.format, TextureFormat::Rgba8Unorm);
            assert!(!desc.unfiltered);
            assert_eq!(writes.len(), 2);
            assert_eq!(writes[0].mip_level, 0);
            assert_eq!(writes[0].data, vec![3, 2, 1, 255, 6, 5, 4, 255]);
            assert_eq!(writes[1].mip_level, 1);
            assert_eq!(writes[1].data, vec![9, 8, 7, 255]);
        }
        _ => panic!("expected a 2D texture"),
    }
}

#[test]
fn load_texture_fills_cubemap_faces_in_layer_order() {
    let faces = (0..6u8).map(|f| vec![Ok(vec![f, f])]).collect();
    let texture = LevelTexture {
        name: Some("sky".to_string()),
        formats: vec![stored(LevelTextureKind::Cubemap, D3DFormat::A8L8, faces)],
    };
    match load_texture(Ok(texture), &BC) {
        Ok((name, LoadedTexture::Cubemap(desc, writes))) => {
            assert_eq!(name, "sky");
            assert_eq!(desc.format, TextureFormat::Rg8Unorm);
            assert_eq!(writes.len(), 6);
            assert_eq!(writes[0].face, CubemapFace::Right);
            assert_eq!(writes[5].face, CubemapFace::Backward);
            for (f, face) in writes.iter().enumerate() {
                assert_eq!(face.face.as_u8() as usize, f);
                assert_eq!(face.writes[0].data, vec![f as u8, f as u8]);
            }
        }
        _ => panic!("expected a cubemap"),
    }
}

#[test]
fn load_texture_reports_each_error() {
    let parse = load_texture(Err(anyhow::Error::msg("truncated node")), &NO_BC);
    assert!(matches!(parse, Err(TextureLoadError::ParseError(ref e)) if e.to_string() == "truncated node"));

    let unnamed = LevelTexture {
        name: None,
        formats: vec![stored(LevelTextureKind::D2, D3DFormat::A8, vec![vec![Ok(vec![1])]])],
    };
    assert!(matches!(load_texture(Ok(unnamed), &NO_BC), Err(TextureLoadError::BadName)));

    let compressed_only = LevelTexture {
        name: Some("dxt".to_string()),
        formats: vec![stored(LevelTextureKind::D2, D3DFormat::DXT1, vec![vec![Ok(vec![0; 8])]])],
    };
    assert!(matches!(load_texture(Ok(compressed_only), &NO_BC), Err(TextureLoadError::NoFormat)));

    let two_faces = LevelTexture {
        name: Some("flat".to_string()),
        formats: vec![stored(LevelTextureKind::D2, D3DFormat::L8, vec![vec![Ok(vec![1])], vec![Ok(vec![2])]])],
    };
    assert!(matches!(load_texture(Ok(two_faces), &NO_BC), Err(TextureLoadError::BadFaceAmount)));

    let five_faces = LevelTexture {
        name: Some("cube".to_string()),
        formats: vec![stored(LevelTextureKind::Cubemap, D3DFormat::L8, (0..5).map(|_| vec![Ok(vec![1])]).collect())],
    };
    assert!(matches!(load_texture(Ok(five_faces), &NO_BC), Err(TextureLoadError::BadFaceAmount)));
}

#[test]
fn load_texture_reports_the_first_failed_read() {
    let faces = vec![
        vec![Ok(vec![1])],
        vec![Ok(vec![2]), Err(anyhow::Error::msg("first")), Err(anyhow::Error::msg("second"))],
        vec![Err(anyhow::Error::msg("third"))],
        vec![Ok(vec![4])],
        vec![Ok(vec![5])],
        vec![Ok(vec![6])],
    ];
    let texture = LevelTexture {
        name: Some("cube".to_string()),
        formats: vec![stored(LevelTextureKind::Cubemap, D3DFormat::L8, faces)],
    };
    match load_texture(Ok(texture), &NO_BC) {
        Err(TextureLoadError::ReadError(e)) => assert_eq!(e.to_string(), "first"),
        _ => panic!("expected a read error"),
    }
}
