use pixel_sort::dispatch::{plan, DispatchPlan, GridSize, TILE_WIDTH};
use pixel_sort::error::PipelineError;
use pixel_sort::layout::readback;
use pixel_sort::pixels::{image_byte_len, row_byte_len, PixelBuffer};
use pixel_sort::texture::{PixelFormat, Region, TextureDesc, TextureUsage};

fn gradient(width: u32, height: u32) -> Vec<u8> {
    (0..(width * height * 4)).map(|i| (i % 251) as u8).collect()
}

#[test]
fn plan_thousand_columns_needs_four_tiles() {
    let p = plan(1000, 1, 256);
    assert_eq!(p.group_count, GridSize { x: 4, y: 1, z: 1 });
    assert_eq!(p.threads_per_group, GridSize { x: 256, y: 1, z: 1 });
}

#[test]
fn plan_exact_multiple_has_no_extra_tile() {
    assert_eq!(plan(512, 3, 256).group_count.x, 2);
    assert_eq!(plan(513, 3, 256).group_count.x, 3);
    assert_eq!(plan(1, 7, 256).group_count, GridSize { x: 1, y: 7, z: 1 });
}

#[test]
fn plan_covers_every_row_width() {
    for tile in [1u32, 3, 64, 256] {
        for width in 1u32..2000 {
            let x = plan(width, 1, tile).group_count.x;
            assert!(x * tile as u64 >= width as u64);
            assert!((x - 1) * (tile as u64) < width as u64);
        }
    }
    let widest = plan(u32::MAX, 1, TILE_WIDTH).group_count.x;
    assert_eq!(widest, (u32::MAX as u64 + 255) / 256);
}

#[test]
fn plan_twice_gives_the_same_geometry() {
    let a: DispatchPlan = plan(1000, 20, 256);
    let b: DispatchPlan = plan(1000, 20, 256);
    assert_eq!(a, b);
}

#[test]
fn byte_lengths() {
    assert_eq!(image_byte_len(3, 2), 24);
    assert_eq!(image_byte_len(u32::MAX, u32::MAX), (u32::MAX as u128) * (u32::MAX as u128) * 4);
    assert_eq!(row_byte_len(1000), 4000);
}

#[test]
fn pixel_buffer_checks_its_length() {
    let ok = PixelBuffer::new(2, 2, vec![0; 16]).unwrap();
    assert_eq!((ok.width, ok.height, ok.pixels.len()), (2, 2, 16));
    assert_eq!(
        PixelBuffer::new(2, 2, vec![0; 15]).unwrap_err(),
        PipelineError::SizeMismatch { expected: 16, actual: 15 }
    );
}

#[test]
fn upload_then_readback_is_identity() {
    let width = 5;
    let height = 3;
    let pb = PixelBuffer::new(width, height, gradient(width, height)).unwrap();
    let desc = TextureDesc::for_image(width, height).unwrap();
    let region = desc.upload_region(&pb).unwrap();
    assert_eq!(region, Region { width: 5, height: 3, bytes_per_row: 20 });
    let back = readback(&pb.pixels, region.bytes_per_row as usize, width, height).unwrap();
    assert_eq!(back.width, width);
    assert_eq!(back.height, height);
    assert_eq!(back.pixels, pb.pixels);
}

#[test]
fn readback_drops_row_padding() {
    // Two rows of two pixels, each row padded to 12 bytes.
    let mut staging = Vec::new();
    for y in 0..2u8 {
        for b in 0..8u8 {
            staging.push(y * 16 + b);
        }
        staging.extend_from_slice(&[0xEE; 4]);
    }
    let pb = readback(&staging, 12, 2, 2).unwrap();
    let expected: Vec<u8> = (0..8u8).chain(16..24u8).collect();
    assert_eq!(pb.pixels, expected);
}

#[test]
fn readback_of_padded_last_tile_keeps_only_real_columns() {
    // 1000 columns read back from a staging buffer laid out for 1024 columns.
    let mut staging = vec![0u8; 1024 * 4];
    for (i, b) in staging.iter_mut().enumerate() {
        *b = if i < 4000 { (i % 7) as u8 } else { 0xAB };
    }
    let pb = readback(&staging, 4096, 1000, 1).unwrap();
    assert_eq!(pb.pixels.len(), 4000);
    assert!(pb.pixels.iter().all(|&b| b != 0xAB));
    assert_eq!(pb.pixels[..], staging[..4000]);
}

#[test]
fn readback_refuses_wrong_lengths() {
    assert_eq!(
        readback(&vec![0; 23], 12, 3, 2).unwrap_err(),
        PipelineError::SizeMismatch { expected: 24, actual: 23 }
    );
    assert_eq!(
        readback(&vec![0; 25], 12, 3, 2).unwrap_err(),
        PipelineError::SizeMismatch { expected: 24, actual: 25 }
    );
    assert_eq!(
        readback(&vec![0; 22], 11, 3, 2).unwrap_err(),
        PipelineError::SizeMismatch { expected: 12, actual: 11 }
    );
    assert_eq!(readback(&[], 0, 0, 0).unwrap().pixels.len(), 0);
}

#[test]
fn reversed_rows_read_back_with_same_dimensions() {
    // What a row-reversing kernel leaves in a 3x2 surface.
    let px = |n: u8| [n, n + 1, n + 2, 255];
    let input: Vec<u8> = [0u8, 10, 20, 30, 40, 50].iter().flat_map(|&n| px(n)).collect();
    let output: Vec<u8> = [20u8, 10, 0, 50, 40, 30].iter().flat_map(|&n| px(n)).collect();
    let pb = PixelBuffer::new(3, 2, input).unwrap();
    let region = TextureDesc::for_image(3, 2).unwrap().upload_region(&pb).unwrap();
    let back = readback(&output, region.bytes_per_row as usize, 3, 2).unwrap();
    assert_eq!((back.width, back.height), (3, 2));
    assert_eq!(back.pixels, output);
    assert_eq!(&back.pixels[0..4], &pb.pixels[8..12]);
    assert_eq!(&back.pixels[12..16], &pb.pixels[20..24]);
    assert_eq!(plan(3, 2, TILE_WIDTH).group_count, GridSize { x: 1, y: 2, z: 1 });
}

#[test]
fn texture_descriptors() {
    assert_eq!(TextureDesc::for_image(0, 4).unwrap_err(), PipelineError::EmptySurface);
    assert_eq!(TextureDesc::for_image(4, 0).unwrap_err(), PipelineError::EmptySurface);
    let input = TextureDesc::for_image(4, 2).unwrap();
    assert_eq!(input.format, PixelFormat::Rgba8Unorm);
    assert_eq!(input.usage, TextureUsage { shader_read: true, shader_write: true });
    let output = input.create_like();
    assert_eq!(output, input);
    assert!(input.check_same_format(&output).is_ok());
    let other = TextureDesc { format: PixelFormat::Bgra8Unorm, ..input };
    assert_eq!(input.check_same_format(&other).unwrap_err(), PipelineError::FormatMismatch);
}

#[test]
fn upload_region_refusals() {
    let desc = TextureDesc::for_image(2, 2).unwrap();
    let small = PixelBuffer { width: 2, height: 2, pixels: vec![0; 12] };
    assert_eq!(
        desc.upload_region(&small).unwrap_err(),
        PipelineError::SizeMismatch { expected: 16, actual: 12 }
    );
    let fewer = PixelBuffer::new(1, 3, vec![0; 12]).unwrap();
    assert_eq!(
        desc.upload_region(&fewer).unwrap_err(),
        PipelineError::SizeMismatch { expected: 16, actual: 12 }
    );
    let same_count = PixelBuffer::new(1, 4, vec![0; 16]).unwrap();
    assert_eq!(
        desc.upload_region(&same_count).unwrap(),
        Region { width: 2, height: 2, bytes_per_row: 8 }
    );
    let bgra = TextureDesc { format: PixelFormat::Bgra8Unorm, ..desc };
    let pb = PixelBuffer::new(2, 2, vec![0; 16]).unwrap();
    assert_eq!(bgra.upload_region(&pb).unwrap_err(), PipelineError::FormatMismatch);
}
