use julia::fixed::SCALE;
use julia::{full_buffer, get_component, julia, pixel_color, Complex, JuliaArgs};

fn grid_args(width: u64, height: u64, lower: bool) -> JuliaArgs {
    // A 4-wide viewport centered on the origin: with a 4x4 grid the cell
    // (i, j) maps exactly to the point (i - 2, j - 2).
    JuliaArgs::new(
        height,
        width,
        Complex::new(0, 0),
        Complex::new(-3 * SCALE / 4, SCALE / 10),
        4 * SCALE,
        4 * SCALE,
        50,
        50,
        1,
        lower,
    )
    .unwrap()
}

#[test]
fn full_render_overwrites_every_pixel() {
    let args = grid_args(4, 4, false);
    let mut buffer: Vec<u32> = vec![0xDEAD_BEEF; 16];
    full_buffer(&mut buffer, &args);

    // Cell (0,0) is the point (-2,-2): escaped at 0, shade 0, color 0.
    assert_eq!(buffer[0], 0);

    // Cell (1,1) is the point (-1,-1): |(-1,-1)|^2 = 2, one application
    // gives (-0.75, 2.1), which has escaped, so the escape time is 1 and
    // the channels are (255/50, 102/50, 204/50) = (5, 2, 4).
    assert_eq!(buffer[5], 5 * 0x10000 + 2 * 0x100 + 4);

    for &pixel in &buffer {
        assert_ne!(pixel, 0xDEAD_BEEF);
    }
}

#[test]
fn pixel_color_matches_full_render() {
    let args = grid_args(4, 4, false);
    let mut buffer: Vec<u32> = vec![0; 16];
    full_buffer(&mut buffer, &args);
    for idx in 0..16u64 {
        assert_eq!(buffer[idx as usize], pixel_color(&args, idx));
    }
}

#[test]
fn renders_are_deterministic() {
    let args = grid_args(8, 6, false);
    let mut buffer1: Vec<u32> = vec![0; 48];
    let mut buffer2: Vec<u32> = vec![1; 48];
    julia(&args, &mut buffer1);
    julia(&args, &mut buffer2);
    assert_eq!(buffer1, buffer2);

    let coarse = grid_args(8, 6, true);
    let mut buffer3: Vec<u32> = vec![2; 48];
    let mut buffer4: Vec<u32> = vec![3; 48];
    julia(&coarse, &mut buffer3);
    julia(&coarse, &mut buffer4);
    assert_eq!(buffer3, buffer4);
}

#[test]
fn coarse_blocks_replicate_coarse_pixels() {
    let args = grid_args(4, 4, true);
    let mut buffer: Vec<u32> = vec![0xDEAD_BEEF; 16];
    julia(&args, &mut buffer);

    // The coarse frame the compositor renders internally: half dimensions,
    // coarse mode spent.
    let low_args = grid_args(2, 2, false);
    let mut low: Vec<u32> = vec![0; 4];
    full_buffer(&mut low, &low_args);

    for y in 0..4usize {
        for x in 0..4usize {
            assert_eq!(buffer[y * 4 + x], low[(y / 2) * 2 + x / 2]);
        }
    }

    // Each aligned 2x2 block is uniform.
    for by in 0..2usize {
        for bx in 0..2usize {
            let base = (2 * by) * 4 + 2 * bx;
            assert_eq!(buffer[base], buffer[base + 1]);
            assert_eq!(buffer[base], buffer[base + 4]);
            assert_eq!(buffer[base], buffer[base + 5]);
        }
    }
}

#[test]
fn corner_pixels_no_brighter_than_center() {
    // The corners are farthest from the origin and escape immediately; the
    // center escapes late or never, so the monotone escape-time-to-shade
    // mapping keeps every corner channel at or below the center's.
    let args = grid_args(4, 4, false);
    let mut buffer: Vec<u32> = vec![0; 16];
    julia(&args, &mut buffer);

    let center = buffer[2 * 4 + 2];
    for &corner in &[buffer[0], buffer[3], buffer[12], buffer[15]] {
        for channel in 0..3u8 {
            assert!(get_component(corner, channel) <= get_component(center, channel));
        }
    }
}
