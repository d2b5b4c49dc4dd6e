use ternary_kernel_launch::arith::isqrt;
use ternary_kernel_launch::{KernelConfig, LaunchParams, LaunchParams2d};

#[test]
fn launch_1d_exact_division() {
    let (grid, block) = LaunchParams::compute_1d(1024, 256);
    assert_eq!(grid, 4);
    assert_eq!(block, 256);
}

#[test]
fn launch_1d_remainder() {
    let (grid, block) = LaunchParams::compute_1d(1000, 256);
    assert_eq!(grid, 4); // ceil(1000/256) = 4
    assert_eq!(block, 256);
}

#[test]
fn launch_1d_single_element() {
    let (grid, block) = LaunchParams::compute_1d(1, 256);
    assert_eq!(grid, 1);
    assert_eq!(block, 256);
}

#[test]
fn launch_1d_zero_elements() {
    // Should still produce at least 1 grid
    let (grid, _) = LaunchParams::compute_1d(0, 256);
    assert_eq!(grid, 1);
}

#[test]
fn launch_1d_max_block_clamp() {
    let (grid, block) = LaunchParams::compute_1d(2048, 4096);
    assert_eq!(block, 1024);
    assert_eq!(grid, 2);
}

#[test]
fn launch_1d_large_count() {
    let (grid, block) = LaunchParams::compute_1d(1_000_000, 256);
    assert_eq!(block, 256);
    assert_eq!(grid, (1_000_000 + 255) / 256);
}

#[test]
fn launch_2d_basic() {
    let p = LaunchParams::compute_2d(1024, 1024, 256);
    assert!(p.block_x * p.block_y <= 256);
    assert!(p.grid_x >= 1);
    assert!(p.grid_y >= 1);
    assert!(p.total_threads() >= 1024 * 1024);
}

#[test]
fn launch_2d_small() {
    let p = LaunchParams::compute_2d(1, 1, 64);
    assert_eq!(p.grid_x, 1);
    assert_eq!(p.grid_y, 1);
}

#[test]
fn launch_ternary_1d_basic() {
    // 16 trits = 1 word → 1 grid
    let (grid, block) = LaunchParams::compute_ternary_1d(16, 256);
    assert_eq!(grid, 1);
    assert_eq!(block, 256);
}

#[test]
fn launch_ternary_1d_large() {
    let (grid, _block) = LaunchParams::compute_ternary_1d(1_000_000, 256);
    let expected_words = (1_000_000 + 15) / 16;
    assert_eq!(grid, ((expected_words + 255) / 256) as u32);
}

#[test]
fn launch_1d_documented_grid() {
    assert_eq!(LaunchParams::compute_1d(1_000_000, 256), (3907, 256));
}

#[test]
fn launch_1d_no_preference_gives_single_threads() {
    assert_eq!(LaunchParams::compute_1d(5, 0), (5, 1));
    assert_eq!(LaunchParams::MAX_BLOCK_SIZE, 1024);
}

#[test]
fn launch_1d_covers_with_no_block_to_spare() {
    for elements in [1u64, 2, 63, 64, 65, 1000, 1 << 40] {
        for preferred in [1u32, 3, 64, 1000, 1024, 9999] {
            if elements / (preferred.min(1024) as u64) >= u32::MAX as u64 {
                continue;
            }
            let (grid, block) = LaunchParams::compute_1d(elements, preferred);
            let (grid, block) = (grid as u64, block as u64);
            assert!(grid * block >= elements);
            assert!((grid - 1) * block < elements);
            KernelConfig::new(grid as u32, block as u32).validate().unwrap();
        }
    }
}

#[test]
fn launch_1d_largest_grids() {
    let most = u32::MAX as u64;
    assert_eq!(LaunchParams::compute_1d(most, 1), (u32::MAX, 1));
    assert_eq!(LaunchParams::compute_1d(most * 1024, 1024), (u32::MAX, 1024));
    assert_eq!(LaunchParams::compute_1d(most * 1024 - 1023, 5000), (u32::MAX, 1024));
    assert_eq!(LaunchParams::compute_ternary_1d(most * 16, 1), (u32::MAX, 1));
}

#[test]
fn launch_2d_largest_grids() {
    let p = LaunchParams::compute_2d(u32::MAX as u64 * 2, u32::MAX as u64 * 4, 8);
    assert_eq!(dims(p), (u32::MAX, u32::MAX, 2, 4));
}

fn dims(p: LaunchParams2d) -> (u32, u32, u32, u32) {
    (p.grid_x, p.grid_y, p.block_x, p.block_y)
}

#[test]
fn launch_2d_exact_dimensions() {
    assert_eq!(dims(LaunchParams::compute_2d(1024, 1024, 256)), (64, 64, 16, 16));
    assert_eq!(dims(LaunchParams::compute_2d(100, 30, 1024)), (4, 1, 32, 32));
    assert_eq!(dims(LaunchParams::compute_2d(100, 30, 5000)), (4, 1, 32, 32));
    // 128 threads: 11 wide, 11 high
    assert_eq!(dims(LaunchParams::compute_2d(23, 22, 128)), (3, 2, 11, 11));
    // 8 threads: 2 wide, 4 high
    assert_eq!(dims(LaunchParams::compute_2d(5, 5, 8)), (3, 2, 2, 4));
    // 3 threads: 1 wide, 3 high
    assert_eq!(dims(LaunchParams::compute_2d(2, 7, 3)), (2, 3, 1, 3));
    assert_eq!(dims(LaunchParams::compute_2d(0, 0, 0)), (1, 1, 1, 1));
}

#[test]
fn launch_2d_blocks_are_squarish_and_cover() {
    for preferred in 0u32..=1100 {
        let p = LaunchParams::compute_2d(37, 91, preferred);
        let budget = preferred.min(1024).max(1);
        assert_eq!(p.block_x, (budget as f64).sqrt().floor() as u32);
        assert!(p.block_x <= p.block_y && p.block_y <= p.block_x + 2);
        assert!(p.block_x * p.block_y <= budget);
        assert!(p.grid_x * p.block_x >= 37);
        assert!(p.grid_y * p.block_y >= 91);
        assert!(p.total_threads() >= 37 * 91);
    }
}

#[test]
fn launch_2d_totals() {
    let p = LaunchParams2d { grid_x: 2, grid_y: 3, block_x: 5, block_y: 7 };
    assert_eq!(p.total_blocks(), 6);
    assert_eq!(p.total_threads(), 210);
    let p = LaunchParams2d { grid_x: u32::MAX, grid_y: u32::MAX, block_x: 1, block_y: 1 };
    assert_eq!(p.total_blocks(), 18_446_744_065_119_617_025);
    assert_eq!(p.total_threads(), p.total_blocks());
}

#[test]
fn launch_ternary_packs_sixteen_to_a_word() {
    assert_eq!(LaunchParams::compute_ternary_1d(0, 4), (1, 4));
    assert_eq!(LaunchParams::compute_ternary_1d(64, 4), (1, 4));
    assert_eq!(LaunchParams::compute_ternary_1d(65, 4), (2, 4));
    assert_eq!(LaunchParams::compute_ternary_1d(1_000_000, 256), (245, 256));
    for trits in [1u64, 15, 16, 17, 12345] {
        let (grid, block) = LaunchParams::compute_ternary_1d(trits, 32);
        assert!(grid as u64 * block as u64 * 16 >= trits);
    }
}

#[test]
fn integer_square_roots() {
    for n in 0u32..2000 {
        let r = isqrt(n);
        assert!(r * r <= n && n < (r + 1) * (r + 1));
    }
    assert_eq!(isqrt(u32::MAX), 65535);
}
