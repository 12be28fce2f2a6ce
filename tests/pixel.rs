use raytracer::pixel::{pixel_coords, pixel_indices, to_argb_u32, write_argb, write_rgba};
use raytracer::stats::CastStats;

#[test]
fn argb_packs_alpha_first() {
    assert_eq!(to_argb_u32([0x11, 0x22, 0x33, 0x44]), 0x4411_2233);
    assert_eq!(to_argb_u32([255, 0, 0, 255]), 0xFFFF_0000);
    assert_eq!(to_argb_u32([0, 0, 0, 0]), 0);
    assert_eq!(to_argb_u32([255, 255, 255, 255]), 0xFFFF_FFFF);
}

#[test]
fn pixel_coords_walk_rows_from_the_top() {
    assert_eq!(pixel_coords(4, 3, 0), (0, 0));
    assert_eq!(pixel_coords(4, 3, 7), (3, 1));
    assert_eq!(pixel_coords(4, 3, 11), (3, 2));
    assert_eq!(pixel_coords(1, 5, 4), (0, 4));
}

#[test]
fn pixel_indices_cover_the_image_in_order() {
    assert_eq!(pixel_indices(3, 2), vec![0, 1, 2, 3, 4, 5]);
    assert!(pixel_indices(0, 7).is_empty());
}

#[test]
fn write_rgba_fills_one_pixel() {
    let mut buffer = vec![9u8; 12];
    write_rgba(&mut buffer, 1, [1, 2, 3, 4]);
    assert_eq!(buffer, vec![9, 9, 9, 9, 1, 2, 3, 4, 9, 9, 9, 9]);
}

#[test]
fn write_argb_fills_one_word() {
    let mut buffer = vec![7u32; 3];
    write_argb(&mut buffer, 2, [0x10, 0x20, 0x30, 0xFF]);
    assert_eq!(buffer, vec![7, 7, 0xFF10_2030]);
}

#[test]
fn cast_stats_add_up() {
    let mut stats = CastStats::zero();
    assert_eq!(stats.ray_count, 0);
    stats.add_assign(CastStats { ray_count: 5 });
    stats.add_assign(CastStats { ray_count: 7 });
    assert_eq!(stats.ray_count, 12);
}
