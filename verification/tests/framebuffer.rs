use lilygo_epd47::error::Epd47Error;
use lilygo_epd47::framebuffer::{
    level_from_gray, FrameBuffer, DISPLAY_HEIGHT, DISPLAY_WIDTH, FRAMEBUFFER_SIZE, PIXEL_COUNT,
    ROW_BYTES,
};
use lilygo_epd47::geometry::{Pixel, Point, Rectangle};

fn pixel(x: i32, y: i32, luma: u8) -> Pixel {
    Pixel { point: Point { x, y }, luma }
}

#[test]
fn geometry_constants_agree() {
    assert_eq!(DISPLAY_WIDTH, 960);
    assert_eq!(DISPLAY_HEIGHT, 540);
    assert_eq!(PIXEL_COUNT, 960 * 540);
    assert_eq!(FRAMEBUFFER_SIZE, 960 * 540 / 2);
    assert_eq!(ROW_BYTES, 480);
}

#[test]
fn new_buffer_is_white() {
    let fb = FrameBuffer::new();
    assert_eq!(fb.as_bytes().len(), 259200);
    assert!(fb.as_bytes().iter().all(|b| *b == 0xFF));
    assert_eq!(fb.get_pixel(0, 0), Ok(0x0F));
    assert_eq!(fb.get_pixel(959, 539), Ok(0x0F));
}

#[test]
fn set_pixel_reads_back_every_level() {
    let mut fb = FrameBuffer::new();
    for level in 0u8..=15 {
        assert_eq!(fb.set_pixel(17, 23, level), Ok(()));
        assert_eq!(fb.get_pixel(17, 23), Ok(level));
    }
}

#[test]
fn even_pixel_goes_to_the_high_nibble() {
    let mut fb = FrameBuffer::new();
    assert_eq!(fb.set_pixel(0, 0, 0x3), Ok(()));
    assert_eq!(fb.as_bytes()[0], 0x3F);
    assert_eq!(fb.get_pixel(1, 0), Ok(0x0F));
}

#[test]
fn odd_pixel_goes_to_the_low_nibble() {
    let mut fb = FrameBuffer::new();
    assert_eq!(fb.set_pixel(1, 0, 0x3), Ok(()));
    assert_eq!(fb.as_bytes()[0], 0xF3);
    assert_eq!(fb.get_pixel(0, 0), Ok(0x0F));
}

#[test]
fn neighbours_share_a_byte_without_disturbing_each_other() {
    let mut fb = FrameBuffer::new();
    assert_eq!(fb.set_pixel(10, 2, 0xA), Ok(()));
    assert_eq!(fb.set_pixel(11, 2, 0x5), Ok(()));
    assert_eq!(fb.as_bytes()[(2 * 960 + 10) / 2], 0xA5);
    assert_eq!(fb.set_pixel(10, 2, 0x0), Ok(()));
    assert_eq!(fb.get_pixel(11, 2), Ok(0x5));
    assert_eq!(fb.get_pixel(10, 2), Ok(0x0));
}

#[test]
fn pixel_lands_at_its_row_major_byte() {
    let mut fb = FrameBuffer::new();
    assert_eq!(fb.set_pixel(959, 539, 0x1), Ok(()));
    assert_eq!(fb.as_bytes()[259199], 0xF1);
    assert_eq!(fb.set_pixel(0, 1, 0x2), Ok(()));
    assert_eq!(fb.as_bytes()[480], 0x2F);
}

#[test]
fn set_pixel_out_of_bounds_changes_nothing() {
    let mut fb = FrameBuffer::new();
    fb.set_pixel(5, 5, 0x4).unwrap();
    let before = fb.as_bytes().clone();
    assert_eq!(fb.set_pixel(960, 0, 0x1), Err(Epd47Error::OutOfBounds));
    assert_eq!(fb.set_pixel(0, 540, 0x1), Err(Epd47Error::OutOfBounds));
    assert_eq!(fb.set_pixel(u32::MAX, u32::MAX, 0x1), Err(Epd47Error::OutOfBounds));
    assert_eq!(fb.as_bytes(), &before);
}

#[test]
fn set_pixel_checks_bounds_before_the_level() {
    let mut fb = FrameBuffer::new();
    assert_eq!(fb.set_pixel(960, 540, 200), Err(Epd47Error::OutOfBounds));
}

#[test]
fn set_pixel_refuses_levels_above_fifteen() {
    let mut fb = FrameBuffer::new();
    let before = fb.as_bytes().clone();
    assert_eq!(fb.set_pixel(0, 0, 16), Err(Epd47Error::InvalidColor));
    assert_eq!(fb.set_pixel(3, 3, 255), Err(Epd47Error::InvalidColor));
    assert_eq!(fb.as_bytes(), &before);
}

#[test]
fn get_pixel_out_of_bounds_is_refused() {
    let fb = FrameBuffer::new();
    assert_eq!(fb.get_pixel(960, 0), Err(Epd47Error::OutOfBounds));
    assert_eq!(fb.get_pixel(0, 540), Err(Epd47Error::OutOfBounds));
}

#[test]
fn fill_replicates_the_level_into_both_nibbles() {
    let mut fb = FrameBuffer::new();
    assert_eq!(fb.fill(0x7), Ok(()));
    assert!(fb.as_bytes().iter().all(|b| *b == 0x77));
    assert_eq!(fb.get_pixel(123, 456), Ok(0x7));
    assert_eq!(fb.fill(0x0), Ok(()));
    assert!(fb.as_bytes().iter().all(|b| *b == 0x00));
}

#[test]
fn fill_refuses_levels_above_fifteen() {
    let mut fb = FrameBuffer::new();
    fb.fill(0x2).unwrap();
    assert_eq!(fb.fill(0x10), Err(Epd47Error::InvalidColor));
    assert!(fb.as_bytes().iter().all(|b| *b == 0x22));
}

#[test]
fn clear_makes_every_pixel_white() {
    let mut fb = FrameBuffer::new();
    fb.fill(0x0).unwrap();
    fb.clear();
    assert!(fb.as_bytes().iter().all(|b| *b == 0xFF));
    for (x, y) in [(0u32, 0u32), (959, 0), (0, 539), (959, 539), (480, 270)] {
        assert_eq!(fb.get_pixel(x, y), Ok(0x0F));
    }
}

#[test]
fn fill_rect_sets_the_rectangle_and_nothing_else() {
    let mut fb = FrameBuffer::new();
    let rect = Rectangle { x: 200, y: 200, width: 100, height: 50 };
    assert_eq!(fb.fill_rect(rect, 8), Ok(()));
    for y in 0..540u32 {
        for x in 0..960u32 {
            let inside = (200..300).contains(&x) && (200..250).contains(&y);
            let expected = if inside { 8 } else { 0x0F };
            assert_eq!(fb.get_pixel(x, y), Ok(expected));
        }
    }
}

#[test]
fn fill_rect_takes_the_whole_panel() {
    let mut fb = FrameBuffer::new();
    assert_eq!(fb.fill_rect(Rectangle { x: 0, y: 0, width: 960, height: 540 }, 1), Ok(()));
    assert!(fb.as_bytes().iter().all(|b| *b == 0x11));
}

#[test]
fn fill_rect_with_no_area_changes_nothing() {
    let mut fb = FrameBuffer::new();
    assert_eq!(fb.fill_rect(Rectangle { x: 960, y: 540, width: 0, height: 0 }, 1), Ok(()));
    assert_eq!(fb.fill_rect(Rectangle { x: 10, y: 10, width: 0, height: 5 }, 1), Ok(()));
    assert!(fb.as_bytes().iter().all(|b| *b == 0xFF));
}

#[test]
fn fill_rect_over_the_edge_is_refused() {
    let mut fb = FrameBuffer::new();
    assert_eq!(
        fb.fill_rect(Rectangle { x: 900, y: 0, width: 61, height: 1 }, 1),
        Err(Epd47Error::OutOfBounds)
    );
    assert_eq!(
        fb.fill_rect(Rectangle { x: 0, y: 539, width: 1, height: 2 }, 1),
        Err(Epd47Error::OutOfBounds)
    );
    assert_eq!(
        fb.fill_rect(Rectangle { x: u32::MAX, y: 0, width: u32::MAX, height: 1 }, 1),
        Err(Epd47Error::OutOfBounds)
    );
    assert!(fb.as_bytes().iter().all(|b| *b == 0xFF));
}

#[test]
fn fill_rect_checks_the_rectangle_before_the_level() {
    let mut fb = FrameBuffer::new();
    assert_eq!(
        fb.fill_rect(Rectangle { x: 959, y: 0, width: 2, height: 1 }, 99),
        Err(Epd47Error::OutOfBounds)
    );
    assert_eq!(
        fb.fill_rect(Rectangle { x: 0, y: 0, width: 2, height: 1 }, 16),
        Err(Epd47Error::InvalidColor)
    );
    assert!(fb.as_bytes().iter().all(|b| *b == 0xFF));
}

#[test]
fn draw_iter_skips_pixels_off_the_panel() {
    let mut fb = FrameBuffer::new();
    let stream = vec![
        pixel(-1, 0, 1),
        pixel(0, -1, 2),
        pixel(958, 10, 3),
        pixel(959, 10, 4),
        pixel(960, 10, 5),
        pixel(961, 10, 6),
        pixel(5, 540, 7),
        pixel(i32::MIN, i32::MAX, 8),
    ];
    assert_eq!(fb.draw_iter(&stream), Ok(()));
    assert_eq!(fb.get_pixel(958, 10), Ok(3));
    assert_eq!(fb.get_pixel(959, 10), Ok(4));
    assert_eq!(fb.get_pixel(0, 0), Ok(0x0F));
    assert_eq!(fb.get_pixel(0, 11), Ok(0x0F));
    assert_eq!(fb.get_pixel(1, 11), Ok(0x0F));
    let dark = fb.as_bytes().iter().filter(|b| **b != 0xFF).count();
    assert_eq!(dark, 1);
}

#[test]
fn draw_iter_skips_an_invalid_level_off_the_panel() {
    let mut fb = FrameBuffer::new();
    let stream = vec![pixel(-5, 3, 200), pixel(4, 4, 2)];
    assert_eq!(fb.draw_iter(&stream), Ok(()));
    assert_eq!(fb.get_pixel(4, 4), Ok(2));
}

#[test]
fn draw_iter_stops_at_an_invalid_level_on_the_panel() {
    let mut fb = FrameBuffer::new();
    let stream = vec![pixel(1, 1, 5), pixel(2, 1, 16), pixel(3, 1, 6)];
    assert_eq!(fb.draw_iter(&stream), Err(Epd47Error::InvalidColor));
    assert_eq!(fb.get_pixel(1, 1), Ok(5));
    assert_eq!(fb.get_pixel(2, 1), Ok(0x0F));
    assert_eq!(fb.get_pixel(3, 1), Ok(0x0F));
}

#[test]
fn draw_iter_lets_the_last_pixel_at_a_place_win() {
    let mut fb = FrameBuffer::new();
    let stream = vec![pixel(7, 7, 1), pixel(8, 7, 2), pixel(7, 7, 9)];
    assert_eq!(fb.draw_iter(&stream), Ok(()));
    assert_eq!(fb.get_pixel(7, 7), Ok(9));
    assert_eq!(fb.get_pixel(8, 7), Ok(2));
}

#[test]
fn draw_iter_of_nothing_changes_nothing() {
    let mut fb = FrameBuffer::new();
    assert_eq!(fb.draw_iter(&Vec::new()), Ok(()));
    assert!(fb.as_bytes().iter().all(|b| *b == 0xFF));
}

#[test]
fn rows_hands_out_the_bytes_of_whole_rows() {
    let mut fb = FrameBuffer::new();
    fb.set_pixel(0, 50, 0x0).unwrap();
    fb.set_pixel(959, 99, 0x1).unwrap();
    let chunk = fb.rows(50, 50).unwrap();
    assert_eq!(chunk.len(), 50 * 480);
    assert_eq!(chunk[0], 0x0F);
    assert_eq!(chunk[50 * 480 - 1], 0xF1);
    assert_eq!(fb.rows(0, 540).unwrap().len(), 259200);
    assert_eq!(fb.rows(540, 0).unwrap().len(), 0);
}

#[test]
fn rows_beyond_the_panel_are_refused() {
    let fb = FrameBuffer::new();
    assert_eq!(fb.rows(500, 41), Err(Epd47Error::OutOfBounds));
    assert_eq!(fb.rows(541, 0), Err(Epd47Error::OutOfBounds));
    assert_eq!(fb.rows(u32::MAX, u32::MAX), Err(Epd47Error::OutOfBounds));
}

#[test]
fn gray_values_map_to_their_upper_four_bits() {
    assert_eq!(level_from_gray(0x00), 0x0);
    assert_eq!(level_from_gray(0x0F), 0x0);
    assert_eq!(level_from_gray(0x10), 0x1);
    assert_eq!(level_from_gray(0x8F), 0x8);
    assert_eq!(level_from_gray(0xFF), 0xF);
}
