use solar_renderer::screen::color::Color;
use solar_renderer::screen::framebuffer::{Framebuffer, DEPTH_INFINITY};

#[test]
fn clear_then_export_is_background() {
    let mut fb = Framebuffer::new(4, 3);
    fb.set_bgcolor(0x102030);
    fb.set_current_color(0xffffff);
    fb.point(1, 1, 5);
    fb.clear();
    let out = fb.color_array_to_u32();
    assert_eq!(out.len(), 12);
    for px in out {
        assert_eq!(px, 0x102030);
    }
    assert_eq!(fb.depth(1, 1), Some(DEPTH_INFINITY));
}

#[test]
fn same_write_twice_changes_nothing() {
    let mut fb = Framebuffer::new(4, 3);
    fb.set_current_color(0x00ff00);
    fb.point(2, 1, 700);
    let first = fb.color_array_to_u32();
    fb.point(2, 1, 700);
    assert_eq!(fb.color_array_to_u32(), first);
    assert_eq!(fb.depth(2, 1), Some(700));
    assert_eq!(fb.pixel(2, 1), Some(Color::new(0, 255, 0)));
}

#[test]
fn farther_write_never_overwrites() {
    let mut fb = Framebuffer::new(4, 3);
    fb.set_current_color(0x00ff00);
    fb.point(0, 2, 10);
    fb.set_current_color(0xff0000);
    fb.point(0, 2, 11);
    fb.point(0, 2, 10);
    assert_eq!(fb.pixel(0, 2), Some(Color::new(0, 255, 0)));
    assert_eq!(fb.depth(0, 2), Some(10));
    fb.point(0, 2, 9);
    assert_eq!(fb.pixel(0, 2), Some(Color::new(255, 0, 0)));
    assert_eq!(fb.depth(0, 2), Some(9));
}

#[test]
fn write_outside_the_buffer_is_ignored() {
    let mut fb = Framebuffer::new(4, 3);
    fb.point(4, 0, 1);
    fb.point(0, 3, 1);
    assert_eq!(fb.color_array_to_u32(), vec![0u32; 12]);
    assert_eq!(fb.pixel(4, 0), None);
}
