use game_2048_view::color::{hsv2rgb, map_value_to_color, Color, Hsv};

fn rgb(r: u8, g: u8, b: u8) -> Color {
    Color { r, g, b }
}

#[test]
fn zero_maps_to_soft_red() {
    assert_eq!(map_value_to_color(0), rgb(204, 143, 143));
}

#[test]
fn known_tile_colors() {
    assert_eq!(map_value_to_color(1), rgb(199, 204, 143));
    assert_eq!(map_value_to_color(2), rgb(143, 204, 153));
    assert_eq!(map_value_to_color(4), rgb(163, 143, 204));
    assert_eq!(map_value_to_color(8), rgb(143, 204, 184));
    assert_eq!(map_value_to_color(2048), rgb(184, 143, 204));
}

#[test]
fn half_rounds_up() {
    // hue 35 degrees: the green channel is exactly 178.5
    assert_eq!(map_value_to_color(67), rgb(204, 179, 143));
}

#[test]
fn largest_value_has_a_color() {
    assert_eq!(map_value_to_color(u32::MAX), rgb(204, 158, 143));
}

#[test]
fn same_value_same_color() {
    for value in [0u32, 1, 2, 3, 64, 1024, 65536, u32::MAX] {
        assert_eq!(map_value_to_color(value), map_value_to_color(value));
    }
}

#[test]
fn colors_repeat_every_72() {
    for value in 0u32..500 {
        assert_eq!(map_value_to_color(value), map_value_to_color(value + 72));
        assert_eq!(map_value_to_color(value), map_value_to_color(value + 144));
    }
    assert_eq!(map_value_to_color(u32::MAX - 72), map_value_to_color(u32::MAX));
}

#[test]
fn tile_channels_stay_soft() {
    for value in 0u32..72 {
        let c = map_value_to_color(value);
        for channel in [c.r, c.g, c.b] {
            assert!(143 <= channel && channel <= 204);
        }
    }
}

#[test]
fn every_sector_of_the_wheel() {
    let full = |hue: u32| hsv2rgb(&Hsv { hue, saturation: 100, brightness: 100 });
    assert_eq!(full(0), rgb(255, 0, 0));
    assert_eq!(full(30), rgb(255, 128, 0));
    assert_eq!(full(60), rgb(255, 255, 0));
    assert_eq!(full(90), rgb(128, 255, 0));
    assert_eq!(full(120), rgb(0, 255, 0));
    assert_eq!(full(150), rgb(0, 255, 128));
    assert_eq!(full(180), rgb(0, 255, 255));
    assert_eq!(full(210), rgb(0, 128, 255));
    assert_eq!(full(240), rgb(0, 0, 255));
    assert_eq!(full(270), rgb(128, 0, 255));
    assert_eq!(full(300), rgb(255, 0, 255));
    assert_eq!(full(330), rgb(255, 0, 128));
    assert_eq!(full(359), rgb(255, 0, 4));
}

#[test]
fn hue_wraps_at_a_full_turn() {
    let at = |hue: u32| hsv2rgb(&Hsv { hue, saturation: 30, brightness: 80 });
    assert_eq!(at(360), at(0));
    assert_eq!(at(725), at(5));
    assert_eq!(at(u32::MAX), at(u32::MAX % 360));
}

#[test]
fn grey_and_black() {
    assert_eq!(hsv2rgb(&Hsv { hue: 123, saturation: 0, brightness: 50 }), rgb(128, 128, 128));
    assert_eq!(hsv2rgb(&Hsv { hue: 123, saturation: 100, brightness: 0 }), rgb(0, 0, 0));
    assert_eq!(hsv2rgb(&Hsv { hue: 0, saturation: 0, brightness: 100 }), rgb(255, 255, 255));
}

#[test]
fn out_of_range_inputs_are_clamped() {
    assert_eq!(hsv2rgb(&Hsv { hue: 240, saturation: 200, brightness: 100 }), rgb(0, 0, 255));
    assert_eq!(hsv2rgb(&Hsv { hue: 0, saturation: 0, brightness: 255 }), rgb(255, 255, 255));
    assert_eq!(hsv2rgb(&Hsv { hue: 0, saturation: 255, brightness: 255 }), rgb(255, 0, 0));
}
