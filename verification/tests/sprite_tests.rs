use gsn_engine::{GsnSprite, Pixel, black, blue, green, new_pixel, pixel_rgb, red, white};

#[test]
fn pixel_rgb_sets_channels_and_full_alpha() {
    let p = pixel_rgb(128, 128, 0);
    assert_eq!(p, Pixel { r: 128, g: 128, b: 0, a: 255 });
    let q = new_pixel(1, 2, 3);
    assert_eq!(q, Pixel { r: 1, g: 2, b: 3, a: 255 });
}

#[test]
fn color_constants() {
    assert_eq!(white(), Pixel { r: 255, g: 255, b: 255, a: 255 });
    assert_eq!(black(), Pixel { r: 0, g: 0, b: 0, a: 255 });
    assert_eq!(red(), Pixel { r: 255, g: 0, b: 0, a: 255 });
    assert_eq!(green(), Pixel { r: 0, g: 255, b: 0, a: 255 });
    assert_eq!(blue(), Pixel { r: 0, g: 0, b: 255, a: 255 });
}

#[test]
fn new_sprite_is_black() {
    let s = GsnSprite::new(3, 2);
    assert_eq!(s.width(), 3);
    assert_eq!(s.height(), 2);
    for x in 0..3 {
        for y in 0..2 {
            assert_eq!(s.get_pixel(x, y), black());
        }
    }
}

#[test]
fn set_then_get_returns_written_color() {
    let mut s = GsnSprite::new(4, 4);
    for x in 0..4 {
        for y in 0..4 {
            let c = pixel_rgb(x as u8, y as u8, 7);
            assert!(s.set_pixel(x, y, c));
            assert_eq!(s.get_pixel(x, y), c);
        }
    }
}

#[test]
fn set_out_of_bounds_refused_and_harmless() {
    let mut s = GsnSprite::new(4, 4);
    assert!(s.set_pixel(1, 1, red()));
    assert!(!s.set_pixel(4, 0, green()));
    assert!(!s.set_pixel(0, 4, green()));
    assert!(!s.set_pixel(4, 4, green()));
    assert!(!s.set_pixel(u32::MAX, u32::MAX, green()));
    for x in 0..4 {
        for y in 0..4 {
            let expected = if x == 1 && y == 1 { red() } else { black() };
            assert_eq!(s.get_pixel(x, y), expected);
        }
    }
}

#[test]
fn get_clamps_to_nearest_cell_and_is_pure() {
    let mut s = GsnSprite::new(4, 4);
    assert!(s.set_pixel(3, 2, blue()));
    assert!(s.set_pixel(3, 3, red()));
    assert_eq!(s.get_pixel(10, 2), blue());
    assert_eq!(s.get_pixel(3, 99), red());
    assert_eq!(s.get_pixel(100, 100), red());
    assert_eq!(s.get_pixel(u32::MAX, u32::MAX), red());
    assert_eq!(s.get_pixel(10, 2), s.get_pixel(10, 2));
}

#[test]
fn fill_rect_inside_bounds_touches_exact_cells() {
    let mut s = GsnSprite::new(4, 4);
    s.clear(black());
    s.fill_rect(1, 1, 2, 2, red());
    let mut red_cells = 0;
    for x in 0..4 {
        for y in 0..4 {
            let inside = (1..3).contains(&x) && (1..3).contains(&y);
            let expected = if inside { red() } else { black() };
            assert_eq!(s.get_pixel(x, y), expected);
            if s.get_pixel(x, y) == red() {
                red_cells += 1;
            }
        }
    }
    assert_eq!(red_cells, 4);
}

#[test]
fn fill_rect_clamps_to_intersection() {
    let mut s = GsnSprite::new(4, 4);
    s.clear(black());
    s.fill_rect(3, 3, 5, 5, green());
    for x in 0..4 {
        for y in 0..4 {
            let expected = if x == 3 && y == 3 { green() } else { black() };
            assert_eq!(s.get_pixel(x, y), expected);
        }
    }
}

#[test]
fn fill_rect_zero_size_touches_nothing() {
    let mut s = GsnSprite::new(4, 4);
    s.clear(blue());
    s.fill_rect(1, 1, 0, 3, red());
    s.fill_rect(1, 1, 3, 0, red());
    for x in 0..4 {
        for y in 0..4 {
            assert_eq!(s.get_pixel(x, y), blue());
        }
    }
}

#[test]
fn fill_rect_fully_outside_touches_nothing() {
    let mut s = GsnSprite::new(4, 4);
    s.clear(white());
    s.fill_rect(4, 4, 2, 2, red());
    s.fill_rect(100, 0, 2, 2, red());
    for x in 0..4 {
        for y in 0..4 {
            assert_eq!(s.get_pixel(x, y), white());
        }
    }
}

#[test]
fn clear_matches_full_buffer_fill() {
    let mut a = GsnSprite::new(4, 3);
    let mut b = GsnSprite::new(4, 3);
    a.fill_rect(0, 1, 2, 2, red());
    b.fill_rect(0, 1, 2, 2, red());
    a.clear(green());
    b.fill_rect(0, 0, 4, 3, green());
    for x in 0..4 {
        for y in 0..3 {
            assert_eq!(a.get_pixel(x, y), green());
            assert_eq!(a.get_pixel(x, y), b.get_pixel(x, y));
        }
    }
}
