use indium::placement::{minus, Point, Size};

#[test]
fn bottom_right_corner_of_a_full_hd_screen() {
    let window = Size { width: 120, height: 30 };
    let screen = Size { width: 1920, height: 1080 };
    assert_eq!(minus(window, screen), Point { x: 1800, y: 1050 });
}

#[test]
fn a_window_wider_than_the_screen_starts_off_screen() {
    let window = Size { width: 120, height: 30 };
    let screen = Size { width: 100, height: 100 };
    let position = minus(window, screen);
    assert_eq!(position.x, -20);
    assert_eq!(position.y, 70);
}

#[test]
fn a_window_taller_than_the_screen_starts_off_screen() {
    let window = Size { width: 120, height: 30 };
    let screen = Size { width: 200, height: 10 };
    assert_eq!(minus(window, screen), Point { x: 80, y: -20 });
}

#[test]
fn a_window_as_large_as_the_screen_sits_at_the_origin() {
    let size = Size { width: 120, height: 30 };
    assert_eq!(minus(size, size), Point { x: 0, y: 0 });
}

#[test]
fn empty_window_and_empty_screen() {
    let nothing = Size { width: 0, height: 0 };
    let screen = Size { width: 1920, height: 1080 };
    assert_eq!(minus(nothing, screen), Point { x: 1920, y: 1080 });
    assert_eq!(minus(screen, nothing), Point { x: -1920, y: -1080 });
    assert_eq!(minus(nothing, nothing), Point { x: 0, y: 0 });
}

#[test]
fn the_largest_sizes_do_not_wrap() {
    let largest = Size { width: u32::MAX, height: u32::MAX };
    let nothing = Size { width: 0, height: 0 };
    assert_eq!(minus(nothing, largest), Point { x: 4294967295, y: 4294967295 });
    assert_eq!(minus(largest, nothing), Point { x: -4294967295, y: -4294967295 });
}
