use game_lib::color::{palette_color, Color, PALETTE_SIZE};
use game_lib::rect::Rect;

#[test]
fn test_rect_creation() {
    let screen_size = (80, 24);
    let rect = Rect::new(10, 5, 8, Color::Blue, screen_size);

    assert_eq!(rect.get_x(), 10);
    assert_eq!(rect.get_leftmost_x(), 10);
    assert_eq!(rect.get_rightmost_x(), 14);
    assert_eq!(rect.get_top_y(), 16);
}

#[test]
fn test_rect_movement() {
    let screen_size = (80, 24);
    let mut rect = Rect::new(10, 5, 8, Color::Blue, screen_size);

    rect.set_x(15);
    assert_eq!(rect.get_x(), 15);
    assert_eq!(rect.get_leftmost_x(), 15);
    assert_eq!(rect.get_rightmost_x(), 19);
}

#[test]
fn test_random_rect() {
    let screen_size = (80, 24);
    let max_width = 10;
    let rect = Rect::random(max_width, screen_size);

    // Check that the rectangle fits within screen bounds
    assert!(rect.get_rightmost_x() <= screen_size.0);
    assert!(rect.get_top_y() < screen_size.1);

    // Check that width is within specified range
    let width = rect.get_rightmost_x() - rect.get_leftmost_x() + 1;
    assert!(width <= max_width);
    assert!(width >= 2);
}

#[test]
fn test_rect_drawing() {
    let screen_size = (10, 10);
    let rect = Rect::new(2, 3, 4, Color::Blue, screen_size);
    let points = rect.draw();

    // Check number of points (width * height)
    assert_eq!(points.len(), (3 * 4) as usize);

    // Check that all points are within rectangle bounds
    for (x, y, c, color) in points {
        assert!(x >= rect.get_leftmost_x());
        assert!(x <= rect.get_rightmost_x());
        assert!(y >= rect.get_top_y());
        assert!(y < screen_size.1);
        assert_eq!(c, '*');
        assert_eq!(color, Color::Blue);
    }
}

#[test]
fn test_rect_cells_in_order() {
    let rect = Rect::new(2, 3, 2, Color::Cyan, (10, 10));
    assert_eq!(
        rect.draw(),
        vec![
            (2, 8, '*', Color::Cyan),
            (3, 8, '*', Color::Cyan),
            (4, 8, '*', Color::Cyan),
            (2, 9, '*', Color::Cyan),
            (3, 9, '*', Color::Cyan),
            (4, 9, '*', Color::Cyan),
        ]
    );
}

#[test]
fn test_rect_without_cells() {
    assert!(Rect::new(2, 0, 4, Color::Blue, (10, 10)).draw().is_empty());
    assert!(Rect::new(2, 3, 0, Color::Blue, (10, 10)).draw().is_empty());
}

#[test]
fn test_random_rect_limits() {
    let screen_size = (80, 24);
    let max_width = 10;
    for _ in 0..2000 {
        let rect = Rect::random(max_width, screen_size);
        assert!(rect.width >= 2);
        assert!(rect.width < max_width);
        assert!(rect.height >= 3);
        assert!(rect.height < screen_size.1 - 10);
        assert_eq!(rect.x, screen_size.0 - rect.width);
        assert_eq!(rect.screen_size, screen_size);
        assert!(rect.get_rightmost_x() <= screen_size.0);
        assert_eq!(rect.get_rightmost_x(), screen_size.0 - 1);
        assert_eq!(rect.get_top_y(), screen_size.1 - rect.height);
    }
}

#[test]
fn test_random_rect_on_smallest_screen() {
    // Width can only be 2, height only 3.
    for _ in 0..50 {
        let rect = Rect::random(3, (2, 14));
        assert_eq!(rect.width, 2);
        assert_eq!(rect.height, 3);
        assert_eq!(rect.x, 0);
        assert_eq!(rect.get_top_y(), 11);
    }
}

#[test]
fn test_random_rect_varies() {
    let mut widths = Vec::new();
    let mut heights = Vec::new();
    let mut colors = Vec::new();
    for _ in 0..2000 {
        let rect = Rect::random(10, (80, 24));
        if !widths.contains(&rect.width) {
            widths.push(rect.width);
        }
        if !heights.contains(&rect.height) {
            heights.push(rect.height);
        }
        if !colors.contains(&rect.color) {
            colors.push(rect.color);
        }
    }
    widths.sort();
    heights.sort();
    assert_eq!(widths, vec![2, 3, 4, 5, 6, 7, 8, 9]);
    assert_eq!(heights, vec![3, 4, 5, 6, 7, 8, 9, 10, 11, 12, 13]);
    assert_eq!(colors.len(), 5);
}

#[test]
fn test_rect_at_right_edge() {
    let rect = Rect::at_right_edge(6, 9, Color::Magenta, (80, 24));
    assert_eq!(rect.x, 74);
    assert_eq!(rect.width, 6);
    assert_eq!(rect.height, 9);
    assert_eq!(rect.color, Color::Magenta);
    assert_eq!(rect.screen_size, (80, 24));
    assert_eq!(rect.get_rightmost_x(), 79);

    let full = Rect::at_right_edge(80, 9, Color::Green, (80, 24));
    assert_eq!(full.x, 0);
}

#[test]
fn test_rect_scroll_one_column() {
    let mut rect = Rect::new(10, 5, 8, Color::Blue, (80, 24));
    rect.scroll();
    assert_eq!(rect.x, 9);
    assert_eq!(rect.width, 5);
    assert_eq!(rect.height, 8);
    assert_eq!(rect.color, Color::Blue);
    assert_eq!(rect.screen_size, (80, 24));
}

#[test]
fn test_rect_scroll_stops_at_column_zero() {
    let mut rect = Rect::new(1, 5, 8, Color::Blue, (80, 24));
    rect.scroll();
    assert_eq!(rect.x, 0);
    rect.scroll();
    assert_eq!(rect.x, 0);
    rect.scroll();
    assert_eq!(rect.x, 0);
}

#[test]
fn test_rect_scroll_by_its_width() {
    let mut rect = Rect::at_right_edge(6, 9, Color::Green, (80, 24));
    let spawn_x = rect.x;
    for _ in 0..rect.width {
        rect.scroll();
    }
    assert_eq!(rect.x, spawn_x - 6);
    assert_eq!(rect.x, 68);

    // Wider than the distance to the edge: the position stays at 0.
    let mut wide = Rect::new(3, 5, 9, Color::Green, (80, 24));
    for _ in 0..wide.width {
        wide.scroll();
    }
    assert_eq!(wide.x, 0);
}

#[test]
fn test_palette_order() {
    assert_eq!(PALETTE_SIZE, 5);
    assert_eq!(palette_color(0), Color::Blue);
    assert_eq!(palette_color(1), Color::Green);
    assert_eq!(palette_color(2), Color::Yellow);
    assert_eq!(palette_color(3), Color::Magenta);
    assert_eq!(palette_color(4), Color::Cyan);
}

#[test]
fn test_rect_is_drawable() {
    assert!(Rect::new(10, 5, 8, Color::Blue, (80, 24)).is_drawable());
    assert!(Rect::new(65530, 5, 8, Color::Blue, (80, 24)).is_drawable());
    assert!(!Rect::new(65531, 5, 8, Color::Blue, (80, 24)).is_drawable());
    assert!(!Rect::new(u16::MAX, u16::MAX, 8, Color::Blue, (80, 24)).is_drawable());
    assert!(Rect::new(0, u16::MAX, 8, Color::Blue, (80, 24)).is_drawable());
    assert!(Rect::new(10, 5, 24, Color::Blue, (80, 24)).is_drawable());
    assert!(!Rect::new(10, 5, 25, Color::Blue, (80, 24)).is_drawable());
}
