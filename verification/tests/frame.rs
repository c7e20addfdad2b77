use game_lib::frame::{
    centered_column, is_border, key_command, serial_command, Command, Key, Pace, FIRST_FRAME_MS,
};

#[test]
fn test_key_commands() {
    assert_eq!(key_command(Key::Char('i')), Some(Command::Jump));
    assert_eq!(key_command(Key::Char('r')), Some(Command::Restart));
    assert_eq!(key_command(Key::Escape), Some(Command::Quit));
    assert_eq!(key_command(Key::Char('j')), None);
    assert_eq!(key_command(Key::Char('I')), None);
    assert_eq!(key_command(Key::Char(' ')), None);
    assert_eq!(key_command(Key::Other), None);
}

#[test]
fn test_serial_commands() {
    assert_eq!(serial_command(b'i'), Some(Command::Jump));
    assert_eq!(serial_command(b'j'), Some(Command::Jump));
    for byte in 0..=255u8 {
        if byte != b'i' && byte != b'j' {
            assert_eq!(serial_command(byte), None);
        }
    }
}

#[test]
fn test_border_cells() {
    let (width, height) = (80u16, 24u16);
    let mut count = 0;
    for y in 0..height {
        for x in 0..width {
            let expected = y == 0 || y == 23 || x == 0 || x == 79;
            assert_eq!(is_border(x, y, width, height), expected);
            if expected {
                count += 1;
            }
        }
    }
    assert_eq!(count, 2 * 80 + 2 * 22);
    assert!(is_border(0, 0, 1, 1));
}

#[test]
fn test_centered_column() {
    assert_eq!(centered_column(80, 28), 26);
    assert_eq!(centered_column(80, 18), 31);
    assert_eq!(centered_column(81, 28), 26);
    assert_eq!(centered_column(28, 28), 0);
    assert_eq!(centered_column(29, 28), 0);
    assert_eq!(centered_column(30, 28), 1);
}

#[test]
fn test_pace_begins_at_first_frame() {
    assert_eq!(FIRST_FRAME_MS, 40);
    let pace = Pace::new(1);
    assert_eq!((pace.interval_ms, pace.level), (40, 1));
}

#[test]
fn test_pace_shortens_with_each_level() {
    let mut pace = Pace::new(1);
    let mut seen = Vec::new();
    for level in 2..=22u16 {
        pace.observe(level);
        assert_eq!(pace.level, level);
        seen.push(pace.interval_ms);
    }
    assert_eq!(
        seen,
        vec![36, 32, 28, 25, 22, 19, 17, 15, 13, 11, 9, 8, 7, 6, 5, 4, 3, 2, 1, 0, 0]
    );
}

#[test]
fn test_pace_matches_scaling_by_nine_tenths() {
    for start in 0..5000u64 {
        let mut pace = Pace { interval_ms: start, level: 1 };
        pace.observe(2);
        assert_eq!(pace.interval_ms, (start as f32 * 0.9) as u64);
    }
}

#[test]
fn test_pace_keeps_still_without_a_new_level() {
    let mut pace = Pace::new(3);
    pace.observe(3);
    assert_eq!((pace.interval_ms, pace.level), (40, 3));
    pace.observe(1);
    assert_eq!((pace.interval_ms, pace.level), (40, 3));
    pace.observe(4);
    assert_eq!((pace.interval_ms, pace.level), (36, 4));
}

#[test]
fn test_pace_of_the_longest_frame() {
    let mut pace = Pace { interval_ms: u64::MAX, level: 0 };
    pace.observe(1);
    assert_eq!(pace.interval_ms, 16602069666338596453);
}
