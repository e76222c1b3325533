use ratisui::field::{parse_unsigned, step_text, FieldKey};
use ratisui::nav::{next_index, prev_index};

#[test]
fn parse_like_str_parse() {
    assert_eq!(parse_unsigned("6379", 65535), Some(6379));
    assert_eq!(parse_unsigned("+12", 65535), Some(12));
    assert_eq!(parse_unsigned("65536", 65535), None);
    assert_eq!(parse_unsigned("", 65535), None);
    assert_eq!(parse_unsigned("+", 65535), None);
    assert_eq!(parse_unsigned("-1", 65535), None);
    assert_eq!(parse_unsigned("12a", 65535), None);
    assert_eq!(parse_unsigned("18446744073709551615", u64::MAX), Some(u64::MAX));
    assert_eq!(parse_unsigned("18446744073709551616", u64::MAX), None);
    for s in ["0", "255", "256", "007", "+3", "x"] {
        assert_eq!(parse_unsigned(s, 255).map(|v| v as u8), s.parse::<u8>().ok());
    }
}

#[test]
fn arrows_step_numbers() {
    assert_eq!(step_text("6379", FieldKey::Right, 65535, 10), "6380");
    assert_eq!(step_text("6379", FieldKey::Left, 65535, 10), "6378");
    assert_eq!(step_text("6379", FieldKey::Up, 65535, 10), "6389");
    assert_eq!(step_text("6379", FieldKey::Down, 65535, 10), "6369");
    assert_eq!(step_text("0", FieldKey::Left, 65535, 10), "0");
    assert_eq!(step_text("65530", FieldKey::Up, 65535, 10), "65535");
    assert_eq!(step_text("abc", FieldKey::Right, 65535, 10), "1");
    assert_eq!(step_text("120", FieldKey::Up, u64::MAX, 60), "180");
    assert_eq!(step_text("17", FieldKey::Other, 65535, 10), "17");
}

#[test]
fn list_selection_wraps() {
    assert_eq!(next_index(Some(0), 3), 1);
    assert_eq!(next_index(Some(2), 3), 0);
    assert_eq!(next_index(None, 3), 0);
    assert_eq!(prev_index(Some(0), 3), 2);
    assert_eq!(prev_index(Some(2), 3), 1);
    assert_eq!(prev_index(None, 3), 0);
    for i in 0..5usize {
        assert_eq!(prev_index(Some(next_index(Some(i), 5)), 5), i);
        assert_eq!(next_index(Some(prev_index(Some(i), 5)), 5), i);
    }
}
