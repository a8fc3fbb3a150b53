use idioms::text::{char_range, count_chars, idomatic_string_iteration, nth_char, string_iteration};

#[test]
fn string_iteration_spaces_every_character() {
    assert_eq!(string_iteration("a test string"), "a   t e s t   s t r i n g ");
    assert_eq!(string_iteration(""), "");
}

#[test]
fn idiomatic_iteration_gives_the_same_text() {
    let walk = idomatic_string_iteration("another test string", 1);
    assert_eq!(walk.spaced, "a n o t h e r   t e s t   s t r i n g ");
    assert_eq!(walk.found, Some('n'));
    assert_eq!(string_iteration("another test string"), walk.spaced);
}

#[test]
fn idiomatic_iteration_reports_a_missing_position() {
    let walk = idomatic_string_iteration("abc", 3);
    assert_eq!(walk.spaced, "a b c ");
    assert_eq!(walk.found, None);
}

#[test]
fn iteration_goes_by_character_not_by_storage_unit() {
    let text = "héllo 京";
    assert_eq!(text.len(), 10);
    assert_eq!(count_chars(text), 7);
    assert_eq!(string_iteration(text), "h é l l o   京 ");
    assert_eq!(string_iteration(text).chars().count(), 2 * 7);
}

#[test]
fn character_count_equals_unit_count_only_for_ascii() {
    assert_eq!(count_chars(""), 0);
    assert_eq!(count_chars("abc123"), 6);
    assert_eq!(count_chars("abc123"), "abc123".len());
    assert_eq!(count_chars("é"), 1);
    assert!(count_chars("é") < "é".len());
    assert_eq!(count_chars("😀😀"), 2);
    assert_eq!("😀😀".len(), 8);
}

#[test]
fn lookup_inside_the_text_finds_one_character() {
    assert_eq!(nth_char("another test string", 0), Some('a'));
    assert_eq!(nth_char("another test string", 1), Some('n'));
    assert_eq!(nth_char("another test string", 18), Some('g'));
    assert_eq!(nth_char("héllo 京", 1), Some('é'));
    assert_eq!(nth_char("héllo 京", 2), Some('l'));
    assert_eq!(nth_char("héllo 京", 6), Some('京'));
}

#[test]
fn lookup_at_or_past_the_end_finds_nothing() {
    assert_eq!(nth_char("another test string", 19), None);
    assert_eq!(nth_char("another test string", 20), None);
    assert_eq!(nth_char("héllo 京", 7), None);
    assert_eq!(nth_char("héllo 京", 9), None);
    assert_eq!(nth_char("", 0), None);
    assert_eq!(nth_char("abc", usize::MAX), None);
}

#[test]
fn valid_bounds_give_the_character_range() {
    assert_eq!(char_range("abc123", 2, 4), Some(String::from("c1")));
    assert_eq!(char_range("abc123", 0, 6), Some(String::from("abc123")));
    assert_eq!(char_range("abc123", 0, 0), Some(String::new()));
    assert_eq!(char_range("abc123", 6, 6), Some(String::new()));
    assert_eq!(char_range("abc123", 3, 3), Some(String::new()));
    assert_eq!(char_range("", 0, 0), Some(String::new()));
}

#[test]
fn invalid_bounds_are_reported() {
    assert_eq!(char_range("abc123", 4, 2), None);
    assert_eq!(char_range("abc123", 0, 7), None);
    assert_eq!(char_range("abc123", 7, 7), None);
    assert_eq!(char_range("abc123", 7, 2), None);
    assert_eq!(char_range("", 0, 1), None);
    assert_eq!(char_range("abc", usize::MAX, usize::MAX), None);
}

#[test]
fn bounds_count_characters() {
    assert_eq!(char_range("héllo 京", 1, 3), Some(String::from("él")));
    assert_eq!(char_range("héllo 京", 6, 7), Some(String::from("京")));
    assert_eq!(char_range("héllo 京", 0, 7), Some(String::from("héllo 京")));
    assert_eq!(char_range("héllo 京", 0, 8), None);
    assert_eq!(char_range("héllo 京", 0, 10), None);
}
