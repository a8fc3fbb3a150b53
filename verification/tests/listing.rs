use idioms::listing::{
    clamp, define_and_iterate_byte_array, idiomatic_define_and_iterate_byte_array, list_to_string,
    put_coll_to_string,
};
use idioms::printable::{push_decimal, render, Printable};

#[test]
fn five_bytes_render_as_bracketed_list() {
    let ba: [u8; 5] = [1, 2, 3, 4, 5];
    assert_eq!(define_and_iterate_byte_array(&ba), "[1, 2, 3, 4, 5]");
}

#[test]
fn five_bytes_render_the_same_by_iteration() {
    let v: Vec<u8> = vec![5, 4, 3, 2, 1];
    assert_eq!(idiomatic_define_and_iterate_byte_array(&v[..]), "[5, 4, 3, 2, 1]");
}

#[test]
fn both_rendering_paths_agree_on_several_lengths() {
    let one: [u8; 1] = [7];
    let two: [u8; 2] = [0, 255];
    let six: [u8; 6] = [10, 9, 100, 99, 200, 0];
    assert_eq!(define_and_iterate_byte_array(&one), idiomatic_define_and_iterate_byte_array(&one));
    assert_eq!(define_and_iterate_byte_array(&two), idiomatic_define_and_iterate_byte_array(&two));
    assert_eq!(define_and_iterate_byte_array(&six), idiomatic_define_and_iterate_byte_array(&six));
    assert_eq!(define_and_iterate_byte_array(&six), "[10, 9, 100, 99, 200, 0]");
}

#[test]
fn rendering_matches_the_standard_debug_form() {
    let six: [u8; 6] = [10, 9, 100, 99, 200, 0];
    assert_eq!(define_and_iterate_byte_array(&six), format!("{:?}", six));
    assert_eq!(idiomatic_define_and_iterate_byte_array(&six), format!("{:?}", six));
    assert_eq!(list_to_string(&six), format!("{:?}", six));
}

#[test]
fn single_element_has_no_separator() {
    let one: [u8; 1] = [42];
    assert_eq!(define_and_iterate_byte_array(&one), "[42]");
    assert_eq!(idiomatic_define_and_iterate_byte_array(&one), "[42]");
    assert_eq!(put_coll_to_string(&one), "42");
}

#[test]
fn empty_sequence_renders_as_empty_brackets() {
    let none: [u8; 0] = [];
    assert_eq!(define_and_iterate_byte_array(&none), "[]");
    assert_eq!(idiomatic_define_and_iterate_byte_array(&none), "[]");
    assert_eq!(list_to_string(&none), "[]");
    assert_eq!(put_coll_to_string(&none), "");
}

#[test]
fn put_coll_to_string_separates_without_trailing_comma() {
    let ba: [u8; 5] = [1, 2, 3, 4, 5];
    assert_eq!(put_coll_to_string(&ba), "1, 2, 3, 4, 5");
}

#[test]
fn list_to_string_takes_other_element_types() {
    let signed: Vec<i32> = vec![1, 2, 4];
    assert_eq!(list_to_string(&signed), "[1, 2, 4]");
    let mixed: Vec<i32> = vec![-1, 0, i32::MIN, i32::MAX];
    assert_eq!(list_to_string(&mixed), "[-1, 0, -2147483648, 2147483647]");
    assert_eq!(list_to_string(&mixed), format!("{:?}", mixed));
    let letters: Vec<char> = vec!['a', 'é', '京'];
    assert_eq!(list_to_string(&letters), "[a, é, 京]");
}

#[test]
fn clamp_surrounds_body_with_bookends() {
    assert_eq!(clamp("1, 2, 3, 4, 5", "{}"), "{1, 2, 3, 4, 5}");
    assert_eq!(clamp("body", "<>"), "<body>");
    assert_eq!(clamp("", "()"), "()");
}

#[test]
fn clamp_with_short_bookend_returns_body() {
    assert_eq!(clamp("body", ""), "body");
    assert_eq!(clamp("body", "{"), "body");
}

#[test]
fn clamp_ignores_bookend_characters_past_the_second() {
    assert_eq!(clamp("body", "{}!"), "{body}");
}

#[test]
fn clamp_counts_bookends_in_characters() {
    assert_eq!(clamp("body", "«»"), "«body»");
    assert_eq!(clamp("body", "é"), "body");
}

#[test]
fn decimal_text_of_bytes() {
    assert_eq!(render(&0u8), "0");
    assert_eq!(render(&9u8), "9");
    assert_eq!(render(&10u8), "10");
    assert_eq!(render(&255u8), "255");
    let mut every = true;
    let mut b: u8 = 0;
    loop {
        every = every && render(&b) == format!("{}", b);
        if b == u8::MAX {
            break;
        }
        b += 1;
    }
    assert!(every);
}

#[test]
fn decimal_text_of_signed_integers() {
    assert_eq!(render(&0i32), "0");
    assert_eq!(render(&-7i32), "-7");
    assert_eq!(render(&40i32), "40");
    assert_eq!(render(&i32::MIN), "-2147483648");
    assert_eq!(render(&i32::MAX), "2147483647");
}

#[test]
fn push_decimal_appends_after_existing_text() {
    let mut out = String::from("n = ");
    push_decimal(&mut out, 1234567890123456789);
    assert_eq!(out, "n = 1234567890123456789");
    let mut top = String::new();
    push_decimal(&mut top, u64::MAX);
    assert_eq!(top, "18446744073709551615");
}

#[test]
fn print_to_keeps_what_was_written_before() {
    let mut out = String::from("x");
    'y'.print_to(&mut out);
    7u8.print_to(&mut out);
    (-3i32).print_to(&mut out);
    assert_eq!(out, "xy7-3");
}
