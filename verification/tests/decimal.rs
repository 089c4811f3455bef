use moonzoon::build_id::{
    backend_build_id, build_id_text, generate_backend_build_id, parse_build_id,
    BACKEND_BUILD_ID_PATH, FRONTEND_BUILD_ID_PATH, KIND_BITS, RANDOM_KIND,
};
use moonzoon::decimal::{parse_u128, to_decimal};

#[test]
fn numbers_are_written_in_decimal_digits() {
    assert_eq!(to_decimal(0), "0");
    assert_eq!(to_decimal(7), "7");
    assert_eq!(to_decimal(10), "10");
    assert_eq!(to_decimal(1234567890), "1234567890");
    assert_eq!(to_decimal(u128::MAX), "340282366920938463463374607431768211455");
}

#[test]
fn decimal_digits_are_read() {
    assert_eq!(parse_u128("0"), Some(0));
    assert_eq!(parse_u128("42"), Some(42));
    assert_eq!(parse_u128("+42"), Some(42));
    assert_eq!(parse_u128("0042"), Some(42));
    assert_eq!(parse_u128("340282366920938463463374607431768211455"), Some(u128::MAX));
    assert_eq!(
        parse_u128("000340282366920938463463374607431768211455"),
        Some(u128::MAX)
    );
}

#[test]
fn what_is_no_number_is_not_read() {
    assert_eq!(parse_u128(""), None);
    assert_eq!(parse_u128("+"), None);
    assert_eq!(parse_u128("-1"), None);
    assert_eq!(parse_u128("++1"), None);
    assert_eq!(parse_u128("1+"), None);
    assert_eq!(parse_u128(" 1"), None);
    assert_eq!(parse_u128("1\n"), None);
    assert_eq!(parse_u128("12a"), None);
    assert_eq!(parse_u128("1.5"), None);
    assert_eq!(parse_u128("\u{661}"), None);
    assert_eq!(parse_u128("1\u{e9}"), None);
}

#[test]
fn numbers_beyond_128_bits_are_not_read() {
    assert_eq!(parse_u128("340282366920938463463374607431768211456"), None);
    assert_eq!(parse_u128("3402823669209384634633746074317682114550"), None);
    assert_eq!(parse_u128("999999999999999999999999999999999999999"), None);
    assert_eq!(parse_u128("3402823669209384634633746074317682114559x"), None);
}

#[test]
fn reading_agrees_with_the_standard_library() {
    for text in ["", "+", "+0", "-0", "007", "18446744073709551616", "1e3", "  ", "9", "+9+"] {
        assert_eq!(parse_u128(text), text.parse::<u128>().ok());
    }
    for number in [0u128, 1, 9, 10, 99, 100, 65535, u64::MAX as u128, u128::MAX] {
        assert_eq!(to_decimal(number), number.to_string());
        assert_eq!(parse_u128(&to_decimal(number)), Some(number));
    }
}

#[test]
fn a_build_id_that_cannot_be_read_counts_as_zero() {
    assert_eq!(parse_build_id("123"), 123);
    assert_eq!(parse_build_id(""), 0);
    assert_eq!(parse_build_id("123\n"), 0);
    assert_eq!(parse_build_id("abc"), 0);
    assert_eq!(backend_build_id(Some("77")), 77);
    assert_eq!(backend_build_id(Some("seventy")), 0);
    assert_eq!(backend_build_id(None), 0);
}

#[test]
fn a_build_id_is_read_as_it_was_written() {
    for id in [0u128, 1, 314159, u128::MAX] {
        assert_eq!(parse_build_id(&build_id_text(id)), id);
    }
    assert_eq!(build_id_text(204060), "204060");
}

#[test]
fn a_new_build_id_is_a_random_identifier_in_decimal_digits() {
    let first = generate_backend_build_id();
    let second = generate_backend_build_id();
    assert!(first.chars().all(|c| c.is_ascii_digit()));
    let id = first.parse::<u128>().unwrap();
    assert_eq!(parse_build_id(&first), id);
    assert_eq!(id & KIND_BITS, RANDOM_KIND);
    assert_eq!(build_id_text(id), first);
    assert_ne!(first, second);
}

#[test]
fn build_ids_lie_where_the_server_looks_for_them() {
    assert_eq!(BACKEND_BUILD_ID_PATH, "backend/private/build_id");
    assert_eq!(FRONTEND_BUILD_ID_PATH, "frontend/pkg/build_id");
}
