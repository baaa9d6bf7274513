use catalog::domain::category::dto::filters::{first_letter, initial_color};
use catalog::domain::product::dto::filters as product_filters;

#[test]
fn first_letter_upper_cases_the_first_character() {
    assert_eq!(first_letter("  apple"), "A");
    assert_eq!(first_letter("Zebra"), "Z");
    assert_eq!(first_letter("éclair"), "É");
    assert_eq!(first_letter("ßtraße"), "SS");
}

#[test]
fn first_letter_of_arabic_is_itself() {
    assert_eq!(first_letter(" محمد"), "م");
}

#[test]
fn first_letter_of_blank_is_a_question_mark() {
    assert_eq!(first_letter(""), "؟");
    assert_eq!(first_letter(" \t\u{3000}"), "؟");
}

#[test]
fn initial_color_picks_by_byte_sum() {
    // 97 + 98 + 99 = 294, and 294 % 6 = 0
    assert_eq!(initial_color("abc").as_deref(), Some("#0E7C66"));
    // 98 % 6 = 2
    assert_eq!(initial_color("b").as_deref(), Some("#D97706"));
    // 97 % 6 = 1
    assert_eq!(initial_color("a").as_deref(), Some("#2563EB"));
    // 99 % 6 = 3
    assert_eq!(initial_color("c").as_deref(), Some("#7C3AED"));
    // 100 % 6 = 4, 101 % 6 = 5
    assert_eq!(initial_color("d").as_deref(), Some("#DB2777"));
    assert_eq!(initial_color("e").as_deref(), Some("#0891B2"));
    assert_eq!(initial_color("").as_deref(), Some("#0E7C66"));
}

#[test]
fn initial_color_counts_utf8_bytes() {
    // 'م' is 0xD9 0x85: 217 + 133 = 350, and 350 % 6 = 2
    assert_eq!(initial_color("م").as_deref(), Some("#D97706"));
}

#[test]
fn initial_color_is_stable() {
    assert_eq!(initial_color("Samsung"), initial_color("Samsung"));
}

#[test]
fn initial_color_refuses_an_overflowing_sum() {
    let huge = "\u{7f}".repeat(33_818_641); // 127 * 33_818_641 > u32::MAX
    assert_eq!(initial_color(&huge), None);
    let fits = "\u{7f}".repeat(33_818_640); // 127 * 33_818_640 <= u32::MAX
    assert!(initial_color(&fits).is_some());
}

#[test]
fn product_filters_match_category_filters() {
    assert_eq!(product_filters::first_letter("nokia"), "N");
    assert_eq!(product_filters::initial_color("abc").as_deref(), Some("#0E7C66"));
}
