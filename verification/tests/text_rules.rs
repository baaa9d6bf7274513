use catalog::domain::category::dto::{empty_string_as_none, CategoryFormDTO};

/// The code points that the library's contracts count as whitespace.
fn listed_whitespace(c: char) -> bool {
    let u = c as u32;
    (0x09..=0x0d).contains(&u)
        || u == 0x20
        || u == 0x85
        || u == 0xa0
        || u == 0x1680
        || (0x2000..=0x200a).contains(&u)
        || u == 0x2028
        || u == 0x2029
        || u == 0x202f
        || u == 0x205f
        || u == 0x3000
}

#[test]
fn whitespace_list_is_the_standard_one() {
    for u in 0u32..=0x10ffff {
        if let Some(c) = char::from_u32(u) {
            assert_eq!(c.is_whitespace(), listed_whitespace(c), "code point {:#x}", u);
        }
    }
}

#[test]
fn trimming_keeps_inner_and_non_white_space() {
    let mut f = CategoryFormDTO {
        name_ar: "\u{200b}a b\u{feff}".to_string(),
        name_en: "\u{85}\u{1680}x y\u{2028}\u{205f}".to_string(),
        parent_name: None,
        notes: None,
    };
    f.sanitize();
    assert_eq!(f.name_ar, "\u{200b}a b\u{feff}");
    assert_eq!(f.name_en, "x y");
    assert_eq!(empty_string_as_none(Some("\u{200b}".to_string())), Some("\u{200b}".to_string()));
}
