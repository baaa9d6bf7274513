use catalog::domain::category::dto::{NAME_AR_EMPTY, NAME_EN_TOO_LONG, NOTES_TOO_LONG};
use catalog::domain::product::dto::{empty_string_as_none, FormDTO, FormErrors};

fn form(name_ar: &str, name_en: &str, category: &str, notes: Option<&str>) -> FormDTO {
    FormDTO {
        name_ar: name_ar.to_string(),
        name_en: name_en.to_string(),
        category: category.to_string(),
        notes: notes.map(|s| s.to_string()),
    }
}

#[test]
fn product_sanitize_trims_every_field() {
    let mut f = form(" سامسونج ", " Samsung", " هواتف ", Some(" n "));
    f.sanitize();
    assert_eq!(f.name_ar, "سامسونج");
    assert_eq!(f.name_en, "Samsung");
    assert_eq!(f.category, "هواتف");
    assert_eq!(f.notes.as_deref(), Some("n"));
}

#[test]
fn product_validation() {
    assert!(form("سامسونج", "Samsung", "", None).validate(&[]).is_ok());
    let e = form(" ", &"x".repeat(101), "anything", Some(&"y".repeat(501))).validate(&[]).unwrap_err();
    assert_eq!(e.name_ar.as_deref(), Some(NAME_AR_EMPTY));
    assert_eq!(e.name_en.as_deref(), Some(NAME_EN_TOO_LONG));
    assert_eq!(e.notes.as_deref(), Some(NOTES_TOO_LONG));
    assert_eq!(e.category, None);
}

#[test]
fn product_has_errors_ignores_the_category() {
    let e = FormErrors { category: Some("c".to_string()), ..FormErrors::default() };
    assert!(!e.has_errors());
    let e = FormErrors { notes: Some("n".to_string()), ..FormErrors::default() };
    assert!(e.has_errors());
}

#[test]
fn product_blank_text_becomes_none() {
    assert_eq!(empty_string_as_none(Some(" ".to_string())), None);
    assert_eq!(empty_string_as_none(Some("x".to_string())), Some("x".to_string()));
}

#[test]
fn product_default_form_is_empty() {
    let f = FormDTO::default();
    assert_eq!(f.category, "");
    assert_eq!(f.notes, None);
}
