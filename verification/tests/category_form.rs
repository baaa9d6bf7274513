use catalog::domain::category::dto::{
    empty_string_as_none, CategoryFormDTO, CategoryFormErrors, CategoryResponseDTO, CategoryTree,
    NAME_AR_EMPTY, NAME_AR_TOO_LONG, NAME_EN_EMPTY, NAME_EN_TOO_LONG, NOTES_TOO_LONG,
    PARENT_NOT_MAIN,
};

fn category(id: i64, name_ar: &str, parent_id: Option<i64>) -> CategoryResponseDTO {
    CategoryResponseDTO {
        id,
        name_en: format!("category {}", id),
        name_ar: name_ar.to_string(),
        parent_id,
        notes: None,
        created_at: 1_700_000_000_000_000,
        updated_at: 1_700_000_000_000_000,
    }
}

fn tree_with_main(name_ar: &str) -> Vec<CategoryTree> {
    CategoryTree::build_tree(vec![category(1, name_ar, None)])
}

fn form(name_ar: &str, name_en: &str, parent: Option<&str>, notes: Option<&str>) -> CategoryFormDTO {
    CategoryFormDTO {
        name_ar: name_ar.to_string(),
        name_en: name_en.to_string(),
        parent_name: parent.map(|s| s.to_string()),
        notes: notes.map(|s| s.to_string()),
    }
}

#[test]
fn blank_text_becomes_none() {
    assert_eq!(empty_string_as_none(Some("   ".to_string())), None);
    assert_eq!(empty_string_as_none(Some(String::new())), None);
    assert_eq!(empty_string_as_none(Some("\u{3000}\t\n".to_string())), None);
    assert_eq!(empty_string_as_none(None), None);
}

#[test]
fn non_blank_text_is_kept_untrimmed() {
    assert_eq!(empty_string_as_none(Some("  ملاحظة ".to_string())), Some("  ملاحظة ".to_string()));
}

#[test]
fn has_errors_ignores_the_parent() {
    let mut e = CategoryFormErrors::default();
    assert!(!e.has_errors());
    e.parent_name = Some("x".to_string());
    assert!(!e.has_errors());
    e.notes = Some("x".to_string());
    assert!(e.has_errors());
    let e2 = CategoryFormErrors { name_en: Some("y".to_string()), ..CategoryFormErrors::default() };
    assert!(e2.has_errors());
    let e3 = CategoryFormErrors { name_ar: Some("y".to_string()), ..CategoryFormErrors::default() };
    assert!(e3.has_errors());
}

#[test]
fn sanitize_trims_every_field() {
    let mut f = form("  أدوات  ", "\tTools\n", Some("  رئيسية "), Some("\u{00a0}note\u{2003}"));
    f.sanitize();
    assert_eq!(f.name_ar, "أدوات");
    assert_eq!(f.name_en, "Tools");
    assert_eq!(f.parent_name.as_deref(), Some("رئيسية"));
    assert_eq!(f.notes.as_deref(), Some("note"));
    let mut g = form("a", "b", None, None);
    g.sanitize();
    assert_eq!(g.parent_name, None);
    assert_eq!(g.notes, None);
}

#[test]
fn sanitize_twice_is_sanitize_once() {
    let mut f = form("  a b  ", " c ", Some(" d "), Some(" e "));
    f.sanitize();
    let once = (f.name_ar.clone(), f.name_en.clone(), f.parent_name.clone(), f.notes.clone());
    f.sanitize();
    assert_eq!((f.name_ar, f.name_en, f.parent_name, f.notes), once);
}

#[test]
fn valid_form_passes() {
    let tree = tree_with_main("أجهزة");
    assert!(form("هواتف", "Phones", Some("  أجهزة "), None).validate(&tree).is_ok());
    assert!(form("هواتف", "Phones", None, Some("short")).validate(&tree).is_ok());
}

#[test]
fn blank_names_are_refused() {
    let tree = tree_with_main("أجهزة");
    let e = form("   ", "", None, None).validate(&tree).unwrap_err();
    assert_eq!(e.name_ar.as_deref(), Some(NAME_AR_EMPTY));
    assert_eq!(e.name_en.as_deref(), Some(NAME_EN_EMPTY));
    assert_eq!(e.parent_name, None);
    assert_eq!(e.notes, None);
    assert_eq!(NAME_AR_EMPTY, "لا يمكن ترك الاسم خاليا");
    assert_eq!(NAME_EN_EMPTY, "Thid fild is not allowed to be empty");
}

#[test]
fn names_are_counted_in_characters() {
    let tree = tree_with_main("أجهزة");
    let hundred_ar = "ب".repeat(100);
    let hundred_en = "b".repeat(100);
    assert!(form(&hundred_ar, &hundred_en, None, None).validate(&tree).is_ok());
    let long_ar = format!(" {} ", "ب".repeat(101));
    let long_en = "b".repeat(101);
    let e = form(&long_ar, &long_en, None, None).validate(&tree).unwrap_err();
    assert_eq!(e.name_ar.as_deref(), Some(NAME_AR_TOO_LONG));
    assert_eq!(e.name_en.as_deref(), Some(NAME_EN_TOO_LONG));
    assert_eq!(NAME_EN_TOO_LONG, "This filed is not allowed to be more than 100 character");
}

#[test]
fn long_notes_are_refused() {
    let tree = tree_with_main("أجهزة");
    let ok_notes = format!("  {}  ", "ن".repeat(500));
    assert!(form("a", "b", None, Some(&ok_notes)).validate(&tree).is_ok());
    let long_notes = "ن".repeat(501);
    let e = form("a", "b", None, Some(&long_notes)).validate(&tree).unwrap_err();
    assert_eq!(e.notes.as_deref(), Some(NOTES_TOO_LONG));
    assert_eq!(e.name_ar, None);
    assert_eq!(e.name_en, None);
}

#[test]
fn unknown_parent_alone_does_not_refuse() {
    let tree = tree_with_main("أجهزة");
    assert!(form("a", "b", Some("ملابس"), None).validate(&tree).is_ok());
}

#[test]
fn unknown_parent_is_reported_with_other_errors() {
    let tree = tree_with_main("أجهزة");
    let e = form("", "b", Some("ملابس"), None).validate(&tree).unwrap_err();
    assert_eq!(e.parent_name.as_deref(), Some(PARENT_NOT_MAIN));
    assert_eq!(e.name_ar.as_deref(), Some(NAME_AR_EMPTY));
}

#[test]
fn parent_must_be_a_main_category_not_a_sub() {
    let tree = CategoryTree::build_tree(vec![category(1, "أجهزة", None), category(2, "هواتف", Some(1))]);
    let e = form("", "b", Some("هواتف"), None).validate(&tree).unwrap_err();
    assert_eq!(e.parent_name.as_deref(), Some(PARENT_NOT_MAIN));
    let e2 = form("", "b", Some("أجهزة"), None).validate(&tree).unwrap_err();
    assert_eq!(e2.parent_name, None);
}

#[test]
fn default_form_is_empty_and_refused() {
    let f = CategoryFormDTO::default();
    assert_eq!(f.name_ar, "");
    assert_eq!(f.parent_name, None);
    assert!(f.validate(&[]).is_err());
}
