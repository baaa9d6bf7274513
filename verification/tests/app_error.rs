use catalog::error::{
    AppError, DbErrorReport, MSG_ALREADY_EXISTS, MSG_CHECK_FAILED, MSG_DANGLING_REFERENCE,
    MSG_INTERNAL, MSG_MAIN_CATEGORY_PRODUCT, MSG_NAME_AR_TAKEN, MSG_NAME_EN_TAKEN,
    MSG_NOT_FOUND, MSG_NO_SUCH_CATEGORY, MSG_REQUIRED_FIELD,
};

fn report(code: Option<&str>, constraint: Option<&str>, column: Option<&str>, message: &str) -> Option<DbErrorReport> {
    Some(DbErrorReport {
        code: code.map(|s| s.to_string()),
        constraint: constraint.map(|s| s.to_string()),
        column: column.map(|s| s.to_string()),
        message: message.to_string(),
    })
}

fn parts(e: AppError) -> (u16, String) {
    e.into_response_parts()
}

#[test]
fn unique_violations_are_duplicates() {
    let e = AppError::from_report(report(Some("23505"), Some("idx_products_unique_name_ar_lower"), None, ""), sqlx::Error::RowNotFound);
    assert_eq!(parts(e), (409, MSG_NAME_AR_TAKEN.to_string()));
    let e = AppError::from_report(report(Some("23505"), Some("idx_products_unique_name_en_lower"), None, ""), sqlx::Error::RowNotFound);
    assert_eq!(parts(e), (409, MSG_NAME_EN_TAKEN.to_string()));
    let e = AppError::from_report(report(Some("23505"), None, None, ""), sqlx::Error::RowNotFound);
    assert_eq!(parts(e), (409, MSG_ALREADY_EXISTS.to_string()));
}

#[test]
fn foreign_key_violations_are_bad_requests() {
    let e = AppError::from_report(report(Some("23503"), Some("fk_products_category"), None, ""), sqlx::Error::RowNotFound);
    assert_eq!(parts(e), (400, MSG_NO_SUCH_CATEGORY.to_string()));
    let e = AppError::from_report(report(Some("23503"), Some("other_fk"), None, ""), sqlx::Error::RowNotFound);
    assert_eq!(parts(e), (400, MSG_DANGLING_REFERENCE.to_string()));
}

#[test]
fn check_violations_look_at_the_message() {
    let e = AppError::from_report(report(Some("23514"), None, None, "cannot attach a product to a top-level category"), sqlx::Error::RowNotFound);
    assert_eq!(parts(e), (400, MSG_MAIN_CATEGORY_PRODUCT.to_string()));
    let e = AppError::from_report(report(Some("23514"), None, None, "price must be positive"), sqlx::Error::RowNotFound);
    assert_eq!(parts(e), (400, MSG_CHECK_FAILED.to_string()));
}

#[test]
fn not_null_violations_name_the_column() {
    let e = AppError::from_report(report(Some("23502"), None, Some("name_en"), ""), sqlx::Error::RowNotFound);
    assert_eq!(parts(e), (400, "الحقل (name_en) مطلوب ولا يمكن أن يكون فارغاً".to_string()));
    let e = AppError::from_report(report(Some("23502"), None, Some(""), ""), sqlx::Error::RowNotFound);
    assert_eq!(parts(e), (400, MSG_REQUIRED_FIELD.to_string()));
    let e = AppError::from_report(report(Some("23502"), None, None, ""), sqlx::Error::RowNotFound);
    assert_eq!(parts(e), (400, MSG_REQUIRED_FIELD.to_string()));
}

#[test]
fn other_errors_stay_database_errors() {
    let e = AppError::from_report(report(Some("42P01"), None, None, "no table"), sqlx::Error::PoolTimedOut);
    assert!(matches!(e, AppError::Database(sqlx::Error::PoolTimedOut)));
    let e = AppError::from_report(report(None, None, None, "x"), sqlx::Error::PoolTimedOut);
    assert!(matches!(e, AppError::Database(_)));
    let e = AppError::from_report(None, sqlx::Error::RowNotFound);
    assert_eq!(parts(e), (500, MSG_INTERNAL.to_string()));
}

#[test]
fn errors_not_from_the_database_stay_database_errors() {
    assert!(matches!(AppError::from(sqlx::Error::RowNotFound), AppError::Database(sqlx::Error::RowNotFound)));
    assert!(matches!(AppError::from(sqlx::Error::PoolClosed), AppError::Database(_)));
}

#[test]
fn responses_carry_status_and_message() {
    assert_eq!(parts(AppError::NotFound), (404, MSG_NOT_FOUND.to_string()));
    assert_eq!(MSG_NOT_FOUND, "الطلب غير موجود");
    assert_eq!(parts(AppError::Duplicate("x".to_string())), (409, "x".to_string()));
    assert_eq!(parts(AppError::BadRequest("y".to_string())), (400, "y".to_string()));
    assert_eq!(parts(AppError::Database(sqlx::Error::WorkerCrashed)), (500, "حدث خطأ داخلي في الخادم".to_string()));
}
