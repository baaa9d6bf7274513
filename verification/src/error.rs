use vstd::prelude::*;
use vstd::string::*;
use crate::text::{contains_text, str_contains, str_eq};

verus! {

broadcast use vstd::string::group_string_axioms;

/// `sqlx::Error`, the failure of a database call. Verus sees nothing inside it.
#[verifier::external_type_specification]
#[verifier::external_body]
pub struct ExSqlxError(sqlx::Error);

/// SQLSTATE of a unique violation.
pub const UNIQUE_VIOLATION: &'static str = "23505";
/// SQLSTATE of a foreign key violation.
pub const FOREIGN_KEY_VIOLATION: &'static str = "23503";
/// SQLSTATE of a check violation, the category triggers' included.
pub const CHECK_VIOLATION: &'static str = "23514";
/// SQLSTATE of a not-null violation.
pub const NOT_NULL_VIOLATION: &'static str = "23502";

/// Unique index on the lower-cased Arabic product name.
pub const PRODUCT_NAME_AR_INDEX: &'static str = "idx_products_unique_name_ar_lower";
/// Unique index on the lower-cased English product name.
pub const PRODUCT_NAME_EN_INDEX: &'static str = "idx_products_unique_name_en_lower";
/// Foreign key from a product to its category.
pub const PRODUCT_CATEGORY_KEY: &'static str = "fk_products_category";
/// What the database message says when a product is attached to a main category.
pub const TOP_LEVEL_MARKER: &'static str = "top-level category";

/// The Arabic product name is taken.
pub const MSG_NAME_AR_TAKEN: &'static str = "اسم المنتج بالعربية مستخدم بالفعل";
/// The English product name is taken.
pub const MSG_NAME_EN_TAKEN: &'static str = "اسم المنتج بالإنجليزية مستخدم بالفعل";
/// Some other unique value is taken.
pub const MSG_ALREADY_EXISTS: &'static str = "هذا العنصر مسجل مسبقاً في النظام";
/// The chosen category does not exist.
pub const MSG_NO_SUCH_CATEGORY: &'static str = "الفئة المختارة غير موجودة في النظام";
/// Some other referenced row does not exist.
pub const MSG_DANGLING_REFERENCE: &'static str = "تم الإشارة إلى عنصر غير موجود في قاعدة البيانات";
/// A product may only be attached to a sub-category.
pub const MSG_MAIN_CATEGORY_PRODUCT: &'static str = "لا يمكن ربط المنتج بفئة رئيسية، يجب اختيار فئة فرعية";
/// Some other check failed.
pub const MSG_CHECK_FAILED: &'static str = "البيانات المدخلة تخالف شروط صحة المدخلات في النظام";
/// Start of the message for a named required column.
pub const MSG_REQUIRED_COLUMN_START: &'static str = "الحقل (";
/// End of the message for a named required column.
pub const MSG_REQUIRED_COLUMN_END: &'static str = ") مطلوب ولا يمكن أن يكون فارغاً";
/// A required value is missing and the column is not named.
pub const MSG_REQUIRED_FIELD: &'static str = "هناك حقل مطلوب لم يتم إدخاله";
/// Answer to a request for something that does not exist.
pub const MSG_NOT_FOUND: &'static str = "الطلب غير موجود";
/// Answer to a database failure; its details are only logged.
pub const MSG_INTERNAL: &'static str = "حدث خطأ داخلي في الخادم";

/// The failures of the application.
pub enum AppError {
    /// A unique value is taken (HTTP 409).
    Duplicate(String),
    /// The request breaks a rule of the database (HTTP 400).
    BadRequest(String),
    /// Nothing answers to the request (HTTP 404).
    NotFound,
    /// Any other database failure (HTTP 500).
    Database(sqlx::Error),
}

/// What the database reported of an error it returned: SQLSTATE, constraint, column, message.
pub struct DbErrorReport {
    pub code: Option<String>,
    pub constraint: Option<String>,
    pub column: Option<String>,
    pub message: String,
}

/// A [`DbErrorReport`] as character sequences.
pub struct DbErrorReportView {
    pub code: Option<Seq<char>>,
    pub constraint: Option<Seq<char>>,
    pub column: Option<Seq<char>>,
    pub message: Seq<char>,
}

/// The characters of an optional text.
pub open spec fn opt_chars(o: Option<String>) -> Option<Seq<char>> {
    match o {
        Some(s) => Some(s@),
        None => None,
    }
}

impl View for DbErrorReport {
    type V = DbErrorReportView;

    open spec fn view(&self) -> DbErrorReportView {
        DbErrorReportView {
            code: opt_chars(self.code),
            constraint: opt_chars(self.constraint),
            column: opt_chars(self.column),
            message: self.message@,
        }
    }
}

/// The meaningful classes of database errors, with their message.
pub enum ErrorClass {
    Duplicate(Seq<char>),
    BadRequest(Seq<char>),
}

/// An optional text, empty when missing.
pub open spec fn or_empty(o: Option<Seq<char>>) -> Seq<char> {
    match o {
        Some(s) => s,
        None => Seq::empty(),
    }
}

/// The class of a database error by its SQLSTATE, and the message its constraint, message or
/// column selects; `None` for an error that is not one of these, or not from the database.
pub open spec fn classify(report: Option<DbErrorReportView>) -> Option<ErrorClass> {
    match report {
        None => None,
        Some(r) => {
            let constraint = or_empty(r.constraint);
            let column = or_empty(r.column);
            if r.code == Some(UNIQUE_VIOLATION@) {
                Some(ErrorClass::Duplicate(
                    if constraint == PRODUCT_NAME_AR_INDEX@ {
                        MSG_NAME_AR_TAKEN@
                    } else if constraint == PRODUCT_NAME_EN_INDEX@ {
                        MSG_NAME_EN_TAKEN@
                    } else {
                        MSG_ALREADY_EXISTS@
                    },
                ))
            } else if r.code == Some(FOREIGN_KEY_VIOLATION@) {
                Some(ErrorClass::BadRequest(
                    if constraint == PRODUCT_CATEGORY_KEY@ {
                        MSG_NO_SUCH_CATEGORY@
                    } else {
                        MSG_DANGLING_REFERENCE@
                    },
                ))
            } else if r.code == Some(CHECK_VIOLATION@) {
                Some(ErrorClass::BadRequest(
                    if contains_text(r.message, TOP_LEVEL_MARKER@) {
                        MSG_MAIN_CATEGORY_PRODUCT@
                    } else {
                        MSG_CHECK_FAILED@
                    },
                ))
            } else if r.code == Some(NOT_NULL_VIOLATION@) {
                Some(ErrorClass::BadRequest(
                    if column.len() > 0 {
                        MSG_REQUIRED_COLUMN_START@ + column + MSG_REQUIRED_COLUMN_END@
                    } else {
                        MSG_REQUIRED_FIELD@
                    },
                ))
            } else {
                None
            }
        },
    }
}

/// The report's view, when there is one.
pub open spec fn opt_report_view(report: Option<DbErrorReport>) -> Option<DbErrorReportView> {
    match report {
        Some(r) => Some(r@),
        None => None,
    }
}

/// `e` is the application error of class `class` for the database error `err`: a class gives
/// its variant and message, no class keeps `err` itself.
pub open spec fn is_app_error_of(e: AppError, class: Option<ErrorClass>, err: sqlx::Error) -> bool {
    match class {
        Some(ErrorClass::Duplicate(m)) => e matches AppError::Duplicate(s) && s@ == m,
        Some(ErrorClass::BadRequest(m)) => e matches AppError::BadRequest(s) && s@ == m,
        None => e == AppError::Database(err),
    }
}

/// The HTTP status and the message shown for an application error.
pub open spec fn response_of(e: AppError) -> (u16, Seq<char>) {
    match e {
        AppError::Duplicate(m) => (409, m@),
        AppError::BadRequest(m) => (400, m@),
        AppError::NotFound => (404, MSG_NOT_FOUND@),
        AppError::Database(_) => (500, MSG_INTERNAL@),
    }
}

/// The SQLSTATE that the database reported for `err`; `None` when `err` was not returned by
/// the database or carries no code.
pub uninterp spec fn sqlx_db_code(err: sqlx::Error) -> Option<Seq<char>>;

/// The constraint that the database named for `err`; `None` when there is none.
pub uninterp spec fn sqlx_db_constraint(err: sqlx::Error) -> Option<Seq<char>>;

/// The column that the Postgres server named for `err`; `None` when there is none.
pub uninterp spec fn sqlx_db_column(err: sqlx::Error) -> Option<Seq<char>>;

/// The message of `err` when the database returned it; `None` for every other error.
pub uninterp spec fn sqlx_db_message(err: sqlx::Error) -> Option<Seq<char>>;

/// What the database reported of `err`, `None` when the database did not return it.
pub open spec fn sqlx_db_report(err: sqlx::Error) -> Option<DbErrorReportView> {
    match sqlx_db_message(err) {
        Some(message) => Some(
            DbErrorReportView {
                code: sqlx_db_code(err),
                constraint: sqlx_db_constraint(err),
                column: sqlx_db_column(err),
                message,
            },
        ),
        None => None,
    }
}

/// `sqlx::Error::as_database_error` followed by `DatabaseError::code`: the SQLSTATE of an
/// error the database returned. Both read only `err`, so the contract names the result
/// `sqlx_db_code(err)`; which errors carry which code is left to that name.
#[verifier::external_body]
fn db_error_code(err: &sqlx::Error) -> (r: Option<String>)
    ensures
        opt_chars(r) == sqlx_db_code(*err),
{
    err.as_database_error().and_then(|e| e.code()).map(|c| c.to_string())
}

/// `sqlx::Error::as_database_error` followed by `DatabaseError::constraint`: the constraint
/// that an error the database returned names, named `sqlx_db_constraint(err)`.
#[verifier::external_body]
fn db_error_constraint(err: &sqlx::Error) -> (r: Option<String>)
    ensures
        opt_chars(r) == sqlx_db_constraint(*err),
{
    err.as_database_error().and_then(|e| e.constraint()).map(|c| c.to_string())
}

/// `sqlx::Error::as_database_error`, then `PgDatabaseError::column` once the error is
/// downcast to the Postgres error: the column the database names, named
/// `sqlx_db_column(err)`.
#[verifier::external_body]
fn db_error_column(err: &sqlx::Error) -> (r: Option<String>)
    ensures
        opt_chars(r) == sqlx_db_column(*err),
{
    err.as_database_error()
        .and_then(|e| e.try_downcast_ref::<sqlx::postgres::PgDatabaseError>())
        .and_then(|e| e.column())
        .map(|c| c.to_string())
}

/// `sqlx::Error::as_database_error` followed by `DatabaseError::message`: the message of an
/// error the database returned, `None` for any other error; named `sqlx_db_message(err)`.
#[verifier::external_body]
fn db_error_message(err: &sqlx::Error) -> (r: Option<String>)
    ensures
        opt_chars(r) == sqlx_db_message(*err),
{
    err.as_database_error().map(|e| e.message().to_string())
}

/// What the database reported of `err`, `None` when the database did not return it.
pub(crate) fn db_error_report(err: &sqlx::Error) -> (r: Option<DbErrorReport>)
    ensures
        opt_report_view(r) == sqlx_db_report(*err),
{
    match db_error_message(err) {
        Some(message) => Some(
            DbErrorReport {
                code: db_error_code(err),
                constraint: db_error_constraint(err),
                column: db_error_column(err),
                message,
            },
        ),
        None => None,
    }
}

/// Whether an optional text is exactly `expected`.
fn is_text(o: &Option<String>, expected: &str) -> (r: bool)
    ensures
        r == (opt_chars(*o) == Some(expected@)),
{
    match o {
        Some(s) => str_eq(s.as_str(), expected),
        None => false,
    }
}

/// An optional text, empty when missing.
fn text_or_empty(o: &Option<String>) -> (r: &str)
    ensures
        r@ == or_empty(opt_chars(*o)),
{
    match o {
        Some(s) => s.as_str(),
        None => {
            proof {
                reveal_strlit("");
            }
            ""
        },
    }
}

impl AppError {
    /// The application error for a database error of which `report` is what the database
    /// reported (`None`: not from the database). Unique, foreign key, check and not-null
    /// violations get a message for the user; every other error is kept as it is.
    pub fn from_report(report: Option<DbErrorReport>, err: sqlx::Error) -> (r: AppError)
        ensures
            is_app_error_of(r, classify(opt_report_view(report)), err),
    {
        match report {
            None => AppError::Database(err),
            Some(rep) => {
                let constraint = text_or_empty(&rep.constraint);
                let column = text_or_empty(&rep.column);
                if is_text(&rep.code, UNIQUE_VIOLATION) {
                    let message = if str_eq(constraint, PRODUCT_NAME_AR_INDEX) {
                        MSG_NAME_AR_TAKEN
                    } else if str_eq(constraint, PRODUCT_NAME_EN_INDEX) {
                        MSG_NAME_EN_TAKEN
                    } else {
                        MSG_ALREADY_EXISTS
                    };
                    AppError::Duplicate(message.to_string())
                } else if is_text(&rep.code, FOREIGN_KEY_VIOLATION) {
                    let message = if str_eq(constraint, PRODUCT_CATEGORY_KEY) {
                        MSG_NO_SUCH_CATEGORY
                    } else {
                        MSG_DANGLING_REFERENCE
                    };
                    AppError::BadRequest(message.to_string())
                } else if is_text(&rep.code, CHECK_VIOLATION) {
                    let message = if str_contains(rep.message.as_str(), TOP_LEVEL_MARKER) {
                        MSG_MAIN_CATEGORY_PRODUCT
                    } else {
                        MSG_CHECK_FAILED
                    };
                    AppError::BadRequest(message.to_string())
                } else if is_text(&rep.code, NOT_NULL_VIOLATION) {
                    if !column.is_empty() {
                        let mut message = String::from_str(MSG_REQUIRED_COLUMN_START);
                        message.append(column);
                        message.append(MSG_REQUIRED_COLUMN_END);
                        AppError::BadRequest(message)
                    } else {
                        AppError::BadRequest(MSG_REQUIRED_FIELD.to_string())
                    }
                } else {
                    AppError::Database(err)
                }
            },
        }
    }

    /// The application error for a failed database call: a violation the database reports
    /// gets a message for the user, any other failure is kept as a database error.
    pub fn from(err: sqlx::Error) -> (r: AppError)
        ensures
            is_app_error_of(r, classify(sqlx_db_report(err)), err),
    {
        let report = db_error_report(&err);
        Self::from_report(report, err)
    }

    /// The HTTP status and message of the response to this error. A database error's
    /// details are not shown.
    pub fn into_response_parts(self) -> (r: (u16, String))
        ensures
            (r.0, r.1@) == response_of(self),
    {
        match self {
            AppError::Duplicate(m) => (409, m),
            AppError::BadRequest(m) => (400, m),
            AppError::NotFound => (404, MSG_NOT_FOUND.to_string()),
            AppError::Database(_) => (500, MSG_INTERNAL.to_string()),
        }
    }
}

/// A unique violation is always answered as a duplicate, a foreign key, check or not-null
/// violation always as a bad request, and an error that is not from the database never gets
/// a class.
pub proof fn lemma_violation_classes(report: Option<DbErrorReportView>)
    ensures
        report is None ==> classify(report) is None,
        report matches Some(r) && r.code == Some(UNIQUE_VIOLATION@) ==> classify(report) matches Some(ErrorClass::Duplicate(_)),
        report matches Some(r) && (r.code == Some(FOREIGN_KEY_VIOLATION@) || r.code == Some(CHECK_VIOLATION@)
            || r.code == Some(NOT_NULL_VIOLATION@)) ==> classify(report) matches Some(ErrorClass::BadRequest(_)),
        report matches Some(r) && r.code is None ==> classify(report) is None,
{
    reveal_strlit("23505");
    reveal_strlit("23503");
    reveal_strlit("23514");
    reveal_strlit("23502");
    assert(UNIQUE_VIOLATION@[4] != FOREIGN_KEY_VIOLATION@[4]);
    assert(UNIQUE_VIOLATION@[3] != CHECK_VIOLATION@[3]);
    assert(UNIQUE_VIOLATION@[4] != NOT_NULL_VIOLATION@[4]);
}


/// Facts about the SQLSTATE and constraint names that the classification compares with.
proof fn lemma_code_literals()
    ensures
        UNIQUE_VIOLATION@ != FOREIGN_KEY_VIOLATION@,
        UNIQUE_VIOLATION@ != CHECK_VIOLATION@,
        UNIQUE_VIOLATION@ != NOT_NULL_VIOLATION@,
        FOREIGN_KEY_VIOLATION@ != CHECK_VIOLATION@,
        FOREIGN_KEY_VIOLATION@ != NOT_NULL_VIOLATION@,
        CHECK_VIOLATION@ != NOT_NULL_VIOLATION@,
        PRODUCT_NAME_AR_INDEX@ != PRODUCT_NAME_EN_INDEX@,
        PRODUCT_NAME_AR_INDEX@.len() > 0,
        PRODUCT_NAME_EN_INDEX@.len() > 0,
        PRODUCT_CATEGORY_KEY@.len() > 0,
{
    reveal_strlit("23505");
    reveal_strlit("23503");
    reveal_strlit("23514");
    reveal_strlit("23502");
    reveal_strlit("idx_products_unique_name_ar_lower");
    reveal_strlit("idx_products_unique_name_en_lower");
    reveal_strlit("fk_products_category");
    assert(UNIQUE_VIOLATION@[4] != FOREIGN_KEY_VIOLATION@[4]);
    assert(UNIQUE_VIOLATION@[3] != CHECK_VIOLATION@[3]);
    assert(UNIQUE_VIOLATION@[4] != NOT_NULL_VIOLATION@[4]);
    assert(FOREIGN_KEY_VIOLATION@[3] != CHECK_VIOLATION@[3]);
    assert(FOREIGN_KEY_VIOLATION@[4] != NOT_NULL_VIOLATION@[4]);
    assert(CHECK_VIOLATION@[3] != NOT_NULL_VIOLATION@[3]);
    assert(PRODUCT_NAME_AR_INDEX@[26] != PRODUCT_NAME_EN_INDEX@[26]);
}

/// What `AppError::from` answers for a failed database call, in terms of what the database
/// reported through `DatabaseError::code`, `constraint`, `message` and the Postgres column:
/// an error the database did not return stays a database error; SQLSTATE 23505 is a
/// duplicate whose message the unique index picks; 23503 and 23514 and 23502 are bad
/// requests whose message the constraint, the database's message or the column picks; any
/// other SQLSTATE, or none, stays a database error.
pub proof fn lemma_app_error_from_database(err: sqlx::Error, r: AppError)
    requires
        is_app_error_of(r, classify(sqlx_db_report(err)), err),
    ensures
        sqlx_db_message(err) is None ==> r == AppError::Database(err),
        sqlx_db_message(err) is Some && sqlx_db_code(err) == Some(UNIQUE_VIOLATION@) ==> {
            &&& sqlx_db_constraint(err) == Some(PRODUCT_NAME_AR_INDEX@) ==> (r matches AppError::Duplicate(m)
                && m@ == MSG_NAME_AR_TAKEN@)
            &&& sqlx_db_constraint(err) == Some(PRODUCT_NAME_EN_INDEX@) ==> (r matches AppError::Duplicate(m)
                && m@ == MSG_NAME_EN_TAKEN@)
            &&& sqlx_db_constraint(err) != Some(PRODUCT_NAME_AR_INDEX@) && sqlx_db_constraint(err) != Some(
                PRODUCT_NAME_EN_INDEX@,
            ) ==> (r matches AppError::Duplicate(m) && m@ == MSG_ALREADY_EXISTS@)
        },
        sqlx_db_message(err) is Some && sqlx_db_code(err) == Some(FOREIGN_KEY_VIOLATION@) ==> {
            &&& sqlx_db_constraint(err) == Some(PRODUCT_CATEGORY_KEY@) ==> (r matches AppError::BadRequest(m)
                && m@ == MSG_NO_SUCH_CATEGORY@)
            &&& sqlx_db_constraint(err) != Some(PRODUCT_CATEGORY_KEY@) ==> (r matches AppError::BadRequest(m)
                && m@ == MSG_DANGLING_REFERENCE@)
        },
        sqlx_db_message(err) is Some && sqlx_db_code(err) == Some(CHECK_VIOLATION@) ==> {
            &&& contains_text(or_empty(sqlx_db_message(err)), TOP_LEVEL_MARKER@) ==> (r matches AppError::BadRequest(m)
                && m@ == MSG_MAIN_CATEGORY_PRODUCT@)
            &&& !contains_text(or_empty(sqlx_db_message(err)), TOP_LEVEL_MARKER@) ==> (r matches AppError::BadRequest(m)
                && m@ == MSG_CHECK_FAILED@)
        },
        sqlx_db_message(err) is Some && sqlx_db_code(err) == Some(NOT_NULL_VIOLATION@) ==> {
            &&& or_empty(sqlx_db_column(err)).len() > 0 ==> (r matches AppError::BadRequest(m)
                && m@ == MSG_REQUIRED_COLUMN_START@ + or_empty(sqlx_db_column(err)) + MSG_REQUIRED_COLUMN_END@)
            &&& or_empty(sqlx_db_column(err)).len() == 0 ==> (r matches AppError::BadRequest(m)
                && m@ == MSG_REQUIRED_FIELD@)
        },
        sqlx_db_code(err) != Some(UNIQUE_VIOLATION@) && sqlx_db_code(err) != Some(FOREIGN_KEY_VIOLATION@)
            && sqlx_db_code(err) != Some(CHECK_VIOLATION@) && sqlx_db_code(err) != Some(NOT_NULL_VIOLATION@)
            ==> r == AppError::Database(err),
{
    lemma_code_literals();
}

/// Every application error is answered with a client error when the request was at fault
/// (409, 400, 404) and with 500 only for a database failure, whose details are not shown.
pub proof fn lemma_response_status(e: AppError)
    ensures
        response_of(e).0 == 500 <==> e is Database,
        e is Database ==> response_of(e).1 == MSG_INTERNAL@,
        e matches AppError::Duplicate(m) ==> response_of(e) == (409u16, m@),
        e matches AppError::BadRequest(m) ==> response_of(e) == (400u16, m@),
{
}

} // verus!
