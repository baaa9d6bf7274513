use vstd::prelude::*;
use vstd::string::*;
use crate::text::{str_eq, str_trim, trim};
use crate::domain::category::dto::{
    category_form_errors, opt_view, CategoryFormDTO, CategoryFormErrors, CategoryTree,
};
use crate::error::db_error_report;

verus! {

broadcast use vstd::string::group_string_axioms;

/// Flash action after a category was created.
pub const ACTION_CREATED: &'static str = "created";
/// Flash action after a category was updated.
pub const ACTION_UPDATED: &'static str = "updated";
/// Flash action after a category was deleted.
pub const ACTION_DELETED: &'static str = "deleted";
/// Flash error when a category was not found.
pub const ERROR_NOT_FOUND: &'static str = "not_found";
/// Flash error when the database failed.
pub const ERROR_DB: &'static str = "db_error";

/// Success message after a category was created.
pub const MSG_CREATED: &'static str = "تم إضافة الفئة بنجاح";
/// Success message after a category was updated.
pub const MSG_UPDATED: &'static str = "تم تعديل الفئة بنجاح";
/// Success message after a category was deleted.
pub const MSG_DELETED: &'static str = "تم حذف الفئة بنجاح";
/// Error message when a category was not found.
pub const MSG_NOT_IN_DATABASE: &'static str = "غير موجود بقاعدة البيانات";
/// Error message when the database failed.
pub const MSG_DATABASE_FAILED: &'static str = "خطأ عام بقاعدة البيانات";
/// Shown above a refused creation form.
pub const MSG_FIX_TO_CREATE: &'static str = "من فضلك عدل الأخطاء لاستكمال التسجيل";
/// Shown above a refused edit form.
pub const MSG_FIX_TO_EDIT: &'static str = "يرجى تصحيح الأخطاء لإستكمال التعديل";
/// Shown when an edit changes nothing.
pub const MSG_NOTHING_CHANGED: &'static str = "لم يتم إجراء أي تغييرات على البيانات";
/// Start of the message for a category name that is taken.
pub const MSG_TAKEN_START: &'static str = "الفئة \"";
/// End of the message for a category name that is taken.
pub const MSG_TAKEN_END: &'static str = "\" مسجلة بالفعل";

/// Where to go after a category was created.
pub const CREATED_REDIRECT: &'static str = "/web/categories?action=created";
/// Where to go when the categories could not be read.
pub const SERVER_ERROR_REDIRECT: &'static str = "/web/categories?error=server_error";
/// Where to go when the category to edit does not exist.
pub const NOT_FOUND_REDIRECT: &'static str = "/web/categories?error=not_found";
/// Where to go when the category to edit could not be read.
pub const DB_ERROR_REDIRECT: &'static str = "/web/categories?error=db_error";

/// The success message that a flash action announces on the category pages.
pub open spec fn success_text(action: Option<Seq<char>>) -> Option<Seq<char>> {
    match action {
        Some(a) => if a == ACTION_CREATED@ {
            Some(MSG_CREATED@)
        } else if a == ACTION_UPDATED@ {
            Some(MSG_UPDATED@)
        } else if a == ACTION_DELETED@ {
            Some(MSG_DELETED@)
        } else {
            None
        },
        None => None,
    }
}

/// The error message that a flash error announces on the category pages.
pub open spec fn error_text(error: Option<Seq<char>>) -> Option<Seq<char>> {
    match error {
        Some(e) => if e == ERROR_NOT_FOUND@ {
            Some(MSG_NOT_IN_DATABASE@)
        } else if e == ERROR_DB@ {
            Some(MSG_DATABASE_FAILED@)
        } else {
            None
        },
        None => None,
    }
}

/// The characters of an optional string slice.
pub open spec fn opt_str_view(o: Option<&str>) -> Option<Seq<char>> {
    match o {
        Some(s) => Some(s@),
        None => None,
    }
}

/// The success message for the flash `action` of a category page, if it names one.
pub fn success_message(action: Option<&str>) -> (r: Option<String>)
    ensures
        opt_view(r) == success_text(opt_str_view(action)),
{
    match action {
        Some(a) => {
            if str_eq(a, ACTION_CREATED) {
                Some(MSG_CREATED.to_string())
            } else if str_eq(a, ACTION_UPDATED) {
                Some(MSG_UPDATED.to_string())
            } else if str_eq(a, ACTION_DELETED) {
                Some(MSG_DELETED.to_string())
            } else {
                None
            }
        },
        None => None,
    }
}

/// The error message for the flash `error` of a category page, if it names one.
pub fn error_message(error: Option<&str>) -> (r: Option<String>)
    ensures
        opt_view(r) == error_text(opt_str_view(error)),
{
    match error {
        Some(e) => {
            if str_eq(e, ERROR_NOT_FOUND) {
                Some(MSG_NOT_IN_DATABASE.to_string())
            } else if str_eq(e, ERROR_DB) {
                Some(MSG_DATABASE_FAILED.to_string())
            } else {
                None
            }
        },
        None => None,
    }
}

/// The trimmed query and its `ILIKE` pattern (the query between two `%`), or `None` when the
/// query is blank and nothing is searched.
pub fn plan_search(q: &str) -> (r: Option<(String, String)>)
    ensures
        match r {
            None => trim(q@).len() == 0,
            Some((query, pattern)) => {
                &&& trim(q@).len() > 0
                &&& query@ == trim(q@)
                &&& pattern@ == seq!['%'] + trim(q@) + seq!['%']
            },
        },
{
    let t = str_trim(q);
    if t.is_empty() {
        None
    } else {
        proof {
            reveal_strlit("%");
        }
        let mut pattern = String::from_str("%");
        pattern.append(t);
        pattern.append("%");
        Some((t.to_string(), pattern))
    }
}

/// The first step of creating a category.
pub enum CreateStep {
    /// Show the form again with its errors and a message.
    Reject { errors: CategoryFormErrors, error_message: String },
    /// The form passed; insert it.
    Insert,
}

/// Sanitizes a submitted category form and decides whether it may be inserted.
pub fn decide_create(form: &mut CategoryFormDTO, category_tree: &[CategoryTree]) -> (r: CreateStep)
    ensures
        final(form)@ == old(form)@.sanitized(),
        match r {
            CreateStep::Reject { errors, error_message } => {
                &&& errors@ == category_form_errors(final(form)@, category_tree@)
                &&& errors@.has_errors()
                &&& error_message@ == MSG_FIX_TO_CREATE@
            },
            CreateStep::Insert => !category_form_errors(final(form)@, category_tree@).has_errors(),
        },
{
    form.sanitize();
    match form.validate(category_tree) {
        Err(errors) => CreateStep::Reject { errors, error_message: MSG_FIX_TO_CREATE.to_string() },
        Ok(()) => CreateStep::Insert,
    }
}

/// How an insertion ended.
pub enum InsertOutcome {
    Inserted,
    /// The database refused a duplicate.
    UniqueViolation,
    Failed,
}

/// How a failed insertion ended when the database reported the SQLSTATE `code`.
pub open spec fn failure_for_code(code: Option<Seq<char>>) -> InsertOutcome {
    if code == Some(crate::error::UNIQUE_VIOLATION@) {
        InsertOutcome::UniqueViolation
    } else {
        InsertOutcome::Failed
    }
}

/// The SQLSTATE of `err` as the database reported it, `None` when the database did not return
/// the error.
pub open spec fn reported_code(err: &sqlx::Error) -> Option<Seq<char>> {
    match crate::error::sqlx_db_report(*err) {
        Some(report) => report.code,
        None => None,
    }
}

/// Whether a failed insertion was a unique violation, by the SQLSTATE the database reported.
pub fn insert_failure(code: Option<String>) -> (r: InsertOutcome)
    ensures
        r == failure_for_code(opt_view(code)),
{
    match code {
        Some(c) => if str_eq(c.as_str(), crate::error::UNIQUE_VIOLATION) {
            InsertOutcome::UniqueViolation
        } else {
            InsertOutcome::Failed
        },
        None => InsertOutcome::Failed,
    }
}

/// How a failed insertion of `err` ended: a unique violation when the database reported that
/// SQLSTATE, a plain failure otherwise.
pub fn insert_failure_of(err: &sqlx::Error) -> (r: InsertOutcome)
    ensures
        r == failure_for_code(reported_code(err)),
        r == (if crate::error::sqlx_db_message(*err) is Some && crate::error::sqlx_db_code(*err) == Some(
            crate::error::UNIQUE_VIOLATION@,
        ) {
            InsertOutcome::UniqueViolation
        } else {
            InsertOutcome::Failed
        }),
{
    match db_error_report(err) {
        Some(report) => insert_failure(report.code),
        None => InsertOutcome::Failed,
    }
}

/// A failed insertion is a unique violation exactly when the database returned the error
/// with SQLSTATE 23505 (`DatabaseError::code`); every other failure is a plain failure.
pub proof fn lemma_insert_failure_is_unique_violation(err: sqlx::Error)
    ensures
        failure_for_code(reported_code(&err)) is UniqueViolation <==> (crate::error::sqlx_db_message(err) is Some
            && crate::error::sqlx_db_code(err) == Some(crate::error::UNIQUE_VIOLATION@)),
        failure_for_code(reported_code(&err)) is UniqueViolation || failure_for_code(reported_code(&err)) is Failed,
{
}

/// The reply once an insertion has ended.
pub enum CreateReply {
    /// Redirect to this address.
    Redirect(String),
    /// Show the form again, with this message if any.
    Form { error_message: Option<String> },
}

/// The reply after inserting a category named `name_ar` ended with `outcome`.
pub fn after_insert(outcome: InsertOutcome, name_ar: &str) -> (r: CreateReply)
    ensures
        match outcome {
            InsertOutcome::Inserted => r matches CreateReply::Redirect(to) && to@ == CREATED_REDIRECT@,
            InsertOutcome::UniqueViolation => r matches CreateReply::Form { error_message: Some(m) }
                && m@ == MSG_TAKEN_START@ + name_ar@ + MSG_TAKEN_END@,
            InsertOutcome::Failed => r matches CreateReply::Form { error_message: None },
        },
{
    match outcome {
        InsertOutcome::Inserted => CreateReply::Redirect(CREATED_REDIRECT.to_string()),
        InsertOutcome::UniqueViolation => {
            let mut m = String::from_str(MSG_TAKEN_START);
            m.append(name_ar);
            m.append(MSG_TAKEN_END);
            CreateReply::Form { error_message: Some(m) }
        },
        InsertOutcome::Failed => CreateReply::Form { error_message: None },
    }
}

/// Whether two optional texts are equal.
fn same_opt_text(a: &Option<String>, b: &Option<String>) -> (r: bool)
    ensures
        r == (opt_view(*a) == opt_view(*b)),
{
    match (a, b) {
        (Some(x), Some(y)) => str_eq(x.as_str(), y.as_str()),
        (None, None) => true,
        _ => false,
    }
}

/// Whether a submitted form holds exactly what the stored category holds.
pub fn is_unchanged(existing: &CategoryFormDTO, submitted: &CategoryFormDTO) -> (r: bool)
    ensures
        r == (existing@ == submitted@),
{
    existing.name_ar == submitted.name_ar && existing.name_en == submitted.name_en
        && same_opt_text(&existing.parent_name, &submitted.parent_name)
        && same_opt_text(&existing.notes, &submitted.notes)
}

/// The step after an edit form was submitted.
pub enum EditStep {
    /// Show the form again with its errors and a message.
    Reject { errors: CategoryFormErrors, error_message: String },
    /// Show the form again: nothing changed.
    Unchanged { error_message: String },
    /// Store the submitted values.
    Update,
}

/// Sanitizes a submitted edit form and decides what to do with it, given what is stored.
pub fn decide_edit(
    existing: &CategoryFormDTO,
    submitted: &mut CategoryFormDTO,
    category_tree: &[CategoryTree],
) -> (r: EditStep)
    ensures
        final(submitted)@ == old(submitted)@.sanitized(),
        match r {
            EditStep::Reject { errors, error_message } => {
                &&& errors@ == category_form_errors(final(submitted)@, category_tree@)
                &&& errors@.has_errors()
                &&& error_message@ == MSG_FIX_TO_EDIT@
            },
            EditStep::Unchanged { error_message } => {
                &&& !category_form_errors(final(submitted)@, category_tree@).has_errors()
                &&& existing@ == final(submitted)@
                &&& error_message@ == MSG_NOTHING_CHANGED@
            },
            EditStep::Update => {
                &&& !category_form_errors(final(submitted)@, category_tree@).has_errors()
                &&& existing@ != final(submitted)@
            },
        },
{
    submitted.sanitize();
    match submitted.validate(category_tree) {
        Err(errors) => EditStep::Reject { errors, error_message: MSG_FIX_TO_EDIT.to_string() },
        Ok(()) => {
            if is_unchanged(existing, submitted) {
                EditStep::Unchanged { error_message: MSG_NOTHING_CHANGED.to_string() }
            } else {
                EditStep::Update
            }
        },
    }
}

/// Where to go when the category to edit could not be shown: the database failed, or there
/// is no such category.
pub fn missing_category_redirect(db_failed: bool) -> (r: String)
    ensures
        r@ == (if db_failed { DB_ERROR_REDIRECT@ } else { NOT_FOUND_REDIRECT@ }),
{
    if db_failed {
        DB_ERROR_REDIRECT.to_string()
    } else {
        NOT_FOUND_REDIRECT.to_string()
    }
}

} // verus!
