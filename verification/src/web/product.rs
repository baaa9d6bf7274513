use vstd::prelude::*;
use vstd::string::*;
use crate::text::str_eq;
use crate::domain::category::dto::opt_view;
use crate::web::category::opt_str_view;

verus! {

broadcast use vstd::string::group_string_axioms;

/// Flash action after a product was created.
pub const ACTION_CREATED: &'static str = "created";
/// Flash action after a product was updated.
pub const ACTION_UPDATED: &'static str = "updated";
/// Flash action after a product was deleted, as the product pages spell it.
pub const ACTION_DELETED: &'static str = "deleteed";
/// Flash error when a product was not found.
pub const ERROR_NOT_FOUND: &'static str = "not_found";
/// Flash error when the database failed, as the product pages spell it.
pub const ERROR_DB: &'static str = "db_err";

/// Success message after a product was created.
pub const MSG_CREATED: &'static str = "تم إضافة المنتج الصنف بنجاح";
/// Success message after a product was updated.
pub const MSG_UPDATED: &'static str = "تم تعديل الصنف بنجاح";
/// Success message after a product was deleted.
pub const MSG_DELETED: &'static str = "تم حذف الصنف بنجاح";
/// Error message when a product was not found.
pub const MSG_NOT_IN_DATABASE: &'static str = "غير موجود بقاعدة البيانات";
/// Error message when the database failed.
pub const MSG_DATABASE_FAILED: &'static str = "خطأ عام بقاعدة البيانات";
/// The reply to a submitted product form.
pub const MSG_PRODUCT_RECEIVED: &'static str = "بسم الله الرحمن الرحيم";
/// Where to go when the products could not be read.
pub const SERVER_ERROR_REDIRECT: &'static str = "/web/products?error=server_error";

/// The success message that a flash action announces on the product pages.
pub open spec fn success_text(action: Option<Seq<char>>) -> Option<Seq<char>> {
    match action {
        Some(a) => if a == ACTION_CREATED@ {
            Some(MSG_CREATED@)
        } else if a == ACTION_UPDATED@ {
            Some(MSG_UPDATED@)
        } else if a == ACTION_DELETED@ {
            Some(MSG_DELETED@)
        } else {
            None
        },
        None => None,
    }
}

/// The error message that a flash error announces on the product pages.
pub open spec fn error_text(error: Option<Seq<char>>) -> Option<Seq<char>> {
    match error {
        Some(e) => if e == ERROR_NOT_FOUND@ {
            Some(MSG_NOT_IN_DATABASE@)
        } else if e == ERROR_DB@ {
            Some(MSG_DATABASE_FAILED@)
        } else {
            None
        },
        None => None,
    }
}

/// The success message for the flash `action` of a product page, if it names one.
pub fn success_message(action: Option<&str>) -> (r: Option<String>)
    ensures
        opt_view(r) == success_text(opt_str_view(action)),
{
    match action {
        Some(a) => {
            if str_eq(a, ACTION_CREATED) {
                Some(MSG_CREATED.to_string())
            } else if str_eq(a, ACTION_UPDATED) {
                Some(MSG_UPDATED.to_string())
            } else if str_eq(a, ACTION_DELETED) {
                Some(MSG_DELETED.to_string())
            } else {
                None
            }
        },
        None => None,
    }
}

/// The error message for the flash `error` of a product page, if it names one.
pub fn error_message(error: Option<&str>) -> (r: Option<String>)
    ensures
        opt_view(r) == error_text(opt_str_view(error)),
{
    match error {
        Some(e) => {
            if str_eq(e, ERROR_NOT_FOUND) {
                Some(MSG_NOT_IN_DATABASE.to_string())
            } else if str_eq(e, ERROR_DB) {
                Some(MSG_DATABASE_FAILED.to_string())
            } else {
                None
            }
        },
        None => None,
    }
}

} // verus!
