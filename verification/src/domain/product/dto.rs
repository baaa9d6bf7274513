use vstd::prelude::*;
use vstd::string::*;
use crate::text::{str_trim, trim, lemma_trim_idempotent};
use crate::domain::category::dto::{
    blank_as_none, category_form_errors, check_name, check_notes, name_ar_rule, name_en_rule,
    notes_rule, opt_trim, opt_view, CategoryFormView, CategoryTree, NAME_AR_EMPTY,
    NAME_AR_TOO_LONG, NAME_EN_EMPTY, NAME_EN_TOO_LONG,
};

pub mod filters;

verus! {

broadcast use vstd::string::group_string_axioms;

/// Drops a form text that is missing or blank: an empty or whitespace-only field means "none".
pub fn empty_string_as_none(opt: Option<String>) -> (r: Option<String>)
    ensures
        r == blank_as_none(opt),
{
    crate::domain::category::dto::empty_string_as_none(opt)
}

/// The message of each field of the product form that breaks a rule; `None` where it holds.
pub struct FormErrors {
    pub name_ar: Option<String>,
    pub name_en: Option<String>,
    pub category: Option<String>,
    pub notes: Option<String>,
}

/// The messages of a [`FormErrors`] as character sequences.
pub struct ProductFormErrorsView {
    pub name_ar: Option<Seq<char>>,
    pub name_en: Option<Seq<char>>,
    pub category: Option<Seq<char>>,
    pub notes: Option<Seq<char>>,
}

impl ProductFormErrorsView {
    /// The form is refused: a name or the notes break a rule.
    pub open spec fn has_errors(self) -> bool {
        self.name_ar is Some || self.name_en is Some || self.notes is Some
    }
}

impl View for FormErrors {
    type V = ProductFormErrorsView;

    open spec fn view(&self) -> ProductFormErrorsView {
        ProductFormErrorsView {
            name_ar: opt_view(self.name_ar),
            name_en: opt_view(self.name_en),
            category: opt_view(self.category),
            notes: opt_view(self.notes),
        }
    }
}

impl Default for FormErrors {
    fn default() -> (r: Self)
        ensures
            r.name_ar is None && r.name_en is None && r.category is None && r.notes is None,
    {
        FormErrors { name_ar: None, name_en: None, category: None, notes: None }
    }
}

impl FormErrors {
    /// Whether the errors refuse the form: a name or the notes break a rule. The category
    /// is not counted.
    pub fn has_errors(&self) -> (r: bool)
        ensures
            r == self@.has_errors(),
    {
        self.name_ar.is_some() || self.name_en.is_some() || self.notes.is_some()
    }
}

/// The product form as submitted: both names, the chosen sub-category, and optional notes.
pub struct FormDTO {
    pub name_ar: String,
    pub name_en: String,
    pub category: String,
    pub notes: Option<String>,
}

/// The fields of a [`FormDTO`] as character sequences.
pub struct ProductFormView {
    pub name_ar: Seq<char>,
    pub name_en: Seq<char>,
    pub category: Seq<char>,
    pub notes: Option<Seq<char>>,
}

impl ProductFormView {
    /// Every field with its surrounding whitespace removed.
    pub open spec fn sanitized(self) -> ProductFormView {
        ProductFormView {
            name_ar: trim(self.name_ar),
            name_en: trim(self.name_en),
            category: trim(self.category),
            notes: opt_trim(self.notes),
        }
    }
}

impl View for FormDTO {
    type V = ProductFormView;

    open spec fn view(&self) -> ProductFormView {
        ProductFormView {
            name_ar: self.name_ar@,
            name_en: self.name_en@,
            category: self.category@,
            notes: opt_view(self.notes),
        }
    }
}

impl Default for FormDTO {
    fn default() -> (r: Self)
        ensures
            r@ == (ProductFormView {
                name_ar: Seq::empty(),
                name_en: Seq::empty(),
                category: Seq::empty(),
                notes: None,
            }),
    {
        FormDTO { name_ar: String::new(), name_en: String::new(), category: String::new(), notes: None }
    }
}

/// Every rule of the product form applied to `form`. The category is not checked.
pub open spec fn product_form_errors(form: ProductFormView) -> ProductFormErrorsView {
    ProductFormErrorsView {
        name_ar: name_ar_rule(form.name_ar),
        name_en: name_en_rule(form.name_en),
        category: None,
        notes: notes_rule(form.notes),
    }
}

/// The result of validating a form whose rule outcome is `errors`.
pub open spec fn product_validation_result(r: Result<(), FormErrors>, errors: ProductFormErrorsView) -> bool {
    match r {
        Ok(()) => !errors.has_errors(),
        Err(e) => e@ == errors && errors.has_errors(),
    }
}

impl FormDTO {
    /// Removes the surrounding whitespace of every field.
    pub fn sanitize(&mut self)
        ensures
            final(self)@ == old(self)@.sanitized(),
            final(self).name_ar@ == trim(old(self).name_ar@),
            final(self).name_en@ == trim(old(self).name_en@),
            final(self).category@ == trim(old(self).category@),
            opt_view(final(self).notes) == opt_trim(opt_view(old(self).notes)),
    {
        self.name_ar = str_trim(self.name_ar.as_str()).to_string();
        self.name_en = str_trim(self.name_en.as_str()).to_string();
        self.category = str_trim(self.category.as_str()).to_string();
        self.notes = match &self.notes {
            Some(s) => Some(str_trim(s.as_str()).to_string()),
            None => None,
        };
    }

    /// Checks the form against its rules. Refused exactly when a name or the notes break a
    /// rule; the tree of categories is not consulted.
    pub fn validate(&self, category_tree: &[crate::domain::category::dto::CategoryTree]) -> (r: Result<(), FormErrors>)
        ensures
            product_validation_result(r, product_form_errors(self@)),
    {
        let name_ar = check_name(self.name_ar.as_str(), NAME_AR_EMPTY, NAME_AR_TOO_LONG);
        let name_en = check_name(self.name_en.as_str(), NAME_EN_EMPTY, NAME_EN_TOO_LONG);
        let notes = check_notes(&self.notes);
        let errors = FormErrors { name_ar, name_en, category: None, notes };
        if errors.has_errors() {
            Err(errors)
        } else {
            Ok(())
        }
    }
}

/// The flash parameters of a redirect: what was done, or what went wrong.
pub struct FlashParams {
    pub action: Option<String>,
    pub error: Option<String>,
}

/// The query of the live category search.
pub struct CategorySearchQuery {
    pub q: String,
}

/// Sanitizing trims each field of the product form and nothing else: both names, the
/// category, and the notes when given.
pub proof fn lemma_sanitized_fields(form: ProductFormView)
    ensures
        form.sanitized().name_ar == trim(form.name_ar),
        form.sanitized().name_en == trim(form.name_en),
        form.sanitized().category == trim(form.category),
        form.notes is None ==> form.sanitized().notes is None,
        form.notes matches Some(n) ==> form.sanitized().notes == Some(trim(n)),
{
}

/// Sanitizing a sanitized product form changes nothing.
pub proof fn lemma_sanitize_idempotent(form: ProductFormView)
    ensures
        form.sanitized().sanitized() == form.sanitized(),
{
    lemma_trim_idempotent(form.name_ar);
    lemma_trim_idempotent(form.name_en);
    lemma_trim_idempotent(form.category);
    if let Some(n) = form.notes {
        lemma_trim_idempotent(n);
    }
}

/// The product rules judge a form by its trimmed fields: a sanitized form breaks exactly the
/// rules that the form as submitted breaks.
pub proof fn lemma_rules_ignore_surrounding_whitespace(form: ProductFormView)
    ensures
        product_form_errors(form.sanitized()) == product_form_errors(form),
{
    lemma_trim_idempotent(form.name_ar);
    lemma_trim_idempotent(form.name_en);
    if let Some(n) = form.notes {
        lemma_trim_idempotent(n);
    }
}

/// A product form and a category form with the same names and notes get the same messages
/// for them, and either both are refused or neither is.
pub proof fn lemma_rules_agree_with_categories(
    product: ProductFormView,
    category: CategoryFormView,
    tree: Seq<CategoryTree>,
)
    requires
        product.name_ar == category.name_ar,
        product.name_en == category.name_en,
        product.notes == category.notes,
    ensures
        product_form_errors(product).name_ar == category_form_errors(category, tree).name_ar,
        product_form_errors(product).name_en == category_form_errors(category, tree).name_en,
        product_form_errors(product).notes == category_form_errors(category, tree).notes,
        product_form_errors(product).has_errors() == category_form_errors(category, tree).has_errors(),
{
}

} // verus!
