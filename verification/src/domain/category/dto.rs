use vstd::prelude::*;
use vstd::string::*;
use crate::text::{str_eq, str_trim, trim, is_blank, lemma_trim_idempotent};

pub mod filters;

verus! {

broadcast use vstd::string::group_string_axioms;

/// Message when the Arabic name is blank.
pub const NAME_AR_EMPTY: &'static str = "لا يمكن ترك الاسم خاليا";
/// Message when the Arabic name is longer than [`NAME_MAX_CHARS`] characters.
pub const NAME_AR_TOO_LONG: &'static str = "لا يمكن أن تتعدى خانة الاسم 100 حرف";
/// Message when the English name is blank.
pub const NAME_EN_EMPTY: &'static str = "Thid fild is not allowed to be empty";
/// Message when the English name is longer than [`NAME_MAX_CHARS`] characters.
pub const NAME_EN_TOO_LONG: &'static str = "This filed is not allowed to be more than 100 character";
/// Message when the chosen parent is not the Arabic name of a main category.
pub const PARENT_NOT_MAIN: &'static str = "هذا الاسم لا يصلح كفئة رئيسية";
/// Message when the notes are longer than [`NOTES_MAX_CHARS`] characters.
pub const NOTES_TOO_LONG: &'static str = "لا يمكن أن يتعدى هذا الحقل 500 حرف";

/// The most characters a trimmed name may have.
pub const NAME_MAX_CHARS: usize = 100;
/// The most characters trimmed notes may have.
pub const NOTES_MAX_CHARS: usize = 500;

/// The characters of an optional text.
pub open spec fn opt_view(o: Option<String>) -> Option<Seq<char>> {
    match o {
        Some(s) => Some(s@),
        None => None,
    }
}

/// An optional text with its surrounding whitespace removed.
pub open spec fn opt_trim(o: Option<Seq<char>>) -> Option<Seq<char>> {
    match o {
        Some(s) => Some(trim(s)),
        None => None,
    }
}

/// `Some(s)` for a text that is not blank, `None` for a blank one or none.
pub open spec fn blank_as_none(opt: Option<String>) -> Option<String> {
    match opt {
        Some(s) => if is_blank(s@) { None } else { Some(s) },
        None => None,
    }
}

/// Drops a form text that is missing or blank: an empty or whitespace-only field means "none".
pub fn empty_string_as_none(opt: Option<String>) -> (r: Option<String>)
    ensures
        r == blank_as_none(opt),
{
    match opt {
        Some(s) => {
            let t = str_trim(s.as_str());
            if t.is_empty() {
                None
            } else {
                Some(s)
            }
        },
        None => None,
    }
}

/// A category as stored: a main category has no parent, a sub-category names its main one.
/// `created_at` and `updated_at` are UTC timestamps in microseconds since the Unix epoch.
pub struct CategoryResponseDTO {
    pub id: i64,
    pub name_en: String,
    pub name_ar: String,
    pub parent_id: Option<i64>,
    pub notes: Option<String>,
    pub created_at: i64,
    pub updated_at: i64,
}

impl Clone for CategoryResponseDTO {
    fn clone(&self) -> (r: Self)
        ensures
            r == *self,
    {
        CategoryResponseDTO {
            id: self.id,
            name_en: self.name_en.clone(),
            name_ar: self.name_ar.clone(),
            parent_id: self.parent_id,
            notes: match &self.notes {
                Some(n) => Some(n.clone()),
                None => None,
            },
            created_at: self.created_at,
            updated_at: self.updated_at,
        }
    }
}

/// A main category with the sub-categories that name it as their parent.
pub struct CategoryTree {
    pub main: CategoryResponseDTO,
    pub subs: Vec<CategoryResponseDTO>,
}

/// Holds of the categories without a parent.
pub open spec fn is_main() -> spec_fn(CategoryResponseDTO) -> bool {
    |c: CategoryResponseDTO| c.parent_id is None
}

/// Holds of the categories whose parent is `id`.
pub open spec fn is_child_of(id: i64) -> spec_fn(CategoryResponseDTO) -> bool {
    |c: CategoryResponseDTO| c.parent_id == Some(id)
}

/// The main categories of `cs`, in their order.
pub open spec fn main_categories(cs: Seq<CategoryResponseDTO>) -> Seq<CategoryResponseDTO> {
    cs.filter(is_main())
}

/// The categories of `cs` whose parent is `id`, in their order.
pub open spec fn children_of(cs: Seq<CategoryResponseDTO>, id: i64) -> Seq<CategoryResponseDTO> {
    cs.filter(is_child_of(id))
}

/// `trees` is the tree of `cs`: one entry per main category, in order, each with the
/// categories that name it as parent, in order.
pub open spec fn is_tree_of(trees: Seq<CategoryTree>, cs: Seq<CategoryResponseDTO>) -> bool {
    &&& trees.len() == main_categories(cs).len()
    &&& forall|k: int|
        0 <= k < trees.len() ==> {
            &&& #[trigger] trees[k].main == main_categories(cs)[k]
            &&& trees[k].subs@ == children_of(cs, trees[k].main.id)
        }
}

impl CategoryTree {
    /// The categories of `categories` whose parent is `id`, cloned, in their order.
    fn children(categories: &Vec<CategoryResponseDTO>, id: i64) -> (r: Vec<CategoryResponseDTO>)
        ensures
            r@ == children_of(categories@, id),
    {
        let mut r: Vec<CategoryResponseDTO> = Vec::new();
        let n = categories.len();
        let mut j: usize = 0;
        while j < n
            invariant
                n == categories@.len(),
                j <= n,
                r@ == categories@.take(j as int).filter(is_child_of(id)),
            decreases n - j,
        {
            proof {
                categories@.take(j as int).lemma_filter_push(categories@[j as int], is_child_of(id));
                assert(categories@.take(j + 1) == categories@.take(j as int).push(categories@[j as int]));
            }
            let matches = match categories[j].parent_id {
                Some(p) => p == id,
                None => false,
            };
            if matches {
                r.push(categories[j].clone());
            }
            j += 1;
        }
        assert(categories@.take(n as int) == categories@);
        r
    }

    /// Groups categories into a two-level tree: every main category, in order, with the
    /// sub-categories that name it as their parent, in order.
    pub fn build_tree(categories: Vec<CategoryResponseDTO>) -> (trees: Vec<Self>)
        ensures
            is_tree_of(trees@, categories@),
    {
        let mut trees: Vec<CategoryTree> = Vec::new();
        let n = categories.len();
        let mut i: usize = 0;
        while i < n
            invariant
                n == categories@.len(),
                i <= n,
                trees@.len() == main_categories(categories@.take(i as int)).len(),
                forall|k: int|
                    0 <= k < trees@.len() ==> {
                        &&& #[trigger] trees@[k].main == main_categories(categories@.take(i as int))[k]
                        &&& trees@[k].subs@ == children_of(categories@, trees@[k].main.id)
                    },
            decreases n - i,
        {
            proof {
                categories@.take(i as int).lemma_filter_push(categories@[i as int], is_main());
                assert(categories@.take(i + 1) == categories@.take(i as int).push(categories@[i as int]));
            }
            if categories[i].parent_id.is_none() {
                let main = categories[i].clone();
                let subs = Self::children(&categories, main.id);
                trees.push(CategoryTree { main, subs });
            }
            i += 1;
        }
        assert(categories@.take(n as int) == categories@);
        trees
    }
}

/// The message of each field of the category form that breaks a rule; `None` where it holds.
pub struct CategoryFormErrors {
    pub name_ar: Option<String>,
    pub name_en: Option<String>,
    pub parent_name: Option<String>,
    pub notes: Option<String>,
}

/// The messages of a [`CategoryFormErrors`] as character sequences.
pub struct FormErrorsView {
    pub name_ar: Option<Seq<char>>,
    pub name_en: Option<Seq<char>>,
    pub parent_name: Option<Seq<char>>,
    pub notes: Option<Seq<char>>,
}

impl FormErrorsView {
    /// The form is refused: a name or the notes break a rule. A bad parent alone does not
    /// refuse the form.
    pub open spec fn has_errors(self) -> bool {
        self.name_ar is Some || self.name_en is Some || self.notes is Some
    }
}

impl View for CategoryFormErrors {
    type V = FormErrorsView;

    open spec fn view(&self) -> FormErrorsView {
        FormErrorsView {
            name_ar: opt_view(self.name_ar),
            name_en: opt_view(self.name_en),
            parent_name: opt_view(self.parent_name),
            notes: opt_view(self.notes),
        }
    }
}

impl Default for CategoryFormErrors {
    fn default() -> (r: Self)
        ensures
            r.name_ar is None && r.name_en is None && r.parent_name is None && r.notes is None,
    {
        CategoryFormErrors { name_ar: None, name_en: None, parent_name: None, notes: None }
    }
}

impl CategoryFormErrors {
    /// Whether the errors refuse the form: a name or the notes break a rule. The parent is
    /// not counted.
    pub fn has_errors(&self) -> (r: bool)
        ensures
            r == self@.has_errors(),
    {
        self.name_ar.is_some() || self.name_en.is_some() || self.notes.is_some()
    }
}

/// The category form as submitted: both names, the Arabic name of the chosen main category
/// (none for a new main category), and optional notes.
pub struct CategoryFormDTO {
    pub name_ar: String,
    pub name_en: String,
    pub parent_name: Option<String>,
    pub notes: Option<String>,
}

/// The fields of a [`CategoryFormDTO`] as character sequences.
pub struct CategoryFormView {
    pub name_ar: Seq<char>,
    pub name_en: Seq<char>,
    pub parent_name: Option<Seq<char>>,
    pub notes: Option<Seq<char>>,
}

impl CategoryFormView {
    /// Every field with its surrounding whitespace removed.
    pub open spec fn sanitized(self) -> CategoryFormView {
        CategoryFormView {
            name_ar: trim(self.name_ar),
            name_en: trim(self.name_en),
            parent_name: opt_trim(self.parent_name),
            notes: opt_trim(self.notes),
        }
    }
}

impl View for CategoryFormDTO {
    type V = CategoryFormView;

    open spec fn view(&self) -> CategoryFormView {
        CategoryFormView {
            name_ar: self.name_ar@,
            name_en: self.name_en@,
            parent_name: opt_view(self.parent_name),
            notes: opt_view(self.notes),
        }
    }
}

impl Default for CategoryFormDTO {
    fn default() -> (r: Self)
        ensures
            r@ == (CategoryFormView {
                name_ar: Seq::empty(),
                name_en: Seq::empty(),
                parent_name: None,
                notes: None,
            }),
    {
        CategoryFormDTO { name_ar: String::new(), name_en: String::new(), parent_name: None, notes: None }
    }
}

/// The rule on the Arabic name: not blank, at most [`NAME_MAX_CHARS`] characters once trimmed.
pub open spec fn name_ar_rule(name: Seq<char>) -> Option<Seq<char>> {
    if trim(name).len() == 0 {
        Some(NAME_AR_EMPTY@)
    } else if trim(name).len() > NAME_MAX_CHARS {
        Some(NAME_AR_TOO_LONG@)
    } else {
        None
    }
}

/// The rule on the English name: not blank, at most [`NAME_MAX_CHARS`] characters once trimmed.
pub open spec fn name_en_rule(name: Seq<char>) -> Option<Seq<char>> {
    if trim(name).len() == 0 {
        Some(NAME_EN_EMPTY@)
    } else if trim(name).len() > NAME_MAX_CHARS {
        Some(NAME_EN_TOO_LONG@)
    } else {
        None
    }
}

/// The rule on the notes: when given, at most [`NOTES_MAX_CHARS`] characters once trimmed.
pub open spec fn notes_rule(notes: Option<Seq<char>>) -> Option<Seq<char>> {
    match notes {
        Some(n) => if trim(n).len() > NOTES_MAX_CHARS { Some(NOTES_TOO_LONG@) } else { None },
        None => None,
    }
}

/// `name` is the Arabic name of one of the main categories of `tree`.
pub open spec fn names_main_category(tree: Seq<CategoryTree>, name: Seq<char>) -> bool {
    exists|i: int| 0 <= i < tree.len() && #[trigger] tree[i].main.name_ar@ == name
}

/// The rule on the parent: when given, once trimmed, it is the Arabic name of a main category.
pub open spec fn parent_rule(parent: Option<Seq<char>>, tree: Seq<CategoryTree>) -> Option<Seq<char>> {
    match parent {
        Some(p) => if names_main_category(tree, trim(p)) { None } else { Some(PARENT_NOT_MAIN@) },
        None => None,
    }
}

/// Every rule of the category form applied to `form`, against the main categories of `tree`.
pub open spec fn category_form_errors(form: CategoryFormView, tree: Seq<CategoryTree>) -> FormErrorsView {
    FormErrorsView {
        name_ar: name_ar_rule(form.name_ar),
        name_en: name_en_rule(form.name_en),
        parent_name: parent_rule(form.parent_name, tree),
        notes: notes_rule(form.notes),
    }
}

/// The result of validating a form whose rule outcome is `errors`.
pub open spec fn validation_result(r: Result<(), CategoryFormErrors>, errors: FormErrorsView) -> bool {
    match r {
        Ok(()) => !errors.has_errors(),
        Err(e) => e@ == errors && errors.has_errors(),
    }
}

/// The rule on a name, applied to its trimmed text: blank, then too long.
pub(crate) fn check_name(name: &str, empty_message: &str, long_message: &str) -> (r: Option<String>)
    ensures
        opt_view(r) == (if trim(name@).len() == 0 {
            Some(empty_message@)
        } else if trim(name@).len() > NAME_MAX_CHARS {
            Some(long_message@)
        } else {
            None
        }),
{
    let t = str_trim(name);
    if t.is_empty() {
        Some(empty_message.to_string())
    } else if t.unicode_len() > NAME_MAX_CHARS {
        Some(long_message.to_string())
    } else {
        None
    }
}

/// The rule on the notes.
pub(crate) fn check_notes(notes: &Option<String>) -> (r: Option<String>)
    ensures
        opt_view(r) == notes_rule(opt_view(*notes)),
{
    match notes {
        Some(n) => {
            if str_trim(n.as_str()).unicode_len() > NOTES_MAX_CHARS {
                Some(NOTES_TOO_LONG.to_string())
            } else {
                None
            }
        },
        None => None,
    }
}

/// Whether `name` is the Arabic name of a main category of `tree`.
fn is_main_category_name(tree: &[CategoryTree], name: &str) -> (r: bool)
    ensures
        r == names_main_category(tree@, name@),
        r <==> exists|k: int| 0 <= k < tree@.len() && #[trigger] tree@[k].main.name_ar@ == name@,
{
    let n = tree.len();
    let mut i: usize = 0;
    while i < n
        invariant
            n == tree@.len(),
            i <= n,
            forall|k: int| 0 <= k < i ==> #[trigger] tree@[k].main.name_ar@ != name@,
        decreases n - i,
    {
        if str_eq(tree[i].main.name_ar.as_str(), name) {
            return true;
        }
        i += 1;
    }
    false
}

impl CategoryFormDTO {
    /// Removes the surrounding whitespace of every field.
    pub fn sanitize(&mut self)
        ensures
            final(self)@ == old(self)@.sanitized(),
            final(self).name_ar@ == trim(old(self).name_ar@),
            final(self).name_en@ == trim(old(self).name_en@),
            opt_view(final(self).parent_name) == opt_trim(opt_view(old(self).parent_name)),
            opt_view(final(self).notes) == opt_trim(opt_view(old(self).notes)),
    {
        self.name_ar = str_trim(self.name_ar.as_str()).to_string();
        self.name_en = str_trim(self.name_en.as_str()).to_string();
        self.parent_name = match &self.parent_name {
            Some(s) => Some(str_trim(s.as_str()).to_string()),
            None => None,
        };
        self.notes = match &self.notes {
            Some(s) => Some(str_trim(s.as_str()).to_string()),
            None => None,
        };
    }

    /// Checks the form against its rules and the main categories of `category_tree`.
    /// Refused exactly when a name or the notes break a rule; the refusal carries every
    /// message, a bad parent's included.
    pub fn validate(&self, category_tree: &[CategoryTree]) -> (r: Result<(), CategoryFormErrors>)
        ensures
            validation_result(r, category_form_errors(self@, category_tree@)),
    {
        let name_ar = check_name(self.name_ar.as_str(), NAME_AR_EMPTY, NAME_AR_TOO_LONG);
        let name_en = check_name(self.name_en.as_str(), NAME_EN_EMPTY, NAME_EN_TOO_LONG);
        let parent_name = match &self.parent_name {
            Some(p) => {
                if is_main_category_name(category_tree, str_trim(p.as_str())) {
                    None
                } else {
                    Some(PARENT_NOT_MAIN.to_string())
                }
            },
            None => None,
        };
        let notes = check_notes(&self.notes);
        let errors = CategoryFormErrors { name_ar, name_en, parent_name, notes };
        if errors.has_errors() {
            Err(errors)
        } else {
            Ok(())
        }
    }
}

/// The flash parameters of a redirect: what was done, or what went wrong.
pub struct FlashParams {
    pub action: Option<String>,
    pub error: Option<String>,
}

/// The query of the live category search.
pub struct CategorySearchQuery {
    pub q: String,
}

/// The parent rule consults every entry of the tree: a parent whose trimmed text is the Arabic
/// name of the main category of any entry gets no parent message, and one that is the name of
/// none of them gets [`PARENT_NOT_MAIN`]; a form without a parent gets none.
pub proof fn lemma_parent_rule(form: CategoryFormView, tree: Seq<CategoryTree>, p: Seq<char>, k: int)
    ensures
        form.parent_name is None ==> category_form_errors(form, tree).parent_name is None,
        form.parent_name == Some(p) && 0 <= k < tree.len() && tree[k].main.name_ar@ == trim(p)
            ==> category_form_errors(form, tree).parent_name is None,
        form.parent_name == Some(p) && (forall|i: int| 0 <= i < tree.len() ==> #[trigger] tree[i].main.name_ar@ != trim(p))
            ==> category_form_errors(form, tree).parent_name == Some(PARENT_NOT_MAIN@),
{
}

/// Sanitizing trims each field of the category form and nothing else: both names, and the
/// parent and notes when given.
pub proof fn lemma_sanitized_fields(form: CategoryFormView)
    ensures
        form.sanitized().name_ar == trim(form.name_ar),
        form.sanitized().name_en == trim(form.name_en),
        form.parent_name is None ==> form.sanitized().parent_name is None,
        form.parent_name matches Some(p) ==> form.sanitized().parent_name == Some(trim(p)),
        form.notes is None ==> form.sanitized().notes is None,
        form.notes matches Some(n) ==> form.sanitized().notes == Some(trim(n)),
{
}

/// Sanitizing a sanitized form changes nothing.
pub proof fn lemma_sanitize_idempotent(form: CategoryFormView)
    ensures
        form.sanitized().sanitized() == form.sanitized(),
{
    lemma_trim_idempotent(form.name_ar);
    lemma_trim_idempotent(form.name_en);
    if let Some(p) = form.parent_name {
        lemma_trim_idempotent(p);
    }
    if let Some(n) = form.notes {
        lemma_trim_idempotent(n);
    }
}

/// The rules judge a form by its trimmed fields: a sanitized form breaks exactly the rules
/// that the form as submitted breaks, with the same messages.
pub proof fn lemma_rules_ignore_surrounding_whitespace(form: CategoryFormView, tree: Seq<CategoryTree>)
    ensures
        category_form_errors(form.sanitized(), tree) == category_form_errors(form, tree),
{
    lemma_trim_idempotent(form.name_ar);
    lemma_trim_idempotent(form.name_en);
    if let Some(p) = form.parent_name {
        lemma_trim_idempotent(p);
    }
    if let Some(n) = form.notes {
        lemma_trim_idempotent(n);
    }
}

/// A blank-dropping pass over its own result changes nothing, and what it keeps is not blank.
pub proof fn lemma_blank_as_none(opt: Option<String>)
    ensures
        blank_as_none(blank_as_none(opt)) == blank_as_none(opt),
        blank_as_none(opt) matches Some(s) ==> !is_blank(s@) && opt == Some(s),
{
}

/// In the tree of a list of categories, every main category has no parent, and every
/// sub-category listed under a main one names it as its parent.
pub proof fn lemma_tree_parents(trees: Seq<CategoryTree>, cs: Seq<CategoryResponseDTO>, k: int, j: int)
    requires
        is_tree_of(trees, cs),
        0 <= k < trees.len(),
    ensures
        trees[k].main.parent_id is None,
        cs.contains(trees[k].main),
        0 <= j < trees[k].subs@.len() ==> trees[k].subs@[j].parent_id == Some(trees[k].main.id)
            && cs.contains(trees[k].subs@[j]),
{
    cs.lemma_filter_pred(is_main(), k);
    assert(trees[k].main == main_categories(cs)[k]);
    assert(main_categories(cs).contains(main_categories(cs)[k]));
    cs.lemma_filter_contains_rev(is_main(), trees[k].main);
    if 0 <= j < trees[k].subs@.len() {
        let children = children_of(cs, trees[k].main.id);
        cs.lemma_filter_pred(is_child_of(trees[k].main.id), j);
        assert(children.contains(children[j]));
        cs.lemma_filter_contains_rev(is_child_of(trees[k].main.id), trees[k].subs@[j]);
    }
}

/// The tree of a list of categories leaves none out: every category without a parent is the
/// main category of an entry, and every category whose parent is the main category of an
/// entry is listed under it.
pub proof fn lemma_tree_complete(trees: Seq<CategoryTree>, cs: Seq<CategoryResponseDTO>, c: CategoryResponseDTO)
    requires
        is_tree_of(trees, cs),
        cs.contains(c),
    ensures
        c.parent_id is None ==> exists|k: int| 0 <= k < trees.len() && #[trigger] trees[k].main == c,
        forall|k: int|
            0 <= k < trees.len() && c.parent_id == Some(#[trigger] trees[k].main.id)
                ==> trees[k].subs@.contains(c),
{
    let i = choose|i: int| 0 <= i < cs.len() && cs[i] == c;
    if c.parent_id is None {
        cs.lemma_filter_contains(is_main(), i);
        let k = choose|k: int| 0 <= k < main_categories(cs).len() && main_categories(cs)[k] == c;
        assert(trees[k].main == c);
    }
    assert forall|k: int|
        0 <= k < trees.len() && c.parent_id == Some(#[trigger] trees[k].main.id)
            implies trees[k].subs@.contains(c) by {
        cs.lemma_filter_contains(is_child_of(trees[k].main.id), i);
    }
}

} // verus!
