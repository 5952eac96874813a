//! Shared recipe types: ingredients, results and cooking types.

use vstd::prelude::*;
use vstd::string::*;

use crate::error::{SandError, SandErrorView, view_unit_result};
use crate::json::{
    Json, JsonValue, clone_entries, lemma_view_entries_empty, lemma_view_values_empty, push_entry,
    push_opt, push_opt_entry, push_value, view_entries, view_json, view_values,
};
use crate::registry::{ItemKind, RegistryId, TagId};
use crate::resource_location::{ResourceLocation, ResourceLocationView};
use crate::text::{field, indexed, owned, push_char, spec_field, spec_indexed};
use crate::validation::spec_component_error;
pub use crate::version::ComponentFeature;

verus! {

/// Converts a validated item identifier into the item ID a recipe names.
pub trait IntoRecipeItemId: Sized {
    /// The identifier this value resolves to.
    spec fn spec_recipe_item_id(&self) -> ResourceLocationView;

    /// Resolves the value to the item ID written in the recipe.
    fn into_recipe_item_id(self) -> (r: RegistryId<ItemKind>)
        ensures
            r@ == self.spec_recipe_item_id(),
    ;
}

impl IntoRecipeItemId for RegistryId<ItemKind> {
    open spec fn spec_recipe_item_id(&self) -> ResourceLocationView {
        self@
    }

    fn into_recipe_item_id(self) -> (r: RegistryId<ItemKind>) {
        self
    }
}

impl IntoRecipeItemId for ResourceLocation {
    open spec fn spec_recipe_item_id(&self) -> ResourceLocationView {
        self@
    }

    fn into_recipe_item_id(self) -> (r: RegistryId<ItemKind>) {
        RegistryId::custom(self)
    }
}

/// The abstract value of an [`Ingredient`].
pub struct IngredientView {
    pub item: Option<Seq<char>>,
    pub tag: Option<Seq<char>>,
    pub alternatives: Seq<IngredientView>,
}

/// A recipe ingredient: an item ID, an item tag, or a list of alternatives.
#[derive(Debug)]
pub struct Ingredient {
    item: Option<String>,
    tag: Option<String>,
    alternatives: Vec<Ingredient>,
}

/// The abstract text of an optional string.
pub open spec fn opt_view(o: Option<String>) -> Option<Seq<char>> {
    match o {
        Some(s) => Some(s@),
        None => None,
    }
}

/// The abstract value of an ingredient.
pub closed spec fn view_ingredient(i: Ingredient) -> IngredientView
    decreases i,
{
    IngredientView {
        item: opt_view(i.item),
        tag: opt_view(i.tag),
        alternatives: view_ingredients(i.alternatives@),
    }
}

/// The abstract values of a sequence of ingredients.
pub closed spec fn view_ingredients(s: Seq<Ingredient>) -> Seq<IngredientView>
    decreases s,
{
    if s.len() == 0 {
        Seq::empty()
    } else {
        view_ingredients(s.drop_last()).push(view_ingredient(s.last()))
    }
}

impl View for Ingredient {
    type V = IngredientView;

    open spec fn view(&self) -> IngredientView {
        view_ingredient(*self)
    }
}

/// The abstract values of a sequence of ingredients are its elements' views.
pub proof fn lemma_view_ingredients(s: Seq<Ingredient>)
    ensures
        view_ingredients(s).len() == s.len(),
        forall|k: int| 0 <= k < s.len() ==> #[trigger] view_ingredients(s)[k] == s[k]@,
    decreases s.len(),
{
    if s.len() > 0 {
        lemma_view_ingredients(s.drop_last());
        assert forall|k: int| 0 <= k < s.len() implies #[trigger] view_ingredients(s)[k] == s[k]@ by {
            if k < s.len() - 1 {
                assert(s.drop_last()[k] == s[k]);
            }
        }
    }
}

/// Whether an ingredient has no item, no tag, and only empty alternatives.
pub open spec fn spec_is_empty(v: IngredientView) -> bool
    decreases v, 1int,
{
    v.item is None && v.tag is None && spec_all_empty(v.alternatives)
}

/// Whether every ingredient of `s` is empty.
pub open spec fn spec_all_empty(s: Seq<IngredientView>) -> bool
    decreases s, 0int,
{
    if s.len() == 0 {
        true
    } else {
        spec_is_empty(s[0]) && spec_all_empty(s.drop_first())
    }
}

/// The number of forms (item, tag, alternatives) an ingredient uses.
pub open spec fn spec_forms(v: IngredientView) -> int {
    (if v.item is Some { 1int } else { 0int }) + (if v.tag is Some { 1int } else { 0int }) + (
    if v.alternatives.len() > 0 {
        1int
    } else {
        0int
    })
}

/// A recipe validation error of the component at `location`.
pub open spec fn recipe_error(location: ResourceLocationView, field: Seq<char>, message: Seq<char>) -> Result<
    (),
    SandErrorView,
> {
    Err(spec_component_error(location, "recipe"@, field, message))
}

/// The first failure of an ingredient at `field`: exactly one form, no empty
/// item or tag ID, not empty, then each alternative in order.
pub open spec fn spec_ingredient_check(
    v: IngredientView,
    location: ResourceLocationView,
    field: Seq<char>,
) -> Result<(), SandErrorView>
    decreases v, 1int,
{
    if spec_forms(v) > 1 {
        recipe_error(location, field, "ingredient must use exactly one of item, tag, or alternatives"@)
    } else if v.item matches Some(s) && s.len() == 0 {
        recipe_error(location, field, "ingredient item id must not be empty"@)
    } else if v.tag matches Some(s) && s.len() == 0 {
        recipe_error(location, field, "ingredient tag id must not be empty"@)
    } else if spec_forms(v) == 0 {
        recipe_error(location, field, "ingredient must not be empty"@)
    } else {
        spec_ingredient_list_check(v.alternatives, location, spec_field(field, "alternatives"@), 0)
    }
}

/// The first failure among ingredients `s`, indexed from `offset` under `prefix`.
pub open spec fn spec_ingredient_list_check(
    s: Seq<IngredientView>,
    location: ResourceLocationView,
    prefix: Seq<char>,
    offset: nat,
) -> Result<(), SandErrorView>
    decreases s, 0int,
{
    if s.len() == 0 {
        Ok(())
    } else {
        match spec_ingredient_check(s[0], location, spec_indexed(prefix, offset)) {
            Ok(()) => spec_ingredient_list_check(s.drop_first(), location, prefix, offset + 1),
            Err(e) => Err(e),
        }
    }
}

/// Whether an ingredient can be written as JSON: non-empty alternatives that
/// can all be written, or else an item or a tag.
pub open spec fn spec_serializable(v: IngredientView) -> bool
    decreases v, 1int,
{
    if v.alternatives.len() > 0 {
        spec_all_serializable(v.alternatives)
    } else {
        v.item is Some || v.tag is Some
    }
}

/// Whether every ingredient of `s` can be written as JSON.
pub open spec fn spec_all_serializable(s: Seq<IngredientView>) -> bool
    decreases s, 0int,
{
    if s.len() == 0 {
        true
    } else {
        spec_serializable(s[0]) && spec_all_serializable(s.drop_first())
    }
}

/// The JSON of an ingredient: an array of its alternatives, else the item ID,
/// else the tag ID prefixed with `#`.
pub open spec fn spec_ingredient_json(v: IngredientView) -> Json
    decreases v, 1int,
{
    if v.alternatives.len() > 0 {
        Json::Array(spec_ingredients_json(v.alternatives))
    } else {
        match (v.item, v.tag) {
            (Some(s), _) => Json::Str(s),
            (None, Some(t)) => Json::Str(seq!['#'] + t),
            (None, None) => Json::Null,
        }
    }
}

/// The JSON of each ingredient, in order.
pub open spec fn spec_ingredients_json(s: Seq<IngredientView>) -> Seq<Json>
    decreases s, 0int,
{
    if s.len() == 0 {
        Seq::empty()
    } else {
        spec_ingredients_json(s.drop_last()).push(spec_ingredient_json(s.last()))
    }
}


/// `spec_all_empty` holds exactly when each ingredient is empty.
pub proof fn lemma_all_empty(s: Seq<IngredientView>)
    ensures
        spec_all_empty(s) <==> forall|k: int| 0 <= k < s.len() ==> #[trigger] spec_is_empty(s[k]),
    decreases s.len(),
{
    if s.len() > 0 {
        let t = s.drop_first();
        lemma_all_empty(t);
        assert(forall|k: int| 0 <= k < t.len() ==> t[k] == s[k + 1]);
        if forall|k: int| 0 <= k < s.len() ==> #[trigger] spec_is_empty(s[k]) {
            assert(spec_is_empty(s[0]));
            assert forall|k: int| 0 <= k < t.len() implies #[trigger] spec_is_empty(t[k]) by {
                assert(spec_is_empty(s[k + 1]));
            }
        }
        if spec_all_empty(s) {
            assert forall|k: int| 0 <= k < s.len() implies #[trigger] spec_is_empty(s[k]) by {
                if k > 0 {
                    assert(t[k - 1] == s[k]);
                    assert(spec_is_empty(t[k - 1]));
                }
            }
        }
    }
}

/// `spec_all_serializable` holds exactly when each ingredient can be written.
pub proof fn lemma_all_serializable(s: Seq<IngredientView>)
    ensures
        spec_all_serializable(s) <==> forall|k: int|
            0 <= k < s.len() ==> #[trigger] spec_serializable(s[k]),
    decreases s.len(),
{
    if s.len() > 0 {
        let t = s.drop_first();
        lemma_all_serializable(t);
        assert(forall|k: int| 0 <= k < t.len() ==> t[k] == s[k + 1]);
        if forall|k: int| 0 <= k < s.len() ==> #[trigger] spec_serializable(s[k]) {
            assert(spec_serializable(s[0]));
            assert forall|k: int| 0 <= k < t.len() implies #[trigger] spec_serializable(t[k]) by {
                assert(spec_serializable(s[k + 1]));
            }
        }
        if spec_all_serializable(s) {
            assert forall|k: int| 0 <= k < s.len() implies #[trigger] spec_serializable(s[k]) by {
                if k > 0 {
                    assert(t[k - 1] == s[k]);
                    assert(spec_serializable(t[k - 1]));
                }
            }
        }
    }
}

/// An ingredient that passes validation can be written as JSON.
pub proof fn lemma_valid_ingredient_serializable(
    v: IngredientView,
    location: ResourceLocationView,
    field: Seq<char>,
)
    requires
        spec_ingredient_check(v, location, field) is Ok,
    ensures
        spec_serializable(v),
    decreases v, 1int,
{
    if v.alternatives.len() > 0 {
        lemma_valid_list_serializable(
            v.alternatives,
            location,
            spec_field(field, "alternatives"@),
            0,
        );
    }
}

/// Ingredients that pass validation can all be written as JSON.
pub proof fn lemma_valid_list_serializable(
    s: Seq<IngredientView>,
    location: ResourceLocationView,
    prefix: Seq<char>,
    offset: nat,
)
    requires
        spec_ingredient_list_check(s, location, prefix, offset) is Ok,
    ensures
        spec_all_serializable(s),
    decreases s, 0int,
{
    if s.len() > 0 {
        lemma_valid_ingredient_serializable(s[0], location, spec_indexed(prefix, offset));
        lemma_valid_list_serializable(s.drop_first(), location, prefix, offset + 1);
    }
}

impl Ingredient {
    /// An item ingredient from a validated item identifier.
    pub fn item_id<T: IntoRecipeItemId>(id: T) -> (r: Self)
        ensures
            r@ == (IngredientView {
                item: Some(id.spec_recipe_item_id().text()),
                tag: None,
                alternatives: Seq::empty(),
            }),
    {
        let id = id.into_recipe_item_id();
        Self::raw_item(id.to_string().as_str())
    }

    /// An item-tag ingredient from a typed item tag.
    pub fn item_tag(id: TagId<RegistryId<ItemKind>>) -> (r: Self)
        ensures
            r@ == (IngredientView { item: None, tag: Some(id@.text()), alternatives: Seq::empty() }),
    {
        Self::raw_tag(id.to_string().as_str())
    }

    /// An item ingredient from unchecked text (checked at export validation).
    pub fn raw_item(id: &str) -> (r: Self)
        ensures
            r@ == (IngredientView { item: Some(id@), tag: None, alternatives: Seq::empty() }),
    {
        let r = Ingredient { item: Some(owned(id)), tag: None, alternatives: Vec::new() };
        assert(view_ingredients(r.alternatives@) =~= Seq::empty());
        r
    }

    /// An item-tag ingredient from unchecked text (written with a leading `#`).
    pub fn raw_tag(id: &str) -> (r: Self)
        ensures
            r@ == (IngredientView { item: None, tag: Some(id@), alternatives: Seq::empty() }),
    {
        let r = Ingredient { item: None, tag: Some(owned(id)), alternatives: Vec::new() };
        assert(view_ingredients(r.alternatives@) =~= Seq::empty());
        r
    }

    /// An item ingredient from unchecked text.
    pub fn item(id: &str) -> (r: Self)
        ensures
            r@ == (IngredientView { item: Some(id@), tag: None, alternatives: Seq::empty() }),
    {
        Self::raw_item(id)
    }

    /// An item-tag ingredient from unchecked text.
    pub fn tag(id: &str) -> (r: Self)
        ensures
            r@ == (IngredientView { item: None, tag: Some(id@), alternatives: Seq::empty() }),
    {
        Self::raw_tag(id)
    }

    /// An ingredient matched by any of `alternatives`.
    pub fn alternatives(alternatives: Vec<Ingredient>) -> (r: Self)
        ensures
            r@ == (IngredientView {
                item: None,
                tag: None,
                alternatives: alternatives@.map_values(|i: Ingredient| i@),
            }),
    {
        let r = Ingredient { item: None, tag: None, alternatives };
        proof {
            lemma_view_ingredients(r.alternatives@);
            assert(view_ingredients(r.alternatives@) =~= r.alternatives@.map_values(
                |i: Ingredient| i@,
            ));
        }
        r
    }

    /// The empty ingredient: no item, tag or alternatives.
    pub(crate) fn empty() -> (r: Self)
        ensures
            r@ == (IngredientView { item: None, tag: None, alternatives: Seq::empty() }),
    {
        let r = Ingredient { item: None, tag: None, alternatives: Vec::new() };
        assert(view_ingredients(r.alternatives@) =~= Seq::empty());
        r
    }

    /// Whether this ingredient has no item, no tag, and only empty alternatives.
    pub fn is_empty(&self) -> (r: bool)
        ensures
            r == spec_is_empty(self@),
        decreases self,
    {
        if self.item.is_some() || self.tag.is_some() {
            return false;
        }
        proof {
            lemma_view_ingredients(self.alternatives@);
            lemma_all_empty(self@.alternatives);
        }
        let mut i: usize = 0;
        while i < self.alternatives.len()
            invariant
                i <= self.alternatives.len(),
                self@.alternatives == view_ingredients(self.alternatives@),
                self@.item is None && self@.tag is None,
                spec_all_empty(self@.alternatives) <==> forall|k: int|
                    0 <= k < self@.alternatives.len() ==> #[trigger] spec_is_empty(
                        self@.alternatives[k],
                    ),
                view_ingredients(self.alternatives@).len() == self.alternatives@.len(),
                forall|k: int|
                    0 <= k < self.alternatives@.len() ==> #[trigger] view_ingredients(
                        self.alternatives@,
                    )[k] == self.alternatives@[k]@,
                forall|k: int| 0 <= k < i ==> #[trigger] spec_is_empty(self@.alternatives[k]),
            decreases self.alternatives.len() - i,
        {
            assert(decreases_to!(self => self.alternatives@[i as int]));
            if !self.alternatives[i].is_empty() {
                assert(!spec_is_empty(self@.alternatives[i as int]));
                return false;
            }
            i = i + 1;
        }
        true
    }

    /// Validates this ingredient at `field` of the recipe at `location`.
    pub fn validate_at(&self, location: &ResourceLocation, field: &str) -> (r: Result<(), SandError>)
        ensures
            view_unit_result(r) == spec_ingredient_check(self@, location@, field@),
        decreases self,
    {
        let forms: u8 = (if self.item.is_some() { 1u8 } else { 0u8 }) + (if self.tag.is_some() {
            1u8
        } else {
            0u8
        }) + (if self.alternatives.len() > 0 {
            1u8
        } else {
            0u8
        });
        proof {
            lemma_view_ingredients(self.alternatives@);
        }
        if forms > 1 {
            return Err(
                SandError::component(
                    location,
                    "recipe",
                    field,
                    "ingredient must use exactly one of item, tag, or alternatives",
                ),
            );
        }
        if let Some(item) = &self.item {
            if item.unicode_len() == 0 {
                return Err(
                    SandError::component(
                        location,
                        "recipe",
                        field,
                        "ingredient item id must not be empty",
                    ),
                );
            }
        }
        if let Some(tag) = &self.tag {
            if tag.unicode_len() == 0 {
                return Err(
                    SandError::component(location, "recipe", field, "ingredient tag id must not be empty"),
                );
            }
        }
        if forms == 0 {
            return Err(SandError::component(location, "recipe", field, "ingredient must not be empty"));
        }
        let prefix = crate::text::field(field, "alternatives");
        let ghost alts = self@.alternatives;
        let mut i: usize = 0;
        assert(alts.subrange(0, alts.len() as int) =~= alts);
        while i < self.alternatives.len()
            invariant
                i <= self.alternatives.len(),
                alts == view_ingredients(self.alternatives@),
                alts.len() == self.alternatives@.len(),
                spec_ingredient_check(self@, location@, field@) == spec_ingredient_list_check(
                    alts,
                    location@,
                    prefix@,
                    0,
                ),
                forall|k: int|
                    0 <= k < self.alternatives@.len() ==> #[trigger] alts[k]
                        == self.alternatives@[k]@,
                spec_ingredient_list_check(alts, location@, prefix@, 0) == spec_ingredient_list_check(
                    alts.subrange(i as int, alts.len() as int),
                    location@,
                    prefix@,
                    i as nat,
                ),
            decreases self.alternatives.len() - i,
        {
            let ghost rest = alts.subrange(i as int, alts.len() as int);
            assert(rest[0] == self.alternatives@[i as int]@);
            assert(rest.drop_first() =~= alts.subrange(i + 1, alts.len() as int));
            assert(decreases_to!(self => self.alternatives@[i as int]));
            self.alternatives[i].validate_at(location, indexed(prefix.as_str(), i).as_str())?;
            i = i + 1;
        }
        Ok(())
    }

    /// The JSON of this ingredient.
    pub fn to_json(&self) -> (r: JsonValue)
        requires
            spec_serializable(self@),
        ensures
            view_json(r) == spec_ingredient_json(self@),
        decreases self,
    {
        proof {
            lemma_view_ingredients(self.alternatives@);
        }
        if self.alternatives.len() > 0 {
            let ghost alts = self@.alternatives;
            proof {
                lemma_all_serializable(alts);
                lemma_view_values_empty();
            }
            let mut out: Vec<JsonValue> = Vec::new();
            let mut i: usize = 0;
            assert(alts.subrange(0, 0) =~= Seq::<IngredientView>::empty());
            while i < self.alternatives.len()
                invariant
                    i <= self.alternatives.len(),
                    alts == view_ingredients(self.alternatives@),
                    alts.len() == self.alternatives@.len(),
                    forall|k: int|
                        0 <= k < self.alternatives@.len() ==> #[trigger] alts[k]
                            == self.alternatives@[k]@,
                    forall|k: int| 0 <= k < alts.len() ==> #[trigger] spec_serializable(alts[k]),
                    view_values(out@) == spec_ingredients_json(alts.subrange(0, i as int)),
                decreases self.alternatives.len() - i,
            {
                assert(decreases_to!(self => self.alternatives@[i as int]));
                assert(spec_serializable(alts[i as int]));
                push_value(&mut out, self.alternatives[i].to_json());
                assert(alts.subrange(0, i + 1).drop_last() =~= alts.subrange(0, i as int));
                i = i + 1;
            }
            assert(alts.subrange(0, alts.len() as int) =~= alts);
            JsonValue::Array(out)
        } else if let Some(item) = &self.item {
            JsonValue::Str(item.clone())
        } else {
            match &self.tag {
                Some(t) => {
                    let mut s = String::new();
                    push_char(&mut s, '#');
                    s.append(t.as_str());
                    assert(s@ =~= seq!['#'] + t@);
                    JsonValue::Str(s)
                },
                None => JsonValue::Null,
            }
        }
    }
}


/// The abstract value of a [`RecipeResult`].
pub struct RecipeResultView {
    pub id: Seq<char>,
    pub count: u32,
    pub components: Seq<(Seq<char>, Json)>,
}

/// The output of a recipe: an item ID, a count, and the data components a
/// component-bearing result carries.
#[derive(Debug)]
pub struct RecipeResult {
    pub id: String,
    pub count: u32,
    components: Vec<(String, JsonValue)>,
}

impl View for RecipeResult {
    type V = RecipeResultView;

    closed spec fn view(&self) -> RecipeResultView {
        RecipeResultView {
            id: self.id@,
            count: self.count,
            components: view_entries(self.components@),
        }
    }
}

/// The first failure of a recipe result at `field`: an empty item ID, then a
/// zero count.
pub open spec fn spec_result_check(
    v: RecipeResultView,
    location: ResourceLocationView,
    field: Seq<char>,
) -> Result<(), SandErrorView> {
    if v.id.len() == 0 {
        recipe_error(location, spec_field(field, "id"@), "recipe result item id must not be empty"@)
    } else if v.count == 0 {
        recipe_error(location, spec_field(field, "count"@), "recipe result count must be at least 1"@)
    } else {
        Ok(())
    }
}

/// The JSON of a recipe result: `id`, `count`, and a `components` object
/// when there are any.
pub open spec fn spec_result_json(v: RecipeResultView) -> Json {
    Json::Object(
        push_opt(
            seq![("id"@, Json::Str(v.id)), ("count"@, Json::Int(v.count as int))],
            "components"@,
            if v.components.len() == 0 {
                None
            } else {
                Some(Json::Object(v.components))
            },
        ),
    )
}

/// The features a recipe with this result needs.
pub open spec fn spec_result_features(v: RecipeResultView) -> Seq<ComponentFeature> {
    if v.components.len() == 0 {
        Seq::empty()
    } else {
        seq![ComponentFeature::ItemComponents]
    }
}

impl RecipeResult {
    /// A result from a validated item identifier.
    pub fn item<T: IntoRecipeItemId>(id: T, count: u32) -> (r: Self)
        ensures
            r@ == (RecipeResultView {
                id: id.spec_recipe_item_id().text(),
                count,
                components: Seq::empty(),
            }),
    {
        let id = id.into_recipe_item_id();
        Self::raw(id.to_string().as_str(), count)
    }

    /// A result from unchecked text.
    pub fn raw(id: &str, count: u32) -> (r: Self)
        ensures
            r@ == (RecipeResultView { id: id@, count, components: Seq::empty() }),
    {
        proof {
            lemma_view_entries_empty();
        }
        RecipeResult { id: owned(id), count, components: Vec::new() }
    }

    /// A result from unchecked text.
    pub fn new(id: &str, count: u32) -> (r: Self)
        ensures
            r@ == (RecipeResultView { id: id@, count, components: Seq::empty() }),
    {
        Self::raw(id, count)
    }

    /// A component-bearing result: an item stack's ID and data components,
    /// with `count`.
    pub fn from_components(id: &str, components: Vec<(String, JsonValue)>, count: u32) -> (r: Self)
        ensures
            r@ == (RecipeResultView { id: id@, count, components: view_entries(components@) }),
    {
        RecipeResult { id: owned(id), count, components }
    }

    /// The placeholder result of a new recipe: an empty ID and a count of 1.
    pub(crate) fn empty() -> (r: Self)
        ensures
            r@ == (RecipeResultView { id: Seq::empty(), count: 1, components: Seq::empty() }),
    {
        proof {
            lemma_view_entries_empty();
        }
        RecipeResult { id: String::new(), count: 1, components: Vec::new() }
    }

    /// Whether this result carries data components.
    pub fn has_components(&self) -> (r: bool)
        ensures
            r == (self@.components.len() > 0),
    {
        proof {
            crate::json::lemma_view_entries_len(self.components@);
        }
        self.components.len() > 0
    }

    /// Validates this result at `field` of the recipe at `location`.
    pub fn validate_at(&self, location: &ResourceLocation, field: &str) -> (r: Result<(), SandError>)
        ensures
            view_unit_result(r) == spec_result_check(self@, location@, field@),
    {
        if self.id.unicode_len() == 0 {
            return Err(
                SandError::component(
                    location,
                    "recipe",
                    crate::text::field(field, "id").as_str(),
                    "recipe result item id must not be empty",
                ),
            );
        }
        if self.count == 0 {
            return Err(
                SandError::component(
                    location,
                    "recipe",
                    crate::text::field(field, "count").as_str(),
                    "recipe result count must be at least 1",
                ),
            );
        }
        Ok(())
    }

    /// The JSON of this result.
    pub fn to_json(&self) -> (r: JsonValue)
        ensures
            view_json(r) == spec_result_json(self@),
    {
        let mut m: Vec<(String, JsonValue)> = Vec::new();
        proof {
            lemma_view_entries_empty();
            crate::json::lemma_view_entries_len(self.components@);
        }
        push_entry(&mut m, "id", JsonValue::Str(self.id.clone()));
        push_entry(&mut m, "count", JsonValue::Int(self.count as i64));
        assert(view_entries(m@) =~= seq![
            ("id"@, Json::Str(self@.id)),
            ("count"@, Json::Int(self@.count as int)),
        ]);
        let c = if self.components.len() == 0 {
            None
        } else {
            Some(JsonValue::Object(clone_entries(&self.components)))
        };
        push_opt_entry(&mut m, "components", c);
        JsonValue::Object(m)
    }

    /// The version features a recipe with this result needs.
    pub fn required_features(&self) -> (r: Vec<ComponentFeature>)
        ensures
            r@ == spec_result_features(self@),
    {
        let mut v: Vec<ComponentFeature> = Vec::new();
        if self.has_components() {
            v.push(ComponentFeature::ItemComponents);
        }
        assert(v@ =~= spec_result_features(self@));
        v
    }
}

/// The kind of cooking recipe.
#[derive(Debug, Clone, Copy, PartialEq, Eq)]
pub enum CookingType {
    Smelting,
    Blasting,
    Smoking,
    CampfireCooking,
}

/// The recipe type identifier of a cooking type.
pub open spec fn spec_cooking_type_str(t: CookingType) -> Seq<char> {
    match t {
        CookingType::Smelting => "minecraft:smelting"@,
        CookingType::Blasting => "minecraft:blasting"@,
        CookingType::Smoking => "minecraft:smoking"@,
        CookingType::CampfireCooking => "minecraft:campfire_cooking"@,
    }
}

impl CookingType {
    /// The recipe type identifier.
    pub fn type_str(&self) -> (r: &'static str)
        ensures
            r@ == spec_cooking_type_str(*self),
    {
        match self {
            CookingType::Smelting => "minecraft:smelting",
            CookingType::Blasting => "minecraft:blasting",
            CookingType::Smoking => "minecraft:smoking",
            CookingType::CampfireCooking => "minecraft:campfire_cooking",
        }
    }
}


/// An optional string field.
pub open spec fn opt_str_json(o: Option<Seq<char>>) -> Option<Json> {
    match o {
        Some(s) => Some(Json::Str(s)),
        None => None,
    }
}

/// Appends `key: o` to an object under construction when `o` is set.
pub fn push_opt_str(m: &mut Vec<(String, JsonValue)>, key: &str, o: &Option<String>)
    ensures
        view_entries(final(m)@) == push_opt(view_entries(old(m)@), key@, opt_str_json(opt_view(*o))),
{
    let v = match o {
        Some(s) => Some(JsonValue::Str(s.clone())),
        None => None,
    };
    push_opt_entry(m, key, v);
}

/// A recipe validation error of the component at `location`.
pub fn validation(location: &ResourceLocation, field: &str, message: &str) -> (r: SandError)
    ensures
        Err::<(), SandErrorView>(r@) == recipe_error(location@, field@, message@),
{
    SandError::component(location, "recipe", field, message)
}


/// Validates each ingredient of `v` at `prefix[i]`, in order.
pub fn check_ingredient_list(v: &Vec<Ingredient>, location: &ResourceLocation, prefix: &str) -> (r:
    Result<(), SandError>)
    ensures
        view_unit_result(r) == spec_ingredient_list_check(
            v@.map_values(|i: Ingredient| i@),
            location@,
            prefix@,
            0,
        ),
{
    let ghost s = v@.map_values(|i: Ingredient| i@);
    let n = v.len();
    let mut i: usize = 0;
    assert(s.subrange(0, n as int) =~= s);
    while i < n
        invariant
            i <= n,
            n == s.len(),
            s == v@.map_values(|i: Ingredient| i@),
            spec_ingredient_list_check(s, location@, prefix@, 0) == spec_ingredient_list_check(
                s.subrange(i as int, n as int),
                location@,
                prefix@,
                i as nat,
            ),
        decreases n - i,
    {
        let ghost rest = s.subrange(i as int, n as int);
        assert(rest[0] == v@[i as int]@);
        assert(rest.drop_first() =~= s.subrange(i + 1, n as int));
        v[i].validate_at(location, indexed(prefix, i).as_str())?;
        i = i + 1;
    }
    Ok(())
}

/// The JSON array of the ingredients of `v`; each must be writable.
pub fn ingredient_list_json(v: &Vec<Ingredient>) -> (r: JsonValue)
    requires
        spec_all_serializable(v@.map_values(|i: Ingredient| i@)),
    ensures
        view_json(r) == Json::Array(spec_ingredients_json(v@.map_values(|i: Ingredient| i@))),
{
    let ghost s = v@.map_values(|i: Ingredient| i@);
    proof {
        lemma_all_serializable(s);
        lemma_view_values_empty();
    }
    let mut out: Vec<JsonValue> = Vec::new();
    let mut i: usize = 0;
    assert(s.subrange(0, 0) =~= Seq::<IngredientView>::empty());
    while i < v.len()
        invariant
            i <= v.len(),
            s == v@.map_values(|i: Ingredient| i@),
            forall|k: int| 0 <= k < s.len() ==> #[trigger] spec_serializable(s[k]),
            view_values(out@) == spec_ingredients_json(s.subrange(0, i as int)),
        decreases v.len() - i,
    {
        assert(spec_serializable(s[i as int]));
        push_value(&mut out, v[i].to_json());
        assert(s.subrange(0, i + 1).drop_last() =~= s.subrange(0, i as int));
        i = i + 1;
    }
    assert(s.subrange(0, s.len() as int) =~= s);
    JsonValue::Array(out)
}

} // verus!

verus! {

/// Whether `r` passes, or fails with a recipe validation error of the
/// component at `location`.
pub open spec fn spec_recipe_result(r: Result<(), SandErrorView>, location: ResourceLocationView) -> bool {
    r matches Err(e) ==> e matches SandErrorView::ComponentValidation { location: l, kind, .. } && l
        == location && kind == "recipe"@
}

/// What an ingredient must satisfy to pass at `field`: exactly one form,
/// no empty item or tag ID, and every alternative passing at its path.
pub open spec fn spec_ingredient_valid(
    v: IngredientView,
    location: ResourceLocationView,
    field: Seq<char>,
) -> bool {
    &&& spec_forms(v) == 1
    &&& (v.item matches Some(s) ==> s.len() > 0)
    &&& (v.tag matches Some(s) ==> s.len() > 0)
    &&& forall|k: int|
        #![trigger v.alternatives[k]]
        0 <= k < v.alternatives.len() ==> spec_ingredient_check(
            v.alternatives[k],
            location,
            spec_indexed(spec_field(field, "alternatives"@), k as nat),
        ) is Ok
}

/// The first failure among ingredients is the first failing ingredient, at
/// its indexed field: the list passes exactly when each ingredient passes.
pub proof fn lemma_ingredient_list(
    s: Seq<IngredientView>,
    location: ResourceLocationView,
    prefix: Seq<char>,
    offset: nat,
)
    ensures
        spec_ingredient_list_check(s, location, prefix, offset) is Ok <==> forall|i: int|
            #![trigger s[i]]
            0 <= i < s.len() ==> spec_ingredient_check(
                s[i],
                location,
                spec_indexed(prefix, (offset + i) as nat),
            ) is Ok,
    decreases s.len(),
{
    if s.len() > 0 {
        let t = s.drop_first();
        lemma_ingredient_list(t, location, prefix, offset + 1);
        assert forall|i: int| 0 < i < s.len() implies #[trigger] s[i] == t[i - 1]
            && offset + i == (offset + 1) + (i - 1) by {}
    }
}

/// Every failure of an ingredient is a recipe validation error of the
/// component at `location`.
pub proof fn lemma_ingredient_error(v: IngredientView, location: ResourceLocationView, field: Seq<char>)
    ensures
        spec_recipe_result(spec_ingredient_check(v, location, field), location),
    decreases v, 1int,
{
    if spec_forms(v) == 1 && !(v.item matches Some(s) && s.len() == 0) && !(v.tag matches Some(s)
        && s.len() == 0) {
        lemma_ingredient_list_error(v.alternatives, location, spec_field(field, "alternatives"@), 0);
    }
}

/// Every failure among ingredients is a recipe validation error of the
/// component at `location`.
pub proof fn lemma_ingredient_list_error(
    s: Seq<IngredientView>,
    location: ResourceLocationView,
    prefix: Seq<char>,
    offset: nat,
)
    ensures
        spec_recipe_result(spec_ingredient_list_check(s, location, prefix, offset), location),
    decreases s, 0int,
{
    if s.len() > 0 {
        lemma_ingredient_error(s[0], location, spec_indexed(prefix, offset));
        assert(decreases_to!(s => s.drop_first()));
        lemma_ingredient_list_error(s.drop_first(), location, prefix, offset + 1);
    }
}

/// An ingredient passes validation exactly when it satisfies
/// [`spec_ingredient_valid`], and every failure is a recipe validation
/// error of the component at `location`.
pub proof fn law_ingredient_valid(v: IngredientView, location: ResourceLocationView, field: Seq<char>)
    ensures
        spec_ingredient_check(v, location, field) is Ok <==> spec_ingredient_valid(v, location, field),
        spec_recipe_result(spec_ingredient_check(v, location, field), location),
{
    lemma_ingredient_list(v.alternatives, location, spec_field(field, "alternatives"@), 0);
    lemma_ingredient_error(v, location, field);
}

} // verus!
