//! Smithing table recipes: transform (`minecraft:smithing_transform`) and
//! trim (`minecraft:smithing_trim`).

use vstd::prelude::*;

use super::types::{
    ComponentFeature, Ingredient, IngredientView, RecipeResult, RecipeResultView,
    lemma_valid_ingredient_serializable, opt_str_json, opt_view, push_opt_str,
    spec_ingredient_check, spec_ingredient_json, spec_result_check, spec_result_features,
    spec_result_json, spec_serializable,
};
use crate::error::{SandError, SandErrorView, view_unit_result};
use crate::json::{Json, JsonValue, lemma_view_entries_empty, push_entry, push_opt, view_entries, view_json};
use crate::resource_location::{ResourceLocation, ResourceLocationView};
use crate::text::owned;
use crate::validation::spec_then;

verus! {

/// The abstract value of a [`SmithingTransformRecipe`].
pub struct SmithingTransformView {
    pub location: ResourceLocationView,
    pub group: Option<Seq<char>>,
    pub template: IngredientView,
    pub base: IngredientView,
    pub addition: IngredientView,
    pub result: RecipeResultView,
}

/// The abstract value of a [`SmithingTrimRecipe`].
pub struct SmithingTrimView {
    pub location: ResourceLocationView,
    pub group: Option<Seq<char>>,
    pub template: IngredientView,
    pub base: IngredientView,
    pub addition: IngredientView,
}

/// A smithing transform recipe: template, base and addition into a result.
pub struct SmithingTransformRecipe {
    pub location: ResourceLocation,
    group: Option<String>,
    template: Ingredient,
    base: Ingredient,
    addition: Ingredient,
    result: RecipeResult,
}

/// A smithing trim recipe: template, base and addition, with no result.
pub struct SmithingTrimRecipe {
    pub location: ResourceLocation,
    group: Option<String>,
    template: Ingredient,
    base: Ingredient,
    addition: Ingredient,
}

impl View for SmithingTransformRecipe {
    type V = SmithingTransformView;

    closed spec fn view(&self) -> SmithingTransformView {
        SmithingTransformView {
            location: self.location@,
            group: opt_view(self.group),
            template: self.template@,
            base: self.base@,
            addition: self.addition@,
            result: self.result@,
        }
    }
}

impl View for SmithingTrimRecipe {
    type V = SmithingTrimView;

    closed spec fn view(&self) -> SmithingTrimView {
        SmithingTrimView {
            location: self.location@,
            group: opt_view(self.group),
            template: self.template@,
            base: self.base@,
            addition: self.addition@,
        }
    }
}

/// The checks of the three smithing ingredients, in order.
pub open spec fn spec_smithing_ingredients_check(
    location: ResourceLocationView,
    template: IngredientView,
    base: IngredientView,
    addition: IngredientView,
) -> Result<(), SandErrorView> {
    spec_then(
        spec_ingredient_check(template, location, "template"@),
        spec_then(
            spec_ingredient_check(base, location, "base"@),
            spec_ingredient_check(addition, location, "addition"@),
        ),
    )
}

/// Export validation of a transform: template, base, addition, then result.
pub open spec fn spec_transform_check(v: SmithingTransformView) -> Result<(), SandErrorView> {
    spec_then(
        spec_smithing_ingredients_check(v.location, v.template, v.base, v.addition),
        spec_result_check(v.result, v.location, "result"@),
    )
}

/// Export validation of a trim: template, base, then addition.
pub open spec fn spec_trim_check(v: SmithingTrimView) -> Result<(), SandErrorView> {
    spec_smithing_ingredients_check(v.location, v.template, v.base, v.addition)
}

/// The fields shared by smithing recipes: type, group, then the three ingredients.
pub open spec fn spec_smithing_fields(
    kind: Seq<char>,
    group: Option<Seq<char>>,
    template: IngredientView,
    base: IngredientView,
    addition: IngredientView,
) -> Seq<(Seq<char>, Json)> {
    push_opt(seq![("type"@, Json::Str(kind))], "group"@, opt_str_json(group)) + seq![
        ("template"@, spec_ingredient_json(template)),
        ("base"@, spec_ingredient_json(base)),
        ("addition"@, spec_ingredient_json(addition)),
    ]
}

/// The JSON of a transform recipe.
pub open spec fn spec_transform_json(v: SmithingTransformView) -> Json {
    Json::Object(
        spec_smithing_fields(
            "minecraft:smithing_transform"@,
            v.group,
            v.template,
            v.base,
            v.addition,
        ).push(("result"@, spec_result_json(v.result))),
    )
}

/// The JSON of a trim recipe.
pub open spec fn spec_trim_json(v: SmithingTrimView) -> Json {
    Json::Object(
        spec_smithing_fields("minecraft:smithing_trim"@, v.group, v.template, v.base, v.addition),
    )
}

/// The export result of a transform recipe.
pub open spec fn spec_transform_content(v: SmithingTransformView) -> Result<Json, SandErrorView> {
    match spec_transform_check(v) {
        Ok(()) => Ok(spec_transform_json(v)),
        Err(e) => Err(e),
    }
}

/// The export result of a trim recipe.
pub open spec fn spec_trim_content(v: SmithingTrimView) -> Result<Json, SandErrorView> {
    match spec_trim_check(v) {
        Ok(()) => Ok(spec_trim_json(v)),
        Err(e) => Err(e),
    }
}

/// Validates the three smithing ingredients at `location`.
fn check_smithing_ingredients(
    location: &ResourceLocation,
    template: &Ingredient,
    base: &Ingredient,
    addition: &Ingredient,
) -> (r: Result<(), SandError>)
    ensures
        view_unit_result(r) == spec_smithing_ingredients_check(
            location@,
            template@,
            base@,
            addition@,
        ),
{
    template.validate_at(location, "template")?;
    base.validate_at(location, "base")?;
    addition.validate_at(location, "addition")
}

/// Writes the fields shared by smithing recipes into a new object.
fn smithing_fields(
    kind: &str,
    group: &Option<String>,
    template: &Ingredient,
    base: &Ingredient,
    addition: &Ingredient,
) -> (r: Vec<(String, JsonValue)>)
    requires
        spec_serializable(template@),
        spec_serializable(base@),
        spec_serializable(addition@),
    ensures
        view_entries(r@) == spec_smithing_fields(
            kind@,
            opt_view(*group),
            template@,
            base@,
            addition@,
        ),
{
    let mut m: Vec<(String, JsonValue)> = Vec::new();
    proof {
        lemma_view_entries_empty();
    }
    push_entry(&mut m, "type", JsonValue::string(kind));
    push_opt_str(&mut m, "group", group);
    let ghost pre = view_entries(m@);
    push_entry(&mut m, "template", template.to_json());
    push_entry(&mut m, "base", base.to_json());
    push_entry(&mut m, "addition", addition.to_json());
    assert(view_entries(m@) =~= pre + seq![
        ("template"@, spec_ingredient_json(template@)),
        ("base"@, spec_ingredient_json(base@)),
        ("addition"@, spec_ingredient_json(addition@)),
    ]);
    m
}

impl SmithingTransformRecipe {
    /// A recipe at `location` with empty ingredients and the placeholder result.
    pub fn new(location: ResourceLocation) -> (r: Self)
        ensures
            r@ == (SmithingTransformView {
                location: location@,
                group: None,
                template: IngredientView { item: None, tag: None, alternatives: Seq::empty() },
                base: IngredientView { item: None, tag: None, alternatives: Seq::empty() },
                addition: IngredientView { item: None, tag: None, alternatives: Seq::empty() },
                result: RecipeResultView { id: Seq::empty(), count: 1, components: Seq::empty() },
            }),
    {
        SmithingTransformRecipe {
            location,
            group: None,
            template: Ingredient::empty(),
            base: Ingredient::empty(),
            addition: Ingredient::empty(),
            result: RecipeResult::empty(),
        }
    }

    /// Sets the smithing template.
    pub fn template(self, template: Ingredient) -> (r: Self)
        ensures
            r@ == (SmithingTransformView { template: template@, ..self@ }),
    {
        let mut s = self;
        s.template = template;
        s
    }

    /// Sets the base item.
    pub fn base(self, base: Ingredient) -> (r: Self)
        ensures
            r@ == (SmithingTransformView { base: base@, ..self@ }),
    {
        let mut s = self;
        s.base = base;
        s
    }

    /// Sets the addition.
    pub fn addition(self, addition: Ingredient) -> (r: Self)
        ensures
            r@ == (SmithingTransformView { addition: addition@, ..self@ }),
    {
        let mut s = self;
        s.addition = addition;
        s
    }

    /// Sets the result.
    pub fn result(self, result: RecipeResult) -> (r: Self)
        ensures
            r@ == (SmithingTransformView { result: result@, ..self@ }),
    {
        let mut s = self;
        s.result = result;
        s
    }

    /// Sets the recipe book group.
    pub fn group(self, group: &str) -> (r: Self)
        ensures
            r@ == (SmithingTransformView { group: Some(group@), ..self@ }),
    {
        let mut s = self;
        s.group = Some(owned(group));
        s
    }

    /// The component's resource location.
    pub fn resource_location(&self) -> (r: &ResourceLocation)
        ensures
            r@ == self@.location,
    {
        &self.location
    }

    /// The datapack directory (`recipe`).
    pub fn component_dir(&self) -> (r: &'static str)
        ensures
            r@ == "recipe"@,
    {
        "recipe"
    }

    /// The version features this recipe needs.
    pub fn required_features(&self) -> (r: Vec<ComponentFeature>)
        ensures
            r@ == spec_result_features(self@.result),
    {
        self.result.required_features()
    }

    /// Export validation.
    pub fn validate(&self) -> (r: Result<(), SandError>)
        ensures
            view_unit_result(r) == spec_transform_check(self@),
    {
        check_smithing_ingredients(&self.location, &self.template, &self.base, &self.addition)?;
        self.result.validate_at(&self.location, "result")
    }

    /// The JSON document; the ingredients must be writable.
    pub fn to_json(&self) -> (r: JsonValue)
        requires
            spec_serializable(self@.template),
            spec_serializable(self@.base),
            spec_serializable(self@.addition),
        ensures
            view_json(r) == spec_transform_json(self@),
    {
        let mut m = smithing_fields(
            "minecraft:smithing_transform",
            &self.group,
            &self.template,
            &self.base,
            &self.addition,
        );
        push_entry(&mut m, "result", self.result.to_json());
        JsonValue::Object(m)
    }

    /// Validates, then renders the JSON document.
    pub fn try_content(&self) -> (r: Result<JsonValue, SandError>)
        ensures
            match (r, spec_transform_content(self@)) {
                (Ok(j), Ok(v)) => view_json(j) == v,
                (Err(e), Err(v)) => e@ == v,
                _ => false,
            },
    {
        self.validate()?;
        proof {
            lemma_valid_ingredient_serializable(self@.template, self@.location, "template"@);
            lemma_valid_ingredient_serializable(self@.base, self@.location, "base"@);
            lemma_valid_ingredient_serializable(self@.addition, self@.location, "addition"@);
        }
        Ok(self.to_json())
    }
}

impl SmithingTrimRecipe {
    /// A recipe at `location` with empty ingredients.
    pub fn new(location: ResourceLocation) -> (r: Self)
        ensures
            r@ == (SmithingTrimView {
                location: location@,
                group: None,
                template: IngredientView { item: None, tag: None, alternatives: Seq::empty() },
                base: IngredientView { item: None, tag: None, alternatives: Seq::empty() },
                addition: IngredientView { item: None, tag: None, alternatives: Seq::empty() },
            }),
    {
        SmithingTrimRecipe {
            location,
            group: None,
            template: Ingredient::empty(),
            base: Ingredient::empty(),
            addition: Ingredient::empty(),
        }
    }

    /// Sets the smithing template.
    pub fn template(self, template: Ingredient) -> (r: Self)
        ensures
            r@ == (SmithingTrimView { template: template@, ..self@ }),
    {
        let mut s = self;
        s.template = template;
        s
    }

    /// Sets the base item.
    pub fn base(self, base: Ingredient) -> (r: Self)
        ensures
            r@ == (SmithingTrimView { base: base@, ..self@ }),
    {
        let mut s = self;
        s.base = base;
        s
    }

    /// Sets the addition.
    pub fn addition(self, addition: Ingredient) -> (r: Self)
        ensures
            r@ == (SmithingTrimView { addition: addition@, ..self@ }),
    {
        let mut s = self;
        s.addition = addition;
        s
    }

    /// Sets the recipe book group.
    pub fn group(self, group: &str) -> (r: Self)
        ensures
            r@ == (SmithingTrimView { group: Some(group@), ..self@ }),
    {
        let mut s = self;
        s.group = Some(owned(group));
        s
    }

    /// The component's resource location.
    pub fn resource_location(&self) -> (r: &ResourceLocation)
        ensures
            r@ == self@.location,
    {
        &self.location
    }

    /// The datapack directory (`recipe`).
    pub fn component_dir(&self) -> (r: &'static str)
        ensures
            r@ == "recipe"@,
    {
        "recipe"
    }

    /// Export validation.
    pub fn validate(&self) -> (r: Result<(), SandError>)
        ensures
            view_unit_result(r) == spec_trim_check(self@),
    {
        check_smithing_ingredients(&self.location, &self.template, &self.base, &self.addition)
    }

    /// The JSON document; the ingredients must be writable.
    pub fn to_json(&self) -> (r: JsonValue)
        requires
            spec_serializable(self@.template),
            spec_serializable(self@.base),
            spec_serializable(self@.addition),
        ensures
            view_json(r) == spec_trim_json(self@),
    {
        let m = smithing_fields(
            "minecraft:smithing_trim",
            &self.group,
            &self.template,
            &self.base,
            &self.addition,
        );
        JsonValue::Object(m)
    }

    /// Validates, then renders the JSON document.
    pub fn try_content(&self) -> (r: Result<JsonValue, SandError>)
        ensures
            match (r, spec_trim_content(self@)) {
                (Ok(j), Ok(v)) => view_json(j) == v,
                (Err(e), Err(v)) => e@ == v,
                _ => false,
            },
    {
        self.validate()?;
        proof {
            lemma_valid_ingredient_serializable(self@.template, self@.location, "template"@);
            lemma_valid_ingredient_serializable(self@.base, self@.location, "base"@);
            lemma_valid_ingredient_serializable(self@.addition, self@.location, "addition"@);
        }
        Ok(self.to_json())
    }
}

} // verus!
