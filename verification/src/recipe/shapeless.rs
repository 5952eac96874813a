//! Shapeless crafting recipes (`minecraft:crafting_shapeless`).

use vstd::prelude::*;

use super::types::{
    ComponentFeature, Ingredient, IngredientView, RecipeResult, RecipeResultView,
    check_ingredient_list, ingredient_list_json, lemma_valid_list_serializable, opt_str_json,
    opt_view, push_opt_str, validation, recipe_error, spec_all_serializable,
    spec_ingredient_list_check, spec_ingredients_json, spec_result_check, spec_result_features,
    spec_result_json,
};
use crate::error::{SandError, SandErrorView, view_unit_result};
use crate::json::{Json, JsonValue, lemma_view_entries_empty, push_entry, push_opt, view_entries, view_json};
use crate::resource_location::{ResourceLocation, ResourceLocationView};
use crate::text::owned;
use crate::validation::spec_then;

verus! {

/// The abstract value of a [`ShapelessRecipe`].
pub struct ShapelessRecipeView {
    pub location: ResourceLocationView,
    pub category: Option<Seq<char>>,
    pub group: Option<Seq<char>>,
    pub ingredients: Seq<IngredientView>,
    pub result: RecipeResultView,
}

/// A shapeless crafting recipe: up to nine ingredients in any arrangement.
pub struct ShapelessRecipe {
    pub location: ResourceLocation,
    category: Option<String>,
    group: Option<String>,
    pub ingredients: Vec<Ingredient>,
    result: RecipeResult,
}

impl View for ShapelessRecipe {
    type V = ShapelessRecipeView;

    closed spec fn view(&self) -> ShapelessRecipeView {
        ShapelessRecipeView {
            location: self.location@,
            category: opt_view(self.category),
            group: opt_view(self.group),
            ingredients: self.ingredients@.map_values(|i: Ingredient| i@),
            result: self.result@,
        }
    }
}

/// Export validation: one to nine ingredients, each valid, then the result.
pub open spec fn spec_shapeless_check(v: ShapelessRecipeView) -> Result<(), SandErrorView> {
    if v.ingredients.len() == 0 {
        recipe_error(v.location, "ingredients"@, "shapeless recipe requires at least one ingredient"@)
    } else if v.ingredients.len() > 9 {
        recipe_error(v.location, "ingredients"@, "shapeless recipe supports at most 9 ingredients"@)
    } else {
        spec_then(
            spec_ingredient_list_check(v.ingredients, v.location, "ingredients"@, 0),
            spec_result_check(v.result, v.location, "result"@),
        )
    }
}

/// The JSON of a shapeless recipe.
pub open spec fn spec_shapeless_json(v: ShapelessRecipeView) -> Json {
    Json::Object(
        push_opt(
            push_opt(
                seq![("type"@, Json::Str("minecraft:crafting_shapeless"@))],
                "category"@,
                opt_str_json(v.category),
            ),
            "group"@,
            opt_str_json(v.group),
        ) + seq![
            ("ingredients"@, Json::Array(spec_ingredients_json(v.ingredients))),
            ("result"@, spec_result_json(v.result)),
        ],
    )
}

/// The export result of a shapeless recipe.
pub open spec fn spec_shapeless_content(v: ShapelessRecipeView) -> Result<Json, SandErrorView> {
    match spec_shapeless_check(v) {
        Ok(()) => Ok(spec_shapeless_json(v)),
        Err(e) => Err(e),
    }
}

impl ShapelessRecipe {
    /// A recipe at `location` with no ingredients and the placeholder result.
    pub fn new(location: ResourceLocation) -> (r: Self)
        ensures
            r@ == (ShapelessRecipeView {
                location: location@,
                category: None,
                group: None,
                ingredients: Seq::empty(),
                result: RecipeResultView { id: Seq::empty(), count: 1, components: Seq::empty() },
            }),
    {
        let r = ShapelessRecipe {
            location,
            category: None,
            group: None,
            ingredients: Vec::new(),
            result: RecipeResult::empty(),
        };
        assert(r@.ingredients =~= Seq::empty());
        r
    }

    /// Adds an ingredient.
    pub fn ingredient(self, ingredient: Ingredient) -> (r: Self)
        ensures
            r@ == (ShapelessRecipeView {
                ingredients: self@.ingredients.push(ingredient@),
                ..self@
            }),
    {
        let mut s = self;
        let ghost before = s.ingredients@;
        s.ingredients.push(ingredient);
        assert(s.ingredients@.map_values(|i: Ingredient| i@) =~= before.map_values(
            |i: Ingredient| i@,
        ).push(ingredient@));
        s
    }

    /// Sets the result.
    pub fn result(self, result: RecipeResult) -> (r: Self)
        ensures
            r@ == (ShapelessRecipeView { result: result@, ..self@ }),
    {
        let mut s = self;
        s.result = result;
        s
    }

    /// Sets the recipe book category.
    pub fn category(self, category: &str) -> (r: Self)
        ensures
            r@ == (ShapelessRecipeView { category: Some(category@), ..self@ }),
    {
        let mut s = self;
        s.category = Some(owned(category));
        s
    }

    /// Sets the recipe book group.
    pub fn group(self, group: &str) -> (r: Self)
        ensures
            r@ == (ShapelessRecipeView { group: Some(group@), ..self@ }),
    {
        let mut s = self;
        s.group = Some(owned(group));
        s
    }

    /// The component's resource location.
    pub fn resource_location(&self) -> (r: &ResourceLocation)
        ensures
            r@ == self@.location,
    {
        &self.location
    }

    /// The datapack directory (`recipe`).
    pub fn component_dir(&self) -> (r: &'static str)
        ensures
            r@ == "recipe"@,
    {
        "recipe"
    }

    /// The version features this recipe needs.
    pub fn required_features(&self) -> (r: Vec<ComponentFeature>)
        ensures
            r@ == spec_result_features(self@.result),
    {
        self.result.required_features()
    }

    /// Export validation.
    pub fn validate(&self) -> (r: Result<(), SandError>)
        ensures
            view_unit_result(r) == spec_shapeless_check(self@),
    {
        if self.ingredients.len() == 0 {
            return Err(
                validation(
                    &self.location,
                    "ingredients",
                    "shapeless recipe requires at least one ingredient",
                ),
            );
        }
        if self.ingredients.len() > 9 {
            return Err(
                validation(
                    &self.location,
                    "ingredients",
                    "shapeless recipe supports at most 9 ingredients",
                ),
            );
        }
        check_ingredient_list(&self.ingredients, &self.location, "ingredients")?;
        self.result.validate_at(&self.location, "result")
    }

    /// The JSON document; every ingredient must be writable.
    pub fn to_json(&self) -> (r: JsonValue)
        requires
            spec_all_serializable(self@.ingredients),
        ensures
            view_json(r) == spec_shapeless_json(self@),
    {
        let mut m: Vec<(String, JsonValue)> = Vec::new();
        proof {
            lemma_view_entries_empty();
        }
        push_entry(&mut m, "type", JsonValue::string("minecraft:crafting_shapeless"));
        push_opt_str(&mut m, "category", &self.category);
        push_opt_str(&mut m, "group", &self.group);
        let ghost pre = view_entries(m@);
        push_entry(&mut m, "ingredients", ingredient_list_json(&self.ingredients));
        push_entry(&mut m, "result", self.result.to_json());
        assert(view_entries(m@) =~= pre + seq![
            ("ingredients"@, Json::Array(spec_ingredients_json(self@.ingredients))),
            ("result"@, spec_result_json(self@.result)),
        ]);
        JsonValue::Object(m)
    }

    /// Validates, then renders the JSON document.
    pub fn try_content(&self) -> (r: Result<JsonValue, SandError>)
        ensures
            match (r, spec_shapeless_content(self@)) {
                (Ok(j), Ok(v)) => view_json(j) == v,
                (Err(e), Err(v)) => e@ == v,
                _ => false,
            },
    {
        self.validate()?;
        proof {
            lemma_valid_list_serializable(self@.ingredients, self@.location, "ingredients"@, 0);
        }
        Ok(self.to_json())
    }
}

} // verus!
