//! Stonecutter recipes (`minecraft:stonecutting`).

use vstd::prelude::*;

use super::types::{
    ComponentFeature, Ingredient, IngredientView, RecipeResult, RecipeResultView,
    lemma_valid_ingredient_serializable, opt_str_json, opt_view, push_opt_str, validation,
    recipe_error, spec_ingredient_check, spec_ingredient_json, spec_result_check,
    spec_result_features, spec_result_json, spec_serializable,
};
use crate::error::{SandError, SandErrorView, view_unit_result};
use crate::json::{Json, JsonValue, lemma_view_entries_empty, push_entry, push_opt, view_entries, view_json};
use crate::resource_location::{ResourceLocation, ResourceLocationView};
use crate::text::owned;
use crate::validation::spec_then;

verus! {

/// The abstract value of a [`StonecuttingRecipe`].
pub struct StonecuttingRecipeView {
    pub location: ResourceLocationView,
    pub group: Option<Seq<char>>,
    pub ingredient: IngredientView,
    pub result: RecipeResultView,
    pub count: u32,
}

/// A stonecutter recipe: one ingredient cut into `count` results.
pub struct StonecuttingRecipe {
    pub location: ResourceLocation,
    group: Option<String>,
    ingredient: Ingredient,
    result: RecipeResult,
    count: u32,
}

impl View for StonecuttingRecipe {
    type V = StonecuttingRecipeView;

    closed spec fn view(&self) -> StonecuttingRecipeView {
        StonecuttingRecipeView {
            location: self.location@,
            group: opt_view(self.group),
            ingredient: self.ingredient@,
            result: self.result@,
            count: self.count,
        }
    }
}

/// Export validation: the ingredient, the result, then a count of at least 1.
pub open spec fn spec_stonecutting_check(v: StonecuttingRecipeView) -> Result<(), SandErrorView> {
    spec_then(
        spec_ingredient_check(v.ingredient, v.location, "ingredient"@),
        spec_then(
            spec_result_check(v.result, v.location, "result"@),
            if v.count == 0 {
                recipe_error(v.location, "count"@, "stonecutting result count must be at least 1"@)
            } else {
                Ok(())
            },
        ),
    )
}

/// The JSON of a stonecutter recipe.
pub open spec fn spec_stonecutting_json(v: StonecuttingRecipeView) -> Json {
    Json::Object(
        push_opt(
            seq![("type"@, Json::Str("minecraft:stonecutting"@))],
            "group"@,
            opt_str_json(v.group),
        ) + seq![
            ("ingredient"@, spec_ingredient_json(v.ingredient)),
            ("result"@, spec_result_json(v.result)),
            ("count"@, Json::Int(v.count as int)),
        ],
    )
}

/// The export result of a stonecutter recipe.
pub open spec fn spec_stonecutting_content(v: StonecuttingRecipeView) -> Result<Json, SandErrorView> {
    match spec_stonecutting_check(v) {
        Ok(()) => Ok(spec_stonecutting_json(v)),
        Err(e) => Err(e),
    }
}

impl StonecuttingRecipe {
    /// A recipe at `location` with the empty ingredient, the placeholder
    /// result and a count of 1.
    pub fn new(location: ResourceLocation) -> (r: Self)
        ensures
            r@ == (StonecuttingRecipeView {
                location: location@,
                group: None,
                ingredient: IngredientView { item: None, tag: None, alternatives: Seq::empty() },
                result: RecipeResultView { id: Seq::empty(), count: 1, components: Seq::empty() },
                count: 1,
            }),
    {
        StonecuttingRecipe {
            location,
            group: None,
            ingredient: Ingredient::empty(),
            result: RecipeResult::empty(),
            count: 1,
        }
    }

    /// Sets the ingredient.
    pub fn ingredient(self, ingredient: Ingredient) -> (r: Self)
        ensures
            r@ == (StonecuttingRecipeView { ingredient: ingredient@, ..self@ }),
    {
        let mut s = self;
        s.ingredient = ingredient;
        s
    }

    /// Sets the result.
    pub fn result(self, result: RecipeResult) -> (r: Self)
        ensures
            r@ == (StonecuttingRecipeView { result: result@, ..self@ }),
    {
        let mut s = self;
        s.result = result;
        s
    }

    /// Sets the number of results.
    pub fn count(self, count: u32) -> (r: Self)
        ensures
            r@ == (StonecuttingRecipeView { count, ..self@ }),
    {
        let mut s = self;
        s.count = count;
        s
    }

    /// Sets the recipe book group.
    pub fn group(self, group: &str) -> (r: Self)
        ensures
            r@ == (StonecuttingRecipeView { group: Some(group@), ..self@ }),
    {
        let mut s = self;
        s.group = Some(owned(group));
        s
    }

    /// The component's resource location.
    pub fn resource_location(&self) -> (r: &ResourceLocation)
        ensures
            r@ == self@.location,
    {
        &self.location
    }

    /// The datapack directory (`recipe`).
    pub fn component_dir(&self) -> (r: &'static str)
        ensures
            r@ == "recipe"@,
    {
        "recipe"
    }

    /// The version features this recipe needs.
    pub fn required_features(&self) -> (r: Vec<ComponentFeature>)
        ensures
            r@ == spec_result_features(self@.result),
    {
        self.result.required_features()
    }

    /// Export validation.
    pub fn validate(&self) -> (r: Result<(), SandError>)
        ensures
            view_unit_result(r) == spec_stonecutting_check(self@),
    {
        self.ingredient.validate_at(&self.location, "ingredient")?;
        self.result.validate_at(&self.location, "result")?;
        if self.count == 0 {
            return Err(
                validation(&self.location, "count", "stonecutting result count must be at least 1"),
            );
        }
        Ok(())
    }

    /// The JSON document; the ingredient must be writable.
    pub fn to_json(&self) -> (r: JsonValue)
        requires
            spec_serializable(self@.ingredient),
        ensures
            view_json(r) == spec_stonecutting_json(self@),
    {
        let mut m: Vec<(String, JsonValue)> = Vec::new();
        proof {
            lemma_view_entries_empty();
        }
        push_entry(&mut m, "type", JsonValue::string("minecraft:stonecutting"));
        push_opt_str(&mut m, "group", &self.group);
        let ghost pre = view_entries(m@);
        push_entry(&mut m, "ingredient", self.ingredient.to_json());
        push_entry(&mut m, "result", self.result.to_json());
        push_entry(&mut m, "count", JsonValue::Int(self.count as i64));
        assert(view_entries(m@) =~= pre + seq![
            ("ingredient"@, spec_ingredient_json(self@.ingredient)),
            ("result"@, spec_result_json(self@.result)),
            ("count"@, Json::Int(self@.count as int)),
        ]);
        JsonValue::Object(m)
    }

    /// Validates, then renders the JSON document.
    pub fn try_content(&self) -> (r: Result<JsonValue, SandError>)
        ensures
            match (r, spec_stonecutting_content(self@)) {
                (Ok(j), Ok(v)) => view_json(j) == v,
                (Err(e), Err(v)) => e@ == v,
                _ => false,
            },
    {
        self.validate()?;
        proof {
            lemma_valid_ingredient_serializable(self@.ingredient, self@.location, "ingredient"@);
        }
        Ok(self.to_json())
    }
}

} // verus!
