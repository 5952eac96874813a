//! Cooking recipes: smelting, blasting, smoking and campfire cooking.

use vstd::prelude::*;

use super::types::{
    ComponentFeature, CookingType, Ingredient, IngredientView, RecipeResult, RecipeResultView,
    lemma_valid_ingredient_serializable, opt_str_json, opt_view, push_opt_str, validation,
    recipe_error, spec_cooking_type_str, spec_ingredient_check, spec_ingredient_json,
    spec_result_check, spec_result_features, spec_result_json, spec_serializable,
};
use crate::error::{SandError, SandErrorView, view_unit_result};
use crate::float::{F32Bits, spec_f32_is_finite};
use crate::json::{Json, JsonValue, lemma_view_entries_empty, push_entry, push_opt, view_entries, view_json};
use crate::resource_location::{ResourceLocation, ResourceLocationView};
use crate::text::owned;
use crate::validation::spec_then;

verus! {

/// The abstract value of a [`CookingRecipe`].
pub struct CookingRecipeView {
    pub location: ResourceLocationView,
    pub recipe_type: CookingType,
    pub category: Option<Seq<char>>,
    pub group: Option<Seq<char>>,
    pub ingredient: IngredientView,
    pub result: RecipeResultView,
    pub experience: u32,
    pub cooking_time: u32,
}

/// A cooking recipe: one ingredient cooked into a result, with experience
/// (a binary32 number) and a cooking time in ticks.
pub struct CookingRecipe {
    pub location: ResourceLocation,
    pub recipe_type: CookingType,
    category: Option<String>,
    group: Option<String>,
    ingredient: Ingredient,
    result: RecipeResult,
    experience: F32Bits,
    cooking_time: u32,
}

impl View for CookingRecipe {
    type V = CookingRecipeView;

    closed spec fn view(&self) -> CookingRecipeView {
        CookingRecipeView {
            location: self.location@,
            recipe_type: self.recipe_type,
            category: opt_view(self.category),
            group: opt_view(self.group),
            ingredient: self.ingredient@,
            result: self.result@,
            experience: self.experience.bits,
            cooking_time: self.cooking_time,
        }
    }
}

/// Export validation: the ingredient, the result, a finite experience, then
/// a cooking time of at least one tick.
pub open spec fn spec_cooking_check(v: CookingRecipeView) -> Result<(), SandErrorView> {
    spec_then(
        spec_ingredient_check(v.ingredient, v.location, "ingredient"@),
        spec_then(
            spec_result_check(v.result, v.location, "result"@),
            if !spec_f32_is_finite(v.experience) {
                recipe_error(v.location, "experience"@, "cooking experience must be finite"@)
            } else if v.cooking_time == 0 {
                recipe_error(v.location, "cookingtime"@, "cooking time must be at least 1 tick"@)
            } else {
                Ok(())
            },
        ),
    )
}

/// The JSON of a cooking recipe.
pub open spec fn spec_cooking_json(v: CookingRecipeView) -> Json {
    Json::Object(
        push_opt(
            push_opt(
                seq![("type"@, Json::Str(spec_cooking_type_str(v.recipe_type)))],
                "category"@,
                opt_str_json(v.category),
            ),
            "group"@,
            opt_str_json(v.group),
        ) + seq![
            ("ingredient"@, spec_ingredient_json(v.ingredient)),
            ("result"@, spec_result_json(v.result)),
            ("experience"@, Json::Float32(v.experience)),
            ("cookingtime"@, Json::Int(v.cooking_time as int)),
        ],
    )
}

/// The export result of a cooking recipe.
pub open spec fn spec_cooking_content(v: CookingRecipeView) -> Result<Json, SandErrorView> {
    match spec_cooking_check(v) {
        Ok(()) => Ok(spec_cooking_json(v)),
        Err(e) => Err(e),
    }
}

impl CookingRecipe {
    /// A recipe at `location` of the given type, with the empty ingredient,
    /// the placeholder result, no experience and a cooking time of 200 ticks.
    pub fn new(location: ResourceLocation, recipe_type: CookingType) -> (r: Self)
        ensures
            r@ == (CookingRecipeView {
                location: location@,
                recipe_type,
                category: None,
                group: None,
                ingredient: IngredientView { item: None, tag: None, alternatives: Seq::empty() },
                result: RecipeResultView { id: Seq::empty(), count: 1, components: Seq::empty() },
                experience: 0,
                cooking_time: 200,
            }),
    {
        CookingRecipe {
            location,
            recipe_type,
            category: None,
            group: None,
            ingredient: Ingredient::empty(),
            result: RecipeResult::empty(),
            experience: F32Bits::zero(),
            cooking_time: 200,
        }
    }

    /// Sets the ingredient.
    pub fn ingredient(self, ingredient: Ingredient) -> (r: Self)
        ensures
            r@ == (CookingRecipeView { ingredient: ingredient@, ..self@ }),
    {
        let mut s = self;
        s.ingredient = ingredient;
        s
    }

    /// Sets the result.
    pub fn result(self, result: RecipeResult) -> (r: Self)
        ensures
            r@ == (CookingRecipeView { result: result@, ..self@ }),
    {
        let mut s = self;
        s.result = result;
        s
    }

    /// Sets the experience granted.
    pub fn experience(self, experience: F32Bits) -> (r: Self)
        ensures
            r@ == (CookingRecipeView { experience: experience.bits, ..self@ }),
    {
        let mut s = self;
        s.experience = experience;
        s
    }

    /// Sets the cooking time in ticks.
    pub fn cooking_time(self, cooking_time: u32) -> (r: Self)
        ensures
            r@ == (CookingRecipeView { cooking_time, ..self@ }),
    {
        let mut s = self;
        s.cooking_time = cooking_time;
        s
    }

    /// Sets the recipe book category.
    pub fn category(self, category: &str) -> (r: Self)
        ensures
            r@ == (CookingRecipeView { category: Some(category@), ..self@ }),
    {
        let mut s = self;
        s.category = Some(owned(category));
        s
    }

    /// Sets the recipe book group.
    pub fn group(self, group: &str) -> (r: Self)
        ensures
            r@ == (CookingRecipeView { group: Some(group@), ..self@ }),
    {
        let mut s = self;
        s.group = Some(owned(group));
        s
    }

    /// The component's resource location.
    pub fn resource_location(&self) -> (r: &ResourceLocation)
        ensures
            r@ == self@.location,
    {
        &self.location
    }

    /// The datapack directory (`recipe`).
    pub fn component_dir(&self) -> (r: &'static str)
        ensures
            r@ == "recipe"@,
    {
        "recipe"
    }

    /// The version features this recipe needs.
    pub fn required_features(&self) -> (r: Vec<ComponentFeature>)
        ensures
            r@ == spec_result_features(self@.result),
    {
        self.result.required_features()
    }

    /// Export validation.
    pub fn validate(&self) -> (r: Result<(), SandError>)
        ensures
            view_unit_result(r) == spec_cooking_check(self@),
    {
        self.ingredient.validate_at(&self.location, "ingredient")?;
        self.result.validate_at(&self.location, "result")?;
        if !self.experience.is_finite() {
            return Err(validation(&self.location, "experience", "cooking experience must be finite"));
        }
        if self.cooking_time == 0 {
            return Err(
                validation(&self.location, "cookingtime", "cooking time must be at least 1 tick"),
            );
        }
        Ok(())
    }

    /// The JSON document; the ingredient must be writable.
    pub fn to_json(&self) -> (r: JsonValue)
        requires
            spec_serializable(self@.ingredient),
        ensures
            view_json(r) == spec_cooking_json(self@),
    {
        let mut m: Vec<(String, JsonValue)> = Vec::new();
        proof {
            lemma_view_entries_empty();
        }
        push_entry(&mut m, "type", JsonValue::string(self.recipe_type.type_str()));
        push_opt_str(&mut m, "category", &self.category);
        push_opt_str(&mut m, "group", &self.group);
        let ghost pre = view_entries(m@);
        push_entry(&mut m, "ingredient", self.ingredient.to_json());
        push_entry(&mut m, "result", self.result.to_json());
        push_entry(&mut m, "experience", JsonValue::Float32(self.experience));
        push_entry(&mut m, "cookingtime", JsonValue::Int(self.cooking_time as i64));
        assert(view_entries(m@) =~= pre + seq![
            ("ingredient"@, spec_ingredient_json(self@.ingredient)),
            ("result"@, spec_result_json(self@.result)),
            ("experience"@, Json::Float32(self@.experience)),
            ("cookingtime"@, Json::Int(self@.cooking_time as int)),
        ]);
        JsonValue::Object(m)
    }

    /// Validates, then renders the JSON document.
    pub fn try_content(&self) -> (r: Result<JsonValue, SandError>)
        ensures
            match (r, spec_cooking_content(self@)) {
                (Ok(j), Ok(v)) => view_json(j) == v,
                (Err(e), Err(v)) => e@ == v,
                _ => false,
            },
    {
        self.validate()?;
        proof {
            lemma_valid_ingredient_serializable(self@.ingredient, self@.location, "ingredient"@);
        }
        Ok(self.to_json())
    }
}

} // verus!
