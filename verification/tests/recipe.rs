use sand_components::json::JsonValue;
use sand_components::{
    CookingRecipe, CookingType, F32Bits, Ingredient, ItemId, RecipeResult, ResourceLocation,
    ShapedRecipe, ShapelessRecipe, SmithingTransformRecipe, SmithingTrimRecipe,
    StonecuttingRecipe, TagId,
};
use serde_json::Value;

fn norm(j: &JsonValue) -> Value {
    match j {
        JsonValue::Null => Value::Null,
        JsonValue::Bool(b) => Value::Bool(*b),
        JsonValue::Int(n) => Value::from(*n),
        JsonValue::Float(f) => serde_json::Number::from_f64(f64::from_bits(f.bits))
            .map(Value::Number)
            .unwrap_or(Value::Null),
        JsonValue::Float32(f) => Value::from(f32::from_bits(f.bits)),
        JsonValue::Str(s) => Value::String(s.clone()),
        JsonValue::Array(v) => Value::Array(v.iter().map(norm).collect()),
        JsonValue::Object(es) => {
            let mut m = serde_json::Map::new();
            for (k, v) in es {
                m.insert(k.clone(), norm(v));
            }
            Value::Object(m)
        }
    }
}

fn json(text: &str) -> Value {
    serde_json::from_str(text).unwrap()
}

fn id(path: &str) -> ResourceLocation {
    ResourceLocation::new("audit", path).unwrap()
}

fn result() -> RecipeResult {
    RecipeResult::new("audit:result", 2)
}

#[test]
fn supported_recipe_builders_emit_latest_schema() {
    let shaped = ShapedRecipe::new(id("shaped"))
        .pattern(&["PNP", "PPP", "IPI"])
        .key('P', Ingredient::item("minecraft:oak_planks"))
        .key('N', Ingredient::item("minecraft:netherite_ingot"))
        .key('I', Ingredient::item("minecraft:iron_ingot"))
        .result(result())
        .to_json();
    let shaped = norm(&shaped);
    assert_eq!(shaped["key"]["P"], json(r#""minecraft:oak_planks""#));
    assert_eq!(shaped["result"], json(r#"{"id": "audit:result", "count": 2}"#));

    let shapeless = ShapelessRecipe::new(id("shapeless"))
        .ingredient(Ingredient::tag("minecraft:planks"))
        .result(result())
        .to_json();
    assert_eq!(norm(&shapeless)["ingredients"], json(r##"["#minecraft:planks"]"##));

    for recipe_type in [CookingType::Smelting, CookingType::Blasting, CookingType::Smoking, CookingType::CampfireCooking] {
        let cooking = CookingRecipe::new(id("cooking"), recipe_type)
            .ingredient(Ingredient::item("minecraft:potato"))
            .result(result())
            .to_json();
        let cooking = norm(&cooking);
        assert_eq!(cooking["ingredient"], json(r#""minecraft:potato""#));
        assert_eq!(cooking["result"], json(r#"{"id": "audit:result", "count": 2}"#));
    }

    let stonecutting = StonecuttingRecipe::new(id("stonecutting"))
        .ingredient(Ingredient::item("minecraft:stone"))
        .result(result())
        .to_json();
    let stonecutting = norm(&stonecutting);
    assert_eq!(stonecutting["ingredient"], json(r#""minecraft:stone""#));
    assert_eq!(stonecutting["result"], json(r#"{"id": "audit:result", "count": 2}"#));

    let transform = SmithingTransformRecipe::new(id("transform"))
        .template(Ingredient::item("minecraft:netherite_upgrade_smithing_template"))
        .base(Ingredient::item("minecraft:diamond_sword"))
        .addition(Ingredient::item("minecraft:netherite_ingot"))
        .result(result())
        .to_json();
    let transform = norm(&transform);
    assert_eq!(transform["template"], json(r#""minecraft:netherite_upgrade_smithing_template""#));
    assert_eq!(transform["result"], json(r#"{"id": "audit:result", "count": 2}"#));

    let trim = SmithingTrimRecipe::new(id("trim"))
        .template(Ingredient::item("minecraft:sentry_armor_trim_smithing_template"))
        .base(Ingredient::item("minecraft:diamond_chestplate"))
        .addition(Ingredient::item("minecraft:amethyst_shard"))
        .to_json();
    assert_eq!(norm(&trim)["addition"], json(r#""minecraft:amethyst_shard""#));
}

#[test]
fn valid_shaped_recipe_try_content_preserves_output() {
    let recipe = ShapedRecipe::new(id("valid"))
        .pattern(&["PNP", "PPP", "IPI"])
        .key('P', Ingredient::item("minecraft:oak_planks"))
        .key('N', Ingredient::item("minecraft:netherite_ingot"))
        .key('I', Ingredient::item("minecraft:iron_ingot"))
        .result(RecipeResult::new("audit:result", 2));
    let content = recipe.try_content().expect("valid recipe should pass");
    assert_eq!(content, recipe.to_json());
    recipe.validate().expect("valid recipe should validate");
}

#[test]
fn empty_pattern_fails_validation() {
    let recipe = ShapedRecipe::new(id("no_pattern"))
        .key('X', Ingredient::item("minecraft:stone"))
        .result(RecipeResult::new("audit:result", 1));
    let err = recipe.validate().expect_err("empty pattern should fail").to_string();
    assert!(err.contains("pattern"), "err: {err}");
    assert!(err.contains("audit:no_pattern"), "err: {err}");
    assert!(err.contains("recipe"), "err: {err}");
}

#[test]
fn empty_result_id_fails_validation() {
    let recipe = ShapedRecipe::new(id("no_result"))
        .pattern(&["X"])
        .key('X', Ingredient::item("minecraft:stone"))
        .result(RecipeResult::new("", 1));
    let err = recipe.validate().expect_err("empty result id should fail").to_string();
    assert!(err.contains("result.id"), "err: {err}");
}

#[test]
fn zero_result_count_fails_validation() {
    let recipe = ShapedRecipe::new(id("zero_count"))
        .pattern(&["X"])
        .key('X', Ingredient::item("minecraft:stone"))
        .result(RecipeResult::new("audit:result", 0));
    let err = recipe.validate().expect_err("zero count should fail").to_string();
    assert!(err.contains("result.count"), "err: {err}");
}

#[test]
fn missing_key_for_pattern_char_fails_validation() {
    let recipe = ShapedRecipe::new(id("missing_key"))
        .pattern(&["XY"])
        .key('X', Ingredient::item("minecraft:stone"))
        .result(RecipeResult::new("audit:result", 1));
    let err = recipe.validate().expect_err("missing key should fail").to_string();
    assert!(err.contains("'Y'"), "err: {err}");
    assert!(err.contains("key"), "err: {err}");
}

#[test]
fn unused_key_fails_validation() {
    let recipe = ShapedRecipe::new(id("unused_key"))
        .pattern(&["X"])
        .key('X', Ingredient::item("minecraft:stone"))
        .key('Y', Ingredient::item("minecraft:dirt"))
        .result(RecipeResult::new("audit:result", 1));
    let err = recipe.validate().expect_err("unused key should fail").to_string();
    assert!(err.contains("'Y'"), "err: {err}");
}

#[test]
fn empty_ingredient_fails_validation_not_panic() {
    let empty_inner = Ingredient::alternatives(Vec::new());
    let recipe = ShapedRecipe::new(id("empty_ing"))
        .pattern(&["X"])
        .key('X', empty_inner)
        .result(RecipeResult::new("audit:result", 1));
    let err = recipe.validate().expect_err("empty ingredient should fail").to_string();
    assert!(err.contains("ingredient"), "err: {err}");
    assert!(err.contains("empty"), "err: {err}");
}

#[test]
fn try_content_on_invalid_recipe_returns_error_not_panic() {
    let recipe = ShapedRecipe::new(id("invalid")).result(RecipeResult::new("audit:result", 1));
    let result = recipe.try_content();
    assert!(result.is_err(), "try_content must return Err, not panic");
    let err = result.unwrap_err().to_string();
    assert!(err.contains("audit:invalid"), "err: {err}");
    assert!(err.contains("recipe"), "err: {err}");
}

#[test]
fn golden_valid_shaped_recipe_output_unchanged() {
    let recipe = ShapedRecipe::new(id("golden"))
        .pattern(&["AAA", "BCB", "AAA"])
        .key('A', Ingredient::item("minecraft:iron_ingot"))
        .key('B', Ingredient::tag("minecraft:logs"))
        .key('C', Ingredient::item("minecraft:diamond"))
        .category("building")
        .group("iron_frame")
        .show_notification(false)
        .result(RecipeResult::new("audit:iron_frame", 1));
    let j = norm(&recipe.to_json());
    assert_eq!(j["type"], json(r#""minecraft:crafting_shaped""#));
    assert_eq!(j["category"], json(r#""building""#));
    assert_eq!(j["group"], json(r#""iron_frame""#));
    assert_eq!(j["pattern"], json(r#"["AAA", "BCB", "AAA"]"#));
    assert_eq!(j["key"]["A"], json(r#""minecraft:iron_ingot""#));
    assert_eq!(j["key"]["B"], json(r##""#minecraft:logs""##));
    assert_eq!(j["key"]["C"], json(r#""minecraft:diamond""#));
    assert_eq!(j["result"], json(r#"{"id": "audit:iron_frame", "count": 1}"#));
    assert_eq!(j["show_notification"], json("false"));
    let v = recipe.try_content().unwrap();
    assert_eq!(norm(&v), j, "try_content output must match to_json output");
}

#[test]
fn shaped_grid_invariants_are_contextual() {
    let uneven = ShapedRecipe::new(id("uneven"))
        .pattern(&["XX", "X"])
        .key('X', Ingredient::item("minecraft:stone"))
        .result(result());
    assert!(uneven.validate().unwrap_err().to_string().contains("pattern[1]"));
    let oversized = ShapedRecipe::new(id("oversized"))
        .pattern(&["XXXX"])
        .key('X', Ingredient::item("minecraft:stone"))
        .result(result());
    assert!(oversized.validate().unwrap_err().to_string().contains("pattern[0]"));
    let space = ShapedRecipe::new(id("space"))
        .pattern(&["X"])
        .key('X', Ingredient::item("minecraft:stone"))
        .key(' ', Ingredient::item("minecraft:air"))
        .result(result());
    assert!(space.validate().unwrap_err().to_string().contains("key[' ']"));
}

#[test]
fn shapeless_validates_count_nested_ingredients_and_result() {
    let empty = ShapelessRecipe::new(id("empty_shapeless")).result(result());
    assert!(empty.try_content().unwrap_err().to_string().contains("ingredients"));
    let nested = ShapelessRecipe::new(id("nested_shapeless"))
        .ingredient(Ingredient::alternatives(vec![Ingredient::alternatives(Vec::new())]))
        .result(result());
    assert!(nested.try_content().unwrap_err().to_string().contains("ingredients[0].alternatives[0]"));
    let too_many = (0..10).fold(ShapelessRecipe::new(id("too_many")).result(result()), |recipe, _| {
        recipe.ingredient(Ingredient::item("minecraft:stone"))
    });
    assert!(too_many.validate().unwrap_err().to_string().contains("at most 9"));
}

#[test]
fn cooking_validates_required_fields_finite_experience_and_time() {
    let missing = CookingRecipe::new(id("missing_cooking"), CookingType::Smelting);
    assert!(missing.try_content().unwrap_err().to_string().contains("ingredient"));
    for experience in [f32::NAN, f32::INFINITY, f32::NEG_INFINITY] {
        let recipe = CookingRecipe::new(id("xp"), CookingType::Smelting)
            .ingredient(Ingredient::item("minecraft:potato"))
            .result(result())
            .experience(F32Bits::from_bits(experience.to_bits()));
        assert!(recipe.try_content().unwrap_err().to_string().contains("experience"));
    }
    let zero = CookingRecipe::new(id("time"), CookingType::Smelting)
        .ingredient(Ingredient::item("minecraft:potato"))
        .result(result())
        .cooking_time(0);
    assert!(zero.validate().unwrap_err().to_string().contains("cookingtime"));
}

#[test]
fn stonecutting_and_smithing_validate_each_required_field() {
    let stone = StonecuttingRecipe::new(id("stone"))
        .ingredient(Ingredient::item("minecraft:stone"))
        .result(result())
        .count(0);
    assert!(stone.try_content().unwrap_err().to_string().contains("count"));
    let transform = SmithingTransformRecipe::new(id("transform_missing"));
    assert!(transform.try_content().unwrap_err().to_string().contains("template"));
    let trim = SmithingTrimRecipe::new(id("trim_missing")).template(Ingredient::item("minecraft:template"));
    assert!(trim.try_content().unwrap_err().to_string().contains("base"));
}

#[test]
fn serializes_modern_ingredient_forms() {
    assert_eq!(norm(&Ingredient::item("minecraft:oak_planks").to_json()), json(r#""minecraft:oak_planks""#));
    assert_eq!(norm(&Ingredient::tag("minecraft:planks").to_json()), json(r##""#minecraft:planks""##));
    assert_eq!(
        norm(&Ingredient::alternatives(vec![Ingredient::item("minecraft:oak_planks"), Ingredient::tag("minecraft:logs")]).to_json()),
        json(r##"["minecraft:oak_planks", "#minecraft:logs"]"##)
    );
}

#[test]
fn serializes_modern_recipe_result() {
    assert_eq!(
        norm(&RecipeResult::new("powers:reinforced_shield", 1).to_json()),
        json(r#"{ "id": "powers:reinforced_shield", "count": 1 }"#)
    );
}

#[test]
fn typed_item_tag_and_result_match_legacy_json() {
    let item = ItemId::minecraft("oak_planks").unwrap();
    assert_eq!(norm(&Ingredient::item_id(item).to_json()), json(r#""minecraft:oak_planks""#));
    let tag: TagId<ItemId> = TagId::minecraft("planks").unwrap();
    assert_eq!(norm(&Ingredient::item_tag(tag).to_json()), json(r##""#minecraft:planks""##));
    let result = RecipeResult::item(ItemId::minecraft("diamond").unwrap(), 1);
    assert_eq!(norm(&result.to_json()), json(r#"{ "id": "minecraft:diamond", "count": 1 }"#));
}

#[test]
fn explicit_raw_compatibility_paths_preserve_json() {
    assert_eq!(norm(&Ingredient::raw_item("future:item").to_json()), json(r#""future:item""#));
    assert_eq!(norm(&Ingredient::raw_tag("future:tag").to_json()), json(r##""#future:tag""##));
    assert_eq!(norm(&RecipeResult::raw("future:result", 2).to_json()), json(r#"{ "id": "future:result", "count": 2 }"#));
}

#[test]
fn component_free_result_omits_components_key() {
    let result = RecipeResult::item(ItemId::minecraft("diamond").unwrap(), 1);
    assert!(!result.has_components());
    let value = norm(&result.to_json());
    assert_eq!(value, json(r#"{ "id": "minecraft:diamond", "count": 1 }"#));
    assert!(value.get("components").is_none());
}

#[test]
fn ingredient_base_item_matching_remains_available_and_unchanged() {
    assert_eq!(norm(&Ingredient::item("minecraft:white_wool").to_json()), json(r#""minecraft:white_wool""#));
}

#[test]
fn component_bearing_result_writes_components_and_needs_the_feature() {
    let components = vec![("minecraft:custom_data".to_string(), JsonValue::Str("{marker:1b}".to_string()))];
    let result = RecipeResult::from_components("minecraft:white_wool", components, 3);
    assert!(result.has_components());
    assert_eq!(
        norm(&result.to_json()),
        json(r#"{"id": "minecraft:white_wool", "count": 3, "components": {"minecraft:custom_data": "{marker:1b}"}}"#)
    );
    let recipe = StonecuttingRecipe::new(id("cut")).ingredient(Ingredient::item("minecraft:stone")).result(result);
    assert_eq!(recipe.required_features().len(), 1);
}

#[test]
fn shaped_key_rebinding_replaces_the_ingredient() {
    let recipe = ShapedRecipe::new(id("rebind"))
        .pattern(&["X"])
        .key('X', Ingredient::item("minecraft:stone"))
        .key('X', Ingredient::item("minecraft:dirt"))
        .result(result());
    let j = norm(&recipe.to_json());
    assert_eq!(j["key"], json(r#"{"X": "minecraft:dirt"}"#));
    assert!(recipe.validate().is_ok());
}

#[test]
fn shaped_errors_name_the_character_exactly() {
    let err = ShapedRecipe::new(id("m")).pattern(&["XY"]).key('X', Ingredient::item("a:b")).result(result()).validate().unwrap_err();
    assert_eq!(
        err.to_string(),
        "recipe `audit:m` failed validation at `key`: pattern character 'Y' is not bound to any ingredient — add .key('Y', Ingredient::...)"
    );
    let err = ShapedRecipe::new(id("k"))
        .pattern(&["X"])
        .key('X', Ingredient::item("a:b"))
        .key('Z', Ingredient::alternatives(Vec::new()))
        .result(result())
        .validate()
        .unwrap_err();
    assert_eq!(
        err.to_string(),
        "recipe `audit:k` failed validation at `key`: key character 'Z' is not used in the pattern — remove it or add it to the pattern"
    );
}

#[test]
fn ingredient_forms_and_emptiness() {
    assert!(Ingredient::alternatives(vec![Ingredient::alternatives(Vec::new())]).is_empty());
    assert!(!Ingredient::item("a:b").is_empty());
    let loc = id("x");
    let err = Ingredient::item("").validate_at(&loc, "ingredient").unwrap_err();
    assert!(err.to_string().contains("ingredient item id must not be empty"));
    assert_eq!(CookingType::CampfireCooking.type_str(), "minecraft:campfire_cooking");
}

#[test]
fn cooking_json_carries_experience_and_time() {
    let recipe = CookingRecipe::new(id("c"), CookingType::Smoking)
        .ingredient(Ingredient::item("minecraft:potato"))
        .result(result())
        .experience(F32Bits::from_bits(0.5f32.to_bits()))
        .cooking_time(100);
    let j = norm(&recipe.try_content().unwrap());
    assert_eq!(j["type"], json(r#""minecraft:smoking""#));
    assert_eq!(j["experience"], json("0.5"));
    assert_eq!(j["cookingtime"], json("100"));
}
