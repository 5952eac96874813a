//! Recipe builders for `data/<namespace>/recipe/` JSON files: shaped and
//! shapeless crafting, cooking, stonecutting and smithing, over shared
//! ingredient and result types.

pub mod cooking;
pub mod shaped;
pub mod shapeless;
pub mod smithing;
pub mod stonecutting;
pub mod types;

pub use cooking::CookingRecipe;
pub use shaped::ShapedRecipe;
pub use shapeless::ShapelessRecipe;
pub use smithing::{SmithingTransformRecipe, SmithingTrimRecipe};
pub use stonecutting::StonecuttingRecipe;
pub use types::{ComponentFeature, CookingType, Ingredient, IntoRecipeItemId, RecipeResult};
