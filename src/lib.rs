//! A cooking recipe as an immutable value, assembled field by field through a
//! builder that refuses to produce a recipe until every mandatory field is set.

pub mod builder;
pub mod difficulty;
pub mod ingredient;
pub mod recipe;
pub mod tag;

pub use builder::{BuilderView, MissingField, RecipeBuilder};
pub use difficulty::Difficulty;
pub use ingredient::{Ingredient, IngredientView, IngredientSet};
pub use recipe::{Recipe, RecipeView};
pub use tag::{RecipeTag, TagSet};

