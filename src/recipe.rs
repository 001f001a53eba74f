use vstd::prelude::*;
use crate::builder::{BuilderView, RecipeBuilder};
use crate::difficulty::Difficulty;
use crate::ingredient::{IngredientSet, IngredientView};
use crate::tag::TagSet;

verus! {

/// The mathematical value of a [`Recipe`].
pub ghost struct RecipeView {
    pub id: u128,
    pub name: Seq<char>,
    pub difficulty: Difficulty,
    pub duration: u16,
    pub description: Seq<char>,
    pub ingredients: Map<u128, IngredientView>,
    pub directions: Seq<char>,
    pub tags: Set<Seq<char>>,
    pub img: Seq<u8>,
}

/// A single recipe, as one would find it in a cookbook.
///
/// A recipe cannot be changed once made: every method reads.
pub struct Recipe {
    id: u128,
    name: String,
    difficulty: Difficulty,
    /// Estimated time to prepare, in minutes.
    duration: u16,
    description: String,
    ingredients: IngredientSet,
    directions: String,
    tags: TagSet,
    /// Raw bytes of a picture of the dish; may be empty.
    img: Vec<u8>,
}

impl View for Recipe {
    type V = RecipeView;

    closed spec fn view(&self) -> RecipeView {
        RecipeView {
            id: self.id,
            name: self.name@,
            difficulty: self.difficulty,
            duration: self.duration,
            description: self.description@,
            ingredients: self.ingredients@,
            directions: self.directions@,
            tags: self.tags@,
            img: self.img@,
        }
    }
}

impl Recipe {
    pub fn new(
        id: u128,
        name: String,
        difficulty: Difficulty,
        duration: u16,
        description: String,
        ingredients: IngredientSet,
        directions: String,
        tags: TagSet,
        img: Vec<u8>,
    ) -> (r: Recipe)
        ensures
            r@ == (RecipeView {
                id,
                name: name@,
                difficulty,
                duration,
                description: description@,
                ingredients: ingredients@,
                directions: directions@,
                tags: tags@,
                img: img@,
            }),
    {
        Recipe { id, name, difficulty, duration, description, ingredients, directions, tags, img }
    }

    /// A builder with nothing set yet.
    pub fn builder() -> (r: RecipeBuilder)
        ensures
            r@ == BuilderView::empty(),
    {
        RecipeBuilder::new()
    }

    pub fn id(&self) -> (r: u128)
        ensures
            r == self@.id,
    {
        self.id
    }

    pub fn name(&self) -> (r: &str)
        ensures
            r@ == self@.name,
    {
        self.name.as_str()
    }

    pub fn difficulty(&self) -> (r: Difficulty)
        ensures
            r == self@.difficulty,
    {
        self.difficulty
    }

    pub fn duration(&self) -> (r: u16)
        ensures
            r == self@.duration,
    {
        self.duration
    }

    pub fn description(&self) -> (r: &str)
        ensures
            r@ == self@.description,
    {
        self.description.as_str()
    }

    pub fn ingredients(&self) -> (r: &IngredientSet)
        ensures
            r@ == self@.ingredients,
    {
        &self.ingredients
    }

    pub fn directions(&self) -> (r: &str)
        ensures
            r@ == self@.directions,
    {
        self.directions.as_str()
    }

    pub fn tags(&self) -> (r: &TagSet)
        ensures
            r@ == self@.tags,
    {
        &self.tags
    }

    pub fn img(&self) -> (r: &[u8])
        ensures
            r@ == self@.img,
    {
        self.img.as_slice()
    }
}

} // verus!
