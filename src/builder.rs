use vstd::prelude::*;
use crate::difficulty::Difficulty;
use crate::ingredient::{Ingredient, IngredientSet, IngredientView};
use crate::recipe::{Recipe, RecipeView};
use crate::tag::{RecipeTag, TagSet};

verus! {

/// A mandatory field of a recipe that was never set on the builder.
#[derive(Clone, Copy, Debug, PartialEq, Eq, Structural, Hash)]
pub enum MissingField {
    Id,
    Name,
    Difficulty,
    Duration,
    Description,
    Directions,
}

impl MissingField {
    /// The position of the field in the order in which `build` checks them.
    pub open spec fn rank(self) -> nat {
        match self {
            MissingField::Id => 0,
            MissingField::Name => 1,
            MissingField::Difficulty => 2,
            MissingField::Duration => 3,
            MissingField::Description => 4,
            MissingField::Directions => 5,
        }
    }

    /// The field's name, in lower case.
    pub fn field_name(&self) -> (r: &'static str)
        ensures
            *self == MissingField::Id ==> r@ == "id"@,
            *self == MissingField::Name ==> r@ == "name"@,
            *self == MissingField::Difficulty ==> r@ == "difficulty"@,
            *self == MissingField::Duration ==> r@ == "duration"@,
            *self == MissingField::Description ==> r@ == "description"@,
            *self == MissingField::Directions ==> r@ == "directions"@,
    {
        match self {
            MissingField::Id => "id",
            MissingField::Name => "name",
            MissingField::Difficulty => "difficulty",
            MissingField::Duration => "duration",
            MissingField::Description => "description",
            MissingField::Directions => "directions",
        }
    }
}

/// The mathematical value of a [`RecipeBuilder`]: each mandatory field is
/// `None` until set, and the image stays `None` until supplied.
pub ghost struct BuilderView {
    pub id: Option<u128>,
    pub name: Option<Seq<char>>,
    pub difficulty: Option<Difficulty>,
    pub duration: Option<u16>,
    pub description: Option<Seq<char>>,
    pub ingredients: Map<u128, IngredientView>,
    pub directions: Option<Seq<char>>,
    pub tags: Set<Seq<char>>,
    pub img: Option<Seq<u8>>,
}

impl BuilderView {
    pub open spec fn empty() -> BuilderView {
        BuilderView {
            id: None,
            name: None,
            difficulty: None,
            duration: None,
            description: None,
            ingredients: Map::empty(),
            directions: None,
            tags: Set::empty(),
            img: None,
        }
    }

    pub open spec fn set_id(self, id: u128) -> BuilderView {
        BuilderView { id: Some(id), ..self }
    }

    pub open spec fn set_name(self, name: Seq<char>) -> BuilderView {
        BuilderView { name: Some(name), ..self }
    }

    pub open spec fn set_difficulty(self, difficulty: Difficulty) -> BuilderView {
        BuilderView { difficulty: Some(difficulty), ..self }
    }

    pub open spec fn set_duration(self, duration: u16) -> BuilderView {
        BuilderView { duration: Some(duration), ..self }
    }

    pub open spec fn set_description(self, description: Seq<char>) -> BuilderView {
        BuilderView { description: Some(description), ..self }
    }

    pub open spec fn set_directions(self, directions: Seq<char>) -> BuilderView {
        BuilderView { directions: Some(directions), ..self }
    }

    pub open spec fn set_img(self, img: Seq<u8>) -> BuilderView {
        BuilderView { img: Some(img), ..self }
    }

    pub open spec fn add_ingredient(self, ingredient: IngredientView) -> BuilderView {
        BuilderView { ingredients: self.ingredients.insert(ingredient.id, ingredient), ..self }
    }

    pub open spec fn add_tag(self, tag: Seq<char>) -> BuilderView {
        BuilderView { tags: self.tags.insert(tag), ..self }
    }

    /// Whether the mandatory field `f` has been set.
    pub open spec fn is_set(self, f: MissingField) -> bool {
        match f {
            MissingField::Id => self.id is Some,
            MissingField::Name => self.name is Some,
            MissingField::Difficulty => self.difficulty is Some,
            MissingField::Duration => self.duration is Some,
            MissingField::Description => self.description is Some,
            MissingField::Directions => self.directions is Some,
        }
    }

    /// The first mandatory field, in the order id, name, difficulty, duration,
    /// description, directions, that is not set.
    pub open spec fn first_missing(self) -> Option<MissingField> {
        if self.id is None {
            Some(MissingField::Id)
        } else if self.name is None {
            Some(MissingField::Name)
        } else if self.difficulty is None {
            Some(MissingField::Difficulty)
        } else if self.duration is None {
            Some(MissingField::Duration)
        } else if self.description is None {
            Some(MissingField::Description)
        } else if self.directions is None {
            Some(MissingField::Directions)
        } else {
            None
        }
    }

    /// What finalizing this builder gives: the recipe, with an empty image
    /// where none was supplied, or the first missing field.
    pub open spec fn finish(self) -> Result<RecipeView, MissingField> {
        match self.first_missing() {
            Some(f) => Err(f),
            None => Ok(
                RecipeView {
                    id: self.id.unwrap(),
                    name: self.name.unwrap(),
                    difficulty: self.difficulty.unwrap(),
                    duration: self.duration.unwrap(),
                    description: self.description.unwrap(),
                    ingredients: self.ingredients,
                    directions: self.directions.unwrap(),
                    tags: self.tags,
                    img: match self.img {
                        Some(img) => img,
                        None => Seq::empty(),
                    },
                },
            ),
        }
    }
}

/// The value of an optional text.
pub open spec fn text_view(o: Option<String>) -> Option<Seq<char>> {
    match o {
        Some(s) => Some(s@),
        None => None,
    }
}

/// Assembles a [`Recipe`] one field at a time. Every setter overwrites what an
/// earlier call set; `build` checks that each mandatory field was set.
pub struct RecipeBuilder {
    id: Option<u128>,
    name: Option<String>,
    difficulty: Option<Difficulty>,
    duration: Option<u16>,
    description: Option<String>,
    ingredients: IngredientSet,
    directions: Option<String>,
    tags: TagSet,
    img: Option<Vec<u8>>,
}

impl View for RecipeBuilder {
    type V = BuilderView;

    closed spec fn view(&self) -> BuilderView {
        BuilderView {
            id: self.id,
            name: text_view(self.name),
            difficulty: self.difficulty,
            duration: self.duration,
            description: text_view(self.description),
            ingredients: self.ingredients@,
            directions: text_view(self.directions),
            tags: self.tags@,
            img: match self.img {
                Some(img) => Some(img@),
                None => None,
            },
        }
    }
}

impl RecipeBuilder {
    pub fn new() -> (r: RecipeBuilder)
        ensures
            r@ == BuilderView::empty(),
    {
        RecipeBuilder {
            id: None,
            name: None,
            difficulty: None,
            duration: None,
            description: None,
            ingredients: IngredientSet::new(),
            directions: None,
            tags: TagSet::new(),
            img: None,
        }
    }

    pub fn id(self, id: u128) -> (r: RecipeBuilder)
        ensures
            r@ == self@.set_id(id),
    {
        let mut b = self;
        b.id = Some(id);
        b
    }

    pub fn name(self, name: String) -> (r: RecipeBuilder)
        ensures
            r@ == self@.set_name(name@),
    {
        let mut b = self;
        b.name = Some(name);
        b
    }

    pub fn difficulty(self, difficulty: Difficulty) -> (r: RecipeBuilder)
        ensures
            r@ == self@.set_difficulty(difficulty),
    {
        let mut b = self;
        b.difficulty = Some(difficulty);
        b
    }

    pub fn duration(self, duration: u16) -> (r: RecipeBuilder)
        ensures
            r@ == self@.set_duration(duration),
    {
        let mut b = self;
        b.duration = Some(duration);
        b
    }

    pub fn description(self, description: String) -> (r: RecipeBuilder)
        ensures
            r@ == self@.set_description(description@),
    {
        let mut b = self;
        b.description = Some(description);
        b
    }

    pub fn directions(self, directions: String) -> (r: RecipeBuilder)
        ensures
            r@ == self@.set_directions(directions@),
    {
        let mut b = self;
        b.directions = Some(directions);
        b
    }

    /// Adds an ingredient; one already added with the same id is replaced.
    pub fn ingredient(self, ingredient: Ingredient) -> (r: RecipeBuilder)
        ensures
            r@ == self@.add_ingredient(ingredient@),
    {
        let mut b = self;
        b.ingredients.insert(ingredient);
        b
    }

    /// Adds a tag; adding the same text again changes nothing.
    pub fn tag(self, tag: RecipeTag) -> (r: RecipeBuilder)
        ensures
            r@ == self@.add_tag(tag@),
    {
        let mut b = self;
        b.tags.insert(tag);
        b
    }

    pub fn img(self, img: Vec<u8>) -> (r: RecipeBuilder)
        ensures
            r@ == self@.set_img(img@),
    {
        let mut b = self;
        b.img = Some(img);
        b
    }

    /// Finalizes the builder: the recipe if every mandatory field is set, else
    /// the first one missing, checked in the order id, name, difficulty,
    /// duration, description, directions.
    pub fn build(self) -> (r: Result<Recipe, MissingField>)
        ensures
            match r {
                Ok(recipe) => self@.finish() == Ok::<RecipeView, MissingField>(recipe@),
                Err(f) => self@.finish() == Err::<RecipeView, MissingField>(f),
            },
    {
        let RecipeBuilder {
            id,
            name,
            difficulty,
            duration,
            description,
            ingredients,
            directions,
            tags,
            img,
        } = self;
        let id = match id {
            Some(v) => v,
            None => return Err(MissingField::Id),
        };
        let name = match name {
            Some(v) => v,
            None => return Err(MissingField::Name),
        };
        let difficulty = match difficulty {
            Some(v) => v,
            None => return Err(MissingField::Difficulty),
        };
        let duration = match duration {
            Some(v) => v,
            None => return Err(MissingField::Duration),
        };
        let description = match description {
            Some(v) => v,
            None => return Err(MissingField::Description),
        };
        let directions = match directions {
            Some(v) => v,
            None => return Err(MissingField::Directions),
        };
        let img = match img {
            Some(v) => v,
            None => Vec::new(),
        };
        Ok(
            Recipe::new(
                id,
                name,
                difficulty,
                duration,
                description,
                ingredients,
                directions,
                tags,
                img,
            ),
        )
    }
}

/// Finalizing succeeds exactly when all six mandatory fields have been set.
pub proof fn lemma_build_ok_iff_complete(b: BuilderView)
    ensures
        b.finish() is Ok <==> (b.id is Some && b.name is Some && b.difficulty is Some
            && b.duration is Some && b.description is Some && b.directions is Some),
{
}

/// When finalizing fails, the field it reports is unset and every field checked
/// before it (in the order id, name, difficulty, duration, description,
/// directions) is set; so the same field is reported every time.
pub proof fn lemma_first_missing_reported(b: BuilderView, f: MissingField)
    ensures
        b.finish() == Err::<RecipeView, MissingField>(f) <==> (!b.is_set(f) && forall|g: MissingField|
            #[trigger] g.rank() < f.rank() ==> b.is_set(g)),
{
    if !b.is_set(f) && forall|g: MissingField| #[trigger] g.rank() < f.rank() ==> b.is_set(g) {
        assert(MissingField::Id.rank() == 0);
        assert(MissingField::Name.rank() == 1);
        assert(MissingField::Difficulty.rank() == 2);
        assert(MissingField::Duration.rank() == 3);
        assert(MissingField::Description.rank() == 4);
    }
}

/// A builder with every mandatory field set and no ingredient, tag or image
/// gives a recipe with no ingredients, no tags and an empty image.
pub proof fn lemma_defaults(b: BuilderView)
    requires
        b.id is Some,
        b.name is Some,
        b.difficulty is Some,
        b.duration is Some,
        b.description is Some,
        b.directions is Some,
        b.ingredients == Map::<u128, IngredientView>::empty(),
        b.tags == Set::<Seq<char>>::empty(),
        b.img is None,
    ensures
        b.finish() is Ok,
        b.finish()->Ok_0.ingredients == Map::<u128, IngredientView>::empty(),
        b.finish()->Ok_0.tags == Set::<Seq<char>>::empty(),
        b.finish()->Ok_0.img == Seq::<u8>::empty(),
{
}

/// Adding two ingredients with the same id keeps one entry for that id: the
/// one added last.
pub proof fn lemma_ingredient_last_added_kept(
    b: BuilderView,
    first: IngredientView,
    second: IngredientView,
)
    requires
        first.id == second.id,
    ensures
        b.add_ingredient(first).add_ingredient(second) == b.add_ingredient(second),
        b.add_ingredient(first).add_ingredient(second).ingredients.dom() == b.ingredients.dom().insert(
            second.id,
        ),
        b.add_ingredient(first).add_ingredient(second).ingredients[second.id] == second,
        b.add_ingredient(first).add_ingredient(second).finish() is Ok ==> b.add_ingredient(
            first,
        ).add_ingredient(second).finish()->Ok_0.ingredients[second.id] == second,
{
    assert(b.ingredients.insert(first.id, first).insert(second.id, second) =~= b.ingredients.insert(
        second.id,
        second,
    ));
}

/// Adding the same tag text twice is the same as adding it once; to a builder
/// with no tags, that leaves one tag.
pub proof fn lemma_tag_added_twice(b: BuilderView, tag: Seq<char>)
    ensures
        b.add_tag(tag).add_tag(tag) == b.add_tag(tag),
        b.tags == Set::<Seq<char>>::empty() ==> b.add_tag(tag).add_tag(tag).tags.len() == 1,
{
    assert(b.tags.insert(tag).insert(tag) =~= b.tags.insert(tag));
    if b.tags == Set::<Seq<char>>::empty() {
        assert(b.tags.insert(tag) =~= set![tag]);
    }
}

/// Setting the name twice is the same as setting it to the second value, and
/// the finished recipe carries the second name.
pub proof fn lemma_last_name_wins(b: BuilderView, first: Seq<char>, second: Seq<char>)
    ensures
        b.set_name(first).set_name(second) == b.set_name(second),
        b.set_name(first).set_name(second).finish() is Ok ==> b.set_name(first).set_name(
            second,
        ).finish()->Ok_0.name == second,
{
}

} // verus!
