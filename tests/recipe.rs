use cookbook::{Difficulty, Ingredient, IngredientSet, MissingField, Recipe, RecipeBuilder, RecipeTag, TagSet};

const U1: u128 = 0x67e5_5044_10b1_426f_9247_bb68_0e5f_e0c8;

fn full_builder() -> RecipeBuilder {
    Recipe::builder()
        .id(U1)
        .name("Pancakes".to_string())
        .difficulty(Difficulty::Easy)
        .duration(15)
        .description("Fluffy pancakes".to_string())
        .directions("Mix and fry.".to_string())
}

fn flour(id: u128, measurement: &str) -> Ingredient {
    Ingredient::new(id, "flour".to_string(), "g".to_string(), measurement.to_string())
}

#[test]
fn pancakes_scenario() {
    let recipe = full_builder().build().unwrap();
    assert_eq!(recipe.id(), U1);
    assert_eq!(recipe.name(), "Pancakes");
    assert_eq!(recipe.difficulty(), Difficulty::Easy);
    assert_eq!(recipe.duration(), 15);
    assert_eq!(recipe.description(), "Fluffy pancakes");
    assert_eq!(recipe.directions(), "Mix and fry.");
    assert_eq!(recipe.ingredients().len(), 0);
    assert_eq!(recipe.tags().len(), 0);
    assert!(recipe.img().is_empty());
}

#[test]
fn missing_duration_is_reported() {
    let result = Recipe::builder()
        .id(U1)
        .name("Pancakes".to_string())
        .difficulty(Difficulty::Easy)
        .description("Fluffy pancakes".to_string())
        .directions("Mix and fry.".to_string())
        .build();
    let err = result.err().unwrap();
    assert_eq!(err, MissingField::Duration);
    assert_eq!(err.field_name(), "duration");
}

#[test]
fn empty_builder_reports_id() {
    assert_eq!(RecipeBuilder::new().build().err(), Some(MissingField::Id));
    assert_eq!(Recipe::builder().build().err(), Some(MissingField::Id));
}

#[test]
fn missing_name_is_reported() {
    let r = Recipe::builder()
        .id(U1)
        .difficulty(Difficulty::Hard)
        .duration(1)
        .description(String::new())
        .directions(String::new())
        .build();
    assert_eq!(r.err(), Some(MissingField::Name));
    assert_eq!(MissingField::Name.field_name(), "name");
}

#[test]
fn missing_difficulty_is_reported() {
    let r = Recipe::builder()
        .id(U1)
        .name(String::new())
        .duration(1)
        .description(String::new())
        .directions(String::new())
        .build();
    assert_eq!(r.err(), Some(MissingField::Difficulty));
    assert_eq!(MissingField::Difficulty.field_name(), "difficulty");
}

#[test]
fn missing_description_is_reported() {
    let r = Recipe::builder()
        .id(U1)
        .name(String::new())
        .difficulty(Difficulty::Medium)
        .duration(1)
        .directions(String::new())
        .build();
    assert_eq!(r.err(), Some(MissingField::Description));
    assert_eq!(MissingField::Description.field_name(), "description");
}

#[test]
fn missing_directions_is_reported() {
    let r = Recipe::builder()
        .id(U1)
        .name(String::new())
        .difficulty(Difficulty::Expert)
        .duration(1)
        .description(String::new())
        .build();
    assert_eq!(r.err(), Some(MissingField::Directions));
    assert_eq!(MissingField::Directions.field_name(), "directions");
    assert_eq!(MissingField::Id.field_name(), "id");
}

#[test]
fn first_missing_field_wins() {
    let r = Recipe::builder().id(U1).duration(3).build();
    assert_eq!(r.err(), Some(MissingField::Name));
    let r = Recipe::builder().directions("x".to_string()).name("n".to_string()).build();
    assert_eq!(r.err(), Some(MissingField::Id));
    let r = Recipe::builder().id(U1).name("n".to_string()).difficulty(Difficulty::Easy).build();
    assert_eq!(r.err(), Some(MissingField::Duration));
}

#[test]
fn set_order_does_not_matter() {
    let recipe = Recipe::builder()
        .directions("d".to_string())
        .duration(9)
        .description("desc".to_string())
        .difficulty(Difficulty::Hard)
        .name("n".to_string())
        .id(5)
        .build()
        .unwrap();
    assert_eq!(recipe.id(), 5);
    assert_eq!(recipe.duration(), 9);
    assert_eq!(recipe.difficulty(), Difficulty::Hard);
}

#[test]
fn empty_texts_are_accepted() {
    let recipe = Recipe::builder()
        .id(0)
        .name(String::new())
        .difficulty(Difficulty::Easy)
        .duration(0)
        .description(String::new())
        .directions(String::new())
        .build()
        .unwrap();
    assert_eq!(recipe.name(), "");
    assert_eq!(recipe.duration(), 0);
}

#[test]
fn largest_duration_is_kept() {
    let recipe = full_builder().duration(65535).build().unwrap();
    assert_eq!(recipe.duration(), 65535);
}

#[test]
fn defaults_are_empty() {
    let recipe = full_builder().build().unwrap();
    assert!(recipe.ingredients().as_slice().is_empty());
    assert!(recipe.tags().as_slice().is_empty());
    assert_eq!(recipe.img(), &[] as &[u8]);
}

#[test]
fn image_is_kept() {
    let recipe = full_builder().img(vec![1, 2, 3]).img(vec![0xff, 0xd8]).build().unwrap();
    assert_eq!(recipe.img(), &[0xff, 0xd8]);
}

#[test]
fn ingredient_with_same_id_is_replaced() {
    let recipe = full_builder()
        .ingredient(flour(1, "100"))
        .ingredient(Ingredient::new(1, "sugar".to_string(), "cup".to_string(), "2".to_string()))
        .build()
        .unwrap();
    let set = recipe.ingredients();
    assert_eq!(set.len(), 1);
    let kept = set.get(1).unwrap();
    assert_eq!(kept.id(), 1);
    assert_eq!(kept.name(), "sugar");
    assert_eq!(kept.unit(), "cup");
    assert_eq!(kept.measurement(), "2");
}

#[test]
fn ingredients_with_other_ids_are_kept() {
    let recipe = full_builder()
        .ingredient(flour(1, "100"))
        .ingredient(flour(2, "100"))
        .ingredient(flour(3, "50"))
        .ingredient(flour(2, "200"))
        .build()
        .unwrap();
    let set = recipe.ingredients();
    assert_eq!(set.len(), 3);
    assert!(set.contains(1) && set.contains(2) && set.contains(3));
    assert!(!set.contains(4));
    assert!(set.get(4).is_none());
    assert_eq!(set.get(2).unwrap().measurement(), "200");
    assert_eq!(set.as_slice().len(), 3);
}

#[test]
fn tag_added_twice_is_kept_once() {
    let recipe = full_builder()
        .tag(RecipeTag::new("breakfast".to_string()))
        .tag(RecipeTag::new("breakfast".to_string()))
        .build()
        .unwrap();
    assert_eq!(recipe.tags().len(), 1);
    assert!(recipe.tags().contains(&RecipeTag::new("breakfast".to_string())));
    assert_eq!(recipe.tags().as_slice()[0].text(), "breakfast");
}

#[test]
fn distinct_tags_are_kept() {
    let recipe = full_builder()
        .tag(RecipeTag::new("sweet".to_string()))
        .tag(RecipeTag::new("".to_string()))
        .tag(RecipeTag::new("Sweet".to_string()))
        .build()
        .unwrap();
    let tags = recipe.tags();
    assert_eq!(tags.len(), 3);
    assert!(tags.contains(&RecipeTag::new(String::new())));
    assert!(!tags.contains(&RecipeTag::new("savory".to_string())));
}

#[test]
fn last_name_wins() {
    let recipe = full_builder().name("A".to_string()).name("B".to_string()).build().unwrap();
    assert_eq!(recipe.name(), "B");
}

#[test]
fn reads_are_repeatable() {
    let recipe = full_builder().tag(RecipeTag::new("t".to_string())).build().unwrap();
    assert_eq!(recipe.name(), recipe.name());
    assert_eq!(recipe.id(), recipe.id());
    assert_eq!(recipe.tags().len(), recipe.tags().len());
    assert_eq!(recipe.img(), recipe.img());
}

#[test]
fn ingredient_equality_is_by_id() {
    assert!(flour(7, "1") == Ingredient::new(7, "salt".to_string(), "pinch".to_string(), "1".to_string()));
    assert!(flour(7, "1") != flour(8, "1"));
}

#[test]
fn tag_equality_is_by_text() {
    assert!(RecipeTag::new("a".to_string()) == RecipeTag::new("a".to_string()));
    assert!(RecipeTag::new("a".to_string()) != RecipeTag::new("b".to_string()));
}

#[test]
fn difficulty_is_ordered() {
    assert!(Difficulty::Easy < Difficulty::Medium);
    assert!(Difficulty::Medium < Difficulty::Hard);
    assert!(Difficulty::Hard < Difficulty::Expert);
}

#[test]
fn recipe_new_holds_its_arguments() {
    let mut ingredients = IngredientSet::new();
    ingredients.insert(flour(1, "10"));
    ingredients.insert(flour(1, "20"));
    let mut tags = TagSet::new();
    tags.insert(RecipeTag::new("x".to_string()));
    let recipe = Recipe::new(
        9,
        "Bread".to_string(),
        Difficulty::Medium,
        240,
        "Crusty".to_string(),
        ingredients,
        "Knead.".to_string(),
        tags,
        vec![42],
    );
    assert_eq!(recipe.id(), 9);
    assert_eq!(recipe.name(), "Bread");
    assert_eq!(recipe.duration(), 240);
    assert_eq!(recipe.ingredients().len(), 1);
    assert_eq!(recipe.ingredients().get(1).unwrap().measurement(), "20");
    assert_eq!(recipe.tags().len(), 1);
    assert_eq!(recipe.img(), &[42]);
}
