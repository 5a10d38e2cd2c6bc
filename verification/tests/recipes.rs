use horizon::recipe::{Crafter, Ingredient, Recipe, MASTERY_COOK_COUNT};
use horizon::recipe_book::RecipeBook;

fn ingredient(name: &str, quantity: u32) -> Ingredient {
    Ingredient { name: name.to_string(), quantity, recipe_craftable: true }
}

fn recipe(name: &str, ingredients: Vec<Ingredient>, outcome: &str, crafters: &[&str]) -> Recipe {
    Recipe {
        name: name.to_string(),
        ingredients,
        outcome: outcome.to_string(),
        crafters: crafters.iter().map(|c| Crafter { name: c.to_string() }).collect(),
        base_cook_time: 30,
        cook_count: 0,
    }
}

fn bread() -> Recipe {
    recipe("Bread", vec![ingredient("Flour", 2), ingredient("Water", 1)], "Loaf", &["Oven", "Baker"])
}

fn stock(entries: &[(&str, u32, bool)]) -> Vec<(String, Ingredient)> {
    entries
        .iter()
        .map(|(n, q, c)| (n.to_string(), Ingredient { name: n.to_string(), quantity: *q, recipe_craftable: *c }))
        .collect()
}

fn quantity(stock: &[(String, Ingredient)], name: &str) -> u32 {
    stock.iter().find(|(n, _)| n == name).map(|(_, i)| i.quantity).unwrap()
}

#[test]
fn get_recipe_after_add() {
    let mut book = RecipeBook::new();
    assert!(book.get_recipe("Bread").is_none());
    book.add_recipe(bread());
    let r = book.get_recipe("Bread").unwrap();
    assert_eq!(r.name, "Bread");
    assert_eq!(r.outcome, "Loaf");
    assert_eq!(r.ingredients.len(), 2);
    assert_eq!(r.ingredients[0].name, "Flour");
    assert_eq!(r.ingredients[0].quantity, 2);
    assert_eq!(r.base_cook_time, 30);
}

#[test]
fn adding_same_name_replaces() {
    let mut book = RecipeBook::new();
    book.add_recipe(bread());
    book.add_recipe(recipe("Bread", vec![ingredient("Flour", 5)], "Big Loaf", &["Oven"]));
    let r = book.get_recipe("Bread").unwrap();
    assert_eq!(r.outcome, "Big Loaf");
    assert_eq!(r.ingredients.len(), 1);
}

#[test]
fn recipes_listed_for_each_crafter() {
    let mut book = RecipeBook::new();
    book.add_recipe(bread());
    book.add_recipe(recipe("Cake", vec![ingredient("Flour", 1)], "Cake", &["Oven"]));
    let oven = book.get_recipes_for_crafter(&Crafter { name: "Oven".to_string() });
    let names: Vec<&str> = oven.iter().map(|r| r.name.as_str()).collect();
    assert_eq!(names, vec!["Bread", "Cake"]);
    let baker = book.get_recipes_for_crafter(&Crafter { name: "Baker".to_string() });
    assert_eq!(baker.len(), 1);
    assert_eq!(baker[0].name, "Bread");
    let anvil = book.get_recipes_for_crafter(&Crafter { name: "Anvil".to_string() });
    assert!(anvil.is_empty());
}

#[test]
fn can_craft_needs_every_ingredient() {
    let mut book = RecipeBook::new();
    book.add_recipe(bread());
    assert!(book.can_craft("Bread", &stock(&[("Flour", 2, true), ("Water", 1, true)])));
    assert!(!book.can_craft("Bread", &stock(&[("Flour", 1, true), ("Water", 1, true)])));
    assert!(!book.can_craft("Bread", &stock(&[("Flour", 2, true)])));
    assert!(!book.can_craft("Bread", &stock(&[("Flour", 2, false), ("Water", 1, true)])));
    assert!(!book.can_craft("Pie", &stock(&[("Flour", 9, true), ("Water", 9, true)])));
}

#[test]
fn craft_takes_ingredients_and_counts_cook() {
    let mut book = RecipeBook::new();
    book.add_recipe(bread());
    let mut inv = stock(&[("Flour", 5, true), ("Water", 3, true), ("Salt", 1, true)]);
    let out = book.craft("Bread", &mut inv);
    assert_eq!(out, Some("Loaf".to_string()));
    assert_eq!(quantity(&inv, "Flour"), 3);
    assert_eq!(quantity(&inv, "Water"), 2);
    assert_eq!(quantity(&inv, "Salt"), 1);
    assert_eq!(book.get_recipe("Bread").unwrap().cook_count, 1);
}

#[test]
fn craft_without_ingredients_changes_nothing() {
    let mut book = RecipeBook::new();
    book.add_recipe(bread());
    let mut inv = stock(&[("Flour", 1, true), ("Water", 3, true)]);
    assert_eq!(book.craft("Bread", &mut inv), None);
    assert_eq!(quantity(&inv, "Flour"), 1);
    assert_eq!(quantity(&inv, "Water"), 3);
    assert_eq!(book.get_recipe("Bread").unwrap().cook_count, 0);
    assert_eq!(book.craft("Pie", &mut inv), None);
}

#[test]
fn recipe_mastered_after_ten_cooks() {
    let mut r = bread();
    assert_eq!(MASTERY_COOK_COUNT, 10);
    for _ in 0..9 {
        r.increment_cook_count();
        assert!(!r.is_mastered());
    }
    r.increment_cook_count();
    assert_eq!(r.cook_count, 10);
    assert!(r.is_mastered());
    r.increment_cook_count();
    assert!(r.is_mastered());
}

#[test]
fn duplicates_are_equal_copies() {
    let r = bread();
    let d = r.duplicate();
    assert_eq!(d.name, r.name);
    assert_eq!(d.crafters.len(), 2);
    assert_eq!(d.crafters[1].name, "Baker");
    let i = ingredient("Flour", 4).duplicate();
    assert_eq!(i.quantity, 4);
    assert!(i.recipe_craftable);
}
