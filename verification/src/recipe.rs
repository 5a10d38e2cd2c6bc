use vstd::prelude::*;

verus! {

/// A crafter: a crafting station or profession, known by its name.
#[derive(Debug)]
pub struct Crafter {
    pub name: String,
}

impl View for Crafter {
    type V = Seq<char>;

    open spec fn view(&self) -> Seq<char> {
        self.name@
    }
}

/// An ingredient of a recipe, or an entry of a crafting stock.
#[derive(Debug)]
pub struct Ingredient {
    pub name: String,
    pub quantity: u32,
    pub recipe_craftable: bool,
}

/// The mathematical model of an [`Ingredient`].
pub ghost struct IngredientView {
    pub name: Seq<char>,
    pub quantity: u32,
    pub recipe_craftable: bool,
}

impl View for Ingredient {
    type V = IngredientView;

    open spec fn view(&self) -> IngredientView {
        IngredientView { name: self.name@, quantity: self.quantity, recipe_craftable: self.recipe_craftable }
    }
}

impl Ingredient {
    /// A copy of this ingredient.
    pub fn duplicate(&self) -> (r: Ingredient)
        ensures
            r@ == self@,
    {
        Ingredient { name: self.name.clone(), quantity: self.quantity, recipe_craftable: self.recipe_craftable }
    }
}

} // verus!

verus! {

/// A recipe for crafting an item.
#[derive(Debug)]
pub struct Recipe {
    pub name: String,
    pub ingredients: Vec<Ingredient>,
    pub outcome: String,
    pub crafters: Vec<Crafter>,
    pub base_cook_time: u32,
    pub cook_count: u32,
}

/// The mathematical model of a [`Recipe`].
pub ghost struct RecipeView {
    pub name: Seq<char>,
    pub ingredients: Seq<IngredientView>,
    pub outcome: Seq<char>,
    pub crafters: Seq<Seq<char>>,
    pub base_cook_time: u32,
    pub cook_count: u32,
}

/// The views of a sequence of ingredients.
pub open spec fn ingredient_views(s: Seq<Ingredient>) -> Seq<IngredientView> {
    s.map_values(|i: Ingredient| i@)
}

/// The names of a sequence of crafters.
pub open spec fn crafter_names(s: Seq<Crafter>) -> Seq<Seq<char>> {
    s.map_values(|c: Crafter| c@)
}

impl View for Recipe {
    type V = RecipeView;

    open spec fn view(&self) -> RecipeView {
        RecipeView {
            name: self.name@,
            ingredients: ingredient_views(self.ingredients@),
            outcome: self.outcome@,
            crafters: crafter_names(self.crafters@),
            base_cook_time: self.base_cook_time,
            cook_count: self.cook_count,
        }
    }
}

/// The number of cooks after which a recipe counts as mastered.
pub const MASTERY_COOK_COUNT: u32 = 10;

impl Crafter {
    /// A copy of this crafter.
    pub fn duplicate(&self) -> (r: Crafter)
        ensures
            r@ == self@,
    {
        Crafter { name: self.name.clone() }
    }
}

impl Recipe {
    /// Records one more cook of this recipe.
    pub fn increment_cook_count(&mut self)
        requires
            old(self).cook_count < u32::MAX,
        ensures
            final(self)@ == (RecipeView { cook_count: (old(self).cook_count + 1) as u32, ..old(self)@ }),
    {
        self.cook_count = self.cook_count + 1;
    }

    /// Whether the recipe has been cooked at least ten times.
    pub fn is_mastered(&self) -> (r: bool)
        ensures
            r == (self.cook_count >= MASTERY_COOK_COUNT),
    {
        self.cook_count >= MASTERY_COOK_COUNT
    }

    /// A copy of this recipe.
    pub fn duplicate(&self) -> (r: Recipe)
        ensures
            r@ == self@,
    {
        let mut ingredients: Vec<Ingredient> = Vec::new();
        let mut i: usize = 0;
        while i < self.ingredients.len()
            invariant
                i <= self.ingredients.len(),
                ingredients.len() == i,
                forall|k: int| 0 <= k < i ==> #[trigger] ingredients@[k]@ == self.ingredients@[k]@,
            decreases self.ingredients.len() - i,
        {
            ingredients.push(self.ingredients[i].duplicate());
            i = i + 1;
        }
        let mut crafters: Vec<Crafter> = Vec::new();
        let mut j: usize = 0;
        while j < self.crafters.len()
            invariant
                j <= self.crafters.len(),
                crafters.len() == j,
                forall|k: int| 0 <= k < j ==> #[trigger] crafters@[k]@ == self.crafters@[k]@,
            decreases self.crafters.len() - j,
        {
            crafters.push(self.crafters[j].duplicate());
            j = j + 1;
        }
        proof {
            assert(ingredient_views(ingredients@) =~= ingredient_views(self.ingredients@));
            assert(crafter_names(crafters@) =~= crafter_names(self.crafters@));
        }
        Recipe {
            name: self.name.clone(),
            ingredients,
            outcome: self.outcome.clone(),
            crafters,
            base_cook_time: self.base_cook_time,
            cook_count: self.cook_count,
        }
    }
}

} // verus!
