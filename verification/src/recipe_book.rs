//! The collection of known recipes and the crafters that can cook them.

use vstd::prelude::*;
use crate::assoc::{
    assoc_map, first_index, first_match, keys_unique, lemma_absent, lemma_first_index, lemma_first_index_is,
    lemma_push_new, lemma_update_first,
};
use crate::recipe::{Crafter, Ingredient, IngredientView, Recipe, RecipeView};

verus! {

/// The key of a recipe entry: the recipe's name.
pub open spec fn recipe_key() -> spec_fn(Recipe) -> Seq<char> {
    |r: Recipe| r.name@
}

/// The value of a recipe entry: the recipe's model.
pub open spec fn recipe_val() -> spec_fn(Recipe) -> RecipeView {
    |r: Recipe| r@
}

/// The key of a crafter entry: the crafter's name.
pub open spec fn crafter_key() -> spec_fn((Crafter, Vec<String>)) -> Seq<char> {
    |e: (Crafter, Vec<String>)| e.0@
}

/// The value of a crafter entry: the names of the recipes noted for it.
pub open spec fn crafter_val() -> spec_fn((Crafter, Vec<String>)) -> Seq<Seq<char>> {
    |e: (Crafter, Vec<String>)| string_views(e.1@)
}

/// The texts of a sequence of strings.
pub open spec fn string_views(s: Seq<String>) -> Seq<Seq<char>> {
    s.map_values(|x: String| x@)
}

/// The models of a sequence of recipes.
pub open spec fn recipe_views(s: Seq<Recipe>) -> Seq<RecipeView> {
    s.map_values(|r: Recipe| r@)
}

/// The key of a stock entry: the name it is filed under.
pub open spec fn stock_key() -> spec_fn((String, Ingredient)) -> Seq<char> {
    |e: (String, Ingredient)| e.0@
}

/// The value of a stock entry: the ingredient held.
pub open spec fn stock_val() -> spec_fn((String, Ingredient)) -> IngredientView {
    |e: (String, Ingredient)| e.1@
}

/// The map from names to ingredients that a stock list stands for.
pub open spec fn stock_map(s: Seq<(String, Ingredient)>) -> Map<Seq<char>, IngredientView> {
    assoc_map(s, stock_key(), stock_val())
}

/// The model of a [`RecipeBook`]: recipes by name, and for each crafter the
/// names of the recipes noted for it, in the order they were added.
pub ghost struct RecipeBookView {
    pub recipes: Map<Seq<char>, RecipeView>,
    pub crafters: Map<Seq<char>, Seq<Seq<char>>>,
}

/// The crafter map after `name` has been noted for each crafter of `crafters`
/// in turn; a crafter listed twice gets the name twice.
pub open spec fn crafters_after_add(
    m: Map<Seq<char>, Seq<Seq<char>>>,
    crafters: Seq<Seq<char>>,
    name: Seq<char>,
) -> Map<Seq<char>, Seq<Seq<char>>>
    decreases crafters.len(),
{
    if crafters.len() == 0 {
        m
    } else {
        let m0 = crafters_after_add(m, crafters.drop_last(), name);
        let c = crafters.last();
        m0.insert(c, if m0.contains_key(c) { m0[c].push(name) } else { seq![name] })
    }
}

/// The recipes that a list of names resolves to; names of no known recipe
/// are skipped.
pub open spec fn resolve_names(m: Map<Seq<char>, RecipeView>, names: Seq<Seq<char>>) -> Seq<RecipeView>
    decreases names.len(),
{
    if names.len() == 0 {
        Seq::empty()
    } else {
        let rest = resolve_names(m, names.drop_last());
        if m.contains_key(names.last()) {
            rest.push(m[names.last()])
        } else {
            rest
        }
    }
}

/// The stock holds enough of an ingredient: an entry of its name that is
/// marked craftable and has at least the quantity needed.
pub open spec fn supplies(stock: Map<Seq<char>, IngredientView>, need: IngredientView) -> bool {
    &&& stock.contains_key(need.name)
    &&& stock[need.name].recipe_craftable
    &&& stock[need.name].quantity >= need.quantity
}

/// The stock after the ingredients have been taken from it one after another.
pub open spec fn consume(stock: Map<Seq<char>, IngredientView>, needs: Seq<IngredientView>) -> Map<
    Seq<char>,
    IngredientView,
>
    decreases needs.len(),
{
    if needs.len() == 0 {
        stock
    } else {
        let m = consume(stock, needs.drop_last());
        let g = needs.last();
        if m.contains_key(g.name) {
            m.insert(g.name, IngredientView { quantity: (m[g.name].quantity - g.quantity) as u32, ..m[g.name] })
        } else {
            m
        }
    }
}

/// Taking the ingredients one after another never takes more than is left.
pub open spec fn consumable(stock: Map<Seq<char>, IngredientView>, needs: Seq<IngredientView>) -> bool
    decreases needs.len(),
{
    if needs.len() == 0 {
        true
    } else {
        let m = consume(stock, needs.drop_last());
        let g = needs.last();
        &&& consumable(stock, needs.drop_last())
        &&& (m.contains_key(g.name) ==> m[g.name].quantity >= g.quantity)
    }
}

/// A known recipe whose every ingredient the stock supplies.
pub open spec fn craftable(book: RecipeBookView, name: Seq<char>, stock: Map<Seq<char>, IngredientView>) -> bool {
    &&& book.recipes.contains_key(name)
    &&& forall|k: int|
        #![trigger book.recipes[name].ingredients[k]]
        0 <= k < book.recipes[name].ingredients.len() ==> supplies(stock, book.recipes[name].ingredients[k])
}

/// The book after `add_recipe(r)`: `r`'s name noted for each of its
/// crafters, and `r` filed under its name.
pub open spec fn book_after_add(b: RecipeBookView, r: RecipeView) -> RecipeBookView {
    RecipeBookView {
        recipes: b.recipes.insert(r.name, r),
        crafters: crafters_after_add(b.crafters, r.crafters, r.name),
    }
}

/// What `get_recipe(name)` finds in the book.
pub open spec fn lookup_recipe(b: RecipeBookView, name: Seq<char>) -> Option<RecipeView> {
    if b.recipes.contains_key(name) {
        Some(b.recipes[name])
    } else {
        None
    }
}

/// What `get_recipes_for_crafter` gives for the crafter named `crafter`.
pub open spec fn recipes_for_crafter(b: RecipeBookView, crafter: Seq<char>) -> Seq<RecipeView> {
    resolve_names(b.recipes, if b.crafters.contains_key(crafter) { b.crafters[crafter] } else { Seq::empty() })
}

/// The model of an optional recipe.
pub open spec fn opt_recipe_view(o: Option<Recipe>) -> Option<RecipeView> {
    match o {
        Some(x) => Some(x@),
        None => None,
    }
}

/// A collection of recipes, and for each crafter the recipes it can cook.
#[derive(Debug)]
pub struct RecipeBook {
    recipes: Vec<Recipe>,
    crafters: Vec<(Crafter, Vec<String>)>,
}

impl View for RecipeBook {
    type V = RecipeBookView;

    closed spec fn view(&self) -> RecipeBookView {
        RecipeBookView {
            recipes: assoc_map(self.recipes@, recipe_key(), recipe_val()),
            crafters: assoc_map(self.crafters@, crafter_key(), crafter_val()),
        }
    }
}

impl RecipeBook {
    /// Every recipe is filed under its own name, and no name twice.
    pub closed spec fn wf(&self) -> bool {
        keys_unique(self.recipes@, recipe_key())
    }

    /// An empty recipe book.
    pub fn new() -> (r: RecipeBook)
        ensures
            r.wf(),
            r@.recipes == Map::<Seq<char>, RecipeView>::empty(),
            r@.crafters == Map::<Seq<char>, Seq<Seq<char>>>::empty(),
    {
        let r = RecipeBook { recipes: Vec::new(), crafters: Vec::new() };
        assert(r@.recipes =~= Map::<Seq<char>, RecipeView>::empty());
        assert(r@.crafters =~= Map::<Seq<char>, Seq<Seq<char>>>::empty());
        r
    }

    /// Every recipe is stored under its own name.
    pub proof fn lemma_names(&self)
        ensures
            forall|n: Seq<char>| #[trigger] self@.recipes.contains_key(n) ==> self@.recipes[n].name == n,
    {
        assert forall|n: Seq<char>| #[trigger] self@.recipes.contains_key(n) implies self@.recipes[n].name == n by {
            lemma_first_index(self.recipes@, recipe_key(), n);
        }
    }

    fn recipe_position(&self, name: &String) -> (r: Option<usize>)
        ensures
            match r {
                Some(i) => first_match(self.recipes@, recipe_key(), name@, i as int),
                None => forall|j: int| #![trigger self.recipes@[j]] 0 <= j < self.recipes@.len() ==> self.recipes@[j].name@ != name@,
            },
    {
        let mut i: usize = 0;
        while i < self.recipes.len()
            invariant
                i <= self.recipes.len(),
                forall|j: int| #![trigger self.recipes@[j]] 0 <= j < i ==> self.recipes@[j].name@ != name@,
            decreases self.recipes.len() - i,
        {
            if self.recipes[i].name == *name {
                return Some(i);
            }
            i = i + 1;
        }
        None
    }

    fn crafter_position(&self, name: &String) -> (r: Option<usize>)
        ensures
            match r {
                Some(i) => first_match(self.crafters@, crafter_key(), name@, i as int),
                None => forall|j: int| #![trigger self.crafters@[j]] 0 <= j < self.crafters@.len() ==> self.crafters@[j].0@ != name@,
            },
    {
        let mut i: usize = 0;
        while i < self.crafters.len()
            invariant
                i <= self.crafters.len(),
                forall|j: int| #![trigger self.crafters@[j]] 0 <= j < i ==> self.crafters@[j].0@ != name@,
            decreases self.crafters.len() - i,
        {
            if self.crafters[i].0.name == *name {
                return Some(i);
            }
            i = i + 1;
        }
        None
    }

    /// Notes `name` once more for `crafter`.
    fn note_crafter(&mut self, crafter: &Crafter, name: &String)
        ensures
            final(self).recipes == old(self).recipes,
            final(self)@.crafters == old(self)@.crafters.insert(
                crafter@,
                if old(self)@.crafters.contains_key(crafter@) {
                    old(self)@.crafters[crafter@].push(name@)
                } else {
                    seq![name@]
                },
            ),
    {
        match self.crafter_position(&crafter.name) {
            Some(j) => {
                let ghost s = self.crafters@;
                proof {
                    lemma_first_index_is(s, crafter_key(), crafter_val(), crafter@, j as int);
                }
                self.crafters[j].1.push(name.clone());
                proof {
                    assert(string_views(self.crafters@[j as int].1@) =~= string_views(s[j as int].1@).push(name@));
                    assert(self.crafters@ == s.update(j as int, self.crafters@[j as int]));
                    lemma_update_first(s, crafter_key(), crafter_val(), j as int, self.crafters@[j as int]);
                }
            },
            None => {
                let ghost s = self.crafters@;
                proof {
                    lemma_absent(s, crafter_key(), crafter_val(), crafter@);
                }
                let mut names: Vec<String> = Vec::new();
                names.push(name.clone());
                self.crafters.push((crafter.duplicate(), names));
                proof {
                    assert(string_views(names@) =~= seq![name@]);
                    lemma_push_new(s, crafter_key(), crafter_val(), self.crafters@.last());
                    assert(self.crafters@ == s.push(self.crafters@.last()));
                }
            },
        }
    }

    /// Files `recipe` under its name, replacing a recipe of that name.
    fn insert_recipe(&mut self, recipe: Recipe)
        requires
            old(self).wf(),
        ensures
            final(self).wf(),
            final(self).crafters == old(self).crafters,
            final(self)@.recipes == old(self)@.recipes.insert(recipe@.name, recipe@),
    {
        let ghost s = self.recipes@;
        let ghost rv = recipe;
        match self.recipe_position(&recipe.name) {
            Some(j) => {
                self.recipes.set(j, recipe);
                proof {
                    assert(self.recipes@ == s.update(j as int, rv));
                    lemma_update_first(s, recipe_key(), recipe_val(), j as int, rv);
                    assert(keys_unique(self.recipes@, recipe_key()));
                }
            },
            None => {
                proof {
                    lemma_absent(s, recipe_key(), recipe_val(), rv.name@);
                }
                self.recipes.push(recipe);
                proof {
                    lemma_push_new(s, recipe_key(), recipe_val(), rv);
                    assert(keys_unique(self.recipes@, recipe_key()));
                }
            },
        }
    }

    /// Adds a recipe: notes its name for each of its crafters, then files it
    /// under its name, replacing a recipe of the same name.
    pub fn add_recipe(&mut self, recipe: Recipe)
        requires
            old(self).wf(),
        ensures
            final(self).wf(),
            final(self)@ == book_after_add(old(self)@, recipe@),
    {
        let mut i: usize = 0;
        while i < recipe.crafters.len()
            invariant
                i <= recipe.crafters.len(),
                self.wf(),
                self@.recipes == old(self)@.recipes,
                self@.crafters == crafters_after_add(
                    old(self)@.crafters,
                    recipe@.crafters.take(i as int),
                    recipe@.name,
                ),
            decreases recipe.crafters.len() - i,
        {
            self.note_crafter(&recipe.crafters[i], &recipe.name);
            proof {
                assert(recipe@.crafters.take(i + 1).drop_last() =~= recipe@.crafters.take(i as int));
            }
            i = i + 1;
        }
        proof {
            assert(recipe@.crafters.take(i as int) =~= recipe@.crafters);
        }
        self.insert_recipe(recipe);
    }

    /// A copy of the recipe filed under `name`, if there is one.
    pub fn get_recipe(&self, name: &str) -> (r: Option<Recipe>)
        ensures
            r is Some <==> self@.recipes.contains_key(name@),
            r matches Some(x) ==> x@ == self@.recipes[name@],
            opt_recipe_view(r) == lookup_recipe(self@, name@),
    {
        let key = name.to_owned();
        match self.recipe_position(&key) {
            Some(i) => {
                proof {
                    lemma_first_index_is(self.recipes@, recipe_key(), recipe_val(), name@, i as int);
                }
                Some(self.recipes[i].duplicate())
            },
            None => {
                proof {
                    lemma_absent(self.recipes@, recipe_key(), recipe_val(), name@);
                }
                None
            },
        }
    }

    /// The recipes noted for `crafter`, one for each time a recipe of that
    /// name was added with this crafter, each as the book now holds it.
    pub fn get_recipes_for_crafter(&self, crafter: &Crafter) -> (r: Vec<Recipe>)
        ensures
            recipe_views(r@) == recipes_for_crafter(self@, crafter@),
    {
        let mut out: Vec<Recipe> = Vec::new();
        match self.crafter_position(&crafter.name) {
            Some(j) => {
                proof {
                    lemma_first_index_is(self.crafters@, crafter_key(), crafter_val(), crafter@, j as int);
                }
                let names = &self.crafters[j].1;
                let ghost ns = string_views(names@);
                let mut i: usize = 0;
                while i < names.len()
                    invariant
                        i <= names.len(),
                        ns == string_views(names@),
                        recipe_views(out@) == resolve_names(self@.recipes, ns.take(i as int)),
                    decreases names.len() - i,
                {
                    let found = self.get_recipe(names[i].as_str());
                    proof {
                        assert(ns.take(i + 1).drop_last() =~= ns.take(i as int));
                        assert(ns.take(i + 1).last() == names@[i as int]@);
                    }
                    match found {
                        Some(rec) => {
                            let ghost before = out@;
                            let ghost rv = rec@;
                            out.push(rec);
                            proof {
                                assert(recipe_views(out@) =~= recipe_views(before).push(rv));
                            }
                        },
                        None => {},
                    }
                    i = i + 1;
                }
                proof {
                    assert(ns.take(names.len() as int) =~= ns);
                }
            },
            None => {
                proof {
                    lemma_absent(self.crafters@, crafter_key(), crafter_val(), crafter@);
                    assert(recipe_views(out@) =~= Seq::<RecipeView>::empty());
                }
            },
        }
        out
    }

    /// The recipe `name` is known and the stock supplies each of its
    /// ingredients: an entry under the ingredient's name, marked craftable,
    /// with at least the quantity needed.
    pub fn can_craft(&self, recipe_name: &str, inventory: &Vec<(String, Ingredient)>) -> (r: bool)
        ensures
            r == craftable(self@, recipe_name@, stock_map(inventory@)),
    {
        match self.get_recipe(recipe_name) {
            Some(recipe) => {
                let ghost stock = stock_map(inventory@);
                let mut i: usize = 0;
                while i < recipe.ingredients.len()
                    invariant
                        i <= recipe.ingredients.len(),
                        stock == stock_map(inventory@),
                        self@.recipes.contains_key(recipe_name@),
                        recipe@ == self@.recipes[recipe_name@],
                        forall|k: int|
                            #![trigger recipe@.ingredients[k]]
                            0 <= k < i ==> supplies(stock, recipe@.ingredients[k]),
                    decreases recipe.ingredients.len() - i,
                {
                    let need = &recipe.ingredients[i];
                    proof {
                        assert(recipe@.ingredients[i as int] == need@);
                    }
                    match stock_position(inventory, &need.name) {
                        Some(j) => {
                            proof {
                                lemma_first_index_is(inventory@, stock_key(), stock_val(), need.name@, j as int);
                            }
                            let have = &inventory[j].1;
                            if !(have.recipe_craftable && have.quantity >= need.quantity) {
                                proof {
                                    assert(!supplies(stock, recipe@.ingredients[i as int]));
                                }
                                return false;
                            }
                        },
                        None => {
                            proof {
                                lemma_absent(inventory@, stock_key(), stock_val(), need.name@);
                                assert(!supplies(stock, recipe@.ingredients[i as int]));
                            }
                            return false;
                        },
                    }
                    i = i + 1;
                }
                true
            },
            None => false,
        }
    }

    /// Crafts the recipe `name` from the stock, when `can_craft` holds: takes
    /// each ingredient's quantity from the stock entry of its name, one
    /// ingredient after another, counts one more cook of the recipe, and
    /// returns the recipe's outcome. Otherwise changes nothing and returns
    /// `None`.
    pub fn craft(&mut self, recipe_name: &str, inventory: &mut Vec<(String, Ingredient)>) -> (r: Option<String>)
        requires
            old(self).wf(),
            craftable(old(self)@, recipe_name@, stock_map(old(inventory)@)) ==> {
                &&& consumable(stock_map(old(inventory)@), old(self)@.recipes[recipe_name@].ingredients)
                &&& old(self)@.recipes[recipe_name@].cook_count < u32::MAX
            },
        ensures
            final(self).wf(),
            final(self)@.crafters == old(self)@.crafters,
            craftable(old(self)@, recipe_name@, stock_map(old(inventory)@)) ==> {
                let rec = old(self)@.recipes[recipe_name@];
                &&& r matches Some(out) && out@ == rec.outcome
                &&& final(self)@.recipes == old(self)@.recipes.insert(
                    recipe_name@,
                    RecipeView { cook_count: (rec.cook_count + 1) as u32, ..rec },
                )
                &&& stock_map(final(inventory)@) == consume(stock_map(old(inventory)@), rec.ingredients)
            },
            !craftable(old(self)@, recipe_name@, stock_map(old(inventory)@)) ==> {
                &&& r is None
                &&& final(self)@ == old(self)@
                &&& final(inventory)@ == old(inventory)@
            },
    {
        if !self.can_craft(recipe_name, inventory) {
            return None;
        }
        let recipe = match self.get_recipe(recipe_name) {
            Some(x) => x,
            None => {
                return None;
            },
        };
        let ghost stock0 = stock_map(inventory@);
        let ghost needs = recipe@.ingredients;
        proof {
            lemma_consumable_prefix(stock0, needs, 0);
            assert(needs.take(0) =~= Seq::<IngredientView>::empty());
        }
        let mut i: usize = 0;
        while i < recipe.ingredients.len()
            invariant
                i <= recipe.ingredients.len(),
                needs == recipe@.ingredients,
                consumable(stock0, needs),
                stock_map(inventory@) == consume(stock0, needs.take(i as int)),
            decreases recipe.ingredients.len() - i,
        {
            let need = &recipe.ingredients[i];
            proof {
                assert(needs[i as int] == need@);
                lemma_consumable_prefix(stock0, needs, i + 1);
                assert(needs.take(i + 1).drop_last() =~= needs.take(i as int));
                assert(needs.take(i + 1).last() == need@);
            }
            match stock_position(inventory, &need.name) {
                Some(j) => {
                    let ghost s = inventory@;
                    proof {
                        lemma_first_index_is(s, stock_key(), stock_val(), need.name@, j as int);
                    }
                    let left = inventory[j].1.quantity - need.quantity;
                    inventory[j].1.quantity = left;
                    proof {
                        assert(inventory@ == s.update(j as int, inventory@[j as int]));
                        lemma_update_first(s, stock_key(), stock_val(), j as int, inventory@[j as int]);
                    }
                },
                None => {
                    proof {
                        lemma_absent(inventory@, stock_key(), stock_val(), need.name@);
                    }
                },
            }
            i = i + 1;
        }
        proof {
            assert(needs.take(i as int) =~= needs);
        }
        let ghost s = self.recipes@;
        let key = recipe_name.to_owned();
        match self.recipe_position(&key) {
            Some(p) => {
                proof {
                    lemma_first_index_is(s, recipe_key(), recipe_val(), recipe_name@, p as int);
                }
                self.recipes[p].increment_cook_count();
                proof {
                    assert(self.recipes@ == s.update(p as int, self.recipes@[p as int]));
                    lemma_update_first(s, recipe_key(), recipe_val(), p as int, self.recipes@[p as int]);
                    assert(keys_unique(self.recipes@, recipe_key()));
                }
            },
            None => {},
        }
        Some(recipe.outcome.clone())
    }

    /// Copies of all recipes, each filed once.
    pub(crate) fn recipe_values(&self) -> (r: Vec<Recipe>)
        requires
            self.wf(),
        ensures
            forall|n: Seq<char>|
                self@.recipes.contains_key(n) <==> exists|k: int| 0 <= k < r.len() && #[trigger] r@[k]@.name == n,
            forall|k: int| 0 <= k < r.len() ==> self@.recipes[#[trigger] r@[k]@.name] == r@[k]@,
            forall|k: int, l: int|
                0 <= k < r.len() && 0 <= l < r.len() && k != l ==> #[trigger] r@[k]@.name != #[trigger] r@[l]@.name,
    {
        let mut out: Vec<Recipe> = Vec::new();
        let mut i: usize = 0;
        while i < self.recipes.len()
            invariant
                i <= self.recipes.len(),
                self.wf(),
                out.len() == i,
                forall|k: int| 0 <= k < i ==> #[trigger] out@[k]@ == self.recipes@[k]@,
            decreases self.recipes.len() - i,
        {
            out.push(self.recipes[i].duplicate());
            i = i + 1;
        }
        proof {
            assert forall|n: Seq<char>| self@.recipes.contains_key(n) implies exists|k: int| 0 <= k < out.len() && #[trigger] out@[k]@.name == n by {
                lemma_first_index(self.recipes@, recipe_key(), n);
                let f = first_index(self.recipes@, recipe_key(), n);
                assert(out@[f]@.name == n);
            }
            assert forall|k: int| 0 <= k < out.len() implies self@.recipes[#[trigger] out@[k]@.name] == out@[k]@ by {
                assert(self.recipes@[k].name@ == out@[k]@.name);
                assert(first_match(self.recipes@, recipe_key(), self.recipes@[k].name@, k));
                lemma_first_index_is(self.recipes@, recipe_key(), recipe_val(), self.recipes@[k].name@, k);
            }
            assert forall|k: int, l: int|
                0 <= k < out.len() && 0 <= l < out.len() && k != l implies #[trigger] out@[k]@.name != #[trigger] out@[l]@.name by {
                assert(self.recipes@[k].name@ == out@[k]@.name);
                assert(self.recipes@[l].name@ == out@[l]@.name);
            }
        }
        out
    }
}

/// The position of the first stock entry filed under `name`.
fn stock_position(inventory: &Vec<(String, Ingredient)>, name: &String) -> (r: Option<usize>)
    ensures
        match r {
            Some(i) => first_match(inventory@, stock_key(), name@, i as int),
            None => forall|j: int| #![trigger inventory@[j]] 0 <= j < inventory@.len() ==> inventory@[j].0@ != name@,
        },
{
    let mut i: usize = 0;
    while i < inventory.len()
        invariant
            i <= inventory.len(),
            forall|j: int| #![trigger inventory@[j]] 0 <= j < i ==> inventory@[j].0@ != name@,
        decreases inventory.len() - i,
    {
        if inventory[i].0 == *name {
            return Some(i);
        }
        i = i + 1;
    }
    None
}

/// Taking a prefix of the ingredients is possible whenever taking all of them is.
pub proof fn lemma_consumable_prefix(stock: Map<Seq<char>, IngredientView>, needs: Seq<IngredientView>, i: int)
    requires
        consumable(stock, needs),
        0 <= i <= needs.len(),
    ensures
        consumable(stock, needs.take(i)),
    decreases needs.len(),
{
    if i == needs.len() {
        assert(needs.take(i) =~= needs);
    } else {
        assert(needs.drop_last().take(i) =~= needs.take(i));
        lemma_consumable_prefix(stock, needs.drop_last(), i);
    }
}

} // verus!
