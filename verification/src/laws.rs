//! Properties that span several operations of the library, stated over the
//! models its contracts use.

use vstd::prelude::*;
use vstd::multiset::Multiset;
use crate::chronos::{
    daytime_hour, minute_of_day, time_of_day_spec, trunc_div, trunc_rem, valid_time, HOURS_PER_DAY,
    MINUTES_PER_HOUR,
};
use crate::chronos::{clock_after_set, clock_after_step, requested_time, ClockStep, TimeState};
use crate::collision::{crossing_of, spheres_after_add, spheres_after_update, Occupancy};
use crate::inventory::{opt_items, slot_or_none, ItemView};
use crate::plugin_manager::{entries_after_disable, entries_after_load, state_of, PluginInstance, Pluginstate};
use crate::plugins::horizon_link::{delivered_handler, listeners_after_listen};
use crate::plugins::unit_test::{simulation_step, valid_draws, GameEventView, SimulationView};
use crate::recipe_smith::{book_after_adds, replies, RpcKind, RpcParams, RpcReply};
use crate::text::decimal;
use crate::recipe::{RecipeView, MASTERY_COOK_COUNT};
use crate::recipe::IngredientView;
use crate::recipe_book::{
    book_after_add, craftable, consumable, consume, crafters_after_add, lookup_recipe, recipes_for_crafter, resolve_names,
    RecipeBookView,
};

verus! {

// ---------------------------------------------------------------------------
// Recipes
// ---------------------------------------------------------------------------

/// After `add_recipe(r)`, `get_recipe` under `r`'s name gives `r` back, and
/// any other name gives what it gave before.
pub proof fn law_get_recipe_after_add(book: RecipeBookView, recipe: RecipeView, other: Seq<char>)
    ensures
        lookup_recipe(book_after_add(book, recipe), recipe.name) == Some(recipe),
        other != recipe.name ==> lookup_recipe(book_after_add(book, recipe), other) == lookup_recipe(book, other),
{
}

/// After `add_recipe(r)`, `get_recipes_for_crafter` gives `r` for each of
/// its crafters.
pub proof fn law_recipe_listed_for_its_crafters(book: RecipeBookView, recipe: RecipeView, crafter: Seq<char>)
    requires
        recipe.crafters.contains(crafter),
    ensures
        recipes_for_crafter(book_after_add(book, recipe), crafter).contains(recipe),
{
    let after = book_after_add(book, recipe);
    lemma_noted_for_crafter(book.crafters, recipe.crafters, recipe.name, crafter);
    lemma_resolves(after.recipes, after.crafters[crafter], recipe.name);
}

proof fn lemma_noted_for_crafter(
    m: Map<Seq<char>, Seq<Seq<char>>>,
    crafters: Seq<Seq<char>>,
    name: Seq<char>,
    c: Seq<char>,
)
    requires
        crafters.contains(c),
    ensures
        crafters_after_add(m, crafters, name).contains_key(c),
        crafters_after_add(m, crafters, name)[c].contains(name),
    decreases crafters.len(),
{
    let m0 = crafters_after_add(m, crafters.drop_last(), name);
    let last = crafters.last();
    if last == c {
        let noted = if m0.contains_key(c) {
            m0[c].push(name)
        } else {
            seq![name]
        };
        assert(noted[noted.len() - 1] == name);
    } else {
        let i = choose|i: int| 0 <= i < crafters.len() && crafters[i] == c;
        assert(crafters.drop_last()[i] == c);
        lemma_noted_for_crafter(m, crafters.drop_last(), name, c);
        let j = choose|j: int| 0 <= j < m0[c].len() && m0[c][j] == name;
        assert(crafters_after_add(m, crafters, name)[c][j] == name);
    }
}

proof fn lemma_resolves(recipes: Map<Seq<char>, RecipeView>, names: Seq<Seq<char>>, name: Seq<char>)
    requires
        names.contains(name),
        recipes.contains_key(name),
    ensures
        resolve_names(recipes, names).contains(recipes[name]),
    decreases names.len(),
{
    let rest = resolve_names(recipes, names.drop_last());
    if names.last() == name {
        assert(rest.push(recipes[name])[rest.len() as int] == recipes[name]);
    } else {
        let i = choose|i: int| 0 <= i < names.len() && names[i] == name;
        assert(names.drop_last()[i] == name);
        lemma_resolves(recipes, names.drop_last(), name);
        let j = choose|j: int| 0 <= j < rest.len() && rest[j] == recipes[name];
        if recipes.contains_key(names.last()) {
            assert(rest.push(recipes[names.last()])[j] == recipes[name]);
        }
    }
}

/// Crafting takes from the stock, for each ingredient of the recipe (named
/// once each), exactly the quantity the recipe needs; the stock keeps the
/// same names.
pub proof fn law_craft_takes_needed_quantities(
    stock: Map<Seq<char>, IngredientView>,
    needs: Seq<IngredientView>,
    k: int,
)
    requires
        consumable(stock, needs),
        forall|i: int, j: int|
            #![trigger needs[i], needs[j]]
            0 <= i < needs.len() && 0 <= j < needs.len() && i != j ==> needs[i].name != needs[j].name,
        0 <= k < needs.len(),
        stock.contains_key(needs[k].name),
    ensures
        consume(stock, needs).dom() == stock.dom(),
        consume(stock, needs)[needs[k].name].quantity == stock[needs[k].name].quantity - needs[k].quantity,
        consume(stock, needs)[needs[k].name].name == stock[needs[k].name].name,
        consume(stock, needs)[needs[k].name].recipe_craftable == stock[needs[k].name].recipe_craftable,
    decreases needs.len(),
{
    lemma_consume_keeps_names(stock, needs);
    let init = needs.drop_last();
    let g = needs.last();
    let m = consume(stock, init);
    if k == needs.len() - 1 {
        assert forall|i: int| 0 <= i < init.len() implies #[trigger] init[i].name != g.name by {
            assert(needs[i] == init[i]);
        }
        lemma_consume_untouched(stock, init, g.name);
    } else {
        assert forall|i: int, j: int|
            #![trigger init[i], init[j]]
            0 <= i < init.len() && 0 <= j < init.len() && i != j implies init[i].name != init[j].name by {
            assert(needs[i] == init[i] && needs[j] == init[j]);
        }
        assert(init[k] == needs[k]);
        assert(needs[k].name != g.name);
        law_craft_takes_needed_quantities(stock, init, k);
    }
}

proof fn lemma_consume_keeps_names(stock: Map<Seq<char>, IngredientView>, needs: Seq<IngredientView>)
    ensures
        consume(stock, needs).dom() == stock.dom(),
    decreases needs.len(),
{
    if needs.len() > 0 {
        lemma_consume_keeps_names(stock, needs.drop_last());
        let m = consume(stock, needs.drop_last());
        let g = needs.last();
        if m.contains_key(g.name) {
            assert(m.insert(g.name, IngredientView { quantity: (m[g.name].quantity - g.quantity) as u32, ..m[g.name] }).dom()
                =~= m.dom());
        }
    }
}

proof fn lemma_consume_untouched(stock: Map<Seq<char>, IngredientView>, needs: Seq<IngredientView>, name: Seq<char>)
    requires
        forall|i: int| 0 <= i < needs.len() ==> #[trigger] needs[i].name != name,
        stock.contains_key(name),
    ensures
        consume(stock, needs).contains_key(name),
        consume(stock, needs)[name] == stock[name],
    decreases needs.len(),
{
    if needs.len() > 0 {
        let init = needs.drop_last();
        assert forall|i: int| 0 <= i < init.len() implies #[trigger] init[i].name != name by {
            assert(needs[i] == init[i]);
        }
        lemma_consume_untouched(stock, init, name);
        assert(needs[needs.len() - 1].name != name);
    }
}

/// Once mastered, a recipe stays mastered as it is cooked again.
pub proof fn law_mastery_is_kept(recipe: RecipeView)
    requires
        recipe.cook_count < u32::MAX,
        recipe.cook_count >= MASTERY_COOK_COUNT,
    ensures
        (RecipeView { cook_count: (recipe.cook_count + 1) as u32, ..recipe }).cook_count >= MASTERY_COOK_COUNT,
{
}

// ---------------------------------------------------------------------------
// Plugins
// ---------------------------------------------------------------------------

/// After `load_plugin(name, p)`, `plugin_state(name)` reports it active.
pub proof fn law_loaded_plugin_is_active<P>(
    entries: Map<Seq<char>, (Pluginstate, PluginInstance<P>)>,
    name: Seq<char>,
    plugin: PluginInstance<P>,
)
    ensures
        state_of(entries_after_load(entries, name, plugin), name) == Some(Pluginstate::ACTIVE),
{
}

/// After `load_plugin(name, p)` and then `disable_plugin(name)`,
/// `plugin_state(name)` reports it inactive, with its instance kept; other
/// plugins report what they did before, and no plugin is added or removed.
pub proof fn law_disabled_plugin_is_inactive<P>(
    entries: Map<Seq<char>, (Pluginstate, PluginInstance<P>)>,
    name: Seq<char>,
    plugin: PluginInstance<P>,
    other: Seq<char>,
)
    ensures
        ({
            let loaded = entries_after_load(entries, name, plugin);
            let disabled = entries_after_disable(loaded, name);
            &&& state_of(disabled, name) == Some(Pluginstate::INACTIVE)
            &&& disabled[name].1 == plugin
            &&& disabled.dom() == loaded.dom()
            &&& other != name ==> state_of(disabled, other) == state_of(entries, other)
        }),
{
    let loaded = entries_after_load(entries, name, plugin);
    assert(entries_after_disable(loaded, name).dom() =~= loaded.dom());
}

// ---------------------------------------------------------------------------
// The game clock
// ---------------------------------------------------------------------------

/// After `set_time(hour, minute)`, `request_time` gives `(hour, minute)`
/// back, and the clock keeps its start.
pub proof fn law_request_after_set(clock: TimeState, hour: i32, minute: i32)
    ensures
        requested_time(clock_after_set(clock, hour, minute)) == (hour, minute),
        clock_after_set(clock, hour, minute).start_time == clock.start_time,
{
}

/// Each pass of the clock server's loop keeps a valid time valid, when in
/// real time the elapsed game seconds are not negative: a tick moves to the
/// next minute of the day, a sync sets the time from the elapsed seconds,
/// and a pause leaves the clock as it is. The start never changes.
pub proof fn law_clock_server_step(clock: TimeState, step: ClockStep)
    requires
        valid_time(clock.current_hour as int, clock.current_minute as int),
        step matches ClockStep::Sync(e) ==> e >= 0,
    ensures
        ({
            let next = clock_after_step(clock, step);
            &&& valid_time(next.current_hour as int, next.current_minute as int)
            &&& next.start_time == clock.start_time
            &&& step == ClockStep::Pause ==> next == clock
            &&& step == ClockStep::Tick ==> minute_of_day(next.current_hour as int, next.current_minute as int)
                == (minute_of_day(clock.current_hour as int, clock.current_minute as int) + 1) % (HOURS_PER_DAY
                * MINUTES_PER_HOUR)
        }),
{
    match step {
        ClockStep::Tick => {
            law_tick_is_next_minute(clock.current_hour as int, clock.current_minute as int);
        },
        ClockStep::Sync(e) => {
            law_sync_gives_valid_time(e as int);
        },
        ClockStep::Pause => {},
    }
}

/// It is daytime exactly when the part of the day is not "Night".
pub proof fn law_daytime_iff_not_night(hour: int)
    ensures
        daytime_hour(hour) <==> time_of_day_spec(hour) != "Night"@,
{
    reveal_strlit("Dawn");
    reveal_strlit("Day");
    reveal_strlit("Dusk");
    reveal_strlit("Night");
    assert("Dawn"@ != "Night"@) by {
        assert("Dawn"@[0] != "Night"@[0]);
    }
    assert("Day"@ != "Night"@) by {
        assert("Day"@[0] != "Night"@[0]);
    }
    assert("Dusk"@ != "Night"@) by {
        assert("Dusk"@[0] != "Night"@[0]);
    }
}

/// A tick of the clock from a valid time gives a valid time one minute of
/// the day later, wrapping from 23:59 to 0:00.
pub proof fn law_tick_is_next_minute(hour: int, minute: int)
    requires
        valid_time(hour, minute),
    ensures
        ({
            let (h, m) = if minute + 1 >= MINUTES_PER_HOUR {
                (trunc_rem(hour + 1, HOURS_PER_DAY as int), 0int)
            } else {
                (hour, minute + 1)
            };
            &&& valid_time(h, m)
            &&& minute_of_day(h, m) == (minute_of_day(hour, minute) + 1) % (HOURS_PER_DAY * MINUTES_PER_HOUR)
        }),
{
    let next = hour * 60 + minute + 1;
    assert(HOURS_PER_DAY * MINUTES_PER_HOUR == 1440);
    assert(minute_of_day(hour, minute) + 1 == next);
    if minute + 1 >= 60 {
        if hour < 23 {
            assert((hour + 1) * 60 == hour * 60 + 60) by (nonlinear_arith);
            assert(next < 1440) by (nonlinear_arith)
                requires
                    0 <= hour <= 22,
                    minute == 59,
                    next == hour * 60 + minute + 1,
            ;
            assert(trunc_rem(hour + 1, 24) == hour + 1);
            assert(minute_of_day(hour + 1, 0) == next);
            assert(next % 1440 == next);
        } else {
            assert(next == 1440);
            assert(trunc_rem(hour + 1, 24) == 0);
            assert(minute_of_day(0, 0) == 0);
        }
    } else {
        assert(0 <= next < 1440) by (nonlinear_arith)
            requires
                0 <= hour < 24,
                0 <= minute < 59,
                next == hour * 60 + minute + 1,
        ;
        assert(minute_of_day(hour, minute + 1) == next);
        assert(next % 1440 == next);
    }
}

/// Setting the clock from a non-negative number of elapsed game seconds
/// gives a valid time.
pub proof fn law_sync_gives_valid_time(elapsed: int)
    requires
        elapsed >= 0,
    ensures
        valid_time(
            trunc_rem(trunc_div(trunc_div(elapsed, 60), MINUTES_PER_HOUR as int), HOURS_PER_DAY as int),
            trunc_rem(trunc_div(elapsed, 60), MINUTES_PER_HOUR as int),
        ),
{
    assert(elapsed / 60 >= 0) by (nonlinear_arith)
        requires
            elapsed >= 0,
    ;
    assert((elapsed / 60) / 60 >= 0) by (nonlinear_arith)
        requires
            elapsed / 60 >= 0,
    ;
}

// ---------------------------------------------------------------------------
// Inventories
// ---------------------------------------------------------------------------

/// On a slot the inventory has, `get_item` after `add_item` gives the item,
/// and after `remove_item` the slot is empty; either way the inventory keeps
/// the same slots.
pub proof fn law_slot_reads_last_write(inv: Map<u32, Option<ItemView>>, slot: u32, item: ItemView)
    requires
        inv.contains_key(slot),
    ensures
        slot_or_none(inv.insert(slot, Some(item)), slot) == Some(item),
        slot_or_none(inv.insert(slot, None), slot) is None,
        inv.insert(slot, Some(item)).dom() == inv.dom(),
        inv.insert(slot, None).dom() == inv.dom(),
{
    assert(inv.insert(slot, Some(item)).dom() =~= inv.dom());
    assert(inv.insert(slot, None).dom() =~= inv.dom());
}

/// Adding an item to a slot the inventory has and removing it again gives
/// the item back and restores the contents, but for what the slot held
/// before.
pub proof fn law_remove_gives_back_added(
    before: Map<u32, Option<ItemView>>,
    contents_before: Multiset<ItemView>,
    contents_added: Multiset<ItemView>,
    contents_removed: Multiset<ItemView>,
    slot: u32,
    item: ItemView,
    removed: Option<ItemView>,
)
    requires
        before.contains_key(slot),
        contents_added.add(opt_items(before[slot])) == contents_before.insert(item),
        removed == slot_or_none(before.insert(slot, Some(item)), slot),
        contents_removed.add(opt_items(removed)) == contents_added,
    ensures
        removed == Some(item),
        contents_removed.add(opt_items(before[slot])) == contents_before,
{
    broadcast use vstd::multiset::group_multiset_axioms;

    let prev = opt_items(before[slot]);
    assert(contents_removed.add(prev).insert(item) =~= contents_before.insert(item));
    assert(contents_removed.add(prev) =~= contents_before) by {
        assert forall|x: ItemView| #[trigger] contents_removed.add(prev).count(x) == contents_before.count(x) by {
            assert(contents_removed.add(prev).insert(item).count(x) == contents_before.insert(item).count(x));
        }
    }
}

// ---------------------------------------------------------------------------
// The event simulation
// ---------------------------------------------------------------------------

/// The most players the simulation holds: the number it aims at, and at
/// least one.
pub open spec fn simulation_capacity(player_count: nat) -> nat {
    if player_count == 0 {
        1
    } else {
        player_count
    }
}

/// Each step of the simulation keeps the number of players within its
/// capacity and yields an event about a player who was in the game or, for
/// a new player, a player who now is.
pub proof fn law_simulation_step(s: SimulationView, count: u64, spawn: bool, index: int, kind: nat)
    requires
        valid_draws(s, spawn, index, kind),
        s.players.len() <= simulation_capacity(s.player_count),
    ensures
        ({
            let (t, e) = simulation_step(s, count, spawn, index, kind);
            &&& t.player_count == s.player_count
            &&& t.players.len() <= simulation_capacity(s.player_count)
            &&& (e matches GameEventView::PlayerJoined(p) ==> t.players.contains(p))
            &&& (e matches GameEventView::PlayerLeft(p) ==> s.players.contains(p))
            &&& (e matches GameEventView::ChatMessage { sender, .. } ==> s.players.contains(sender))
            &&& (e matches GameEventView::PlayerMoved(p) ==> s.players.contains(p))
        }),
{
    let (t, e) = simulation_step(s, count, spawn, index, kind);
    match e {
        GameEventView::PlayerJoined(p) => {
            assert(t.players[t.players.len() - 1] == p);
        },
        _ => {},
    }
    if 0 <= index < s.players.len() {
        assert(s.players[index] == s.players[index]);
    }
}

// ---------------------------------------------------------------------------
// Trigger spheres
// ---------------------------------------------------------------------------

/// Removing a sphere just added under a fresh identifier leaves the spheres
/// as they were before.
pub proof fn law_remove_undoes_add(spheres: Map<usize, Occupancy>, id: usize)
    requires
        !spheres.contains_key(id),
    ensures
        spheres_after_add(spheres, id).remove(id) == spheres,
{
    assert(spheres_after_add(spheres, id).remove(id) =~= spheres);
}

/// Reporting the same answer for a sphere twice in a row: the second
/// `update_sphere(id, is_inside)` reports no crossing and changes nothing.
pub proof fn law_repeated_update_is_quiet(spheres: Map<usize, Occupancy>, id: usize, is_inside: bool)
    ensures
        ({
            let once = spheres_after_update(spheres, id, is_inside);
            &&& crossing_of(once, id, is_inside) is None
            &&& spheres_after_update(once, id, is_inside) == once
        }),
{
    let once = spheres_after_update(spheres, id, is_inside);
    assert(spheres_after_update(once, id, is_inside) =~= once);
}

// ---------------------------------------------------------------------------
// Relayed events
// ---------------------------------------------------------------------------

/// After `rpc_listen(event, h)`, relayed data for `event` goes to `h`, and
/// data for other names goes where it went before.
pub proof fn law_listen_then_deliver(listeners: Map<Seq<char>, u64>, event: Seq<char>, handler: u64, other: Seq<char>)
    ensures
        delivered_handler(listeners_after_listen(listeners, event, handler), event) == Some(handler),
        other != event ==> delivered_handler(listeners_after_listen(listeners, event, handler), other)
            == delivered_handler(listeners, other),
{
}

// ---------------------------------------------------------------------------
// What the operations are for, stated on their inputs
// ---------------------------------------------------------------------------

/// `can_craft(name, stock)` holds exactly when the book knows the recipe
/// and, for every one of its ingredients, the stock has an entry of that
/// name that is marked craftable and holds at least the quantity needed.
pub proof fn law_can_craft_checks_every_ingredient(
    book: RecipeBookView,
    name: Seq<char>,
    stock: Map<Seq<char>, IngredientView>,
)
    ensures
        craftable(book, name, stock) <==> {
            &&& book.recipes.contains_key(name)
            &&& forall|k: int|
                0 <= k < book.recipes[name].ingredients.len() ==> {
                    let need = #[trigger] book.recipes[name].ingredients[k];
                    &&& stock.contains_key(need.name)
                    &&& stock[need.name].recipe_craftable
                    &&& stock[need.name].quantity >= need.quantity
                }
        },
{
}

/// The parts of the game day by hour: 5 to 8 is "Dawn", 9 to 16 "Day",
/// 17 to 20 "Dusk", and every other hour "Night".
pub proof fn law_parts_of_the_day(hour: int)
    ensures
        5 <= hour <= 8 ==> time_of_day_spec(hour) == "Dawn"@,
        9 <= hour <= 16 ==> time_of_day_spec(hour) == "Day"@,
        17 <= hour <= 20 ==> time_of_day_spec(hour) == "Dusk"@,
        (hour < 5 || hour > 20) ==> time_of_day_spec(hour) == "Night"@,
{
}

/// A player joins whenever nobody plays, or there is room (fewer players
/// than the number aimed at) and the spawn draw came out true: the new
/// player is named after the event's number and added at the end.
pub proof fn law_simulation_joins_when_there_is_room(
    s: SimulationView,
    count: u64,
    spawn: bool,
    index: int,
    kind: nat,
)
    requires
        s.players.len() == 0 || (s.players.len() < s.player_count && spawn),
    ensures
        simulation_step(s, count, spawn, index, kind) == (
            SimulationView { players: s.players.push("Player"@ + decimal(count as nat)), ..s },
            GameEventView::PlayerJoined("Player"@ + decimal(count as nat)),
        ),
{
}

/// When no player joins, the kind draw decides: 0 makes the picked player
/// leave while more than half of the number aimed at play, and move
/// otherwise; 1 makes them chat; 2 and 4 move them; 3 sends a custom event.
/// Events carry the event's number.
pub proof fn law_simulation_without_join(s: SimulationView, count: u64, spawn: bool, index: int, kind: nat)
    requires
        s.players.len() > 0,
        !(s.players.len() < s.player_count && spawn),
        0 <= index < s.players.len(),
        kind < 5,
    ensures
        ({
            let n = decimal(count as nat);
            let p = s.players[index];
            let step = simulation_step(s, count, spawn, index, kind);
            &&& kind == 0 && s.players.len() > s.player_count / 2 ==> step == (
                SimulationView { players: s.players.remove(index), ..s },
                GameEventView::PlayerLeft(p),
            )
            &&& kind == 0 && s.players.len() <= s.player_count / 2 ==> step == (s, GameEventView::PlayerMoved(p))
            &&& kind == 1 ==> step == (
                s,
                GameEventView::ChatMessage { sender: p, content: "Random message "@ + n },
            )
            &&& (kind == 2 || kind == 4) ==> step == (s, GameEventView::PlayerMoved(p))
            &&& kind == 3 ==> step == (
                s,
                GameEventView::Custom { event_type: "custom_event_"@ + n, data: "Custom data "@ + n },
            )
        }),
{
}

/// Adding recipes in turn: no recipes leave the book as it is, and one more
/// recipe is added to the book the earlier ones made.
pub proof fn law_adds_in_turn(book: RecipeBookView, recipes: Seq<RecipeView>, r: RecipeView)
    ensures
        book_after_adds(book, Seq::empty()) == book,
        book_after_adds(book, recipes.push(r)) == book_after_add(book_after_adds(book, recipes), r),
{
    assert(recipes.push(r).drop_last() =~= recipes);
}

/// After recipes are added in turn, the book knows every one of them by
/// name, each under its name holds the last recipe of that name, and every
/// recipe it knew before under another name is still there.
pub proof fn law_every_added_recipe_is_known(book: RecipeBookView, recipes: Seq<RecipeView>, k: int, other: Seq<char>)
    requires
        0 <= k < recipes.len(),
    ensures
        book_after_adds(book, recipes).recipes.contains_key(recipes[k].name),
        (forall|j: int| k < j < recipes.len() ==> #[trigger] recipes[j].name != recipes[k].name)
            ==> book_after_adds(book, recipes).recipes[recipes[k].name] == recipes[k],
        (forall|j: int| 0 <= j < recipes.len() ==> #[trigger] recipes[j].name != other) ==> lookup_recipe(
            book_after_adds(book, recipes),
            other,
        ) == lookup_recipe(book, other),
    decreases recipes.len(),
{
    let init = recipes.drop_last();
    let last = recipes.last();
    if k < recipes.len() - 1 {
        assert(init[k] == recipes[k]);
        law_every_added_recipe_is_known(book, init, k, other);
        if forall|j: int| k < j < recipes.len() ==> #[trigger] recipes[j].name != recipes[k].name {
            assert(recipes[recipes.len() - 1].name != recipes[k].name);
            assert forall|j: int| k < j < init.len() implies #[trigger] init[j].name != init[k].name by {
                assert(init[j] == recipes[j]);
            }
        }
    } else if recipes.len() > 1 {
        law_every_added_recipe_is_known(book, init, 0, other);
    }
    if forall|j: int| 0 <= j < recipes.len() ==> #[trigger] recipes[j].name != other {
        assert(recipes[recipes.len() - 1].name != other);
        if init.len() > 0 {
            assert forall|j: int| 0 <= j < init.len() implies #[trigger] init[j].name != other by {
                assert(init[j] == recipes[j]);
            }
            law_every_added_recipe_is_known(book, init, 0, other);
        }
    }
}

/// The remote call that creates a player inventory, given a player and a
/// number of slots `n`, answers with an inventory whose slots are exactly
/// `0 .. n`, all empty, holding no item.
pub proof fn law_created_inventory_has_the_asked_slots(player: String, n: u32, reply: RpcReply, slot: u32)
    requires
        replies(RpcKind::CreatePlayerInventory, RpcParams::TextCount(player, n), reply),
    ensures
        reply is Inventory,
        reply->Inventory_0@.contains_key(slot) <==> slot < n,
        slot < n ==> reply->Inventory_0@[slot] is None,
        reply->Inventory_0.contents() =~= Multiset::<ItemView>::empty(),
{
}

/// It is daytime from 5 through 20 o'clock, and at no other hour.
pub proof fn law_daytime_hours(hour: int)
    ensures
        daytime_hour(hour) <==> 5 <= hour <= 20,
{
}

/// The remote call that fetches a player inventory answers a player's id
/// with an inventory of 20 empty slots, 0 to 19, and anything else with no
/// inventory.
pub proof fn law_fetched_inventory_has_twenty_slots(params: RpcParams, reply: RpcReply, slot: u32)
    requires
        replies(RpcKind::GetPlayerInventory, params, reply),
    ensures
        params is Text ==> {
            &&& reply is Inventory
            &&& reply->Inventory_0@.contains_key(slot) <==> slot < 20
            &&& slot < 20 ==> reply->Inventory_0@[slot] is None
        },
        !(params is Text) ==> reply matches RpcReply::MaybeInventory(None),
{
}

} // verus!
