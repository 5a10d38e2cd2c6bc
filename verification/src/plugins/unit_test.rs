//! The unit-test plugin: a simulation of players who join, leave, chat, move
//! and send custom events, for exercising the server and its plugins.

use vstd::prelude::*;
use rand::Rng;
use crate::plugin_manager::{plugin_api_version, PluginMetadata, Version};
use crate::text::{decimal, decimal_text, text};

verus! {

/// A simulated game event. Players are known by their names; where a moved
/// player goes is drawn by whoever delivers the event.
#[derive(Debug, Clone)]
pub enum GameEvent {
    PlayerJoined(String),
    PlayerLeft(String),
    ChatMessage { sender: String, content: String },
    PlayerMoved(String),
    Custom { event_type: String, data: String },
}

/// The mathematical model of a [`GameEvent`].
pub ghost enum GameEventView {
    PlayerJoined(Seq<char>),
    PlayerLeft(Seq<char>),
    ChatMessage { sender: Seq<char>, content: Seq<char> },
    PlayerMoved(Seq<char>),
    Custom { event_type: Seq<char>, data: Seq<char> },
}

impl View for GameEvent {
    type V = GameEventView;

    open spec fn view(&self) -> GameEventView {
        match self {
            GameEvent::PlayerJoined(p) => GameEventView::PlayerJoined(p@),
            GameEvent::PlayerLeft(p) => GameEventView::PlayerLeft(p@),
            GameEvent::ChatMessage { sender, content } => GameEventView::ChatMessage {
                sender: sender@,
                content: content@,
            },
            GameEvent::PlayerMoved(p) => GameEventView::PlayerMoved(p@),
            GameEvent::Custom { event_type, data } => GameEventView::Custom {
                event_type: event_type@,
                data: data@,
            },
        }
    }
}

/// The state of the simulation: how many players it aims at and who is in
/// the game. Events are numbered by a counter that all simulations of the
/// process share; its value is handed to each step.
pub struct UnitTestPlugin {
    player_count: usize,
    active_players: Vec<String>,
}

/// The mathematical model of a [`UnitTestPlugin`].
pub ghost struct SimulationView {
    pub player_count: nat,
    pub players: Seq<Seq<char>>,
}

impl View for UnitTestPlugin {
    type V = SimulationView;

    closed spec fn view(&self) -> SimulationView {
        SimulationView {
            player_count: self.player_count as nat,
            players: self.active_players@.map_values(|p: String| p@),
        }
    }
}

/// The kinds of simulated event.
#[derive(Debug, Clone, Copy, PartialEq, Eq, Structural)]
pub enum EventKind {
    Join,
    Leave,
    Chat,
    Move,
    Custom,
}

/// Whether the next event is a new player: always when nobody plays, and when
/// there is room left and the spawn draw came out true.
pub open spec fn joins(active: nat, player_count: nat, spawn: bool) -> bool {
    active == 0 || (active < player_count && spawn)
}

/// The kind of the next event, from the number of players, the number aimed
/// at, the spawn draw and the kind draw (0 to 4). A player leaves only while
/// more than half of the aimed-at number play; otherwise that draw moves one.
pub open spec fn event_kind(active: nat, player_count: nat, spawn: bool, kind: nat) -> EventKind {
    if joins(active, player_count, spawn) {
        EventKind::Join
    } else if kind == 0 && active > player_count / 2 {
        EventKind::Leave
    } else if kind == 1 {
        EventKind::Chat
    } else if kind == 3 {
        EventKind::Custom
    } else {
        EventKind::Move
    }
}

/// One step of the simulation: the state after it and the event it yields,
/// for the event number `count` and the given draws. `index` picks the
/// player the event is about.
pub open spec fn simulation_step(s: SimulationView, count: u64, spawn: bool, index: int, kind: nat) -> (
    SimulationView,
    GameEventView,
) {
    let n = decimal(count as nat);
    match event_kind(s.players.len(), s.player_count, spawn, kind) {
        EventKind::Join => {
            let name = "Player"@ + n;
            (
                SimulationView { players: s.players.push(name), ..s },
                GameEventView::PlayerJoined(name),
            )
        },
        EventKind::Leave => (
            SimulationView { players: s.players.remove(index), ..s },
            GameEventView::PlayerLeft(s.players[index]),
        ),
        EventKind::Chat => (
            s,
            GameEventView::ChatMessage { sender: s.players[index], content: "Random message "@ + n },
        ),
        EventKind::Move => (s, GameEventView::PlayerMoved(s.players[index])),
        EventKind::Custom => (
            s,
            GameEventView::Custom { event_type: "custom_event_"@ + n, data: "Custom data "@ + n },
        ),
    }
}

/// Whether draws are ones the simulation can make in state `s`: a kind from 0
/// to 4, and a player index in range unless the event is a new player.
pub open spec fn valid_draws(s: SimulationView, spawn: bool, index: int, kind: nat) -> bool {
    &&& kind < 5
    &&& !joins(s.players.len(), s.player_count, spawn) ==> 0 <= index < s.players.len()
}

/// A number drawn uniformly from `0..n` with `rand::Rng::gen_range` on the
/// thread's generator; `gen_range` documents its result as lying in the
/// range, and panics on an empty one, which `n > 0` rules out. Which number
/// comes out is left open.
#[verifier::external_body]
fn random_below(n: usize) -> (r: usize)
    requires
        n > 0,
    ensures
        r < n,
{
    rand::thread_rng().gen_range(0..n)
}

/// A draw that is true with chance `numerator / denominator`, made with
/// `rand::Rng::gen_ratio` on the thread's generator. Its documentation
/// promises `false` for a zero numerator and `true` when the numerator equals
/// the denominator, and a panic when the denominator is 0 or below the
/// numerator, which `requires` rules out. Other outcomes are left open.
#[verifier::external_body]
fn random_ratio(numerator: u32, denominator: u32) -> (r: bool)
    requires
        0 < denominator,
        numerator <= denominator,
    ensures
        numerator == 0 ==> !r,
        numerator == denominator ==> r,
{
    rand::thread_rng().gen_ratio(numerator, denominator)
}

/// `prefix` followed by the decimal numeral of `n`.
fn numbered(prefix: &str, n: u64) -> (r: String)
    ensures
        r@ == prefix@ + decimal(n as nat),
{
    let mut r = text(prefix);
    let digits = decimal_text(n);
    r.append(digits.as_str());
    r
}

impl UnitTestPlugin {
    /// A simulation that aims at `player_count` players, with nobody in the
    /// game yet.
    pub fn new(player_count: usize) -> (r: UnitTestPlugin)
        ensures
            r@ == (SimulationView { player_count: player_count as nat, players: Seq::empty() }),
    {
        let r = UnitTestPlugin { player_count, active_players: Vec::new() };
        assert(r@.players =~= Seq::<Seq<char>>::empty());
        r
    }

    /// The event numbered `count`, for the given draws: `spawn` decides
    /// whether a player joins while there is room, `index` picks the player
    /// the event is about and `kind` (0 to 4) what happens to them.
    pub fn next_event(&mut self, count: u64, spawn: bool, index: usize, kind: u32) -> (r: GameEvent)
        requires
            valid_draws(old(self)@, spawn, index as int, kind as nat),
        ensures
            (final(self)@, r@) == simulation_step(old(self)@, count, spawn, index as int, kind as nat),
    {
        let ghost s = self@;
        let active = self.active_players.len();
        let joining = active == 0 || (active < self.player_count && spawn);
        if joining {
            let name = numbered("Player", count);
            self.active_players.push(name.clone());
            proof {
                assert(self@.players =~= s.players.push(name@));
            }
            return GameEvent::PlayerJoined(name);
        }
        let player = self.active_players[index].clone();
        if kind == 0 && active > self.player_count / 2 {
            self.active_players.remove(index);
            proof {
                assert(self@.players =~= s.players.remove(index as int));
            }
            GameEvent::PlayerLeft(player)
        } else if kind == 1 {
            GameEvent::ChatMessage { sender: player, content: numbered("Random message ", count) }
        } else if kind == 3 {
            GameEvent::Custom {
                event_type: numbered("custom_event_", count),
                data: numbered("Custom data ", count),
            }
        } else {
            GameEvent::PlayerMoved(player)
        }
    }

    /// The simulated event numbered `count`, with the draws made at random:
    /// a player joins with chance 1 in 10 while there is room (always when
    /// nobody plays); otherwise a player picked at random leaves, chats,
    /// moves or sends a custom event.
    pub fn generate_random_event(&mut self, count: u64) -> (r: GameEvent)
        ensures
            exists|spawn: bool, index: int, kind: nat|
                {
                    &&& valid_draws(old(self)@, spawn, index, kind)
                    &&& (final(self)@, r@) == simulation_step(old(self)@, count, spawn, index, kind)
                },
    {
        let ghost s = self@;
        let active = self.active_players.len();
        let room = active < self.player_count;
        let spawn = if active > 0 && room {
            random_ratio(1, 10)
        } else {
            false
        };
        let joining = active == 0 || (room && spawn);
        let index = if joining {
            0
        } else {
            random_below(active)
        };
        let kind: u32 = if joining {
            0
        } else {
            let k = random_below(5);
            k as u32
        };
        let r = self.next_event(count, spawn, index, kind);
        assert(valid_draws(s, spawn, index as int, kind as nat));
        r
    }

    /// The greeting, which names how many players are simulated.
    pub fn say_hello(&self) -> (r: String)
        ensures
            r@ == "Hello from UnitTestPlugin! Simulating events for up to "@ + decimal(self@.player_count)
                + " players."@,
    {
        let mut r = numbered("Hello from UnitTestPlugin! Simulating events for up to ", self.player_count as u64);
        r.append(" players.");
        r
    }

    /// The plugin's name.
    pub fn name(&self) -> (r: String)
        ensures
            r@ == "UnitTestPlugin"@,
    {
        text("UnitTestPlugin")
    }
}

/// A simulation for `player_count` players.
pub fn get_plugin(player_count: usize) -> (r: UnitTestPlugin)
    ensures
        r@ == (SimulationView { player_count: player_count as nat, players: Seq::empty() }),
{
    UnitTestPlugin::new(player_count)
}

/// The plugin's metadata.
pub fn get_plugin_metadata() -> (r: PluginMetadata)
    ensures
        r.name@ == "UnitTestPlugin"@,
        r.version@ == "1.0.0"@,
        r.description@ == "A plugin for simulating player events and testing plugin interactions"@,
        r.api_version == (Version { major: 0, minor: 1, hotfix: 0 }),
{
    PluginMetadata::new(
        "UnitTestPlugin",
        "1.0.0",
        "A plugin for simulating player events and testing plugin interactions",
        plugin_api_version(),
    )
}

} // verus!
