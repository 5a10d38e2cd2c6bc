//! The plugin manager: loaded plugins by name, each with its state.

use vstd::prelude::*;
use crate::assoc::{assoc_map, first_match, lemma_absent, lemma_first_index_is, lemma_push_new, lemma_update_first};
use crate::text::text;

verus! {

/// A version number: major, minor and hotfix.
#[derive(Debug, Clone, Copy, PartialEq, Eq, Structural)]
pub struct Version {
    pub major: u16,
    pub minor: u16,
    pub hotfix: u16,
}

/// The version of the plugin API: 0.1.0.
pub fn plugin_api_version() -> (r: Version)
    ensures
        r == (Version { major: 0, minor: 1, hotfix: 0 }),
{
    Version { major: 0, minor: 1, hotfix: 0 }
}

/// The state of a loaded plugin.
#[allow(non_camel_case_types)]
#[derive(Debug, Clone, Copy, PartialEq, Eq, Structural, Hash)]
pub enum Pluginstate {
    ACTIVE,
    INACTIVE,
    CRASH,
}

/// What a plugin can be asked to do; each request does nothing unless the
/// plugin says otherwise.
pub trait Plugin {
    fn hello(&self) {
    }

    fn on_event(&mut self) {
    }

    fn on_exit_request(&mut self) {
    }
}

/// A plugin with its name and versions.
#[derive(Debug)]
pub struct PluginInstance<P> {
    pub name: String,
    pub version: Version,
    pub api_versin: Version,
    pub plugin: P,
}

/// Facts about a plugin: name, version, description and API version.
#[derive(Debug)]
pub struct PluginMetadata {
    pub name: String,
    pub version: String,
    pub description: String,
    pub api_version: Version,
}

impl PluginMetadata {
    /// Metadata with the given fields.
    pub fn new(name: &str, version: &str, description: &str, api_version: Version) -> (r: PluginMetadata)
        ensures
            r.name@ == name@,
            r.version@ == version@,
            r.description@ == description@,
            r.api_version == api_version,
    {
        PluginMetadata {
            name: text(name),
            version: text(version),
            description: text(description),
            api_version,
        }
    }
}

/// The key of a manager entry: the name the plugin was loaded under.
pub open spec fn plugin_key<P>() -> spec_fn((String, (Pluginstate, PluginInstance<P>))) -> Seq<char> {
    |e: (String, (Pluginstate, PluginInstance<P>))| e.0@
}

/// The value of a manager entry: the plugin's state and instance.
pub open spec fn plugin_val<P>() -> spec_fn((String, (Pluginstate, PluginInstance<P>))) -> (
    Pluginstate,
    PluginInstance<P>,
) {
    |e: (String, (Pluginstate, PluginInstance<P>))| e.1
}

/// The plugins after `load_plugin(name, plugin)`: `plugin`, active, under
/// `name`.
pub open spec fn entries_after_load<P>(
    m: Map<Seq<char>, (Pluginstate, PluginInstance<P>)>,
    name: Seq<char>,
    plugin: PluginInstance<P>,
) -> Map<Seq<char>, (Pluginstate, PluginInstance<P>)> {
    m.insert(name, (Pluginstate::ACTIVE, plugin))
}

/// The plugins after `disable_plugin(name)`: the plugin of that name, if
/// any, inactive.
pub open spec fn entries_after_disable<P>(m: Map<Seq<char>, (Pluginstate, PluginInstance<P>)>, name: Seq<char>) -> Map<
    Seq<char>,
    (Pluginstate, PluginInstance<P>),
> {
    if m.contains_key(name) {
        m.insert(name, (Pluginstate::INACTIVE, m[name].1))
    } else {
        m
    }
}

/// What `plugin_state(name)` reports.
pub open spec fn state_of<P>(m: Map<Seq<char>, (Pluginstate, PluginInstance<P>)>, name: Seq<char>) -> Option<
    Pluginstate,
> {
    if m.contains_key(name) {
        Some(m[name].0)
    } else {
        None
    }
}

/// The loaded plugins, each under its name with its state.
#[derive(Debug)]
pub struct PluginManager<P> {
    plugins: Vec<(String, (Pluginstate, PluginInstance<P>))>,
    api_version: Version,
}

impl<P> PluginManager<P> {
    /// The loaded plugins, by name, with their states.
    pub closed spec fn entries(&self) -> Map<Seq<char>, (Pluginstate, PluginInstance<P>)> {
        assoc_map(self.plugins@, plugin_key::<P>(), plugin_val::<P>())
    }

    /// The API version the manager serves.
    pub closed spec fn spec_api_version(&self) -> Version {
        self.api_version
    }

    /// A manager with no plugins, serving API version 0.1.0.
    pub fn new() -> (r: PluginManager<P>)
        ensures
            r.entries() == Map::<Seq<char>, (Pluginstate, PluginInstance<P>)>::empty(),
            r.spec_api_version() == (Version { major: 0, minor: 1, hotfix: 0 }),
    {
        let r = PluginManager { plugins: Vec::new(), api_version: plugin_api_version() };
        assert(r.entries() =~= Map::<Seq<char>, (Pluginstate, PluginInstance<P>)>::empty());
        r
    }

    /// The API version the manager serves.
    pub fn api_version(&self) -> (r: Version)
        ensures
            r == self.spec_api_version(),
    {
        self.api_version
    }

    fn position(&self, key: &String) -> (r: Option<usize>)
        ensures
            match r {
                Some(i) => first_match(self.plugins@, plugin_key::<P>(), key@, i as int),
                None => forall|j: int|
                    #![trigger self.plugins@[j]]
                    0 <= j < self.plugins@.len() ==> self.plugins@[j].0@ != key@,
            },
    {
        let mut i: usize = 0;
        while i < self.plugins.len()
            invariant
                i <= self.plugins.len(),
                forall|j: int| #![trigger self.plugins@[j]] 0 <= j < i ==> self.plugins@[j].0@ != key@,
            decreases self.plugins.len() - i,
        {
            if self.plugins[i].0 == *key {
                return Some(i);
            }
            i = i + 1;
        }
        None
    }

    /// Loads `plugin` under `name` as active, replacing a plugin of that name.
    pub fn load_plugin(&mut self, name: &str, plugin: PluginInstance<P>)
        ensures
            final(self).entries() == entries_after_load(old(self).entries(), name@, plugin),
            final(self).spec_api_version() == old(self).spec_api_version(),
    {
        let key = text(name);
        let ghost s = self.plugins@;
        let ghost value = (Pluginstate::ACTIVE, plugin);
        match self.position(&key) {
            Some(i) => {
                let ghost entry = (key, value);
                self.plugins.set(i, (key, (Pluginstate::ACTIVE, plugin)));
                proof {
                    assert(self.plugins@ == s.update(i as int, entry));
                    lemma_update_first(s, plugin_key::<P>(), plugin_val::<P>(), i as int, entry);
                }
            },
            None => {
                proof {
                    lemma_absent(s, plugin_key::<P>(), plugin_val::<P>(), key@);
                    lemma_push_new(s, plugin_key::<P>(), plugin_val::<P>(), (key, value));
                }
                self.plugins.push((key, (Pluginstate::ACTIVE, plugin)));
            },
        }
    }

    /// Unloading lets the plugin of that name crash inside a guard, which
    /// catches it: nothing changes. Returns whether a plugin of that name is
    /// loaded, and so was made to crash.
    pub fn unload_plugin(&mut self, name: &str) -> (r: bool)
        ensures
            final(self).entries() == old(self).entries(),
            final(self).spec_api_version() == old(self).spec_api_version(),
            r == old(self).entries().contains_key(name@),
    {
        self.contains_plugin(name)
    }

    /// Marks the plugin `name` inactive. Returns whether it was loaded;
    /// when it was not, nothing changes.
    pub fn disable_plugin(&mut self, name: &str) -> (r: bool)
        ensures
            r == old(self).entries().contains_key(name@),
            final(self).spec_api_version() == old(self).spec_api_version(),
            final(self).entries() == entries_after_disable(old(self).entries(), name@),
    {
        let key = text(name);
        let ghost s = self.plugins@;
        match self.position(&key) {
            Some(i) => {
                proof {
                    lemma_first_index_is(s, plugin_key::<P>(), plugin_val::<P>(), key@, i as int);
                }
                self.plugins[i].1.0 = Pluginstate::INACTIVE;
                proof {
                    let entry = self.plugins@[i as int];
                    assert(self.plugins@ == s.update(i as int, entry));
                    lemma_update_first(s, plugin_key::<P>(), plugin_val::<P>(), i as int, entry);
                }
                true
            },
            None => {
                proof {
                    lemma_absent(s, plugin_key::<P>(), plugin_val::<P>(), key@);
                }
                false
            },
        }
    }

    /// Whether a plugin is loaded under `name`.
    pub fn contains_plugin(&self, name: &str) -> (r: bool)
        ensures
            r == self.entries().contains_key(name@),
    {
        let key = text(name);
        match self.position(&key) {
            Some(i) => {
                proof {
                    lemma_first_index_is(self.plugins@, plugin_key::<P>(), plugin_val::<P>(), key@, i as int);
                }
                true
            },
            None => {
                proof {
                    lemma_absent(self.plugins@, plugin_key::<P>(), plugin_val::<P>(), key@);
                }
                false
            },
        }
    }

    /// The loaded plugins as name, state and instance, giving up the manager.
    /// A name is looked up at its first entry.
    pub fn get_plugins(self) -> (r: Vec<(String, (Pluginstate, PluginInstance<P>))>)
        ensures
            assoc_map(r@, plugin_key::<P>(), plugin_val::<P>()) == self.entries(),
    {
        self.plugins
    }

    /// The state of the plugin loaded under `name`, if any.
    pub fn plugin_state(&self, name: &str) -> (r: Option<Pluginstate>)
        ensures
            r == state_of(self.entries(), name@),
    {
        let key = text(name);
        match self.position(&key) {
            Some(i) => {
                proof {
                    lemma_first_index_is(self.plugins@, plugin_key::<P>(), plugin_val::<P>(), key@, i as int);
                }
                Some(self.plugins[i].1.0)
            },
            None => {
                proof {
                    lemma_absent(self.plugins@, plugin_key::<P>(), plugin_val::<P>(), key@);
                }
                None
            },
        }
    }
}

} // verus!
