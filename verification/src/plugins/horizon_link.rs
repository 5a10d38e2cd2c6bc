//! The Horizon Link plugin: events relayed between servers, with the
//! metadata that travels with them.

use vstd::prelude::*;
use crate::assoc::{find_name, named_map, put_named};
use crate::text::{concat, signed_decimal, signed_decimal_text, text};

verus! {

/// The metadata of a relayed event: its name, origin and propagation distance.
#[derive(Debug, Clone)]
pub struct EventMetadata {
    pub name: String,
    pub origin: Vec<i32>,
    pub propagation: i32,
}

/// Where event metadata is kept, by event name.
#[derive(Debug)]
pub struct MetadataStore {
    events: Vec<(String, Vec<EventMetadata>)>,
}

/// The lines that report intercepted event metadata.
pub open spec fn metadata_report(name: Seq<char>, origin: Seq<i32>, propagation: i32) -> Seq<Seq<char>> {
    seq![
        "Intercepted Event Meta!"@,
        "  Event Name:   "@ + name,
        "  Event Origin: X:"@ + signed_decimal(origin[0] as int) + " y:"@ + signed_decimal(origin[1] as int)
            + " z:"@ + signed_decimal(origin[2] as int),
        "  Event Distance: "@ + signed_decimal(propagation as int),
        "-------------------------- End Event Data -------------------------"@,
    ]
}

impl MetadataStore {
    /// The number of event names with kept metadata.
    pub closed spec fn event_count(&self) -> nat {
        self.events@.len()
    }

    /// An empty store.
    pub fn new() -> (r: MetadataStore)
        ensures
            r.event_count() == 0,
    {
        MetadataStore { events: Vec::new() }
    }

    /// The report of intercepted event metadata, line by line; the store
    /// itself is left as it is. The origin must have three coordinates.
    pub fn store_metadata(&self, metadata: &EventMetadata) -> (r: Vec<String>)
        requires
            metadata.origin@.len() >= 3,
        ensures
            r@.map_values(|l: String| l@) == metadata_report(
                metadata.name@,
                metadata.origin@,
                metadata.propagation,
            ),
    {
        let mut lines: Vec<String> = Vec::new();
        lines.push(text("Intercepted Event Meta!"));
        lines.push(concat("  Event Name:   ", metadata.name.as_str()));
        let mut origin = text("  Event Origin: X:");
        let x = signed_decimal_text(metadata.origin[0] as i64);
        origin.append(x.as_str());
        origin.append(" y:");
        let y = signed_decimal_text(metadata.origin[1] as i64);
        origin.append(y.as_str());
        origin.append(" z:");
        let z = signed_decimal_text(metadata.origin[2] as i64);
        origin.append(z.as_str());
        lines.push(origin);
        let d = signed_decimal_text(metadata.propagation as i64);
        lines.push(concat("  Event Distance: ", d.as_str()));
        lines.push(text("-------------------------- End Event Data -------------------------"));
        proof {
            assert(lines@.map_values(|l: String| l@) =~= metadata_report(
                metadata.name@,
                metadata.origin@,
                metadata.propagation,
            ));
        }
        lines
    }
}

/// The remote calls of the Horizon Link plugin.
#[derive(Debug, Clone, Copy, PartialEq, Eq, Structural)]
pub enum LinkRpc {
    /// Attach a handler to an event name.
    Listen,
}

/// What receiving a relayed event comes to.
#[derive(Debug)]
pub enum LinkDelivery {
    /// No handler listens to the event's name.
    NoHandler,
    /// The data is not a relayed event; the handler is not called.
    NotRelayed,
    /// The handler `handler` gets the event's data, after the report of its
    /// metadata.
    Deliver { handler: u64, report: Vec<String> },
}

/// The listeners after `rpc_listen(event, handler)`.
pub open spec fn listeners_after_listen(l: Map<Seq<char>, u64>, event: Seq<char>, handler: u64) -> Map<
    Seq<char>,
    u64,
> {
    l.insert(event, handler)
}

/// The handler that relayed data for `event` goes to, if any listens.
pub open spec fn delivered_handler(l: Map<Seq<char>, u64>, event: Seq<char>) -> Option<u64> {
    if l.contains_key(event) {
        Some(l[event])
    } else {
        None
    }
}

/// The Horizon Link plugin: its identity, its metadata store, its remote
/// calls, and the handlers listening to event names. A handler is known by
/// the number its owner gave it.
#[derive(Debug)]
pub struct HorizonLinkPlugin {
    id: u128,
    name: String,
    metadata_store: MetadataStore,
    rpc_functions: Vec<(String, LinkRpc)>,
    message_handlers: Vec<(String, u64)>,
}

impl HorizonLinkPlugin {
    /// The plugin's identifier.
    pub closed spec fn spec_id(&self) -> u128 {
        self.id
    }

    /// The plugin's name.
    pub closed spec fn spec_name(&self) -> Seq<char> {
        self.name@
    }

    /// The number of event names whose metadata the plugin keeps.
    pub closed spec fn stored_event_count(&self) -> nat {
        self.metadata_store.event_count()
    }

    /// The registered remote calls, by name.
    pub closed spec fn rpc_table(&self) -> Map<Seq<char>, LinkRpc> {
        named_map(self.rpc_functions@)
    }

    /// The handler listening to each event name.
    pub closed spec fn listeners(&self) -> Map<Seq<char>, u64> {
        named_map(self.message_handlers@)
    }

    /// A new plugin named "Horizon Link" with a fresh random (version 4)
    /// identifier, an empty metadata store, no listeners, and the remote
    /// call "listen" registered.
    pub fn new() -> (r: HorizonLinkPlugin)
        ensures
            (r.spec_id() >> 76u128) & 0xfu128 == 4,
            (r.spec_id() >> 62u128) & 0x3u128 == 2,
            r.spec_name() == "Horizon Link"@,
            r.stored_event_count() == 0,
            r.rpc_table() == Map::<Seq<char>, LinkRpc>::empty().insert("listen"@, LinkRpc::Listen),
            r.listeners() == Map::<Seq<char>, u64>::empty(),
    {
        let mut rpc_functions: Vec<(String, LinkRpc)> = Vec::new();
        assert(named_map(rpc_functions@) =~= Map::<Seq<char>, LinkRpc>::empty());
        put_named(&mut rpc_functions, "listen", LinkRpc::Listen);
        let message_handlers: Vec<(String, u64)> = Vec::new();
        assert(named_map(message_handlers@) =~= Map::<Seq<char>, u64>::empty());
        HorizonLinkPlugin {
            id: crate::ids::new_v4_value(),
            name: text("Horizon Link"),
            metadata_store: MetadataStore::new(),
            rpc_functions,
            message_handlers,
        }
    }

    /// Attaches `handler` to the event name `event`, replacing the handler
    /// that listened to it.
    pub fn rpc_listen(&mut self, event: &str, handler: u64)
        ensures
            final(self).listeners() == listeners_after_listen(old(self).listeners(), event@, handler),
            final(self).rpc_table() == old(self).rpc_table(),
            final(self).spec_id() == old(self).spec_id(),
            final(self).spec_name() == old(self).spec_name(),
            final(self).stored_event_count() == old(self).stored_event_count(),
    {
        put_named(&mut self.message_handlers, event, handler);
    }

    /// Runs the remote call registered under `rpc_name` with the event name
    /// and handler in `params`, when they are given. Returns whether a call
    /// of that name is registered; when none is, nothing changes.
    pub fn call_rpc(&mut self, rpc_name: &str, params: Option<(&str, u64)>) -> (r: bool)
        ensures
            r == old(self).rpc_table().contains_key(rpc_name@),
            final(self).rpc_table() == old(self).rpc_table(),
            final(self).spec_id() == old(self).spec_id(),
            final(self).spec_name() == old(self).spec_name(),
            final(self).stored_event_count() == old(self).stored_event_count(),
            final(self).listeners() == (match params {
                Some(p) if r => listeners_after_listen(old(self).listeners(), p.0@, p.1),
                _ => old(self).listeners(),
            }),
    {
        match find_name(&self.rpc_functions, rpc_name) {
            Some(i) => {
                match self.rpc_functions[i].1 {
                    LinkRpc::Listen => {
                        if let Some((event, handler)) = params {
                            self.rpc_listen(event, handler);
                        }
                    },
                }
                true
            },
            None => false,
        }
    }

    /// What receiving data for the event name `event_name` comes to:
    /// `relayed` is the metadata of the data when it is a relayed event, and
    /// `None` when it is not. A relayed event's origin has three coordinates.
    pub fn process_event(&self, event_name: &str, relayed: Option<&EventMetadata>) -> (r: LinkDelivery)
        requires
            relayed matches Some(m) ==> m.origin@.len() >= 3,
        ensures
            match delivered_handler(self.listeners(), event_name@) {
                None => r is NoHandler,
                Some(h) => match relayed {
                    None => r is NotRelayed,
                    Some(m) => r matches LinkDelivery::Deliver { handler, report } && handler == h
                        && report@.map_values(|l: String| l@) == metadata_report(m.name@, m.origin@, m.propagation),
                },
            },
    {
        match find_name(&self.message_handlers, event_name) {
            None => LinkDelivery::NoHandler,
            Some(i) => match relayed {
                None => LinkDelivery::NotRelayed,
                Some(m) => {
                    let report = self.metadata_store.store_metadata(m);
                    LinkDelivery::Deliver { handler: self.message_handlers[i].1, report }
                },
            },
        }
    }

    /// Receives data for the event name `event_name` and calls its handler:
    /// `relayed` is the relayed event's metadata and the data it carries, or
    /// `None` when the data is not a relayed event; `call(h, data)` runs the
    /// handler numbered `h`. With no handler, or data that is not a relayed
    /// event, no handler runs and the result is `Ok`; otherwise the report of
    /// the metadata comes back with what the handler returned.
    pub fn relay_event<D, E, F: Fn(u64, D) -> Result<(), E>>(
        &self,
        event_name: &str,
        relayed: Option<(&EventMetadata, D)>,
        call: F,
    ) -> (r: (Vec<String>, Result<(), E>))
        requires
            relayed matches Some(p) ==> p.0.origin@.len() >= 3,
            forall|h: u64, d: D| call.requires((h, d)),
        ensures
            match (delivered_handler(self.listeners(), event_name@), relayed) {
                (Some(h), Some(p)) => {
                    &&& r.0@.map_values(|l: String| l@) == metadata_report(p.0.name@, p.0.origin@, p.0.propagation)
                    &&& call.ensures((h, p.1), r.1)
                },
                _ => r.0@.len() == 0 && r.1 is Ok,
            },
    {
        match relayed {
            None => (Vec::new(), Ok(())),
            Some((meta, data)) => match self.process_event(event_name, Some(meta)) {
                LinkDelivery::Deliver { handler, report } => {
                    let result = call(handler, data);
                    (report, result)
                },
                _ => (Vec::new(), Ok(())),
            },
        }
    }

    /// The plugin's identifier.
    pub fn get_id(&self) -> (r: u128)
        ensures
            r == self.spec_id(),
    {
        self.id
    }

    /// The name the plugin was created with.
    pub fn get_name(&self) -> (r: String)
        ensures
            r@ == self.spec_name(),
    {
        self.name.clone()
    }

    /// The plugin's name.
    pub fn plugin_name(&self) -> (r: String)
        ensures
            r@ == "Horizon Link"@,
    {
        text("Horizon Link")
    }

    /// The plugin's greeting.
    pub fn say_hello(&self) -> (r: String)
        ensures
            r@ == "Preparing to link all the things..."@,
    {
        text("Preparing to link all the things...")
    }
}

/// A new Horizon Link plugin.
pub fn get_plugin() -> (r: HorizonLinkPlugin)
    ensures
        r.spec_name() == "Horizon Link"@,
        r.stored_event_count() == 0,
        r.rpc_table() == Map::<Seq<char>, LinkRpc>::empty().insert("listen"@, LinkRpc::Listen),
        r.listeners() == Map::<Seq<char>, u64>::empty(),
{
    HorizonLinkPlugin::new()
}

} // verus!
