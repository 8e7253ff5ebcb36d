//! Routing of inbound PUBLISH packets to the handlers of topic patterns.
use vstd::prelude::*;
use std::collections::HashMap;

use ntex_router::{Path, RouterBuilder};

use super::publish::Publish;
use crate::types::Readiness;
use crate::topic::{
    add_path, builder, builder_table, clone_path, clone_router, finish, is_pattern, is_topic,
    match_items, match_value, path_items, path_topic, recognize, router_table, texts, Table,
};

verus! {

/// Whether a table registers, for each of `n` handlers in turn, one pattern
/// with the handler's index as its value.
pub open spec fn table_indexed(table: Seq<(Seq<Seq<char>>, usize)>, n: nat) -> bool {
    &&& table.len() == n
    &&& forall|i: int| 0 <= i < table.len() ==> (#[trigger] table[i]).1 == i
}

/// Router - structure that follows the builder pattern for building publish
/// packet router instances. `F` is the type of the handler factories.
pub struct Router<F> {
    router: RouterBuilder<usize>,
    handlers: Vec<F>,
    default: F,
}

impl<F> Router<F> {
    #[verifier::type_invariant]
    spec fn inv(self) -> bool {
        &&& table_indexed(builder_table(self.router), self.handlers@.len())
        &&& builder_table(self.router).len() > 0 ==> builder_table(self.router)[0].0.len() > 0
    }

    /// The patterns registered so far, each with the index of its handler.
    pub closed spec fn table(&self) -> Seq<(Seq<Seq<char>>, usize)> {
        builder_table(self.router)
    }

    /// The factories of the handlers registered so far.
    pub closed spec fn factories(&self) -> Seq<F> {
        self.handlers@
    }

    /// The factory of the handler for what matches no pattern.
    pub closed spec fn fallback(&self) -> F {
        self.default
    }

    /// Create mqtt application router.
    ///
    /// Default service to be used if no matching resource could be found.
    pub fn new(default_service: F) -> (r: Self)
        ensures
            r.table() == Seq::<(Seq<Seq<char>>, usize)>::empty(),
            r.factories() == Seq::<F>::empty(),
            r.fallback() == default_service,
    {
        Router { router: builder(), handlers: Vec::new(), default: default_service }
    }

    /// Number of resources configured so far.
    pub fn len(&self) -> (n: usize)
        ensures
            n == self.factories().len(),
            n == self.table().len(),
    {
        proof {
            use_type_invariant(self);
        }
        self.handlers.len()
    }

    /// Configure mqtt resource for the topics that one of the patterns
    /// `address` matches. The first resource has a pattern.
    pub fn resource(self, address: Vec<String>, service: F) -> (r: Self)
        requires
            forall|i: int| 0 <= i < address@.len() ==> is_pattern(#[trigger] address@[i]@),
            address@.len() > 0 || self.table().len() > 0,
        ensures
            r.table() == self.table().push((texts(address@), self.factories().len() as usize)),
            r.factories() == self.factories().push(service),
            r.fallback() == self.fallback(),
    {
        proof {
            use_type_invariant(&self);
        }
        let Router { router, handlers, default } = self;
        let mut router = router;
        let mut handlers = handlers;
        add_path(&mut router, address, handlers.len());
        handlers.push(service);
        Router { router, handlers, default }
    }

    /// Finish router configuration and create router service factory.
    pub fn finish(self) -> (f: RouterFactory<F>)
        ensures
            f.table() == self.table(),
            f.factories() == self.factories(),
            f.fallback() == self.fallback(),
    {
        proof {
            use_type_invariant(&self);
        }
        RouterFactory { router: finish(self.router), handlers: self.handlers, default: self.default }
    }
}

/// The finished configuration of a router, from which the router service of
/// each connection is made.
pub struct RouterFactory<F> {
    router: Table,
    handlers: Vec<F>,
    default: F,
}

impl<F> RouterFactory<F> {
    #[verifier::type_invariant]
    spec fn inv(self) -> bool {
        table_indexed(router_table(self.router), self.handlers@.len())
    }

    /// The patterns, each with the index of its handler.
    pub closed spec fn table(&self) -> Seq<(Seq<Seq<char>>, usize)> {
        router_table(self.router)
    }

    /// The factories of the handlers.
    pub closed spec fn factories(&self) -> Seq<F> {
        self.handlers@
    }

    /// The factory of the handler for what matches no pattern.
    pub closed spec fn fallback(&self) -> F {
        self.default
    }

    /// Number of handlers.
    pub fn len(&self) -> (n: usize)
        ensures
            n == self.factories().len(),
    {
        self.handlers.len()
    }

    /// The factory of the handler with index `idx`.
    pub fn factory(&self, idx: usize) -> (f: Option<&F>)
        ensures
            f == (if idx < self.factories().len() {
                Some(&self.factories()[idx as int])
            } else {
                None
            }),
    {
        if idx < self.handlers.len() {
            Some(&self.handlers[idx])
        } else {
            None
        }
    }

    /// The factory of the handler for what matches no pattern.
    pub fn default_factory(&self) -> (f: &F)
        ensures
            *f == self.fallback(),
    {
        &self.default
    }

    /// The router service of a connection, given the default handler that
    /// the default factory has made for it: no other handler exists yet, no
    /// topic alias is known, and no handler is under construction.
    pub fn new_service<H>(&self, default: H) -> (s: RouterService<H>)
        ensures
            s@.wf(),
            s@.table == self.table(),
            s@.handlers == Seq::new(self.factories().len(), |i: int| None::<H>),
            s@.fallback == default,
            s@.aliases == Map::<u16, (usize, Path<String>)>::empty(),
            !s@.creating,
    {
        proof {
            use_type_invariant(self);
        }
        let router = clone_router(&self.router);
        let n: usize = self.handlers.len();
        let mut handlers: Vec<Option<H>> = Vec::new();
        let mut i: usize = 0;
        while i < n
            invariant
                0 <= i <= n,
                handlers@ == Seq::new(i as nat, |i: int| None::<H>),
            decreases n - i,
        {
            handlers.push(None);
            i = i + 1;
            proof {
                assert(handlers@ =~= Seq::new(i as nat, |i: int| None::<H>));
            }
        }
        let s = RouterService {
            router,
            default,
            handlers,
            aliases: HashMap::new(),
            creating: false,
        };
        proof {
            assert(s@.aliases =~= Map::<u16, (usize, Path<String>)>::empty());
        }
        s
    }
}

/// What the router service of a connection holds.
pub struct RouterView<H> {
    /// The patterns, each with the index of its handler.
    pub table: Seq<(Seq<Seq<char>>, usize)>,
    /// The handlers by index: none until the first publish for it has come
    /// and the handler has been made.
    pub handlers: Seq<Option<H>>,
    /// The handler for what matches no pattern.
    pub fallback: H,
    /// The topic aliases seen so far: for each the index of the handler and
    /// the path of the topic that the alias stands for.
    pub aliases: Map<u16, (usize, Path<String>)>,
    /// Whether a handler is under construction.
    pub creating: bool,
}

impl<H> RouterView<H> {
    /// Every index that a pattern or an alias leads to is that of a handler
    /// slot.
    pub open spec fn wf(self) -> bool {
        &&& forall|i: int|
            0 <= i < self.table.len() ==> (#[trigger] self.table[i]).1 < self.handlers.len()
        &&& forall|a: u16| #[trigger]
            self.aliases.contains_key(a) ==> self.aliases[a].0 < self.handlers.len()
    }

    /// The index of the handler that a publish goes to, if it is not the
    /// default handler: that of the pattern which matches the topic, or,
    /// for a publish without topic, that which its topic alias stands for.
    pub open spec fn target(self, packet: super::codec::Publish) -> Option<usize> {
        if packet.topic@.len() > 0 {
            match_value(self.table, packet.topic@)
        } else {
            match packet.properties.topic_alias {
                Some(alias) => if self.aliases.contains_key(alias) {
                    Some(self.aliases[alias].0)
                } else {
                    None
                },
                None => None,
            }
        }
    }

    /// What a publish with a topic adds to the aliases under its topic
    /// alias: the handler that it goes to and the path that it was given.
    pub open spec fn learned(
        self,
        packet: super::codec::Publish,
        path: Path<String>,
    ) -> Map<u16, (usize, Path<String>)> {
        if packet.topic@.len() > 0 && match_value(self.table, packet.topic@) is Some
            && packet.properties.topic_alias is Some {
            self.aliases.insert(
                packet.properties.topic_alias->0,
                (match_value(self.table, packet.topic@)->0, path),
            )
        } else {
            self.aliases
        }
    }
}

impl<H> RouterView<H> {
    /// Whether a publish goes to a handler that has to be made first.
    pub open spec fn creates(self, packet: super::codec::Publish) -> bool {
        &&& self.target(packet) matches Some(idx)
        &&& idx < self.handlers.len()
        &&& self.handlers[idx as int] is None
    }

    /// The state after a publish has been routed and given `path`: its
    /// topic alias is known, and if its handler has to be made, the
    /// construction is under way.
    pub open spec fn routed(self, packet: super::codec::Publish, path: Path<String>) -> Self {
        RouterView {
            aliases: self.learned(packet, path),
            creating: self.creating || self.creates(packet),
            ..self
        }
    }

    /// The state after the construction of the handler with index `idx` has
    /// ended: with the handler in its slot, or, if it failed, without.
    pub open spec fn created(self, idx: usize, handler: Option<H>) -> Self {
        RouterView {
            creating: false,
            handlers: match handler {
                Some(h) => self.handlers.update(idx as int, Some(h)),
                None => self.handlers,
            },
            ..self
        }
    }
}

/// Whether `r` is the readiness of a router service, given whether a
/// handler is under construction, the outcomes of polling the handlers that
/// exist, and that of polling the default handler. While a handler is under
/// construction the service is not ready, whatever the outcomes. Else the
/// first failure is the service's failure; without a failure the service is
/// ready if every handler is.
pub open spec fn is_readiness(
    creating: bool,
    handlers: Seq<Readiness>,
    default: Readiness,
    r: RouterReady,
) -> bool {
    if creating {
        r == RouterReady::Creating
    } else {
        match r {
            RouterReady::Creating => false,
            RouterReady::Failed(i) => {
                &&& i <= handlers.len()
                &&& forall|j: int| 0 <= j < i ==> handlers[j] != Readiness::Failed
                &&& if i < handlers.len() {
                    handlers[i as int] == Readiness::Failed
                } else {
                    default == Readiness::Failed
                }
            },
            RouterReady::Pending => {
                &&& forall|j: int| 0 <= j < handlers.len() ==> handlers[j] != Readiness::Failed
                &&& default != Readiness::Failed
                &&& default == Readiness::Pending || exists|j: int|
                    0 <= j < handlers.len() && handlers[j] == Readiness::Pending
            },
            RouterReady::Ready => {
                &&& forall|j: int| 0 <= j < handlers.len() ==> handlers[j] == Readiness::Ready
                &&& default == Readiness::Ready
            },
        }
    }
}

/// The readiness of a router service is determined by what it is told.
pub proof fn lemma_readiness_unique(
    creating: bool,
    handlers: Seq<Readiness>,
    default: Readiness,
    r1: RouterReady,
    r2: RouterReady,
)
    requires
        is_readiness(creating, handlers, default, r1),
        is_readiness(creating, handlers, default, r2),
    ensures
        r1 == r2,
{
    if !creating {
        match (r1, r2) {
            (RouterReady::Failed(i), RouterReady::Failed(j)) => {
                if i < j {
                    assert(handlers[i as int] != Readiness::Failed);
                }
                if j < i {
                    assert(handlers[j as int] != Readiness::Failed);
                }
            },
            (RouterReady::Failed(i), _) => {
                if i < handlers.len() {
                    assert(handlers[i as int] == Readiness::Failed);
                }
            },
            (_, RouterReady::Failed(j)) => {
                if j < handlers.len() {
                    assert(handlers[j as int] == Readiness::Failed);
                }
            },
            _ => {},
        }
    }
}

/// A handler is made once: when the construction of a handler has ended
/// with the handler, no publish for it starts another construction, and no
/// slot that holds a handler loses it, neither by a construction nor by a
/// publish. While the construction lasts, the service is not ready.
pub proof fn lemma_handler_made_once<H>(
    v: RouterView<H>,
    packet: super::codec::Publish,
    path: Path<String>,
    handler: H,
    polls: Seq<Readiness>,
    default: Readiness,
    r: RouterReady,
)
    requires
        v.wf(),
        !v.creating,
        v.creates(packet),
        is_readiness(v.routed(packet, path).creating, polls, default, r),
    ensures
        r == RouterReady::Creating,
        ({
            let idx = v.target(packet)->0;
            let during = v.routed(packet, path);
            let after = during.created(idx, Some(handler));
            &&& during.handlers == v.handlers
            &&& !after.creating
            &&& after.handlers[idx as int] == Some(handler)
            &&& forall|i: int|
                0 <= i < v.handlers.len() && i != idx ==> after.handlers[i] == v.handlers[i]
            &&& forall|later: super::codec::Publish|
                after.target(later) == Some(idx) ==> !after.creates(later)
        }),
{
}

/// A topic alias stands for the topic with which it came: after a publish
/// with a topic that a pattern matches and with a topic alias, a publish
/// without a topic and with the same alias goes to the same handler, under
/// the path that the first was given.
pub proof fn lemma_alias_stands_for_topic<H>(
    v: RouterView<H>,
    first: super::codec::Publish,
    path: Path<String>,
    second: super::codec::Publish,
)
    requires
        v.wf(),
        first.topic@.len() > 0,
        v.target(first) is Some,
        first.properties.topic_alias is Some,
        second.topic@.len() == 0,
        second.properties.topic_alias == first.properties.topic_alias,
    ensures
        v.routed(first, path).target(second) == v.target(first),
        v.routed(first, path).aliases[second.properties.topic_alias->0].1 == path,
{
}

/// Where a publish goes.
pub enum Route {
    /// To the handler with this index, which exists.
    Handler(usize, Publish),
    /// To the handler with this index, which has to be made first.
    Create(usize, Publish),
    /// To the default handler.
    Default(Publish),
}

impl Route {
    /// The publish as it is handed on.
    pub open spec fn request(self) -> Publish {
        match self {
            Route::Handler(_, req) => req,
            Route::Create(_, req) => req,
            Route::Default(req) => req,
        }
    }
}

/// Whether the router service is ready for the next publish.
#[derive(Debug, Clone, Copy, PartialEq, Eq, Structural)]
pub enum RouterReady {
    /// Every handler is ready.
    Ready,
    /// Some handler is not ready yet.
    Pending,
    /// Not ready, because a handler is under construction: the task that
    /// asks is to be woken when the construction has ended.
    Creating,
    /// A handler has failed: the one at this position among those polled,
    /// the default handler counting as the last.
    Failed(usize),
}

/// The router service of one connection. `H` is the type of the handlers.
pub struct RouterService<H> {
    router: Table,
    default: H,
    handlers: Vec<Option<H>>,
    aliases: HashMap<u16, (usize, Path<String>)>,
    creating: bool,
}

impl<H> View for RouterService<H> {
    type V = RouterView<H>;

    closed spec fn view(&self) -> RouterView<H> {
        RouterView {
            table: router_table(self.router),
            handlers: self.handlers@,
            fallback: self.default,
            aliases: self.aliases@,
            creating: self.creating,
        }
    }
}

impl<H> RouterService<H> {
    /// Number of handler slots.
    pub fn len(&self) -> (n: usize)
        ensures
            n == self@.handlers.len(),
    {
        self.handlers.len()
    }

    /// The handler with index `idx`, if it has been made.
    pub fn handler(&self, idx: usize) -> (h: Option<&H>)
        ensures
            h == (if idx < self@.handlers.len() && self@.handlers[idx as int] is Some {
                Some(&self@.handlers[idx as int]->0)
            } else {
                None
            }),
    {
        if idx < self.handlers.len() {
            self.handlers[idx].as_ref()
        } else {
            None
        }
    }

    /// The handler for what matches no pattern.
    pub fn default_handler(&self) -> (h: &H)
        ensures
            *h == self@.fallback,
    {
        &self.default
    }

    /// Whether a handler is under construction.
    pub fn is_creating(&self) -> (c: bool)
        ensures
            c == self@.creating,
    {
        self.creating
    }

    /// Starts the construction of the handler with index `idx`, to which
    /// `req` goes once it exists: from now on a handler is under
    /// construction.
    pub fn create_handler(&mut self, idx: usize, req: Publish) -> (r: Route)
        ensures
            r == Route::Create(idx, req),
            final(self)@ == (RouterView { creating: true, ..old(self)@ }),
    {
        self.creating = true;
        Route::Create(idx, req)
    }

    /// Ends the construction of the handler with index `idx`, which is
    /// under way and whose slot is empty: with the handler, which takes its
    /// slot, or without, if the construction failed.
    pub fn handler_created(&mut self, idx: usize, handler: Option<H>)
        requires
            old(self)@.wf(),
            old(self)@.creating,
            idx < old(self)@.handlers.len(),
            old(self)@.handlers[idx as int] is None,
        ensures
            final(self)@.wf(),
            final(self)@ == old(self)@.created(idx, handler),
    {
        self.creating = false;
        match handler {
            Some(h) => {
                self.handlers.set(idx, Some(h));
            },
            None => {},
        }
        proof {
            assert(self@.handlers.len() == old(self)@.handlers.len());
            assert(self@.table == old(self)@.table);
            assert(self@.aliases == old(self)@.aliases);
        }
    }

    /// Tells from what polling the handlers has given whether the service
    /// is ready.
    ///
    /// `handlers` holds the outcome for each handler that exists, in the
    /// order of their indices, up to the first that failed if one did;
    /// `default` is the outcome for the default handler. While a handler is
    /// under construction the service is not ready, whatever the outcomes.
    /// Else the first failure is the service's failure; without a failure
    /// the service is ready if every handler is.
    pub fn poll_ready(&self, handlers: &Vec<Readiness>, default: Readiness) -> (r: RouterReady)
        ensures
            is_readiness(self@.creating, handlers@, default, r),
    {
        // new handler get created at the moment
        if self.creating {
            return RouterReady::Creating;
        }
        let mut not_ready = false;
        let mut i: usize = 0;
        while i < handlers.len()
            invariant
                !self@.creating,
                0 <= i <= handlers@.len(),
                forall|j: int| 0 <= j < i ==> handlers@[j] != Readiness::Failed,
                not_ready <==> exists|j: int| 0 <= j < i && handlers@[j] == Readiness::Pending,
            decreases handlers@.len() - i,
        {
            match handlers[i] {
                Readiness::Failed => {
                    return RouterReady::Failed(i);
                },
                Readiness::Pending => {
                    not_ready = true;
                },
                Readiness::Ready => {},
            }
            i = i + 1;
        }
        match default {
            Readiness::Failed => {
                return RouterReady::Failed(i);
            },
            Readiness::Pending => {
                not_ready = true;
            },
            Readiness::Ready => {},
        }
        if not_ready {
            RouterReady::Pending
        } else {
            RouterReady::Ready
        }
    }

    /// Routes a publish.
    ///
    /// A publish with a topic goes to the handler of the pattern that
    /// matches the topic; its path is then that of the match, and if the
    /// publish carries a topic alias, the alias stands for this handler and
    /// path from now on. A publish without a topic goes where its topic
    /// alias leads, under the path kept for the alias. Whatever finds no
    /// handler that way goes to the default handler, as it came. Where the
    /// handler does not exist yet, its construction starts.
    pub fn call(&mut self, req: Publish) -> (r: Route)
        requires
            old(self)@.wf(),
        ensures
            final(self)@.wf(),
            final(self)@ == old(self)@.routed(req@.packet, r.request()@.path),
            r.request()@.packet == req@.packet,
            match old(self)@.target(req@.packet) {
                Some(idx) => {
                    &&& idx < old(self)@.handlers.len()
                    &&& if old(self)@.handlers[idx as int] is Some {
                        r matches Route::Handler(i, _) && i == idx
                    } else {
                        r matches Route::Create(i, _) && i == idx
                    }
                    &&& if req@.packet.topic@.len() > 0 {
                        &&& path_topic(r.request()@.path) == req@.packet.topic@
                        &&& is_topic(req@.packet.topic@) ==> path_items(r.request()@.path)
                            == match_items(old(self)@.table, req@.packet.topic@)
                    } else {
                        r.request()@.path == old(self)@.aliases[req@.packet.properties.topic_alias->0].1
                    }
                },
                None => r == Route::Default(req),
            },
    {
        let mut req = req;
        if !req.publish_topic().is_empty() {
            let (found, path) = recognize(&self.router, req.publish_topic());
            match found {
                Some(idx) => {
                    req.set_topic(path);
                    // save info for topic alias
                    match req.packet().properties.topic_alias {
                        Some(alias) => {
                            self.aliases.insert(alias, (idx, clone_path(req.topic())));
                        },
                        None => {},
                    }
                    proof {
                        assert(self@.handlers == old(self)@.handlers);
                        assert(self@.table == old(self)@.table);
                        assert forall|a: u16| #[trigger] self@.aliases.contains_key(a) implies self@.aliases[a].0
                            < self@.handlers.len() by {
                            if !old(self)@.aliases.contains_key(a) {
                                assert(self@.aliases[a].0 == idx);
                            }
                        }
                    }
                    if self.handlers[idx].is_some() {
                        return Route::Handler(idx, req);
                    } else {
                        return self.create_handler(idx, req);
                    }
                },
                None => {},
            }
        } else {
            // handle publish with topic alias
            match req.packet().properties.topic_alias {
                Some(alias) => {
                    match self.aliases.get(&alias) {
                        Some(item) => {
                            let idx: usize = item.0;
                            req.set_topic(clone_path(&item.1));
                            if self.handlers[idx].is_some() {
                                return Route::Handler(idx, req);
                            } else {
                                return self.create_handler(idx, req);
                            }
                        },
                        None => {},
                    }
                },
                None => {},
            }
        }
        Route::Default(req)
    }
}

} // verus!
