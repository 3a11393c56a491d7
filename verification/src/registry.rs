use vstd::prelude::*;
use crate::chain::{
    applied, lemma_dispatch_runs_each_once_in_order, reports, run_all, run_chain, run_handlers,
    ChainRun, DispatchFault,
};
use crate::handler::Handler;
use crate::text::same_text;
use crate::widget::{Widget, WidgetView};

verus! {

/// What a chain of handlers is registered for: a widget's identity and the name
/// of one of its events.
pub type EventKey = (u64, Seq<char>);

/// The handlers registered under `key` in `chains`, in the order of their
/// registration; none where the key is unknown.
pub open spec fn chain_of<H>(chains: Map<EventKey, Seq<H>>, key: EventKey) -> Seq<H> {
    if chains.dom().contains(key) {
        chains[key]
    } else {
        Seq::empty()
    }
}

/// `chains` with `handler` registered under `key`, behind the handlers that are
/// already there.
pub open spec fn with_handler<H>(chains: Map<EventKey, Seq<H>>, key: EventKey, handler: H) -> Map<
    EventKey,
    Seq<H>,
> {
    chains.insert(key, chain_of(chains, key).push(handler))
}

/// `chains` without the handler at `position` of the chain under `key`; the
/// others of that chain keep their order, and a chain left empty is dropped.
pub open spec fn without_handler<H>(
    chains: Map<EventKey, Seq<H>>,
    key: EventKey,
    position: int,
) -> Map<EventKey, Seq<H>> {
    if chain_of(chains, key).len() == 1 {
        chains.remove(key)
    } else {
        chains.insert(key, chain_of(chains, key).remove(position))
    }
}

/// `chains` with the handlers of `handlers` registered under `key` one after
/// another, the first one first.
pub open spec fn with_handlers<H>(
    chains: Map<EventKey, Seq<H>>,
    key: EventKey,
    handlers: Seq<H>,
) -> Map<EventKey, Seq<H>>
    decreases handlers.len(),
{
    if handlers.len() == 0 {
        chains
    } else {
        with_handler(with_handlers(chains, key, handlers.drop_last()), key, handlers.last())
    }
}

/// Registration order is chain order: handlers registered one after another under
/// a key stand behind those that were there, in the order of their registration,
/// and no chain under another key changes.
pub proof fn lemma_registration_order<H>(
    chains: Map<EventKey, Seq<H>>,
    key: EventKey,
    handlers: Seq<H>,
)
    ensures
        chain_of(with_handlers(chains, key, handlers), key) == chain_of(chains, key) + handlers,
        forall|other: EventKey|
            other != key ==> #[trigger] chain_of(with_handlers(chains, key, handlers), other)
                == chain_of(chains, other),
    decreases handlers.len(),
{
    if handlers.len() > 0 {
        lemma_registration_order(chains, key, handlers.drop_last());
        let earlier = with_handlers(chains, key, handlers.drop_last());
        assert forall|other: EventKey| other != key implies #[trigger] chain_of(
            with_handlers(chains, key, handlers),
            other,
        ) == chain_of(chains, other) by {
            assert(chain_of(earlier, other) == chain_of(chains, other));
        }
    }
}

/// Registering a handler changes later dispatches of its key in one way only: the
/// handlers that were there run as before, and the new one runs behind them,
/// unless one of them faults.
pub proof fn lemma_registered_handler_runs_last<H: Handler>(
    chains: Map<EventKey, Seq<H>>,
    key: EventKey,
    handler: H,
    widget: WidgetView,
)
    ensures
        run_chain(chain_of(with_handler(chains, key, handler), key), widget) == ({
            let before = run_chain(chain_of(chains, key), widget);
            if before.fault is Some {
                before
            } else {
                ChainRun {
                    widget: applied(handler, before.widget),
                    invoked: before.invoked + 1,
                    fault: handler.fault_on(before.widget),
                }
            }
        }),
{
    let chain = chain_of(with_handler(chains, key, handler), key);
    assert(chain.drop_last() =~= chain_of(chains, key));
}

/// Handlers registered one after another for one event of one widget, where
/// nothing was registered before, are what a dispatch of that event runs: each of
/// them exactly once, in the order of their registration, unless one faults.
pub proof fn lemma_dispatch_follows_registration<H: Handler>(
    key: EventKey,
    handlers: Seq<H>,
    widget: WidgetView,
)
    requires
        run_chain(handlers, widget).fault is None,
    ensures
        run_chain(chain_of(with_handlers(Map::empty(), key, handlers), key), widget) == (ChainRun {
            widget: run_all(handlers, widget),
            invoked: handlers.len(),
            fault: None,
        }),
{
    lemma_registration_order(Map::<EventKey, Seq<H>>::empty(), key, handlers);
    lemma_dispatch_runs_each_once_in_order(handlers, widget);
}

/// Taking a handler out of a chain leaves the others in their order, and
/// registering it again puts it behind them. Neither changes a chain under another
/// key, so neither changes what a dispatch under another key does.
pub proof fn lemma_unregister_and_register_again<H>(
    chains: Map<EventKey, Seq<H>>,
    key: EventKey,
    position: int,
    other: EventKey,
)
    requires
        0 <= position < chain_of(chains, key).len(),
        other != key,
    ensures
        chain_of(without_handler(chains, key, position), key) == chain_of(chains, key).remove(
            position,
        ),
        chain_of(
            with_handler(
                without_handler(chains, key, position),
                key,
                chain_of(chains, key)[position],
            ),
            key,
        ) == chain_of(chains, key).remove(position).push(chain_of(chains, key)[position]),
        chain_of(without_handler(chains, key, position), other) == chain_of(chains, other),
        chain_of(
            with_handler(
                without_handler(chains, key, position),
                key,
                chain_of(chains, key)[position],
            ),
            other,
        ) == chain_of(chains, other),
{
}

struct Chain<H> {
    widget: u64,
    event: String,
    handlers: Vec<H>,
}

impl<H> Chain<H> {
    spec fn key(self) -> EventKey {
        (self.widget, self.event@)
    }
}

/// No two chains share a key, and none is empty.
spec fn well_kept<H>(chains: Seq<Chain<H>>) -> bool {
    &&& forall|i: int, j: int|
        0 <= i < j < chains.len() ==> (#[trigger] chains[i]).key() != (#[trigger] chains[j]).key()
    &&& forall|i: int| 0 <= i < chains.len() ==> (#[trigger] chains[i]).handlers@.len() > 0
}

spec fn holds_key<H>(chains: Seq<Chain<H>>, key: EventKey) -> bool {
    exists|i: int| 0 <= i < chains.len() && (#[trigger] chains[i]).key() == key
}

spec fn place_of<H>(chains: Seq<Chain<H>>, key: EventKey) -> int {
    choose|i: int| 0 <= i < chains.len() && (#[trigger] chains[i]).key() == key
}

spec fn as_map<H>(chains: Seq<Chain<H>>) -> Map<EventKey, Seq<H>> {
    Map::new(
        |key: EventKey| holds_key(chains, key),
        |key: EventKey| chains[place_of(chains, key)].handlers@,
    )
}

proof fn lemma_chain_at<H>(chains: Seq<Chain<H>>, i: int)
    requires
        well_kept(chains),
        0 <= i < chains.len(),
    ensures
        as_map(chains).dom().contains(chains[i].key()),
        as_map(chains)[chains[i].key()] == chains[i].handlers@,
        chain_of(as_map(chains), chains[i].key()) == chains[i].handlers@,
{
    let j = place_of(chains, chains[i].key());
}

proof fn lemma_chain_replaced<H>(before: Seq<Chain<H>>, i: int, chain: Chain<H>)
    requires
        well_kept(before),
        0 <= i < before.len(),
        chain.key() == before[i].key(),
        chain.handlers@.len() > 0,
    ensures
        well_kept(before.update(i, chain)),
        as_map(before.update(i, chain)) == as_map(before).insert(chain.key(), chain.handlers@),
{
    let after = before.update(i, chain);
    assert forall|key: EventKey| holds_key(before, key) == holds_key(after, key) by {
        if holds_key(before, key) {
            assert(after[place_of(before, key)].key() == key);
        }
    }
    assert forall|key: EventKey| holds_key(after, key) implies #[trigger] as_map(after)[key]
        == as_map(before).insert(chain.key(), chain.handlers@)[key] by {
        let j = place_of(after, key);
        lemma_chain_at(after, j);
        lemma_chain_at(before, j);
    }
}

proof fn lemma_chain_added<H>(before: Seq<Chain<H>>, chain: Chain<H>)
    requires
        well_kept(before),
        !holds_key(before, chain.key()),
        chain.handlers@.len() > 0,
    ensures
        well_kept(before.push(chain)),
        as_map(before.push(chain)) == as_map(before).insert(chain.key(), chain.handlers@),
{
    let after = before.push(chain);
    assert(after[before.len() as int].key() == chain.key());
    assert forall|key: EventKey| holds_key(after, key) == (holds_key(before, key) || key
        == chain.key()) by {
        if holds_key(before, key) {
            assert(after[place_of(before, key)].key() == key);
        }
    }
    assert forall|key: EventKey| holds_key(after, key) implies #[trigger] as_map(after)[key]
        == as_map(before).insert(chain.key(), chain.handlers@)[key] by {
        let j = place_of(after, key);
        lemma_chain_at(after, j);
        if j < before.len() {
            lemma_chain_at(before, j);
        }
    }
}

proof fn lemma_chain_dropped<H>(before: Seq<Chain<H>>, i: int)
    requires
        well_kept(before),
        0 <= i < before.len(),
    ensures
        well_kept(before.remove(i)),
        as_map(before.remove(i)) == as_map(before).remove(before[i].key()),
{
    let after = before.remove(i);
    let gone = before[i].key();
    assert forall|key: EventKey| holds_key(after, key) == (holds_key(before, key) && key
        != gone) by {
        if holds_key(before, key) && key != gone {
            let j = place_of(before, key);
            if j < i {
                assert(after[j].key() == key);
            } else {
                assert(after[j - 1].key() == key);
            }
        }
    }
    assert forall|key: EventKey| holds_key(after, key) implies #[trigger] as_map(after)[key]
        == as_map(before).remove(gone)[key] by {
        let j = place_of(after, key);
        lemma_chain_at(after, j);
        if j < i {
            lemma_chain_at(before, j);
        } else {
            lemma_chain_at(before, j + 1);
        }
    }
}

/// The handlers registered for the events of widgets.
///
/// Each pair of a widget and an event name has its own chain of handlers, kept in
/// the order in which they were registered. The same handler may be registered
/// any number of times.
pub struct Registry<H: Handler> {
    chains: Vec<Chain<H>>,
}

impl<H: Handler> View for Registry<H> {
    type V = Map<EventKey, Seq<H>>;

    closed spec fn view(&self) -> Map<EventKey, Seq<H>> {
        as_map(self.chains@)
    }
}

impl<H: Handler> Registry<H> {
    #[verifier::type_invariant]
    spec fn kept(&self) -> bool {
        well_kept(self.chains@)
    }

    /// A registry in which nothing is registered.
    pub fn new() -> (registry: Registry<H>)
        ensures
            registry@ == Map::<EventKey, Seq<H>>::empty(),
    {
        Registry { chains: Vec::new() }
    }

    /// Where the chain under the key stands in `chains`, if it is there.
    fn find(chains: &Vec<Chain<H>>, widget: u64, event: &str) -> (place: Option<usize>)
        ensures
            match place {
                Some(i) => i < chains@.len() && chains@[i as int].key() == (widget, event@),
                None => !holds_key(chains@, (widget, event@)),
            },
    {
        let mut at: usize = 0;
        while at < chains.len()
            invariant
                at <= chains.len(),
                forall|i: int| 0 <= i < at ==> (#[trigger] chains@[i]).key() != (widget, event@),
            decreases chains.len() - at,
        {
            if chains[at].widget == widget && same_text(chains[at].event.as_str(), event) {
                return Some(at);
            }
            at += 1;
        }
        None
    }

    /// Registers `handler` for `event` of `widget`, behind the handlers registered
    /// for it before. Chains under other keys stay as they are.
    pub fn register(&mut self, widget: &Widget, event: &str, handler: H)
        ensures
            final(self)@ == with_handler(old(self)@, (widget@.id, event@), handler),
    {
        proof {
            use_type_invariant(&*self);
        }
        let ghost before = self.chains@;
        let mut chains: Vec<Chain<H>> = Vec::new();
        std::mem::swap(&mut chains, &mut self.chains);
        match Self::find(&chains, widget.id(), event) {
            Some(i) => {
                let mut chain = chains.remove(i);
                chain.handlers.push(handler);
                proof {
                    lemma_chain_at(before, i as int);
                    lemma_chain_replaced(before, i as int, chain);
                    assert(chains@.insert(i as int, chain) =~= before.update(i as int, chain));
                }
                chains.insert(i, chain);
            },
            None => {
                let mut handlers: Vec<H> = Vec::new();
                handlers.push(handler);
                let chain = Chain { widget: widget.id(), event: event.to_owned(), handlers };
                proof {
                    lemma_chain_added(before, chain);
                }
                chains.push(chain);
            },
        }
        self.chains = chains;
    }

    /// Takes the handler at `position` out of the chain for `event` of `widget` and
    /// hands it back; the handlers behind it move up by one. Where the chain has
    /// no such position nothing changes.
    pub fn unregister(&mut self, widget: &Widget, event: &str, position: usize) -> (removed: Option<
        H,
    >)
        ensures
            match removed {
                Some(handler) => {
                    &&& position < chain_of(old(self)@, (widget@.id, event@)).len()
                    &&& handler == chain_of(old(self)@, (widget@.id, event@))[position as int]
                    &&& final(self)@ == without_handler(
                        old(self)@,
                        (widget@.id, event@),
                        position as int,
                    )
                },
                None => {
                    &&& position >= chain_of(old(self)@, (widget@.id, event@)).len()
                    &&& final(self)@ == old(self)@
                },
            },
    {
        proof {
            use_type_invariant(&*self);
        }
        let ghost before = self.chains@;
        let place = Self::find(&self.chains, widget.id(), event);
        let i = match place {
            Some(i) => i,
            None => {
                return None;
            },
        };
        proof {
            lemma_chain_at(before, i as int);
        }
        if position >= self.chains[i].handlers.len() {
            return None;
        }
        let mut chains: Vec<Chain<H>> = Vec::new();
        std::mem::swap(&mut chains, &mut self.chains);
        let mut chain = chains.remove(i);
        let handler = chain.handlers.remove(position);
        if chain.handlers.len() > 0 {
            proof {
                lemma_chain_replaced(before, i as int, chain);
                assert(chains@.insert(i as int, chain) =~= before.update(i as int, chain));
            }
            chains.insert(i, chain);
        } else {
            proof {
                lemma_chain_dropped(before, i as int);
            }
        }
        self.chains = chains;
        Some(handler)
    }

    /// How many handlers are registered for `event` of `widget`.
    pub fn registered(&self, widget: &Widget, event: &str) -> (count: usize)
        ensures
            count == chain_of(self@, (widget@.id, event@)).len(),
    {
        proof {
            use_type_invariant(self);
        }
        match Self::find(&self.chains, widget.id(), event) {
            Some(i) => {
                proof {
                    lemma_chain_at(self.chains@, i as int);
                }
                self.chains[i].handlers.len()
            },
            None => 0,
        }
    }

    /// Runs the handlers registered for `event` of `widget` on it, in the order of
    /// their registration, each on the widget as the one before left it. The first
    /// fault ends the dispatch: the handlers behind it do not run, and nothing
    /// that ran is undone.
    pub fn dispatch(&self, widget: &mut Widget, event: &str) -> (result: Result<
        usize,
        DispatchFault,
    >)
        ensures
            final(widget)@ == run_chain(
                chain_of(self@, (old(widget)@.id, event@)),
                old(widget)@,
            ).widget,
            reports(result, run_chain(chain_of(self@, (old(widget)@.id, event@)), old(widget)@)),
    {
        proof {
            use_type_invariant(self);
        }
        match Self::find(&self.chains, widget.id(), event) {
            Some(i) => {
                proof {
                    lemma_chain_at(self.chains@, i as int);
                }
                run_handlers(&self.chains[i].handlers, widget)
            },
            None => Ok(0),
        }
    }
}

} // verus!
