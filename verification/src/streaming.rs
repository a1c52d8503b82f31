//! The registry of a streaming credential source.
//!
//! A streaming source fetches a credential again and again and hands each
//! result, a credential or an error, to every subscriber over a channel of
//! the subscriber's own. Fetching and sending are the caller's part. This
//! module keeps the list of subscribers and the current credential, and says
//! who receives what.

use crate::auth::AuthCredentials;
use crate::auth::AuthCredentialsView;
use crate::types::RedisError;
use vstd::prelude::*;

verus! {

/// The time between two fetches, in milliseconds.
pub const POLL_PERIOD_MILLIS: u64 = 1000;

/// The number of results a subscriber's channel holds before the sender has
/// to wait for the subscriber.
pub const SUBSCRIBER_CHANNEL_CAPACITY: usize = 1;

/// The identifiers of `ids` that are not among `removed`, in their order.
pub open spec fn without(ids: Seq<u64>, removed: Seq<u64>) -> Seq<u64> {
    ids.filter(|id: u64| !removed.contains(id))
}

/// Removing identifiers keeps the others, in order and without repetition,
/// and leaves none of the removed ones.
pub proof fn lemma_without(ids: Seq<u64>, removed: Seq<u64>)
    ensures
        forall|id: u64| #[trigger]
            without(ids, removed).contains(id) <==> ids.contains(id) && !removed.contains(id),
        ids.no_duplicates() ==> without(ids, removed).no_duplicates(),
        without(ids, removed).len() <= ids.len(),
    decreases ids.len(),
{
    let keep = |id: u64| !removed.contains(id);
    reveal(Seq::filter);
    if ids.len() > 0 {
        let rest = ids.drop_last();
        let last = ids.last();
        lemma_without(rest, removed);
        let kept_rest = without(rest, removed);
        let kept = without(ids, removed);
        assert(kept == if keep(last) {
            kept_rest.push(last)
        } else {
            kept_rest
        });
        assert forall|id: u64| #[trigger] kept.contains(id) <==> ids.contains(id)
            && !removed.contains(id) by {
            if kept.contains(id) {
                let k = choose|k: int| 0 <= k < kept.len() && kept[k] == id;
                if k < kept_rest.len() {
                    assert(kept_rest.contains(id));
                }
            }
            if ids.contains(id) && !removed.contains(id) {
                let j = choose|j: int| 0 <= j < ids.len() && ids[j] == id;
            }
        }
        if ids.no_duplicates() && keep(last) {
            assert(!kept_rest.contains(last));
        }
    }
}

/// Tests whether `id` is among `ids`.
pub fn contains_id(ids: &Vec<u64>, id: u64) -> (found: bool)
    ensures
        found == ids@.contains(id),
{
    let mut i: usize = 0;
    while i < ids.len()
        invariant
            i <= ids.len(),
            forall|j: int| 0 <= j < i ==> ids@[j] != id,
        decreases ids.len() - i,
    {
        if ids[i] == id {
            return true;
        }
        i = i + 1;
    }
    false
}

/// The identifiers of `ids` that are not among `removed`, in their order.
pub fn remove_ids(ids: &Vec<u64>, removed: &Vec<u64>) -> (kept: Vec<u64>)
    ensures
        kept@ == without(ids@, removed@),
{
    let ghost keep = |id: u64| !removed@.contains(id);
    let mut kept: Vec<u64> = Vec::new();
    let mut i: usize = 0;
    assert(ids@.take(0).filter(keep) =~= Seq::<u64>::empty()) by {
        reveal(Seq::filter);
    }
    while i < ids.len()
        invariant
            i <= ids.len(),
            keep == |id: u64| !removed@.contains(id),
            kept@ == ids@.take(i as int).filter(keep),
        decreases ids.len() - i,
    {
        let id = ids[i];
        proof {
            ids@.lemma_take_succ_push(i as int);
            ids@.take(i as int).lemma_filter_push(id, keep);
        }
        if !contains_id(removed, id) {
            kept.push(id);
        }
        i = i + 1;
    }
    assert(ids@.take(ids.len() as int) =~= ids@);
    kept
}

/// What a new subscriber is handed: the identifier under which it is
/// registered, and the item its sequence starts with, if there is one.
#[derive(Debug)]
pub struct Subscription {
    /// The identifier to dispose the subscription by.
    pub id: u64,
    /// The current credential at the time of subscribing.
    pub initial: Option<AuthCredentials>,
}

/// The subscribers of a streaming source, in the order in which they
/// registered, and the credential fetched last.
#[derive(Debug)]
pub struct SubscriberRegistry {
    subscribers: Vec<u64>,
    next_id: u64,
    current_credentials: Option<AuthCredentials>,
    running: bool,
}

/// The mathematical content of a [`SubscriberRegistry`].
pub struct SubscriberRegistryView {
    /// The identifiers of the subscribers, in registration order.
    pub subscribers: Seq<u64>,
    /// The identifier the next subscriber gets.
    pub next_id: u64,
    /// The credential fetched last, if a fetch has succeeded.
    pub current: Option<AuthCredentialsView>,
    /// Whether the fetch loop has been started and not stopped.
    pub running: bool,
}

impl SubscriberRegistryView {
    /// Whether the registry is well formed: no identifier occurs twice, and
    /// every one is below the next to be given out.
    pub open spec fn is_valid(self) -> bool {
        &&& self.subscribers.no_duplicates()
        &&& forall|i: int|
            0 <= i < self.subscribers.len() ==> #[trigger] self.subscribers[i] < self.next_id
    }

    /// The registry after one more subscriber has registered.
    pub open spec fn subscribed(self) -> SubscriberRegistryView {
        SubscriberRegistryView {
            subscribers: self.subscribers.push(self.next_id),
            next_id: (self.next_id + 1) as u64,
            ..self
        }
    }

    /// The registry after the subscribers `removed` have left.
    pub open spec fn pruned(self, removed: Seq<u64>) -> SubscriberRegistryView {
        SubscriberRegistryView { subscribers: without(self.subscribers, removed), ..self }
    }

    /// The registry after the subscription `id` has been disposed of.
    pub open spec fn disposed(self, id: u64) -> SubscriberRegistryView {
        self.pruned(seq![id])
    }

    /// The registry after a fetch: a fetched credential becomes the current
    /// one, a failure changes nothing.
    pub open spec fn published(self, fetched: Option<AuthCredentialsView>) -> SubscriberRegistryView {
        SubscriberRegistryView {
            current: match fetched {
                Some(creds) => Some(creds),
                None => self.current,
            },
            ..self
        }
    }

    /// The registry after the fetches `fetched`, one after the other.
    pub open spec fn published_all(
        self,
        fetched: Seq<Option<AuthCredentialsView>>,
    ) -> SubscriberRegistryView
        decreases fetched.len(),
    {
        if fetched.len() == 0 {
            self
        } else {
            self.published_all(fetched.drop_last()).published(fetched.last())
        }
    }

    /// Those who receive the result of a fetch: every subscriber, in
    /// registration order.
    pub open spec fn recipients(self) -> Seq<u64> {
        self.subscribers
    }
}

/// The credential of a fetch result, if it has one.
pub open spec fn fetched_credentials(outcome: Result<AuthCredentials, RedisError>) -> Option<
    AuthCredentialsView,
> {
    match outcome {
        Ok(creds) => Some(creds@),
        Err(_) => None,
    }
}

impl View for SubscriberRegistry {
    type V = SubscriberRegistryView;

    closed spec fn view(&self) -> SubscriberRegistryView {
        SubscriberRegistryView {
            subscribers: self.subscribers@,
            next_id: self.next_id,
            current: match self.current_credentials {
                Some(creds) => Some(creds@),
                None => None,
            },
            running: self.running,
        }
    }
}

impl SubscriberRegistry {
    #[verifier::type_invariant]
    spec fn well_formed(&self) -> bool {
        self@.is_valid()
    }

    /// A registry without subscribers and without a current credential,
    /// whose fetch loop is not running.
    pub fn new() -> (registry: Self)
        ensures
            registry@ == (SubscriberRegistryView {
                subscribers: Seq::empty(),
                next_id: 0,
                current: None,
                running: false,
            }),
            registry@.is_valid(),
    {
        SubscriberRegistry {
            subscribers: Vec::new(),
            next_id: 0,
            current_credentials: None,
            running: false,
        }
    }

    /// Starts the source. Returns whether the fetch loop has to be spawned:
    /// it has unless it is running already.
    pub fn start(&mut self) -> (spawn: bool)
        ensures
            final(self)@ == (SubscriberRegistryView { running: true, ..old(self)@ }),
            spawn == !old(self)@.running,
    {
        proof {
            use_type_invariant(&*self);
        }
        let spawn = !self.running;
        self.running = true;
        spawn
    }

    /// Stops the source. Returns whether the fetch loop has to be halted: it
    /// has if it is running. The subscribers stay registered.
    pub fn stop(&mut self) -> (halt: bool)
        ensures
            final(self)@ == (SubscriberRegistryView { running: false, ..old(self)@ }),
            halt == old(self)@.running,
    {
        proof {
            use_type_invariant(&*self);
        }
        let halt = self.running;
        self.running = false;
        halt
    }

    /// Whether the fetch loop is running.
    pub fn is_running(&self) -> (running: bool)
        ensures
            running == self@.running,
    {
        self.running
    }

    /// Whether one more subscriber can be registered.
    pub fn can_subscribe(&self) -> (possible: bool)
        ensures
            possible == (self@.next_id < u64::MAX),
    {
        self.next_id < u64::MAX
    }

    /// Registers a subscriber, unless the identifiers are used up. The
    /// subscriber is handed a fresh identifier and, to start its sequence
    /// with, the current credential if there is one. When no identifier is
    /// left nothing is registered and the registry stays as it is.
    pub fn subscribe(&mut self) -> (subscription: Option<Subscription>)
        ensures
            old(self)@.is_valid(),
            final(self)@.is_valid(),
            subscription is Some <==> old(self)@.next_id < u64::MAX,
            subscription is None ==> final(self)@ == old(self)@,
            subscription is Some ==> final(self)@ == old(self)@.subscribed()
                && subscription->0.id == old(self)@.next_id && (match subscription->0.initial {
                Some(creds) => Some(creds@) == old(self)@.current,
                None => old(self)@.current is None,
            }),
    {
        proof {
            use_type_invariant(&*self);
        }
        if self.next_id == u64::MAX {
            return None;
        }
        let id = self.next_id;
        let initial = match &self.current_credentials {
            Some(creds) => Some(creds.clone()),
            None => None,
        };
        let mut subscribers = self.subscribers.clone();
        subscribers.push(id);
        *self = SubscriberRegistry {
            subscribers,
            next_id: id + 1,
            current_credentials: self.current_credentials.clone(),
            running: self.running,
        };
        Some(Subscription { id, initial })
    }

    /// Disposes of the subscription `id`: it receives nothing from now on.
    /// Disposing of a subscription that is not registered changes nothing.
    pub fn dispose(&mut self, id: u64)
        ensures
            final(self)@ == old(self)@.disposed(id),
            final(self)@.is_valid(),
    {
        let mut removed: Vec<u64> = Vec::new();
        removed.push(id);
        self.prune(&removed);
    }

    /// Removes the subscribers `closed`, whose channels nobody reads any
    /// more. The others stay, in their order.
    pub fn prune(&mut self, closed: &Vec<u64>)
        ensures
            final(self)@ == old(self)@.pruned(closed@),
            final(self)@.is_valid(),
    {
        let kept = remove_ids(&self.subscribers, closed);
        proof {
            use_type_invariant(&*self);
            lemma_without(self.subscribers@, closed@);
            assert forall|i: int| 0 <= i < kept@.len() implies #[trigger] kept@[i]
                < self.next_id by {
                assert(kept@.contains(kept@[i]));
                let j = choose|j: int|
                    0 <= j < self.subscribers@.len() && self.subscribers@[j] == kept@[i];
            }
        }
        self.subscribers = kept;
    }

    /// Records the result of a fetch and names those who are to receive it.
    /// A fetched credential becomes the current one; a failure leaves the
    /// registry as it is. Either way every subscriber receives the result,
    /// in registration order.
    pub fn publish(&mut self, outcome: &Result<AuthCredentials, RedisError>) -> (recipients: Vec<
        u64,
    >)
        ensures
            final(self)@ == old(self)@.published(fetched_credentials(*outcome)),
            recipients@ == old(self)@.recipients(),
    {
        proof {
            use_type_invariant(&*self);
        }
        match outcome {
            Ok(creds) => {
                self.current_credentials = Some(creds.clone());
            },
            Err(_) => {},
        }
        self.subscribers.clone()
    }

    /// The credential fetched last, if a fetch has succeeded.
    pub fn current_credentials(&self) -> (current: Option<AuthCredentials>)
        ensures
            match current {
                Some(creds) => Some(creds@) == self@.current,
                None => self@.current is None,
            },
    {
        match &self.current_credentials {
            Some(creds) => Some(creds.clone()),
            None => None,
        }
    }

    /// The identifiers of the subscribers, in registration order.
    pub fn subscribers(&self) -> (ids: Vec<u64>)
        ensures
            ids@ == self@.subscribers,
    {
        self.subscribers.clone()
    }
}

/// A subscriber that registers before any fetch gets no initial item but is
/// among the recipients of every fetch that follows, until it is disposed of.
pub proof fn lemma_subscriber_receives_next_result(
    registry: SubscriberRegistryView,
    fetched: Option<AuthCredentialsView>,
)
    requires
        registry.is_valid(),
    ensures
        registry.subscribed().recipients().contains(registry.next_id),
        registry.subscribed().published(fetched).recipients().contains(registry.next_id),
        registry.subscribed().recipients().last() == registry.next_id,
{
    let after = registry.subscribed().subscribers;
    assert(after[after.len() - 1] == registry.next_id);
}

/// Fetches change nothing about who receives: whoever is registered receives
/// every result, in the order of the fetches, and all receive them in the
/// same order. So a new subscriber receives every result fetched after it
/// registered, the first of them before any other.
pub proof fn lemma_subscriber_receives_every_result(
    registry: SubscriberRegistryView,
    fetched: Seq<Option<AuthCredentialsView>>,
)
    ensures
        registry.published_all(fetched).recipients() == registry.recipients(),
        registry.published_all(fetched).next_id == registry.next_id,
        registry.is_valid() ==> registry.published_all(fetched).is_valid(),
        registry.subscribed().published_all(fetched).recipients().contains(registry.next_id),
    decreases fetched.len(),
{
    if fetched.len() > 0 {
        lemma_subscriber_receives_every_result(registry, fetched.drop_last());
        lemma_subscriber_receives_every_result(registry.subscribed(), fetched.drop_last());
    } else {
        let after = registry.subscribed().subscribers;
        assert(after[after.len() - 1] == registry.next_id);
    }
}

/// The current credential after some fetches is that of the last fetch that
/// succeeded, or the one before them if none did: it is what a subscriber
/// that registers then is handed first.
pub proof fn lemma_current_is_last_success(
    registry: SubscriberRegistryView,
    fetched: Seq<Option<AuthCredentialsView>>,
)
    ensures
        fetched.len() > 0 && fetched.last() is Some ==> registry.published_all(fetched).current
            == fetched.last(),
        fetched.len() > 0 && fetched.last() is None ==> registry.published_all(fetched).current
            == registry.published_all(fetched.drop_last()).current,
        fetched.len() == 0 ==> registry.published_all(fetched).current == registry.current,
        registry.published_all(fetched).subscribed().current == registry.published_all(
            fetched,
        ).current,
{
}

/// A subscriber that registers after a successful fetch is handed the
/// credential of the latest such fetch as its first item.
pub proof fn lemma_late_subscriber_starts_with_current(
    registry: SubscriberRegistryView,
    creds: AuthCredentialsView,
)
    ensures
        registry.published(Some(creds)).current == Some(creds),
        registry.published(Some(creds)).published(None).current == Some(creds),
        registry.published(Some(creds)).subscribed().current == Some(creds),
{
}

/// A disposed subscription receives nothing further, every other subscriber
/// stays registered in its place, and disposing again changes nothing.
pub proof fn lemma_dispose_stops_deliveries(registry: SubscriberRegistryView, id: u64)
    requires
        registry.is_valid(),
    ensures
        !registry.disposed(id).recipients().contains(id),
        forall|other: u64|
            other != id ==> (#[trigger] registry.disposed(id).recipients().contains(other)
                <==> registry.recipients().contains(other)),
        registry.disposed(id).is_valid(),
        registry.disposed(id).disposed(id) == registry.disposed(id),
        !registry.recipients().contains(id) ==> registry.disposed(id) == registry,
{
    let removed = seq![id];
    assert(removed[0] == id);
    assert(forall|x: u64| removed.contains(x) <==> x == id);
    lemma_without(registry.subscribers, removed);
    let kept = without(registry.subscribers, removed);
    assert forall|i: int| 0 <= i < kept.len() implies #[trigger] kept[i] < registry.next_id by {
        assert(kept.contains(kept[i]));
        let j = choose|j: int|
            0 <= j < registry.subscribers.len() && registry.subscribers[j] == kept[i];
    }
    lemma_without_nothing_to_remove(kept, removed);
    if !registry.recipients().contains(id) {
        lemma_without_nothing_to_remove(registry.subscribers, removed);
    }
}

/// Removing identifiers of which none is present changes nothing.
pub proof fn lemma_without_nothing_to_remove(ids: Seq<u64>, removed: Seq<u64>)
    requires
        forall|id: u64| removed.contains(id) ==> !ids.contains(id),
    ensures
        without(ids, removed) == ids,
    decreases ids.len(),
{
    reveal(Seq::filter);
    if ids.len() > 0 {
        let rest = ids.drop_last();
        assert(forall|id: u64| removed.contains(id) ==> !rest.contains(id));
        lemma_without_nothing_to_remove(rest, removed);
    }
}

/// A failed fetch is handed to every subscriber and ends no subscription:
/// the registry is as it was.
pub proof fn lemma_failure_reaches_all_and_removes_none(registry: SubscriberRegistryView)
    ensures
        registry.published(None) == registry,
        registry.published(None).recipients() == registry.subscribers,
{
}

} // verus!
