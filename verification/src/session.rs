//! The state that a pd session keeps about itself: its subscriptions, its search paths and
//! its open patch.
//!
//! libpd keeps no account of these for the application, so the session does: each operation
//! changes the state exactly as far as libpd's calls succeeded.

use crate::error::{IoError, PatchLifeCycleError, SubscriptionError};
use crate::functions::{
    add_to_search_paths, add_to_search_paths_outcome, close_patch, dollar_zero_outcome,
    found_and_compatible, get_dollar_zero, open_patch, open_patch_outcome, open_permitted,
};
use crate::helpers::is_c_compatible;
use crate::path::{path_eq, same_path};
use crate::functions::receive::{
    bound_outcome, listening_outcome, start_listening_from, stop_listening_from,
};
use crate::types::{PatchFileHandle, ReceiverHandle};
use vstd::prelude::*;

verus! {

/// One subscription step: a sender that has a subscription is left alone, and otherwise
/// `bind` is asked for a receiver, which is added to the subscriptions when it comes.
pub open spec fn subscribe_step<B: FnOnce(&str) -> usize>(
    before: Map<Seq<char>, usize>,
    source: &str,
    bind: B,
    after: Map<Seq<char>, usize>,
    r: Result<(), SubscriptionError>,
) -> bool {
    if before.contains_key(source@) {
        after == before && r is Ok
    } else {
        exists|listened: Result<ReceiverHandle, SubscriptionError>|
            #[trigger] listening_outcome(source, bind, listened) && match listened {
                Ok(handle) => after == before.insert(source@, handle@) && r is Ok,
                Err(e) => after == before && r == Err::<(), SubscriptionError>(e),
            }
    }
}

/// A subscription step made through a reference to `bind` is one made through `bind`.
proof fn lemma_subscribe_step_through_reference<B: Fn(&str) -> usize>(
    before: Map<Seq<char>, usize>,
    source: &str,
    bind: B,
    after: Map<Seq<char>, usize>,
    r: Result<(), SubscriptionError>,
)
    requires
        subscribe_step(before, source, &bind, after, r),
    ensures
        subscribe_step(before, source, bind, after, r),
{
    if !before.contains_key(source@) {
        let listened = choose|listened: Result<ReceiverHandle, SubscriptionError>|
            #[trigger] listening_outcome(source, &bind, listened) && match listened {
                Ok(handle) => after == before.insert(source@, handle@) && r is Ok,
                Err(e) => after == before && r == Err::<(), SubscriptionError>(e),
            };
        if is_c_compatible(source@) {
            let address = choose|address: usize|
                call_ensures(&bind, (source,), address) && bound_outcome(
                    source@,
                    address,
                    listened,
                );
            assert(call_ensures(bind, (source,), address));
        }
        assert(listening_outcome(source, bind, listened));
    }
}

/// Names the subscriptions and the result reached after a prefix of the sources; it holds of
/// any two, and serves to point the prover at them.
pub open spec fn subscription_stage(
    middle: Map<Seq<char>, usize>,
    first: Result<(), SubscriptionError>,
) -> bool {
    true
}

/// Subscribing to `sources` one after the other, stopping at the first failure, leads from
/// `before` to `after` with the result `r`.
pub open spec fn subscribed_through<B: Fn(&str) -> usize>(
    before: Map<Seq<char>, usize>,
    sources: Seq<&str>,
    bind: B,
    after: Map<Seq<char>, usize>,
    r: Result<(), SubscriptionError>,
) -> bool
    decreases sources.len(),
{
    if sources.len() == 0 {
        after == before && r is Ok
    } else {
        exists|middle: Map<Seq<char>, usize>, first: Result<(), SubscriptionError>|
            #[trigger] subscription_stage(middle, first) && subscribed_through(
                before,
                sources.drop_last(),
                bind,
                middle,
                first,
            ) && match first {
                Err(_) => after == middle && r == first,
                Ok(()) => subscribe_step(middle, sources.last(), bind, after, r),
            }
    }
}

/// Once subscribing to a prefix of the sources failed, the rest of them changes nothing.
proof fn lemma_subscription_failure_stays<B: Fn(&str) -> usize>(
    before: Map<Seq<char>, usize>,
    sources: Seq<&str>,
    bind: B,
    i: int,
    after: Map<Seq<char>, usize>,
    r: Result<(), SubscriptionError>,
)
    requires
        0 <= i <= sources.len(),
        r is Err,
        subscribed_through(before, sources.take(i), bind, after, r),
    ensures
        subscribed_through(before, sources, bind, after, r),
    decreases sources.len() - i,
{
    if i < sources.len() {
        let longer = sources.take(i + 1);
        assert(longer.drop_last() =~= sources.take(i));
        assert(subscription_stage(after, r));
        assert(subscribed_through(before, longer, bind, after, r));
        lemma_subscription_failure_stays(before, sources, bind, i + 1, after, r);
    } else {
        assert(sources.take(i) =~= sources);
    }
}

/// The names of a list of entries.
pub open spec fn entry_keys(entries: Seq<(String, ReceiverHandle)>) -> Seq<Seq<char>> {
    entries.map_values(|entry: (String, ReceiverHandle)| entry.0@)
}

/// The subscriptions which were made to senders in pd: each sender name with the handle of
/// its receiver.
///
/// A sender name occurs at most once.
pub struct Subscriptions {
    entries: Vec<(String, ReceiverHandle)>,
}

impl View for Subscriptions {
    type V = Map<Seq<char>, usize>;

    /// Each subscribed sender name, mapped to the address of its receiver.
    closed spec fn view(&self) -> Map<Seq<char>, usize> {
        let keys = entry_keys(self.entries@);
        Map::new(|name: Seq<char>| keys.contains(name), |name: Seq<char>| self.entries@[keys.index_of(name)].1@)
    }
}

impl Subscriptions {
    #[verifier::type_invariant]
    spec fn names_are_unique(&self) -> bool {
        entry_keys(self.entries@).no_duplicates()
    }

    /// No subscriptions.
    pub fn new() -> (r: Self)
        ensures
            r@ == Map::<Seq<char>, usize>::empty(),
    {
        let r = Subscriptions { entries: Vec::new() };
        assert(r@ =~= Map::<Seq<char>, usize>::empty());
        r
    }

    /// The number of subscriptions.
    pub fn len(&self) -> (r: usize)
        ensures
            r == self@.len(),
    {
        proof {
            use_type_invariant(self);
            self.lemma_len();
        }
        self.entries.len()
    }

    /// Whether there are no subscriptions.
    pub fn is_empty(&self) -> (r: bool)
        ensures
            r == (self@.len() == 0),
    {
        self.len() == 0
    }

    /// The position of the subscription to `name`, if there is one.
    fn position(&self, name: &str) -> (r: Option<usize>)
        ensures
            match r {
                Some(i) => i < self.entries@.len() && self.entries@[i as int].0@ == name@,
                None => !entry_keys(self.entries@).contains(name@),
            },
    {
        let wanted = name.to_owned();
        let len = self.entries.len();
        let mut i: usize = 0;
        while i < len
            invariant
                len == self.entries@.len(),
                wanted@ == name@,
                i <= len,
                forall|j: int| 0 <= j < i ==> self.entries@[j].0@ != name@,
            decreases len - i,
        {
            if self.entries[i].0 == wanted {
                return Some(i);
            }
            i = i + 1;
        }
        assert(!entry_keys(self.entries@).contains(name@)) by {
            if entry_keys(self.entries@).contains(name@) {
                let k = choose|k: int|
                    0 <= k < entry_keys(self.entries@).len() && entry_keys(self.entries@)[k]
                        == name@;
                assert(self.entries@[k].0@ == name@);
            }
        }
        None
    }

    /// Whether there is a subscription to the sender `name`.
    pub fn contains_key(&self, name: &str) -> (r: bool)
        ensures
            r == self@.contains_key(name@),
    {
        let found = self.position(name);
        proof {
            if let Some(i) = found {
                assert(entry_keys(self.entries@)[i as int] == name@);
            }
        }
        found.is_some()
    }

    /// The names of the subscribed senders, in no particular order.
    pub fn keys(&self) -> (r: Vec<String>)
        ensures
            r@.len() == self@.len(),
            forall|i: int| 0 <= i < r@.len() ==> self@.contains_key(#[trigger] r@[i]@),
            forall|name: Seq<char>| self@.contains_key(name) ==> exists|i: int| 0 <= i < r@.len() && r@[i]@ == name,
    {
        proof {
            use_type_invariant(self);
            self.lemma_len();
        }
        let len = self.entries.len();
        let mut names: Vec<String> = Vec::new();
        let mut i: usize = 0;
        while i < len
            invariant
                len == self.entries@.len(),
                i <= len,
                names@.len() == i,
                forall|j: int| 0 <= j < i ==> #[trigger] names@[j]@ == self.entries@[j].0@,
            decreases len - i,
        {
            names.push(self.entries[i].0.clone());
            i = i + 1;
        }
        assert forall|j: int| 0 <= j < names@.len() implies self@.contains_key(#[trigger] names@[j]@) by {
            assert(entry_keys(self.entries@)[j] == names@[j]@);
        }
        assert forall|name: Seq<char>| self@.contains_key(name) implies exists|j: int| 0 <= j < names@.len() && names@[j]@ == name by {
            let k = choose|k: int| 0 <= k < entry_keys(self.entries@).len() && entry_keys(self.entries@)[k] == name;
            assert(names@[k]@ == name);
        }
        names
    }

    /// Adds a subscription to a sender that has none yet.
    fn insert(&mut self, name: String, handle: ReceiverHandle)
        requires
            !old(self)@.contains_key(name@),
        ensures
            final(self)@ == old(self)@.insert(name@, handle@),
    {
        proof {
            use_type_invariant(&*self);
        }
        let ghost before = self.entries@;
        let ghost old_view = self@;
        let ghost key = name@;
        let ghost value = handle@;
        let mut entries: Vec<(String, ReceiverHandle)> = Vec::new();
        std::mem::swap(&mut entries, &mut self.entries);
        entries.push((name, handle));
        proof {
            let keys = entry_keys(before);
            let new_keys = entry_keys(entries@);
            assert(new_keys =~= keys.push(key));
            assert(!keys.contains(key));
            assert(new_keys.no_duplicates()) by {
                assert forall|i: int, j: int|
                    0 <= i < new_keys.len() && 0 <= j < new_keys.len() && i != j implies new_keys[i]
                    != new_keys[j] by {
                    if i < keys.len() && j < keys.len() {
                        assert(new_keys[i] == keys[i] && new_keys[j] == keys[j]);
                    } else if i == keys.len() {
                        assert(new_keys[j] == keys[j]);
                    } else {
                        assert(new_keys[i] == keys[i]);
                    }
                }
            }
        }
        self.entries = entries;
        proof {
            let keys = entry_keys(before);
            let new_keys = entry_keys(self.entries@);
            assert(new_keys =~= keys.push(key));
            assert forall|n: Seq<char>| #[trigger] old_view.contains_key(n) && n != key implies self@[n] == old_view[n] by {
                let i = new_keys.index_of(n);
                let k = keys.index_of(n);
                assert(new_keys[k] == n);
                assert(i == k);
            }
            assert(self@[key] == value) by {
                let i = new_keys.index_of(key);
                assert(new_keys[keys.len() as int] == key);
                assert(i == keys.len());
            }
            assert forall|n: Seq<char>| #[trigger] new_keys.contains(n) <==> (keys.contains(n) || n == key) by {
                if new_keys.contains(n) {
                    let a = choose|a: int| 0 <= a < new_keys.len() && new_keys[a] == n;
                    if a < keys.len() {
                        assert(keys[a] == n);
                    }
                }
                if keys.contains(n) {
                    let a = choose|a: int| 0 <= a < keys.len() && keys[a] == n;
                    assert(new_keys[a] == n);
                }
                if n == key {
                    assert(new_keys[keys.len() as int] == n);
                }
            }
            assert(self@.dom() =~= old_view.dom().insert(key));
            assert(self@ =~= old_view.insert(key, value));
        }
    }

    /// Removes the subscription to `name`, giving back its handle, if there is one.
    fn remove(&mut self, name: &str) -> (r: Option<ReceiverHandle>)
        ensures
            match r {
                None => !old(self)@.contains_key(name@) && final(self)@ == old(self)@,
                Some(handle) => old(self)@.contains_key(name@) && old(self)@[name@] == handle@
                    && final(self)@ == old(self)@.remove(name@),
            },
    {
        proof {
            use_type_invariant(&*self);
        }
        match self.position(name) {
            None => None,
            Some(i) => {
                let ghost before = self.entries@;
                let ghost old_view = self@;
                let ghost key = name@;
                proof {
                    let keys = entry_keys(before);
                    assert(keys[i as int] == key);
                    assert(keys.index_of(key) == i) by {
                        let k = keys.index_of(key);
                        assert(keys[k] == key);
                    }
                }
                let mut entries: Vec<(String, ReceiverHandle)> = Vec::new();
                std::mem::swap(&mut entries, &mut self.entries);
                let (_, handle) = entries.remove(i);
                proof {
                    let keys = entry_keys(before);
                    let new_keys = entry_keys(entries@);
                    assert(new_keys =~= keys.remove(i as int));
                    assert(new_keys.no_duplicates()) by {
                        assert forall|a: int, b: int|
                            0 <= a < new_keys.len() && 0 <= b < new_keys.len() && a != b implies new_keys[a]
                            != new_keys[b] by {
                            let a0 = if a < i { a } else { a + 1 };
                            let b0 = if b < i { b } else { b + 1 };
                            assert(new_keys[a] == keys[a0]);
                            assert(new_keys[b] == keys[b0]);
                        }
                    }
                }
                self.entries = entries;
                proof {
                    let keys = entry_keys(before);
                    let new_keys = entry_keys(self.entries@);
                    assert forall|n: Seq<char>| #[trigger] new_keys.contains(n) <==> (keys.contains(n) && n != key) by {
                        if new_keys.contains(n) {
                            let a = choose|a: int| 0 <= a < new_keys.len() && new_keys[a] == n;
                            let a0 = if a < i { a } else { a + 1 };
                            assert(keys[a0] == n);
                            assert(a0 != i);
                        }
                        if keys.contains(n) && n != key {
                            let a0 = choose|a0: int| 0 <= a0 < keys.len() && keys[a0] == n;
                            assert(a0 != i);
                            let a = if a0 < i { a0 } else { a0 - 1 };
                            assert(new_keys[a] == n);
                        }
                    }
                    assert forall|n: Seq<char>| #[trigger] self@.contains_key(n) implies self@[n] == old_view[n] by {
                        let a = new_keys.index_of(n);
                        let a0 = if a < i { a } else { a + 1 };
                        assert(keys[a0] == n);
                        let k = keys.index_of(n);
                        assert(keys[k] == n);
                        assert(k == a0);
                    }
                    assert(self@ =~= old_view.remove(key));
                }
                Some(handle)
            },
        }
    }

    /// Starts listening to the sender `source`, unless there is a subscription to it already.
    ///
    /// `bind` asks libpd for a receiver, as in
    /// [`start_listening_from`](crate::functions::receive::start_listening_from); it is not
    /// called for a sender that has a subscription.
    pub fn subscribe_to<B: FnOnce(&str) -> usize>(&mut self, source: &str, bind: B) -> (r: Result<
        (),
        SubscriptionError,
    >)
        requires
            !old(self)@.contains_key(source@) && is_c_compatible(source@) ==> call_requires(
                bind,
                (source,),
            ),
        ensures
            subscribe_step(old(self)@, source, bind, final(self)@, r),
    {
        if self.contains_key(source) {
            return Ok(());
        }
        let listened = start_listening_from(source, bind);
        let ghost outcome = listened;
        assert(listening_outcome(source, bind, outcome));
        match listened {
            Err(e) => Err(e),
            Ok(handle) => {
                self.insert(source.to_owned(), handle);
                Ok(())
            },
        }
    }

    /// Starts listening to each of the senders `sources` that has no subscription yet, in
    /// order; stops at the first one that fails, keeping the subscriptions made before it.
    pub fn subscribe_to_many<B: Fn(&str) -> usize>(&mut self, sources: &[&str], bind: &B) -> (r:
        Result<(), SubscriptionError>)
        requires
            forall|source: &str|
                sources@.contains(source) && !old(self)@.contains_key(source@) && is_c_compatible(
                    source@,
                ) ==> #[trigger] call_requires(*bind, (source,)),
        ensures
            subscribed_through(old(self)@, sources@, *bind, final(self)@, r),
    {
        let ghost before = self@;
        let len = sources.len();
        let mut i: usize = 0;
        assert(sources@.take(0).len() == 0);
        while i < len
            invariant
                len == sources@.len(),
                i <= len,
                forall|source: &str|
                    sources@.contains(source) && !before.contains_key(source@) && is_c_compatible(
                        source@,
                    ) ==> #[trigger] call_requires(*bind, (source,)),
                forall|name: Seq<char>| before.contains_key(name) ==> self@.contains_key(name),
                before == old(self)@,
                subscribed_through(before, sources@.take(i as int), *bind, self@, Ok(())),
            decreases len - i,
        {
            let ghost middle = self@;
            assert(sources@.contains(sources@[i as int]));
            let step = self.subscribe_to(sources[i], bind);
            proof {
                assert forall|name: Seq<char>| before.contains_key(name) implies self@.contains_key(
                    name,
                ) by {
                    assert(middle.contains_key(name));
                }
                let longer = sources@.take(i + 1);
                assert(longer.drop_last() =~= sources@.take(i as int));
                assert(longer.last() == sources@[i as int]);
                assert(subscription_stage(middle, Ok(())));
                lemma_subscribe_step_through_reference(middle, sources@[i as int], *bind, self@, step);
                assert(subscribed_through(before, longer, *bind, self@, step));
            }
            if step.is_err() {
                proof {
                    lemma_subscription_failure_stays(before, sources@, *bind, i + 1, self@, step);
                }
                return step;
            }
            i = i + 1;
        }
        assert(sources@.take(len as int) =~= sources@);
        Ok(())
    }

    /// Stops listening to the sender `source`, if there is a subscription to it; `unbind`
    /// removes its receiver from libpd.
    pub fn unsubscribe_from<U: Fn(usize)>(&mut self, source: &str, unbind: &U)
        requires
            forall|address: usize| address != 0 ==> call_requires(*unbind, (address,)),
        ensures
            final(self)@ == old(self)@.remove(source@),
            old(self)@.contains_key(source@) && old(self)@[source@] != 0 ==> call_ensures(
                *unbind,
                (old(self)@[source@],),
                (),
            ),
    {
        match self.remove(source) {
            None => {
                assert(self@ =~= self@.remove(source@));
            },
            Some(handle) => {
                stop_listening_from(handle, unbind);
            },
        }
    }

    /// Stops listening to each of the senders `sources` that has a subscription.
    pub fn unsubscribe_from_many<U: Fn(usize)>(&mut self, sources: &[&str], unbind: &U)
        requires
            forall|address: usize| address != 0 ==> call_requires(*unbind, (address,)),
        ensures
            final(self)@ == old(self)@.remove_keys(sources@.map_values(|s: &str| s@).to_set()),
            forall|name: Seq<char>|
                #![trigger old(self)@[name]]
                old(self)@.contains_key(name) && sources@.map_values(|s: &str| s@).contains(name)
                    && old(self)@[name] != 0 ==> call_ensures(*unbind, (old(self)@[name],), ()),
    {
        let ghost before = self@;
        let ghost names = sources@.map_values(|s: &str| s@);
        let len = sources.len();
        let mut i: usize = 0;
        while i < len
            invariant
                len == sources@.len(),
                names == sources@.map_values(|s: &str| s@),
                i <= len,
                forall|address: usize| address != 0 ==> call_requires(*unbind, (address,)),
                self@ == before.remove_keys(names.take(i as int).to_set()),
                forall|name: Seq<char>|
                    #![trigger before[name]]
                    before.contains_key(name) && names.take(i as int).contains(name) && before[name]
                        != 0 ==> call_ensures(*unbind, (before[name],), ()),
            decreases len - i,
        {
            let ghost middle = self@;
            let ghost name = sources@[i as int]@;
            self.unsubscribe_from(sources[i], unbind);
            proof {
                let done = names.take(i + 1);
                assert(done =~= names.take(i as int).push(name));
                assert(done.to_set() =~= names.take(i as int).to_set().insert(name)) by {
                    assert forall|n: Seq<char>| done.contains(n) <==> (names.take(i as int).contains(n) || n == name) by {
                        if done.contains(n) {
                            let k = choose|k: int| 0 <= k < done.len() && done[k] == n;
                            if k < i {
                                assert(names.take(i as int)[k] == n);
                            }
                        }
                        if names.take(i as int).contains(n) {
                            let k = choose|k: int| 0 <= k < i && names.take(i as int)[k] == n;
                            assert(done[k] == n);
                        }
                        if n == name {
                            assert(done[i as int] == n);
                        }
                    }
                }
                assert(self@ =~= before.remove_keys(done.to_set()));
                assert forall|n: Seq<char>|
                    #![trigger before[n]]
                    before.contains_key(n) && done.contains(n) && before[n] != 0 implies call_ensures(
                        *unbind,
                        (before[n],),
                        (),
                    ) by {
                    if names.take(i as int).contains(n) {
                    } else if n != name {
                        let k = choose|k: int| 0 <= k < done.len() && done[k] == n;
                        assert(names.take(i as int)[k] == n);
                    } else {
                        assert(middle.contains_key(n));
                        assert(middle[n] == before[n]);
                    }
                }
            }
            i = i + 1;
        }
        assert(names.take(len as int) =~= names);
    }

    /// Stops listening to every sender that has a subscription.
    pub fn unsubscribe_from_all<U: Fn(usize)>(&mut self, unbind: &U)
        requires
            forall|address: usize| address != 0 ==> call_requires(*unbind, (address,)),
        ensures
            final(self)@ == Map::<Seq<char>, usize>::empty(),
            forall|name: Seq<char>|
                #![trigger old(self)@[name]]
                old(self)@.contains_key(name) && old(self)@[name] != 0 ==> call_ensures(
                    *unbind,
                    (old(self)@[name],),
                    (),
                ),
    {
        let ghost before = self@;
        let names = self.keys();
        let len = names.len();
        let mut i: usize = 0;
        while i < len
            invariant
                len == names@.len(),
                i <= len,
                forall|address: usize| address != 0 ==> call_requires(*unbind, (address,)),
                forall|j: int| 0 <= j < names@.len() ==> before.contains_key(#[trigger] names@[j]@),
                forall|name: Seq<char>| before.contains_key(name) ==> exists|j: int| 0 <= j < names@.len() && names@[j]@ == name,
                forall|name: Seq<char>| #[trigger] self@.contains_key(name) ==> before.contains_key(name) && self@[name] == before[name] && forall|j: int| 0 <= j < i ==> names@[j]@ != name,
                forall|name: Seq<char>| before.contains_key(name) && (forall|j: int| 0 <= j < i ==> names@[j]@ != name) ==> #[trigger] self@.contains_key(name),
                forall|name: Seq<char>|
                    #![trigger before[name]]
                    before.contains_key(name) && !self@.contains_key(name) && before[name] != 0 ==> call_ensures(*unbind, (before[name],), ()),
            decreases len - i,
        {
            let ghost middle = self@;
            let ghost name = names@[i as int]@;
            self.unsubscribe_from(names[i].as_str(), unbind);
            proof {
                assert forall|n: Seq<char>| before.contains_key(n) && (forall|j: int| 0 <= j < i + 1 ==> names@[j]@ != n) implies #[trigger] self@.contains_key(n) by {
                    assert(middle.contains_key(n));
                    assert(names@[i as int]@ != n);
                }
                assert forall|n: Seq<char>| #[trigger] self@.contains_key(n) implies before.contains_key(n) && self@[n] == before[n] && forall|j: int| 0 <= j < i + 1 ==> names@[j]@ != n by {
                    assert(middle.contains_key(n));
                }
            }
            i = i + 1;
        }
        assert forall|n: Seq<char>| !self@.contains_key(n) by {
            if self@.contains_key(n) {
                let j = choose|j: int| 0 <= j < names@.len() && names@[j]@ == n;
                assert(names@[j]@ != n);
            }
        }
        assert(self@ =~= Map::<Seq<char>, usize>::empty());
    }

    /// The view has one entry per stored entry.
    proof fn lemma_len(&self)
        requires
            entry_keys(self.entries@).no_duplicates(),
        ensures
            self@.len() == self.entries@.len(),
            self@.dom() == entry_keys(self.entries@).to_set(),
    {
        let keys = entry_keys(self.entries@);
        assert(self@.dom() =~= keys.to_set());
        keys.unique_seq_to_set();
    }
}

/// The paths of a list of search paths.
pub open spec fn path_views(paths: Seq<String>) -> Seq<Seq<char>> {
    paths.map_values(|path: String| path@)
}

/// One step of adding to the search paths: a path which is there already is left alone, and
/// otherwise the path is checked and handed to libpd, and appended when that succeeds.
pub open spec fn search_path_step<X: Fn(&str) -> bool, A: Fn(&str)>(
    before: Seq<Seq<char>>,
    path: &str,
    path_exists: X,
    register: A,
    after: Seq<Seq<char>>,
    r: Result<(), IoError>,
) -> bool {
    if paths_contain(before, path@) {
        after == before && r is Ok
    } else {
        exists|found: bool|
            #[trigger] call_ensures(path_exists, (path,), found) && add_to_search_paths_outcome(
                path@,
                found,
                r,
            ) && after == (if r is Ok {
                before.push(path@)
            } else {
                before
            }) && (r is Ok ==> call_ensures(register, (path,), ()))
    }
}

/// Names the search paths and the result reached after a prefix of the added paths; it holds
/// of any two, and serves to point the prover at them.
pub open spec fn search_path_stage(middle: Seq<Seq<char>>, first: Result<(), IoError>) -> bool {
    true
}

/// Adding `paths` to the search paths one after the other, stopping at the first failure,
/// leads from `before` to `after` with the result `r`.
pub open spec fn search_paths_through<X: Fn(&str) -> bool, A: Fn(&str)>(
    before: Seq<Seq<char>>,
    paths: Seq<&str>,
    path_exists: X,
    register: A,
    after: Seq<Seq<char>>,
    r: Result<(), IoError>,
) -> bool
    decreases paths.len(),
{
    if paths.len() == 0 {
        after == before && r is Ok
    } else {
        exists|middle: Seq<Seq<char>>, first: Result<(), IoError>|
            #[trigger] search_path_stage(middle, first) && search_paths_through(
                before,
                paths.drop_last(),
                path_exists,
                register,
                middle,
                first,
            ) && match first {
                Err(_) => after == middle && r == first,
                Ok(()) => search_path_step(middle, paths.last(), path_exists, register, after, r),
            }
    }
}

/// Once adding a prefix of the paths failed, the rest of them changes nothing.
proof fn lemma_search_path_failure_stays<X: Fn(&str) -> bool, A: Fn(&str)>(
    before: Seq<Seq<char>>,
    paths: Seq<&str>,
    path_exists: X,
    register: A,
    i: int,
    after: Seq<Seq<char>>,
    r: Result<(), IoError>,
)
    requires
        0 <= i <= paths.len(),
        r is Err,
        search_paths_through(before, paths.take(i), path_exists, register, after, r),
    ensures
        search_paths_through(before, paths, path_exists, register, after, r),
    decreases paths.len() - i,
{
    if i < paths.len() {
        let longer = paths.take(i + 1);
        assert(longer.drop_last() =~= paths.take(i));
        assert(search_path_stage(after, r));
        assert(search_paths_through(before, longer, path_exists, register, after, r));
        lemma_search_path_failure_stays(before, paths, path_exists, register, i + 1, after, r);
    } else {
        assert(paths.take(i) =~= paths);
    }
}

/// Two paths are the same path: equal as strings, or equal component by component.
pub open spec fn is_same_path(a: Seq<char>, b: Seq<char>) -> bool {
    a == b || path_eq(a, b)
}

/// One of `paths` is the same path as `path`.
pub open spec fn paths_contain(paths: Seq<Seq<char>>, path: Seq<char>) -> bool {
    exists|i: int| 0 <= i < paths.len() && #[trigger] is_same_path(paths[i], path)
}

/// No two of `paths` are the same path.
pub open spec fn distinct_paths(paths: Seq<Seq<char>>) -> bool {
    forall|i: int, j: int|
        0 <= i < j < paths.len() ==> !#[trigger] is_same_path(paths[i], paths[j])
}

/// Whether `path` is one of the search paths, compared as paths.
pub fn contains_path(search_paths: &Vec<String>, path: &str) -> (r: bool)
    ensures
        r == paths_contain(path_views(search_paths@), path@),
{
    let len = search_paths.len();
    let mut i: usize = 0;
    while i < len
        invariant
            len == search_paths@.len(),
            i <= len,
            forall|j: int| 0 <= j < i ==> !is_same_path(#[trigger] search_paths@[j]@, path@),
        decreases len - i,
    {
        if same_path(search_paths[i].as_str(), path) {
            assert(is_same_path(path_views(search_paths@)[i as int], path@));
            return true;
        }
        i = i + 1;
    }
    assert(!paths_contain(path_views(search_paths@), path@)) by {
        if paths_contain(path_views(search_paths@), path@) {
            let k = choose|k: int|
                0 <= k < path_views(search_paths@).len() && #[trigger] is_same_path(
                    path_views(search_paths@)[k],
                    path@,
                );
            assert(search_paths@[k]@ == path_views(search_paths@)[k]);
        }
    }
    false
}

/// Adds `path` to the search paths, unless it is there already.
///
/// `path_exists` and `register` are as in [`add_to_search_paths`]: the path must exist, and
/// `register` hands it to libpd. A path that is there already is not looked at again.
pub fn add_search_path<X: Fn(&str) -> bool, A: Fn(&str)>(
    search_paths: &mut Vec<String>,
    path: &str,
    path_exists: &X,
    register: &A,
) -> (r: Result<(), IoError>)
    requires
        call_requires(*path_exists, (path,)),
        !paths_contain(path_views(old(search_paths)@), path@) && found_and_compatible(
            *path_exists,
            path,
        ) ==> call_requires(*register, (path,)),
    ensures
        search_path_step(
            path_views(old(search_paths)@),
            path,
            *path_exists,
            *register,
            path_views(final(search_paths)@),
            r,
        ),
{
    if contains_path(search_paths, path) {
        return Ok(());
    }
    let ghost before = path_views(search_paths@);
    let added = add_to_search_paths(path, path_exists, register);
    if added.is_ok() {
        search_paths.push(path.to_owned());
        assert(path_views(search_paths@) =~= before.push(path@));
    }
    added
}

/// Adds each of `paths` that is not there yet to the search paths, in order; stops at the
/// first one that fails, keeping the paths added before it.
pub fn add_search_paths<X: Fn(&str) -> bool, A: Fn(&str)>(
    search_paths: &mut Vec<String>,
    paths: &[&str],
    path_exists: &X,
    register: &A,
) -> (r: Result<(), IoError>)
    requires
        forall|path: &str| call_requires(*path_exists, (path,)),
        forall|path: &str|
            paths@.contains(path) && !paths_contain(path_views(old(search_paths)@), path@)
                && found_and_compatible(*path_exists, path) ==> #[trigger] call_requires(
                *register,
                (path,),
            ),
    ensures
        search_paths_through(
            path_views(old(search_paths)@),
            paths@,
            *path_exists,
            *register,
            path_views(final(search_paths)@),
            r,
        ),
{
    let ghost before = path_views(search_paths@);
    let len = paths.len();
    let mut i: usize = 0;
    assert(paths@.take(0).len() == 0);
    while i < len
        invariant
            len == paths@.len(),
            i <= len,
            forall|path: &str| call_requires(*path_exists, (path,)),
            forall|path: &str|
                paths@.contains(path) && !paths_contain(before, path@) && found_and_compatible(
                    *path_exists,
                    path,
                ) ==> #[trigger] call_requires(*register, (path,)),
            forall|p: Seq<char>| before.contains(p) ==> path_views(search_paths@).contains(p),
            before == path_views(old(search_paths)@),
            search_paths_through(
                before,
                paths@.take(i as int),
                *path_exists,
                *register,
                path_views(search_paths@),
                Ok(()),
            ),
        decreases len - i,
    {
        let ghost middle = path_views(search_paths@);
        assert(paths@.contains(paths@[i as int]));
        assert(!paths_contain(middle, paths@[i as int]@) ==> !paths_contain(
            before,
            paths@[i as int]@,
        )) by {
            if paths_contain(before, paths@[i as int]@) {
                let k = choose|k: int|
                    0 <= k < before.len() && #[trigger] is_same_path(before[k], paths@[i as int]@);
                assert(before.contains(before[k]));
                let m = choose|m: int| 0 <= m < middle.len() && middle[m] == before[k];
                assert(is_same_path(middle[m], paths@[i as int]@));
            }
        }
        let step = add_search_path(search_paths, paths[i], path_exists, register);
        proof {
            assert forall|p: Seq<char>| before.contains(p) implies path_views(
                search_paths@,
            ).contains(p) by {
                assert(middle.contains(p));
                let k = choose|k: int| 0 <= k < middle.len() && middle[k] == p;
                assert(path_views(search_paths@)[k] == p);
            }
            let longer = paths@.take(i + 1);
            assert(longer.drop_last() =~= paths@.take(i as int));
            assert(longer.last() == paths@[i as int]);
            assert(search_path_stage(middle, Ok(())));
            assert(search_paths_through(
                before,
                longer,
                *path_exists,
                *register,
                path_views(search_paths@),
                step,
            ));
        }
        if step.is_err() {
            proof {
                lemma_search_path_failure_stays(
                    before,
                    paths@,
                    *path_exists,
                    *register,
                    i + 1,
                    path_views(search_paths@),
                    step,
                );
            }
            return step;
        }
        i = i + 1;
    }
    assert(paths@.take(len as int) =~= paths@);
    Ok(())
}

/// libpd may be asked to open the file `name` in `directory` when evaluating `contents`: a
/// temporary file that `make_temp` answered for the contents is opened there, as
/// [`open_permitted`] says.
pub open spec fn eval_open_permitted<M: Fn(&str) -> Result<String, String>, X: Fn(&str) -> bool>(
    contents: &str,
    make_temp: M,
    path_exists: X,
    name: Seq<char>,
    directory: Seq<char>,
) -> bool {
    exists|temp: String|
        #[trigger] call_ensures(make_temp, (contents,), Ok::<String, String>(temp))
            && open_permitted(temp@, path_exists, name, directory)
}

/// What a session knows of its patch: the address of the open patch, and the path of the
/// temporary file that holds an evaluated patch.
pub struct PatchView {
    pub running_patch: Option<usize>,
    pub temporary_evaluated_patch: Option<Seq<char>>,
}

/// The open patch of a session, and the temporary file of an evaluated patch.
pub struct PatchState {
    running_patch: Option<PatchFileHandle>,
    temporary_evaluated_patch: Option<String>,
}

/// A handle option seen by its address.
pub open spec fn handle_view(handle: Option<PatchFileHandle>) -> Option<usize> {
    match handle {
        Some(h) => Some(h@),
        None => None,
    }
}

/// `remove_temp` was asked to remove the file at `path`.
pub open spec fn removed<D: Fn(&str)>(remove_temp: D, path: Seq<char>) -> bool {
    exists|q: &str| #[trigger] call_ensures(remove_temp, (q,), ()) && q@ == path
}

/// What closing the patch of a session does: the open patch is closed (a null handle is
/// refused, and then the temporary file stays) and the temporary file is removed.
pub open spec fn closing<C: Fn(usize), D: Fn(&str)>(
    before: PatchView,
    close_file: C,
    remove_temp: D,
    after: PatchView,
    r: Result<(), PatchLifeCycleError>,
) -> bool {
    &&& after.running_patch is None
    &&& if before.running_patch == Some(0usize) {
        &&& r == Err::<(), PatchLifeCycleError>(PatchLifeCycleError::FailedToClosePatch)
        &&& after.temporary_evaluated_patch == before.temporary_evaluated_patch
    } else {
        &&& r is Ok
        &&& after.temporary_evaluated_patch is None
        &&& (before.running_patch matches Some(address) ==> call_ensures(
            close_file,
            (address,),
            (),
        ))
        &&& (before.temporary_evaluated_patch matches Some(path) ==> removed(remove_temp, path))
    }
}

/// Before a patch is opened, the open one is closed: `middle` is the state this leads to.
pub open spec fn closing_before_open<C: Fn(usize), D: Fn(&str)>(
    before: PatchView,
    close_file: C,
    remove_temp: D,
    middle: PatchView,
    r: Result<(), PatchLifeCycleError>,
) -> bool {
    if before.running_patch is Some {
        closing(before, close_file, remove_temp, middle, r)
    } else {
        middle == before && r is Ok
    }
}

/// Names an intermediate state and result; it holds of any two, and serves to point the
/// prover at them.
pub open spec fn patch_stage(middle: PatchView, first: Result<(), PatchLifeCycleError>) -> bool {
    true
}

/// What opening the patch at `path` in a session does: the open patch is closed first, and
/// the new one becomes the open patch when it opens.
pub open spec fn opening<
    E: Fn() -> Option<String>,
    X: Fn(&str) -> bool,
    O: Fn(&str, &str) -> usize,
    C: Fn(usize),
    D: Fn(&str),
>(
    before: PatchView,
    path: Seq<char>,
    manifest_dir: Seq<char>,
    current_exe: E,
    path_exists: X,
    open_file: O,
    close_file: C,
    remove_temp: D,
    after: PatchView,
    r: Result<(), PatchLifeCycleError>,
) -> bool {
    exists|middle: PatchView, closed: Result<(), PatchLifeCycleError>|
        #[trigger] patch_stage(middle, closed) && closing_before_open(
            before,
            close_file,
            remove_temp,
            middle,
            closed,
        ) && match closed {
            Err(e) => after == middle && r == Err::<(), PatchLifeCycleError>(e),
            Ok(()) => exists|opened: Result<PatchFileHandle, PatchLifeCycleError>|
                #[trigger] open_patch_outcome(
                    path,
                    manifest_dir,
                    current_exe,
                    path_exists,
                    open_file,
                    opened,
                ) && match opened {
                    Err(e) => after == middle && r == Err::<(), PatchLifeCycleError>(e),
                    Ok(handle) => after == PatchView {
                        running_patch: Some(handle@),
                        temporary_evaluated_patch: middle.temporary_evaluated_patch,
                    } && r is Ok,
                },
        }
}

/// What opening the temporary patch file at `temp` does once it was written: it becomes the
/// open patch and the session's temporary file, whose previous one is removed; when it does not
/// open, it is removed again.
pub open spec fn evaluated_temp<
    X: Fn(&str) -> bool,
    E: Fn() -> Option<String>,
    O: Fn(&str, &str) -> usize,
    D: Fn(&str),
>(
    middle: PatchView,
    temp: Seq<char>,
    manifest_dir: Seq<char>,
    current_exe: E,
    path_exists: X,
    open_file: O,
    remove_temp: D,
    after: PatchView,
    r: Result<(), PatchLifeCycleError>,
) -> bool {
    exists|opened: Result<PatchFileHandle, PatchLifeCycleError>|
        #[trigger] open_patch_outcome(
            temp,
            manifest_dir,
            current_exe,
            path_exists,
            open_file,
            opened,
        ) && match opened {
            Err(e) => after == middle && r == Err::<(), PatchLifeCycleError>(e) && removed(
                remove_temp,
                temp,
            ),
            Ok(handle) => {
                &&& after == PatchView {
                    running_patch: Some(handle@),
                    temporary_evaluated_patch: Some(temp),
                }
                &&& r is Ok
                &&& (middle.temporary_evaluated_patch matches Some(previous) ==> removed(
                    remove_temp,
                    previous,
                ))
            },
        }
}

/// What evaluating `contents` does once the open patch is closed: `make_temp` writes the
/// contents to a temporary file and answers its path, or the message of the failure.
pub open spec fn evaluated<
    M: Fn(&str) -> Result<String, String>,
    X: Fn(&str) -> bool,
    E: Fn() -> Option<String>,
    O: Fn(&str, &str) -> usize,
    D: Fn(&str),
>(
    middle: PatchView,
    contents: &str,
    make_temp: M,
    manifest_dir: Seq<char>,
    current_exe: E,
    path_exists: X,
    open_file: O,
    remove_temp: D,
    after: PatchView,
    r: Result<(), PatchLifeCycleError>,
) -> bool {
    exists|made: Result<String, String>|
        #[trigger] call_ensures(make_temp, (contents,), made) && match made {
            Err(message) => after == middle && (r matches Err(
                PatchLifeCycleError::FailedToEvaluateAsPatch { content, msg },
            ) && content@ == contents@ && msg@ == message@),
            Ok(temp) => evaluated_temp(
                middle,
                temp@,
                manifest_dir,
                current_exe,
                path_exists,
                open_file,
                remove_temp,
                after,
                r,
            ),
        }
}

/// What evaluating `contents` as a patch does in a session: the open patch is closed first,
/// then the contents are written to a temporary file which is opened as the patch.
pub open spec fn evaluating<
    M: Fn(&str) -> Result<String, String>,
    X: Fn(&str) -> bool,
    E: Fn() -> Option<String>,
    O: Fn(&str, &str) -> usize,
    C: Fn(usize),
    D: Fn(&str),
>(
    before: PatchView,
    contents: &str,
    make_temp: M,
    manifest_dir: Seq<char>,
    current_exe: E,
    path_exists: X,
    open_file: O,
    close_file: C,
    remove_temp: D,
    after: PatchView,
    r: Result<(), PatchLifeCycleError>,
) -> bool {
    exists|middle: PatchView, closed: Result<(), PatchLifeCycleError>|
        #[trigger] patch_stage(middle, closed) && closing_before_open(
            before,
            close_file,
            remove_temp,
            middle,
            closed,
        ) && match closed {
            Err(e) => after == middle && r == Err::<(), PatchLifeCycleError>(e),
            Ok(()) => evaluated(
                middle,
                contents,
                make_temp,
                manifest_dir,
                current_exe,
                path_exists,
                open_file,
                remove_temp,
                after,
                r,
            ),
        }
}

impl View for PatchState {
    type V = PatchView;

    closed spec fn view(&self) -> PatchView {
        PatchView {
            running_patch: handle_view(self.running_patch),
            temporary_evaluated_patch: option_seq(self.temporary_evaluated_patch),
        }
    }
}

/// A string option seen by its characters.
pub open spec fn option_seq(o: Option<String>) -> Option<Seq<char>> {
    match o {
        Some(s) => Some(s@),
        None => None,
    }
}

impl PatchState {
    /// No open patch.
    pub fn new() -> (r: Self)
        ensures
            r@ == (PatchView { running_patch: None, temporary_evaluated_patch: None }),
    {
        PatchState { running_patch: None, temporary_evaluated_patch: None }
    }

    /// Whether a patch is open.
    pub fn is_open(&self) -> (r: bool)
        ensures
            r == self@.running_patch is Some,
    {
        self.running_patch.is_some()
    }

    /// Closes the open patch, if there is one, with `close_file`, and removes the temporary
    /// file of an evaluated patch with `remove_temp`.
    pub fn close_patch<C: Fn(usize), D: Fn(&str)>(&mut self, close_file: &C, remove_temp: &D) -> (r:
        Result<(), PatchLifeCycleError>)
        requires
            forall|address: usize|
                old(self)@.running_patch == Some(address) && address != 0 ==> call_requires(
                    *close_file,
                    (address,),
                ),
            forall|path: &str| call_requires(*remove_temp, (path,)),
        ensures
            closing(old(self)@, *close_file, *remove_temp, final(self)@, r),
    {
        let running = self.running_patch.take();
        if let Some(handle) = running {
            let closed = close_patch(handle, close_file);
            if closed.is_err() {
                return closed;
            }
        }
        let temporary = self.temporary_evaluated_patch.take();
        if let Some(path) = temporary {
            let path_str = path.as_str();
            remove_temp(path_str);
            assert(removed(*remove_temp, path@));
        }
        Ok(())
    }

    /// Opens the patch at `path`, closing the open one first; the closures are those of
    /// [`open_patch`] and of [`close_patch`](PatchState::close_patch).
    pub fn open_patch<
        E: Fn() -> Option<String>,
        X: Fn(&str) -> bool,
        O: Fn(&str, &str) -> usize,
        C: Fn(usize),
        D: Fn(&str),
    >(
        &mut self,
        path: &str,
        manifest_dir: &str,
        current_exe: &E,
        path_exists: &X,
        open_file: &O,
        close_file: &C,
        remove_temp: &D,
    ) -> (r: Result<(), PatchLifeCycleError>)
        requires
            call_requires(*current_exe, ()),
            forall|p: &str| call_requires(*path_exists, (p,)),
            forall|name: &str, directory: &str|
                open_permitted(path@, *path_exists, name@, directory@) ==> #[trigger] call_requires(
                    *open_file,
                    (name, directory),
                ),
            forall|address: usize|
                old(self)@.running_patch == Some(address) && address != 0 ==> call_requires(
                    *close_file,
                    (address,),
                ),
            forall|p: &str| call_requires(*remove_temp, (p,)),
        ensures
            opening(
                old(self)@,
                path@,
                manifest_dir@,
                *current_exe,
                *path_exists,
                *open_file,
                *close_file,
                *remove_temp,
                final(self)@,
                r,
            ),
    {
        let ghost before = self@;
        let closed = if self.running_patch.is_some() {
            self.close_patch(close_file, remove_temp)
        } else {
            Ok(())
        };
        let ghost middle = self@;
        assert(patch_stage(middle, closed));
        if let Err(e) = closed {
            return Err(e);
        }
        let opened = open_patch(path, manifest_dir, current_exe, path_exists, open_file);
        let ghost opened_view = opened;
        assert(open_patch_outcome(
            path@,
            manifest_dir@,
            *current_exe,
            *path_exists,
            *open_file,
            opened_view,
        ));
        match opened {
            Err(e) => Err(e),
            Ok(handle) => {
                self.running_patch = Some(handle);
                Ok(())
            },
        }
    }

    /// Evaluates `contents` as a patch: closes the open patch, has `make_temp` write the
    /// contents to a temporary file, and opens that file as the patch. The file is removed
    /// with `remove_temp` when the patch is closed again, or at once when it does not open.
    pub fn eval_patch<
        M: Fn(&str) -> Result<String, String>,
        X: Fn(&str) -> bool,
        E: Fn() -> Option<String>,
        O: Fn(&str, &str) -> usize,
        C: Fn(usize),
        D: Fn(&str),
    >(
        &mut self,
        contents: &str,
        make_temp: &M,
        manifest_dir: &str,
        current_exe: &E,
        path_exists: &X,
        open_file: &O,
        close_file: &C,
        remove_temp: &D,
    ) -> (r: Result<(), PatchLifeCycleError>)
        requires
            call_requires(*make_temp, (contents,)),
            call_requires(*current_exe, ()),
            forall|p: &str| call_requires(*path_exists, (p,)),
            forall|name: &str, directory: &str|
                eval_open_permitted(contents, *make_temp, *path_exists, name@, directory@)
                    ==> #[trigger] call_requires(*open_file, (name, directory)),
            forall|address: usize|
                old(self)@.running_patch == Some(address) && address != 0 ==> call_requires(
                    *close_file,
                    (address,),
                ),
            forall|p: &str| call_requires(*remove_temp, (p,)),
        ensures
            evaluating(
                old(self)@,
                contents,
                *make_temp,
                manifest_dir@,
                *current_exe,
                *path_exists,
                *open_file,
                *close_file,
                *remove_temp,
                final(self)@,
                r,
            ),
    {
        let closed = if self.running_patch.is_some() {
            self.close_patch(close_file, remove_temp)
        } else {
            Ok(())
        };
        let ghost middle = self@;
        assert(patch_stage(middle, closed));
        if let Err(e) = closed {
            return Err(e);
        }
        let made = make_temp(contents);
        let ghost made_view = made;
        assert(call_ensures(*make_temp, (contents,), made_view));
        let temp = match made {
            Err(message) => {
                return Err(
                    PatchLifeCycleError::FailedToEvaluateAsPatch {
                        content: contents.to_owned(),
                        msg: message,
                    },
                );
            },
            Ok(temp) => temp,
        };
        assert forall|name: &str, directory: &str|
            open_permitted(temp@, *path_exists, name@, directory@) implies #[trigger] call_requires(
                *open_file,
                (name, directory),
            ) by {
            assert(call_ensures(*make_temp, (contents,), Ok::<String, String>(temp)));
            assert(eval_open_permitted(contents, *make_temp, *path_exists, name@, directory@));
        }
        let opened = open_patch(temp.as_str(), manifest_dir, current_exe, path_exists, open_file);
        let ghost opened_view = opened;
        assert(open_patch_outcome(
            temp@,
            manifest_dir@,
            *current_exe,
            *path_exists,
            *open_file,
            opened_view,
        ));
        let r = match opened {
            Err(e) => {
                let temp_str = temp.as_str();
                remove_temp(temp_str);
                assert(removed(*remove_temp, temp@));
                Err(e)
            },
            Ok(handle) => {
                self.running_patch = Some(handle);
                let previous = self.temporary_evaluated_patch.take();
                if let Some(previous) = previous {
                    let previous_str = previous.as_str();
                    remove_temp(previous_str);
                    assert(removed(*remove_temp, previous@));
                }
                self.temporary_evaluated_patch = Some(temp);
                Ok(())
            },
        };
        assert(evaluated_temp(
            middle,
            temp@,
            manifest_dir@,
            *current_exe,
            *path_exists,
            *open_file,
            *remove_temp,
            self@,
            r,
        ));
        r
    }

    /// The `$0` of the open patch, asked from libpd with `dollar_zero`; fails with
    /// `PatchIsNotOpen` when no patch is open.
    pub fn dollar_zero<Z: Fn(usize) -> i32>(&self, dollar_zero: &Z) -> (r: Result<
        i32,
        PatchLifeCycleError,
    >)
        requires
            forall|address: usize|
                self@.running_patch == Some(address) ==> call_requires(*dollar_zero, (address,)),
        ensures
            match self@.running_patch {
                None => r == Err::<i32, PatchLifeCycleError>(PatchLifeCycleError::PatchIsNotOpen),
                Some(address) => dollar_zero_outcome(address, *dollar_zero, r),
            },
    {
        match &self.running_patch {
            None => Err(PatchLifeCycleError::PatchIsNotOpen),
            Some(handle) => {
                assert(self@.running_patch == Some(handle@));
                get_dollar_zero(handle, dollar_zero)
            },
        }
    }
}

} // verus!
