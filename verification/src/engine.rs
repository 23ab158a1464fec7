//! The backup engine's registry of watches, keyed by watch id, and the
//! counters kept for each watch.
use crate::backend::Timestamp;
use crate::config::WatchConfig;
use crate::error::OuroboError;
use crate::paths::views;
use crate::strategy::{BackendOp, BackupAction, BackupResult, BackupStrategy, CopyOnChange, FileEvent};
use crate::text::same_text;
use vstd::prelude::*;

verus! {

/// One registered watch: its configuration, whether it is watching (or
/// paused), and whatever the caller keeps to run and stop it.
pub struct WatchEntry<H> {
    pub config: WatchConfig,
    pub watching: bool,
    pub handle: H,
}

/// The ids of a sequence of entries.
pub open spec fn entry_ids<H>(s: Seq<WatchEntry<H>>) -> Seq<Seq<char>> {
    s.map_values(|e: WatchEntry<H>| e.config.id@)
}

/// Whether a watch with `id` is among `s`.
pub open spec fn has_id<H>(s: Seq<WatchEntry<H>>, id: Seq<char>) -> bool {
    exists|i: int| 0 <= i < s.len() && s[i].config.id@ == id
}

/// No id occurs twice among `s`.
pub open spec fn unique_ids<H>(s: Seq<WatchEntry<H>>) -> bool {
    forall|i: int, j: int| 0 <= i < s.len() && 0 <= j < s.len() && i != j ==> s[i].config.id@ != s[j].config.id@
}

/// The position of the watch with `id` among `s`.
pub open spec fn index_of_id<H>(s: Seq<WatchEntry<H>>, id: Seq<char>) -> int {
    choose|i: int| 0 <= i < s.len() && s[i].config.id@ == id
}

/// The registry after adding `e`: unchanged if its id is taken, else with `e` at the end.
pub open spec fn after_add<H>(s: Seq<WatchEntry<H>>, e: WatchEntry<H>) -> Seq<WatchEntry<H>> {
    if has_id(s, e.config.id@) {
        s
    } else {
        s.push(e)
    }
}

/// The registry after removing the watch with `id`: unchanged if there is none.
pub open spec fn after_remove<H>(s: Seq<WatchEntry<H>>, id: Seq<char>) -> Seq<WatchEntry<H>> {
    if has_id(s, id) {
        s.remove(index_of_id(s, id))
    } else {
        s
    }
}

/// The registry after enabling (`enabled`) or disabling the watch with
/// `id`: that watch's configuration has the flag and it is watching exactly
/// when enabled; every other entry is unchanged.
pub open spec fn after_set_enabled<H>(s: Seq<WatchEntry<H>>, id: Seq<char>, enabled: bool) -> Seq<WatchEntry<H>> {
    Seq::new(
        s.len(),
        |i: int|
            if s[i].config.id@ == id {
                WatchEntry { config: WatchConfig { enabled, ..s[i].config }, watching: enabled, handle: s[i].handle }
            } else {
                s[i]
            },
    )
}

/// The number of entries of `s` that are watching.
pub open spec fn watching_count<H>(s: Seq<WatchEntry<H>>) -> nat
    decreases s.len(),
{
    if s.len() == 0 {
        0
    } else {
        watching_count(s.drop_last()) + if s.last().watching { 1nat } else { 0nat }
    }
}

/// The running watches, each under a distinct id, and the strategy they share.
/// They are kept in a sequence in registration order; distinct ids make it a
/// map from id to watch.
pub struct BackupEngine<S, H> {
    watches: Vec<WatchEntry<H>>,
    strategy: S,
}

impl<S, H> View for BackupEngine<S, H> {
    type V = Seq<WatchEntry<H>>;

    closed spec fn view(&self) -> Seq<WatchEntry<H>> {
        self.watches@
    }
}

impl<S, H> BackupEngine<S, H> {
    #[verifier::type_invariant]
    closed spec fn ids_distinct(self) -> bool {
        unique_ids(self.watches@)
    }

    /// The strategy the engine was made with.
    pub closed spec fn strategy_spec(&self) -> S {
        self.strategy
    }

    /// An engine with no watches.
    pub fn new(strategy: S) -> (e: Self)
        ensures
            e@ == Seq::<WatchEntry<H>>::empty(),
            e.strategy_spec() == strategy,
            unique_ids(e@),
    {
        BackupEngine { watches: Vec::new(), strategy }
    }

    /// The strategy the engine was made with.
    pub fn strategy(&self) -> (s: &S)
        ensures
            *s == self.strategy_spec(),
    {
        &self.strategy
    }

    fn find(&self, id: &str) -> (r: Option<usize>)
        ensures
            r matches Some(i) ==> i < self@.len() && self@[i as int].config.id@ == id@,
            r is None ==> !has_id(self@, id@),
    {
        let mut i: usize = 0;
        while i < self.watches.len()
            invariant
                i <= self.watches@.len(),
                forall|j: int| 0 <= j < i ==> self.watches@[j].config.id@ != id@,
            decreases self.watches.len() - i,
        {
            if same_text(self.watches[i].config.id.as_str(), id) {
                return Some(i);
            }
            i = i + 1;
        }
        None
    }

    /// Whether a watch with `id` is registered.
    pub fn has_watch(&self, id: &str) -> (b: bool)
        ensures
            b == has_id(self@, id@),
    {
        self.find(id).is_some()
    }

    /// The number of registered watches.
    pub fn watch_count(&self) -> (n: usize)
        ensures
            n == self@.len(),
    {
        self.watches.len()
    }

    /// Whether a watch with `id` may be added: a taken id is a
    /// `DuplicateWatch` error.
    pub fn check_new_watch(&self, id: &String) -> (r: Result<(), OuroboError>)
        ensures
            has_id(self@, id@) ==> r == Err::<(), OuroboError>(OuroboError::DuplicateWatch(*id)),
            !has_id(self@, id@) ==> r is Ok,
    {
        if self.has_watch(id.as_str()) {
            Err(OuroboError::DuplicateWatch(id.clone()))
        } else {
            Ok(())
        }
    }

    /// Registers a watch, watching, whatever its `enabled` flag says. A taken
    /// id is a `DuplicateWatch` error and leaves the engine as it was;
    /// otherwise the watch is added after the others.
    pub fn add_watch(&mut self, config: WatchConfig, handle: H) -> (r: Result<(), OuroboError>)
        ensures
            final(self)@ == after_add(old(self)@, WatchEntry { config, watching: true, handle }),
            unique_ids(old(self)@),
            unique_ids(final(self)@),
            final(self).strategy_spec() == old(self).strategy_spec(),
            has_id(old(self)@, config.id@) ==> r == Err::<(), OuroboError>(OuroboError::DuplicateWatch(config.id)),
            !has_id(old(self)@, config.id@) ==> r is Ok,
    {
        proof {
            use_type_invariant(&*self);
        }
        if self.has_watch(config.id.as_str()) {
            return Err(OuroboError::DuplicateWatch(config.id));
        }
        let ghost old_w = self.watches@;
        let ghost e = WatchEntry { config, watching: true, handle };
        let mut w: Vec<WatchEntry<H>> = Vec::new();
        std::mem::swap(&mut w, &mut self.watches);
        w.push(WatchEntry { config, watching: true, handle });
        assert(w@ == old_w.push(e));
        assert forall|i: int, j: int|
            0 <= i < w@.len() && 0 <= j < w@.len() && i != j implies
            w@[i].config.id@ != w@[j].config.id@ by {
            if i == old_w.len() {
                assert(!(0 <= j < old_w.len() && old_w[j].config.id@ == e.config.id@));
            } else if j == old_w.len() {
                assert(!(0 <= i < old_w.len() && old_w[i].config.id@ == e.config.id@));
            }
        }
        self.watches = w;
        Ok(())
    }

    /// Unregisters the watch with `id` and hands back what was kept for it.
    /// An unknown id is a `WatchNotFound` error and leaves the engine as it was.
    pub fn remove_watch(&mut self, id: &str) -> (r: Result<H, OuroboError>)
        ensures
            final(self)@ == after_remove(old(self)@, id@),
            unique_ids(old(self)@),
            unique_ids(final(self)@),
            final(self).strategy_spec() == old(self).strategy_spec(),
            !has_id(old(self)@, id@) ==> (r matches Err(OuroboError::WatchNotFound(m)) && m@ == id@),
            has_id(old(self)@, id@) ==> r == Ok::<H, OuroboError>(
                old(self)@[index_of_id(old(self)@, id@)].handle,
            ),
    {
        proof {
            use_type_invariant(&*self);
        }
        match self.find(id) {
            None => Err(OuroboError::WatchNotFound(String::from_str(id))),
            Some(i) => {
                let ghost old_w = self.watches@;
                proof {
                    let k = index_of_id(old_w, id@);
                    assert(0 <= k < old_w.len() && old_w[k].config.id@ == id@);
                    assert(k == i);
                }
                let mut w: Vec<WatchEntry<H>> = Vec::new();
                std::mem::swap(&mut w, &mut self.watches);
                let entry = w.remove(i);
                assert(w@ == old_w.remove(i as int));
                assert forall|a: int, b: int|
                    0 <= a < w@.len() && 0 <= b < w@.len() && a != b implies
                    w@[a].config.id@ != w@[b].config.id@ by {
                    let a0 = if a < i { a } else { a + 1 };
                    let b0 = if b < i { b } else { b + 1 };
                    assert(w@[a] == old_w[a0]);
                    assert(w@[b] == old_w[b0]);
                }
                self.watches = w;
                Ok(entry.handle)
            },
        }
    }

    /// Sets whether the watch with `id` runs. An unknown id is a
    /// `WatchNotFound` error and leaves the engine as it was.
    pub fn set_enabled(&mut self, id: &str, enabled: bool) -> (r: Result<(), OuroboError>)
        ensures
            has_id(old(self)@, id@) ==> (r is Ok && final(self)@ == after_set_enabled(old(self)@, id@, enabled)),
            !has_id(old(self)@, id@) ==> final(self)@ == old(self)@,
            !has_id(old(self)@, id@) ==> (r matches Err(OuroboError::WatchNotFound(m)) && m@ == id@),
            unique_ids(final(self)@),
            final(self).strategy_spec() == old(self).strategy_spec(),
    {
        proof {
            use_type_invariant(&*self);
        }
        match self.find(id) {
            None => Err(OuroboError::WatchNotFound(String::from_str(id))),
            Some(i) => {
                let ghost old_w = self.watches@;
                let mut w: Vec<WatchEntry<H>> = Vec::new();
                std::mem::swap(&mut w, &mut self.watches);
                let mut e = w.remove(i);
                e.config.enabled = enabled;
                e.watching = enabled;
                w.insert(i, e);
                assert forall|k: int| 0 <= k < old_w.len() && k != i implies old_w[k].config.id@ != id@ by {
                    assert(old_w[k].config.id@ != old_w[i as int].config.id@);
                }
                assert(w@ =~= after_set_enabled(old_w, id@, enabled));
                assert forall|a: int, b: int|
                    0 <= a < w@.len() && 0 <= b < w@.len() && a != b implies w@[a].config.id@ != w@[b].config.id@ by {
                    assert(w@[a].config.id@ == old_w[a].config.id@);
                    assert(w@[b].config.id@ == old_w[b].config.id@);
                }
                self.watches = w;
                Ok(())
            },
        }
    }

    /// The watch with `id`: its configuration and what was kept for it. An
    /// unknown id is a `WatchNotFound` error.
    pub fn find_watch(&self, id: &str) -> (r: Result<(&WatchConfig, &H), OuroboError>)
        ensures
            has_id(self@, id@) ==> (r matches Ok((c, h)) && *c == self@[index_of_id(self@, id@)].config
                && *h == self@[index_of_id(self@, id@)].handle),
            !has_id(self@, id@) ==> (r matches Err(OuroboError::WatchNotFound(m)) && m@ == id@),
    {
        proof {
            use_type_invariant(self);
        }
        match self.find(id) {
            None => Err(OuroboError::WatchNotFound(String::from_str(id))),
            Some(i) => {
                proof {
                    let k = index_of_id(self@, id@);
                    assert(0 <= k < self@.len() && self@[k].config.id@ == id@);
                    assert(k == i);
                }
                let e = &self.watches[i];
                Ok((&e.config, &e.handle))
            },
        }
    }

    /// The ids of the registered watches, in registration order.
    pub fn ids(&self) -> (v: Vec<String>)
        ensures
            views(v@) == entry_ids(self@),
    {
        let mut v: Vec<String> = Vec::new();
        let mut i: usize = 0;
        while i < self.watches.len()
            invariant
                i <= self.watches@.len(),
                views(v@) == entry_ids(self.watches@).take(i as int),
            decreases self.watches.len() - i,
        {
            let ghost old_v = v@;
            v.push(self.watches[i].config.id.clone());
            assert(views(v@) =~= views(old_v).push(self.watches@[i as int].config.id@));
            assert(entry_ids(self.watches@).take(i + 1) =~= entry_ids(self.watches@).take(i as int).push(
                self.watches@[i as int].config.id@,
            ));
            i = i + 1;
        }
        assert(entry_ids(self.watches@).take(i as int) =~= entry_ids(self.watches@));
        v
    }

    /// Every registered watch: its configuration and what was kept for it,
    /// in registration order.
    pub fn list_watches(&self) -> (v: Vec<(&WatchConfig, &H, bool)>)
        ensures
            v@.len() == self@.len(),
            forall|i: int|
                0 <= i < v@.len() ==> *v@[i].0 == self@[i].config && *v@[i].1 == self@[i].handle && v@[i].2
                    == self@[i].watching,
    {
        let mut v: Vec<(&WatchConfig, &H, bool)> = Vec::new();
        let mut i: usize = 0;
        while i < self.watches.len()
            invariant
                i <= self.watches@.len(),
                v@.len() == i,
                forall|j: int|
                    0 <= j < i ==> *v@[j].0 == self.watches@[j].config && *v@[j].1 == self.watches@[j].handle
                        && v@[j].2 == self.watches@[j].watching,
            decreases self.watches.len() - i,
        {
            let e = &self.watches[i];
            v.push((&e.config, &e.handle, e.watching));
            i = i + 1;
        }
        v
    }

    /// The number of watches that are watching (not paused): the number of
    /// positions of the registry that hold a watching entry.
    pub fn watching_count(&self) -> (n: usize)
        ensures
            n == watching_count(self@),
            n == watching_positions(self@).len(),
    {
        proof {
            lemma_watching_count_counts_positions(self@);
        }
        let mut n: usize = 0;
        let mut i: usize = 0;
        while i < self.watches.len()
            invariant
                i <= self.watches@.len(),
                n == watching_count(self.watches@.take(i as int)),
                n <= i,
            decreases self.watches.len() - i,
        {
            assert(self.watches@.take(i + 1).drop_last() =~= self.watches@.take(i as int));
            if self.watches[i].watching {
                n = n + 1;
            }
            i = i + 1;
        }
        assert(self.watches@.take(i as int) =~= self.watches@);
        n
    }
}

/// The positions of `s` that hold a watching entry.
pub open spec fn watching_positions<H>(s: Seq<WatchEntry<H>>) -> Set<int> {
    Set::new(|i: int| 0 <= i < s.len() && s[i].watching)
}

/// Appending an entry adds one to the count of watching entries exactly
/// when that entry is watching, whatever came before it.
pub proof fn lemma_watching_count_push<H>(s: Seq<WatchEntry<H>>, e: WatchEntry<H>)
    ensures
        watching_count(s.push(e)) == watching_count(s) + if e.watching { 1int } else { 0int },
{
    assert(s.push(e).drop_last() =~= s);
}

/// The count of watching entries of two registries put together is the sum
/// of their counts; so it does not depend on the order the two come in.
pub proof fn lemma_watching_count_concat<H>(a: Seq<WatchEntry<H>>, b: Seq<WatchEntry<H>>)
    ensures
        watching_count(a + b) == watching_count(a) + watching_count(b),
        watching_count(a + b) == watching_count(b + a),
    decreases b.len(),
{
    if b.len() == 0 {
        assert(a + b =~= a);
        assert(b + a =~= a);
    } else {
        lemma_watching_count_concat(a, b.drop_last());
        assert((a + b).drop_last() =~= a + b.drop_last());
        assert((a + b).last() == b.last());
        lemma_watching_count_concat_left(b, a);
    }
}

proof fn lemma_watching_count_concat_left<H>(b: Seq<WatchEntry<H>>, a: Seq<WatchEntry<H>>)
    ensures
        watching_count(b + a) == watching_count(b) + watching_count(a),
    decreases a.len(),
{
    if a.len() == 0 {
        assert(b + a =~= b);
    } else {
        lemma_watching_count_concat_left(b, a.drop_last());
        assert((b + a).drop_last() =~= b + a.drop_last());
        assert((b + a).last() == a.last());
    }
}

/// The count of watching entries is the number of positions that hold one:
/// every watching entry counts once, wherever it stands, and nothing else
/// counts.
pub proof fn lemma_watching_count_counts_positions<H>(s: Seq<WatchEntry<H>>)
    ensures
        watching_positions(s).finite(),
        watching_count(s) == watching_positions(s).len(),
    decreases s.len(),
{
    if s.len() == 0 {
        assert(watching_positions(s) =~= Set::<int>::empty());
    } else {
        let t = s.drop_last();
        lemma_watching_count_counts_positions(t);
        let n = t.len() as int;
        if s.last().watching {
            assert(watching_positions(s) =~= watching_positions(t).insert(n));
            assert(!watching_positions(t).contains(n));
        } else {
            assert(watching_positions(s) =~= watching_positions(t));
        }
    }
}

/// Adding a watch under a fresh id and then removing that id hands back the
/// same handle and leaves the registry as it was before.
pub proof fn lemma_add_then_remove<H>(s: Seq<WatchEntry<H>>, e: WatchEntry<H>)
    requires
        unique_ids(s),
        !has_id(s, e.config.id@),
    ensures
        has_id(after_add(s, e), e.config.id@),
        after_add(s, e)[index_of_id(after_add(s, e), e.config.id@)] == e,
        after_remove(after_add(s, e), e.config.id@) == s,
{
    let t = s.push(e);
    assert(t[s.len() as int] == e);
    assert(has_id(t, e.config.id@));
    let k = index_of_id(t, e.config.id@);
    assert(0 <= k < t.len() && t[k].config.id@ == e.config.id@);
    if k < s.len() {
        assert(s[k] == t[k]);
        assert(has_id(s, e.config.id@));
    }
    assert(k == s.len());
    assert(t.remove(k) =~= s);
}

/// After adding a watch its id is registered, whether the id was fresh or
/// taken, and the ids stay distinct.
pub proof fn lemma_add_registers<H>(s: Seq<WatchEntry<H>>, e: WatchEntry<H>)
    requires
        unique_ids(s),
    ensures
        has_id(after_add(s, e), e.config.id@),
        unique_ids(after_add(s, e)),
        has_id(s, e.config.id@) ==> after_add(s, e) == s,
        !has_id(s, e.config.id@) ==> after_add(s, e).len() == s.len() + 1,
{
    if !has_id(s, e.config.id@) {
        let t = s.push(e);
        assert(t[s.len() as int] == e);
        assert forall|i: int, j: int| 0 <= i < t.len() && 0 <= j < t.len() && i != j implies
            t[i].config.id@ != t[j].config.id@ by {
            if i == s.len() {
                assert(!(0 <= j < s.len() && s[j].config.id@ == e.config.id@));
                assert(t[j] == s[j]);
            } else if j == s.len() {
                assert(!(0 <= i < s.len() && s[i].config.id@ == e.config.id@));
                assert(t[i] == s[i]);
            } else {
                assert(t[i] == s[i] && t[j] == s[j]);
            }
        }
    }
}

/// After removing an id it is no longer registered, one watch fewer remains
/// when it was, and every other watch is kept.
pub proof fn lemma_remove_unregisters<H>(s: Seq<WatchEntry<H>>, id: Seq<char>)
    requires
        unique_ids(s),
    ensures
        !has_id(after_remove(s, id), id),
        unique_ids(after_remove(s, id)),
        has_id(s, id) ==> after_remove(s, id).len() + 1 == s.len(),
        forall|i: int| 0 <= i < s.len() && s[i].config.id@ != id ==> after_remove(s, id).contains(s[i]),
{
    if has_id(s, id) {
        let k = index_of_id(s, id);
        assert(0 <= k < s.len() && s[k].config.id@ == id);
        let t = s.remove(k);
        assert forall|i: int| 0 <= i < t.len() implies t[i].config.id@ != id by {
            let i0 = if i < k { i } else { i + 1 };
            assert(t[i] == s[i0]);
        }
        assert forall|i: int, j: int| 0 <= i < t.len() && 0 <= j < t.len() && i != j implies
            t[i].config.id@ != t[j].config.id@ by {
            let i0 = if i < k { i } else { i + 1 };
            let j0 = if j < k { j } else { j + 1 };
            assert(t[i] == s[i0] && t[j] == s[j0]);
        }
        assert forall|i: int| 0 <= i < s.len() && s[i].config.id@ != id implies t.contains(s[i]) by {
            let i1 = if i < k { i } else { i - 1 };
            assert(i != k);
            assert(t[i1] == s[i]);
        }
    }
}

/// Enabling or disabling a watch changes nothing but that watch's flag and
/// whether it is watching; the last of two settings wins; and setting the
/// flag back restores a watch that was watching exactly when enabled.
pub proof fn lemma_set_enabled_restores<H>(s: Seq<WatchEntry<H>>, id: Seq<char>, enabled: bool, again: bool)
    requires
        unique_ids(s),
        has_id(s, id),
    ensures
        ({
            let k = index_of_id(s, id);
            let t = after_set_enabled(s, id, enabled);
            &&& entry_ids(t) == entry_ids(s)
            &&& unique_ids(t)
            &&& t[k].config.enabled == enabled && t[k].watching == enabled && t[k].handle == s[k].handle
            &&& forall|i: int| 0 <= i < s.len() && i != k ==> t[i] == s[i]
            &&& after_set_enabled(t, id, again) == after_set_enabled(s, id, again)
            &&& s[k].watching == s[k].config.enabled ==> after_set_enabled(t, id, s[k].config.enabled) == s
        }),
{
    let k = index_of_id(s, id);
    assert(0 <= k < s.len() && s[k].config.id@ == id);
    let t = after_set_enabled(s, id, enabled);
    assert(entry_ids(t) =~= entry_ids(s));
    assert forall|i: int| 0 <= i < s.len() && i != k implies t[i] == s[i] by {
        if s[i].config.id@ == id {
            assert(i == k);
        }
    }
    assert(after_set_enabled(t, id, again) =~= after_set_enabled(s, id, again));
    if s[k].watching == s[k].config.enabled {
        let u = after_set_enabled(t, id, s[k].config.enabled);
        assert forall|i: int| 0 <= i < s.len() implies u[i] == s[i] by {
            if s[i].config.id@ == id {
                assert(i == k);
            }
        }
        assert(u =~= s);
    }
}

/// The counters kept for one watch.
#[derive(Debug, Clone, PartialEq)]
pub struct WatchStats {
    pub files_backed_up: u64,
    pub last_backup: Option<Timestamp>,
    pub last_error: Option<String>,
}

/// The clock's reading, `std::time::SystemTime`, carried through unopened.
#[verifier::external_type_specification]
#[verifier::external_body]
pub struct ExSystemTime(std::time::SystemTime);

/// Calls `std::time::SystemTime::now`. Nothing is claimed of the reading,
/// which is the machine's.
#[verifier::external_body]
fn system_now() -> (t: std::time::SystemTime) {
    std::time::SystemTime::now()
}

/// Calls `std::time::SystemTime::duration_since` with `t` and the Unix epoch,
/// and hands on the distance as whole seconds and nanoseconds: `Ok` when `t`
/// is at or after the epoch, `Err` with the distance back to it when `t` is
/// before. The nanoseconds are below one second, as `Duration::subsec_nanos`
/// documents; nothing else is claimed, `t` being opaque here.
#[verifier::external_body]
fn since_epoch(t: &std::time::SystemTime) -> (r: Result<(u64, u32), (u64, u32)>)
    ensures
        r matches Ok((_, n)) ==> n < 1_000_000_000,
        r matches Err((_, n)) ==> n < 1_000_000_000,
{
    match t.duration_since(std::time::UNIX_EPOCH) {
        Ok(d) => Ok((d.as_secs(), d.subsec_nanos())),
        Err(e) => Err((e.duration().as_secs(), e.duration().subsec_nanos())),
    }
}

/// The instant `t`, in nanoseconds since the Unix epoch.
pub open spec fn instant(t: Timestamp) -> int {
    t.secs * 1_000_000_000 + t.nanos
}

/// The time at `secs` seconds and `nanos` nanoseconds after the epoch (or
/// before it, when `after` is false), with the nanoseconds counted forward
/// from the whole second; a time too far out for 64-bit seconds is clamped
/// to the nearest one that fits.
pub fn timestamp_from(after: bool, secs: u64, nanos: u32) -> (t: Timestamp)
    requires
        nanos < 1_000_000_000,
    ensures
        t.nanos < 1_000_000_000,
        after && secs <= i64::MAX ==> instant(t) == secs * 1_000_000_000 + nanos,
        !after && secs < i64::MAX ==> instant(t) == -(secs * 1_000_000_000 + nanos),
{
    if after {
        if secs <= 9_223_372_036_854_775_807u64 {
            Timestamp { secs: secs as i64, nanos }
        } else {
            Timestamp { secs: i64::MAX, nanos: 999_999_999 }
        }
    } else if secs >= 9_223_372_036_854_775_807u64 {
        Timestamp { secs: i64::MIN, nanos: 0 }
    } else if nanos == 0 {
        Timestamp { secs: -(secs as i64), nanos: 0 }
    } else {
        Timestamp { secs: -(secs as i64) - 1, nanos: 1_000_000_000 - nanos }
    }
}

/// The current time of the system clock.
pub fn current_time() -> (t: Timestamp)
    ensures
        t.nanos < 1_000_000_000,
{
    let now = system_now();
    match since_epoch(&now) {
        Ok((secs, nanos)) => timestamp_from(true, secs, nanos),
        Err((secs, nanos)) => timestamp_from(false, secs, nanos),
    }
}

/// Whether `new` is what `old` becomes after taking note of `outcome` at `now`.
pub open spec fn recorded(old: WatchStats, outcome: Result<BackupResult, OuroboError>, now: Timestamp, new: WatchStats) -> bool {
    match outcome {
        Ok(res) => if res.action is Skipped {
            new == old
        } else {
            new == (WatchStats {
                files_backed_up: if old.files_backed_up == u64::MAX { 0 } else { (old.files_backed_up + 1) as u64 },
                last_backup: Some(now),
                last_error: old.last_error,
            })
        },
        Err(e) => new.files_backed_up == old.files_backed_up && new.last_backup == old.last_backup
            && (new.last_error matches Some(m) && m@ == crate::error::error_text(e)),
    }
}

impl WatchStats {
    /// Fresh counters: nothing backed up, no time, no error.
    pub fn new() -> (s: Self)
        ensures
            s.files_backed_up == 0,
            s.last_backup is None,
            s.last_error is None,
    {
        WatchStats { files_backed_up: 0, last_backup: None, last_error: None }
    }

    /// Takes note of how handling one event went, at time `now`: a copy or a
    /// deletion counts one more file (the counter wraps around) and sets the
    /// time of the last backup; a skipped file changes nothing; a failure is
    /// kept as the last error, as its text.
    pub fn record(&mut self, outcome: &Result<BackupResult, OuroboError>, now: Timestamp)
        ensures
            recorded(*old(self), *outcome, now, *final(self)),
    {
        match outcome {
            Ok(res) => match res.action {
                BackupAction::Copied | BackupAction::Deleted => {
                    self.files_backed_up = if self.files_backed_up == u64::MAX { 0 } else { self.files_backed_up + 1 };
                    self.last_backup = Some(now);
                },
                BackupAction::Skipped { .. } => {},
            },
            Err(e) => {
                self.last_error = Some(e.message());
            },
        }
    }

    /// Settles one delivered event at time `now`: the result is the plan's
    /// error, or what `strategy` makes of the planned operation and the
    /// backend's `outcome`, and the counters take note of that result.
    pub fn settle_at<S: BackupStrategy>(
        &mut self,
        strategy: &S,
        planned: Result<BackendOp, OuroboError>,
        outcome: Result<(), OuroboError>,
        now: Timestamp,
    ) -> (r: Result<BackupResult, OuroboError>)
        ensures
            r == settled(*strategy, planned, outcome),
            recorded(*old(self), r, now, *final(self)),
    {
        let r = match planned {
            Err(e) => Err(e),
            Ok(op) => strategy.finish_event(op, outcome),
        };
        self.record(&r, now);
        r
    }

    /// Settles one delivered event at the current time.
    pub fn settle<S: BackupStrategy>(
        &mut self,
        strategy: &S,
        planned: Result<BackendOp, OuroboError>,
        outcome: Result<(), OuroboError>,
    ) -> (r: Result<BackupResult, OuroboError>)
        ensures
            r == settled(*strategy, planned, outcome),
            exists|now: Timestamp| recorded(*old(self), r, now, *final(self)),
    {
        let now = current_time();
        self.settle_at(strategy, planned, outcome, now)
    }
}

/// The result of a delivered event: the plan's error, or what `strategy`
/// makes of the planned operation and the backend's outcome.
pub open spec fn settled<S: BackupStrategy>(
    strategy: S,
    planned: Result<BackendOp, OuroboError>,
    outcome: Result<(), OuroboError>,
) -> Result<BackupResult, OuroboError> {
    match planned {
        Err(e) => Err(e),
        Ok(op) => strategy.finishes(op, outcome),
    }
}

/// One event for a watch: seen by the watcher, or asked for by hand.
#[derive(Debug, Clone, PartialEq)]
pub struct Delivery {
    pub event: FileEvent,
    pub manual: bool,
}

/// What to do with a delivered event: nothing when the watch is paused (not
/// `watching`) and the event was not asked for by hand; otherwise the
/// strategy's plan for it under `root` with the watch's `exclude` patterns.
pub fn plan_delivery<S: BackupStrategy>(
    strategy: &S,
    watching: bool,
    delivery: &Delivery,
    root: &str,
    exclude: &Vec<String>,
) -> (r: Option<Result<BackendOp, OuroboError>>)
    ensures
        !watching && !delivery.manual ==> r is None,
        watching || delivery.manual ==> (r matches Some(p) && strategy.plans(delivery.event, root@, views(exclude@), p)),
{
    if !watching && !delivery.manual {
        None
    } else {
        Some(strategy.plan_event(&delivery.event, root, exclude))
    }
}

/// Under copy-on-change, an event that is planned as a copy or a deletion
/// and that the backend carries out counts one more backed-up file and sets the time of the last
/// backup; one whose plan or backend operation fails leaves the count and the
/// time alone and keeps the failure's text.
pub proof fn lemma_delivered_event_counted(
    old: WatchStats,
    planned: Result<BackendOp, OuroboError>,
    outcome: Result<(), OuroboError>,
    now: Timestamp,
    new: WatchStats,
)
    requires
        recorded(old, settled(CopyOnChange, planned, outcome), now, new),
    ensures
        (planned matches Ok(op) && !(op is Skip) && outcome is Ok) ==> (new.files_backed_up == (if old.files_backed_up
            == u64::MAX { 0 } else { old.files_backed_up + 1 }) && new.last_backup == Some(now)),
        (planned matches Ok(op) && op is Skip && outcome is Ok) ==> new == old,
        settled(CopyOnChange, planned, outcome) matches Err(e) ==> (new.files_backed_up == old.files_backed_up
            && new.last_backup == old.last_backup && (new.last_error matches Some(m) && m@ == crate::error::error_text(
            e,
        ))),
{
}

} // verus!
