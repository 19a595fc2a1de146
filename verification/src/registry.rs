use vstd::prelude::*;

use crate::peer::{PeerRecord, PeerView};

verus! {

/// A registry snapshot, mathematically: fingerprint to peer record.
pub type Snapshot = Map<Seq<char>, PeerView>;

/// One mutation of the registry.
pub enum RegistryOp {
    Add(PeerView),
    Remove(Seq<char>),
    Clear,
}

/// The effect of one mutation on a snapshot.
pub open spec fn apply_op(m: Snapshot, op: RegistryOp) -> Snapshot {
    match op {
        RegistryOp::Add(p) => m.insert(p.fingerprint, p),
        RegistryOp::Remove(k) => m.remove(k),
        RegistryOp::Clear => Map::empty(),
    }
}

/// The effect of a whole sequence of mutations, applied in order.
pub open spec fn apply_ops(m: Snapshot, ops: Seq<RegistryOp>) -> Snapshot
    decreases ops.len(),
{
    if ops.len() == 0 {
        m
    } else {
        apply_op(apply_ops(m, ops.drop_last()), ops.last())
    }
}

/// The snapshot a sequence of records denotes, later entries overriding
/// earlier ones of the same fingerprint.
pub open spec fn map_of(s: Seq<PeerRecord>) -> Snapshot
    decreases s.len(),
{
    if s.len() == 0 {
        Map::empty()
    } else {
        map_of(s.drop_last()).insert(s.last().fingerprint@, s.last()@)
    }
}

/// No two entries share a fingerprint.
pub open spec fn unique_fingerprints(s: Seq<PeerRecord>) -> bool {
    forall|i: int, j: int| 0 <= i < j < s.len() ==> s[i].fingerprint@ != s[j].fingerprint@
}

proof fn lemma_map_of_contains(s: Seq<PeerRecord>, k: Seq<char>)
    ensures
        map_of(s).contains_key(k) <==> (exists|i: int|
            0 <= i < s.len() && s[i].fingerprint@ == k),
    decreases s.len(),
{
    if s.len() == 0 {
    } else {
        let dl = s.drop_last();
        lemma_map_of_contains(dl, k);
        if s.last().fingerprint@ == k {
            assert(s[s.len() - 1].fingerprint@ == k);
        } else if map_of(dl).contains_key(k) {
            let i = choose|i: int| 0 <= i < dl.len() && dl[i].fingerprint@ == k;
            assert(s[i].fingerprint@ == k);
        } else {
            assert forall|i: int| 0 <= i < s.len() implies s[i].fingerprint@ != k by {
                if i < s.len() - 1 {
                    assert(dl[i] == s[i]);
                }
            }
        }
    }
}

proof fn lemma_unique_drop_last(s: Seq<PeerRecord>)
    requires
        unique_fingerprints(s),
        s.len() > 0,
    ensures
        unique_fingerprints(s.drop_last()),
{
    let dl = s.drop_last();
    assert forall|i: int, j: int| 0 <= i < j < dl.len() implies dl[i].fingerprint@
        != dl[j].fingerprint@ by {
        assert(dl[i] == s[i]);
        assert(dl[j] == s[j]);
    }
}

proof fn lemma_map_of_index(s: Seq<PeerRecord>, i: int)
    requires
        unique_fingerprints(s),
        0 <= i < s.len(),
    ensures
        map_of(s).contains_key(s[i].fingerprint@),
        map_of(s)[s[i].fingerprint@] == s[i]@,
    decreases s.len(),
{
    let dl = s.drop_last();
    if i == s.len() - 1 {
    } else {
        lemma_unique_drop_last(s);
        lemma_map_of_index(dl, i);
        assert(dl[i] == s[i]);
        assert(s[i].fingerprint@ != s.last().fingerprint@);
    }
}

proof fn lemma_map_of_absent(s: Seq<PeerRecord>, k: Seq<char>)
    requires
        forall|i: int| 0 <= i < s.len() ==> s[i].fingerprint@ != k,
    ensures
        !map_of(s).contains_key(k),
{
    lemma_map_of_contains(s, k);
}

proof fn lemma_map_of_push(s: Seq<PeerRecord>, r: PeerRecord)
    ensures
        map_of(s.push(r)) == map_of(s).insert(r.fingerprint@, r@),
{
    assert(s.push(r).drop_last() =~= s);
    assert(s.push(r).last() == r);
}

proof fn lemma_map_of_remove(s: Seq<PeerRecord>, i: int)
    requires
        unique_fingerprints(s),
        0 <= i < s.len(),
    ensures
        map_of(s.remove(i)) == map_of(s).remove(s[i].fingerprint@),
    decreases s.len(),
{
    let k = s[i].fingerprint@;
    let dl = s.drop_last();
    if i == s.len() - 1 {
        assert(s.remove(i) =~= dl);
        assert forall|j: int| 0 <= j < dl.len() implies dl[j].fingerprint@ != k by {
            assert(dl[j] == s[j]);
        }
        lemma_map_of_absent(dl, k);
        assert(map_of(s).remove(k) =~= map_of(dl));
    } else {
        lemma_unique_drop_last(s);
        lemma_map_of_remove(dl, i);
        let t = s.remove(i);
        assert(t.len() == s.len() - 1);
        assert(t.last() == s.last());
        assert(t.drop_last() =~= dl.remove(i));
        assert(k != s.last().fingerprint@);
        assert(map_of(t) == map_of(dl.remove(i)).insert(s.last().fingerprint@, s.last()@));
        assert(map_of(dl).remove(k).insert(s.last().fingerprint@, s.last()@) =~= map_of(
            dl,
        ).insert(s.last().fingerprint@, s.last()@).remove(k));
    }
}

proof fn lemma_unique_remove(s: Seq<PeerRecord>, i: int)
    requires
        unique_fingerprints(s),
        0 <= i < s.len(),
    ensures
        unique_fingerprints(s.remove(i)),
        forall|j: int|
            0 <= j < s.remove(i).len() ==> s.remove(i)[j].fingerprint@ != s[i].fingerprint@,
{
    let t = s.remove(i);
    assert forall|a: int, b: int| 0 <= a < b < t.len() implies t[a].fingerprint@
        != t[b].fingerprint@ by {
        let sa = if a < i { a } else { a + 1 };
        let sb = if b < i { b } else { b + 1 };
        assert(t[a] == s[sa]);
        assert(t[b] == s[sb]);
    }
    assert forall|j: int| 0 <= j < t.len() implies t[j].fingerprint@ != s[i].fingerprint@ by {
        let sj = if j < i { j } else { j + 1 };
        assert(t[j] == s[sj]);
    }
}

#[verifier::external_type_specification]
#[verifier::external_body]
#[verifier::reject_recursive_types(T)]
pub struct ExWatchSender<T>(tokio::sync::watch::Sender<T>);

#[verifier::external_type_specification]
#[verifier::external_body]
#[verifier::reject_recursive_types(T)]
pub struct ExWatchReceiver<T>(tokio::sync::watch::Receiver<T>);

/// Relies on tokio's watch::channel: a single-producer broadcast cell whose
/// receivers always observe the latest value sent; it starts out holding the
/// given initial value.
#[verifier::external_body]
fn new_snapshot_channel(initial: Vec<PeerRecord>) -> (r: (
    tokio::sync::watch::Sender<Vec<PeerRecord>>,
    tokio::sync::watch::Receiver<Vec<PeerRecord>>,
))
{
    tokio::sync::watch::channel(initial)
}

/// Relies on tokio's watch::Sender::send: replaces the channel's value and
/// wakes every receiver. Publishing is fire-and-forget: a send with no
/// receiver left reports an error, which is deliberately dropped.
#[verifier::external_body]
fn publish_snapshot(
    sender: &tokio::sync::watch::Sender<Vec<PeerRecord>>,
    snapshot: Vec<PeerRecord>,
)
{
    let _ = sender.send(snapshot);
}

/// The thread-safe peer registry: a fingerprint-keyed record store that
/// publishes a full snapshot to a broadcast channel on every mutation.
///
/// Two ghost histories accompany the data: the log of mutations applied so
/// far, and the sequence of snapshots published, one per mutation plus the
/// initial empty one. Well-formedness ties the store to the fold of its log
/// and each published snapshot to the log prefix it followed.
pub struct Registry {
    nodes: Vec<PeerRecord>,
    sender: tokio::sync::watch::Sender<Vec<PeerRecord>>,
    // Held for the registry's whole life so the channel never closes: a
    // publish with no listener attached must be dropped silently, not lost to
    // later listeners.
    receiver: tokio::sync::watch::Receiver<Vec<PeerRecord>>,
    history: Ghost<Seq<RegistryOp>>,
    publishes: Ghost<Seq<Snapshot>>,
}

impl View for Registry {
    type V = Snapshot;

    closed spec fn view(&self) -> Snapshot {
        map_of(self.nodes@)
    }
}

impl Registry {
    /// The mutations applied since creation, in order.
    pub closed spec fn log(&self) -> Seq<RegistryOp> {
        self.history@
    }

    /// The snapshots handed to the broadcast channel, in publish order; the
    /// first is the initial empty snapshot the channel was created with.
    pub closed spec fn published(&self) -> Seq<Snapshot> {
        self.publishes@
    }

    pub closed spec fn wf(&self) -> bool {
        &&& unique_fingerprints(self.nodes@)
        &&& self@ == apply_ops(Map::empty(), self.history@)
        &&& self.publishes@.len() == self.history@.len() + 1
        &&& forall|i: int|
            0 <= i <= self.history@.len() ==> self.publishes@[i] == apply_ops(
                Map::empty(),
                self.history@.take(i),
            )
    }

    /// A fresh, empty registry with its own snapshot channel.
    pub fn new() -> (r: Registry)
        ensures
            r.wf(),
            r@ == Map::<Seq<char>, PeerView>::empty(),
            r.log() == Seq::<RegistryOp>::empty(),
            r.published() == seq![Map::<Seq<char>, PeerView>::empty()],
    {
        let (sender, receiver) = new_snapshot_channel(Vec::new());
        let r = Registry {
            nodes: Vec::new(),
            sender,
            receiver,
            history: Ghost(Seq::empty()),
            publishes: Ghost(Seq::empty().push(Map::empty())),
        };
        proof {
            assert(r.publishes@[0] == apply_ops(Map::empty(), r.history@.take(0)));
        }
        r
    }

    fn find_index(&self, fingerprint: &String) -> (r: Option<usize>)
        ensures
            match r {
                Some(i) => i < self.nodes@.len() && self.nodes@[i as int].fingerprint@
                    == fingerprint@,
                None => forall|j: int|
                    0 <= j < self.nodes@.len() ==> self.nodes@[j].fingerprint@ != fingerprint@,
            },
    {
        let mut i: usize = 0;
        while i < self.nodes.len()
            invariant
                i <= self.nodes@.len(),
                forall|j: int| 0 <= j < i ==> self.nodes@[j].fingerprint@ != fingerprint@,
            decreases self.nodes@.len() - i,
        {
            if self.nodes[i].fingerprint == *fingerprint {
                return Some(i);
            }
            i = i + 1;
        }
        None
    }

    fn clone_nodes(&self) -> (r: Vec<PeerRecord>)
        ensures
            r@ == self.nodes@,
    {
        let mut out: Vec<PeerRecord> = Vec::new();
        let mut i: usize = 0;
        while i < self.nodes.len()
            invariant
                i <= self.nodes@.len(),
                out@ == self.nodes@.take(i as int),
            decreases self.nodes@.len() - i,
        {
            out.push(self.nodes[i].clone());
            proof {
                assert(out@ =~= self.nodes@.take(i + 1));
            }
            i = i + 1;
        }
        proof {
            assert(self.nodes@.take(self.nodes@.len() as int) =~= self.nodes@);
        }
        out
    }

    /// Upsert by fingerprint: the latest record for a fingerprint replaces
    /// any earlier one. Publishes the new snapshot.
    pub fn add_node(&mut self, node: PeerRecord)
        requires
            old(self).wf(),
        ensures
            final(self).wf(),
            final(self)@ == old(self)@.insert(node@.fingerprint, node@),
            final(self).log() == old(self).log().push(RegistryOp::Add(node@)),
            final(self).published() == old(self).published().push(final(self)@),
    {
        let ghost s0 = self.nodes@;
        let ghost k = node@.fingerprint;
        match self.find_index(&node.fingerprint) {
            Some(i) => {
                proof {
                    lemma_map_of_remove(s0, i as int);
                    lemma_unique_remove(s0, i as int);
                }
                self.nodes.remove(i);
            },
            None => {},
        }
        let ghost s1 = self.nodes@;
        proof {
            lemma_map_of_push(s1, node);
            assert(map_of(s1.push(node)) =~= map_of(s0).insert(k, node@));
            assert forall|a: int, b: int| 0 <= a < b < s1.push(node).len() implies s1.push(node)[a].fingerprint@
                != s1.push(node)[b].fingerprint@ by {
                if b < s1.len() as int {
                    assert(s1.push(node)[a] == s1[a]);
                    assert(s1.push(node)[b] == s1[b]);
                } else {
                    assert(s1.push(node)[a] == s1[a]);
                    assert(s1[a].fingerprint@ != k);
                }
            }
        }
        self.nodes.push(node);
        self.step_publish(Ghost(RegistryOp::Add(node@)));
    }

    /// Delete by fingerprint if present; removing an absent fingerprint
    /// changes nothing. Either way the (possibly unchanged) snapshot is
    /// published.
    pub fn remove_node(&mut self, fingerprint: &String)
        requires
            old(self).wf(),
        ensures
            final(self).wf(),
            final(self)@ == old(self)@.remove(fingerprint@),
            final(self).log() == old(self).log().push(RegistryOp::Remove(fingerprint@)),
            final(self).published() == old(self).published().push(final(self)@),
    {
        let ghost s0 = self.nodes@;
        match self.find_index(fingerprint) {
            Some(i) => {
                proof {
                    lemma_map_of_remove(s0, i as int);
                    lemma_unique_remove(s0, i as int);
                }
                self.nodes.remove(i);
            },
            None => {
                proof {
                    lemma_map_of_absent(s0, fingerprint@);
                    assert(map_of(s0).remove(fingerprint@) =~= map_of(s0));
                }
            },
        }
        self.step_publish(Ghost(RegistryOp::Remove(fingerprint@)));
    }

    /// Empty the registry and publish the empty snapshot.
    pub fn clear_nodes(&mut self)
        requires
            old(self).wf(),
        ensures
            final(self).wf(),
            final(self)@ == Map::<Seq<char>, PeerView>::empty(),
            final(self).log() == old(self).log().push(RegistryOp::Clear),
            final(self).published() == old(self).published().push(final(self)@),
    {
        self.nodes.clear();
        self.step_publish(Ghost(RegistryOp::Clear));
    }

    /// Record the mutation just applied to `nodes` in the ghost histories and
    /// publish the resulting snapshot on the channel.
    fn step_publish(&mut self, op: Ghost<RegistryOp>)
        requires
            unique_fingerprints(old(self).nodes@),
            map_of(old(self).nodes@) == apply_op(
                apply_ops(Map::empty(), old(self).history@),
                op@,
            ),
            old(self).publishes@.len() == old(self).history@.len() + 1,
            forall|i: int|
                0 <= i <= old(self).history@.len() ==> old(self).publishes@[i] == apply_ops(
                    Map::empty(),
                    old(self).history@.take(i),
                ),
        ensures
            final(self).wf(),
            final(self)@ == old(self)@,
            final(self).nodes@ == old(self).nodes@,
            final(self).log() == old(self).history@.push(op@),
            final(self).published() == old(self).publishes@.push(final(self)@),
    {
        let ghost h0 = self.history@;
        self.history = Ghost(self.history@.push(op@));
        self.publishes = Ghost(self.publishes@.push(map_of(self.nodes@)));
        proof {
            assert(h0.push(op@).drop_last() =~= h0);
            assert forall|i: int| 0 <= i <= self.history@.len() implies self.publishes@[i]
                == apply_ops(Map::empty(), self.history@.take(i)) by {
                if i <= h0.len() {
                    assert(self.history@.take(i) =~= h0.take(i));
                } else {
                    assert(self.history@.take(i) =~= self.history@);
                }
            }
        }
        let snapshot = self.clone_nodes();
        publish_snapshot(&self.sender, snapshot);
    }

    /// Point lookup by fingerprint; no side effect.
    pub fn get_node(&self, fingerprint: &String) -> (r: Option<PeerRecord>)
        requires
            self.wf(),
        ensures
            match r {
                Some(p) => self@.contains_key(fingerprint@) && p@ == self@[fingerprint@],
                None => !self@.contains_key(fingerprint@),
            },
    {
        match self.find_index(fingerprint) {
            Some(i) => {
                proof {
                    lemma_map_of_index(self.nodes@, i as int);
                }
                Some(self.nodes[i].clone())
            },
            None => {
                proof {
                    lemma_map_of_absent(self.nodes@, fingerprint@);
                }
                None
            },
        }
    }

    /// A full copy of the registry's contents; no side effect. The order of
    /// the returned records is immaterial: their fingerprints are unique and
    /// together they denote exactly the current snapshot.
    pub fn get_nodes(&self) -> (r: Vec<PeerRecord>)
        requires
            self.wf(),
        ensures
            map_of(r@) == self@,
            unique_fingerprints(r@),
            r@.len() == self@.dom().len(),
    {
        proof {
            lemma_map_of_len(self.nodes@);
        }
        self.clone_nodes()
    }

    /// Relies on tokio's watch::Sender::subscribe: a fresh subscription
    /// handle on the registry's snapshot channel, with the snapshot current
    /// at attachment marked as its first, already-available value. Each later
    /// publish marks the handle changed, and borrowing always yields the
    /// latest published snapshot — a slow listener may skip intermediate
    /// snapshots but never observes a torn or stale one.
    #[verifier::external_body]
    pub fn get_node_listener(&self) -> tokio::sync::watch::Receiver<Vec<PeerRecord>> {
        self.sender.subscribe()
    }
}

proof fn lemma_map_of_len(s: Seq<PeerRecord>)
    requires
        unique_fingerprints(s),
    ensures
        map_of(s).dom().len() == s.len(),
        map_of(s).dom().finite(),
    decreases s.len(),
{
    if s.len() == 0 {
        assert(map_of(s).dom() =~= Set::<Seq<char>>::empty());
    } else {
        let dl = s.drop_last();
        lemma_unique_drop_last(s);
        lemma_map_of_len(dl);
        assert forall|j: int| 0 <= j < dl.len() implies dl[j].fingerprint@
            != s.last().fingerprint@ by {
            assert(dl[j] == s[j]);
        }
        lemma_map_of_absent(dl, s.last().fingerprint@);
        vstd::set::axiom_set_insert_len(map_of(dl).dom(), s.last().fingerprint@);
        assert(map_of(s).dom() =~= map_of(dl).dom().insert(s.last().fingerprint@));
    }
}

/// The registry always equals the direct application, to an initially empty
/// mapping, of the very sequence of mutations it has performed: the model and
/// the store cannot diverge.
pub proof fn lemma_registry_matches_model(r: &Registry)
    requires
        r.wf(),
    ensures
        r@ == apply_ops(Map::empty(), r.log()),
{
}

/// One snapshot is published per mutation, in mutation order: publish `i + 1`
/// is the model state after the first `i + 1` mutations, publish `0` is the
/// initial empty snapshot, and the latest publish is the current state — so a
/// listener attached at any point starts from the snapshot current at
/// attachment.
pub proof fn lemma_publish_history(r: &Registry)
    requires
        r.wf(),
    ensures
        r.published().len() == r.log().len() + 1,
        forall|i: int|
            0 <= i <= r.log().len() ==> r.published()[i] == apply_ops(
                Map::empty(),
                r.log().take(i),
            ),
        r.published().last() == r@,
{
    assert(r.log().take(r.log().len() as int) =~= r.log());
}

/// Removing an absent fingerprint is a no-op on the snapshot; paired with
/// `remove_node`'s contract, which appends a publish unconditionally, the
/// mutation still publishes.
pub proof fn lemma_remove_absent_is_noop(m: Snapshot, k: Seq<char>)
    requires
        !m.contains_key(k),
    ensures
        apply_op(m, RegistryOp::Remove(k)) == m,
{
    assert(m.remove(k) =~= m);
}

} // verus!
