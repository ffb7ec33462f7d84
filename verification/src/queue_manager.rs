//! The participant queue: who is waiting, under which role, in which order.
//!
//! The queue is modelled as a sequence of [`Entry`] values. Two rules hold of
//! every queue: no identity occurs twice, and every privileged entry stands
//! before every default one. Within a role the order is the order of joining.
//!
//! A queue is changed through `&mut self` and read through `&self` only, so
//! no two operations on it overlap. A caller that shares a queue between
//! tasks keeps it behind a lock and takes the lock for one operation at a
//! time; each operation here is then one atomic step, and a snapshot is a
//! copy that later joins do not touch.

use vstd::prelude::*;
use vstd::string::StringExecFns;
use crate::text::{opt_text, texts};

verus! {

/// The role under which a participant joins.
#[derive(Debug, Clone, Copy, PartialEq, Eq)]
pub enum UserType {
    /// An ordinary viewer: served first come, first served.
    Default,
    /// A supporter: placed after the privileged entries already waiting and
    /// before every default one.
    Privileged,
}

/// Why a queue operation was refused.
#[derive(Debug, Clone, Copy, PartialEq, Eq)]
pub enum QueueError {
    /// The identity is already waiting in the queue.
    AlreadyQueued,
    /// The identity is not in the queue.
    NotQueued,
}

/// One queue entry as contracts see it.
pub struct Entry {
    pub identity: Seq<char>,
    pub role: UserType,
}

/// A queued user and the role they joined under.
#[derive(Debug, Clone, PartialEq, Eq)]
pub struct Participant {
    pub identity: String,
    pub role: UserType,
}

impl View for Participant {
    type V = Entry;

    open spec fn view(&self) -> Entry {
        Entry { identity: self.identity@, role: self.role }
    }
}

/// The entries that a sequence of participants holds, in order.
pub open spec fn entries_of(v: Seq<Participant>) -> Seq<Entry> {
    Seq::new(v.len(), |i: int| v[i]@)
}

/// Whether `identity` has an entry in `q`.
pub open spec fn is_queued(q: Seq<Entry>, identity: Seq<char>) -> bool {
    exists|i: int| 0 <= i < q.len() && (#[trigger] q[i]).identity == identity
}

/// Whether `identity` has exactly one entry in `q`.
pub open spec fn queued_once(q: Seq<Entry>, identity: Seq<char>) -> bool {
    exists|i: int|
        0 <= i < q.len() && (#[trigger] q[i]).identity == identity && forall|j: int|
            0 <= j < q.len() && (#[trigger] q[j]).identity == identity ==> j == i
}

/// No identity has two entries.
pub open spec fn no_duplicates(q: Seq<Entry>) -> bool {
    forall|i: int, j: int|
        0 <= i < j < q.len() ==> (#[trigger] q[i]).identity != (#[trigger] q[j]).identity
}

/// Every privileged entry stands before every default one.
pub open spec fn privileged_first(q: Seq<Entry>) -> bool {
    forall|i: int, j: int|
        0 <= i < j < q.len() && (#[trigger] q[j]).role is Privileged ==> (
        #[trigger] q[i]).role is Privileged
}

/// The two rules every queue obeys.
pub open spec fn queue_wf(q: Seq<Entry>) -> bool {
    no_duplicates(q) && privileged_first(q)
}

/// The index of the first default entry of `q`, or its length if it has none.
pub open spec fn first_default(q: Seq<Entry>) -> int
    decreases q.len(),
{
    if q.len() == 0 || q[0].role is Default {
        0
    } else {
        1 + first_default(q.drop_first())
    }
}

/// Where a newcomer of the given role is placed: a default one at the end, a
/// privileged one in front of the first default entry.
pub open spec fn insertion_point(q: Seq<Entry>, role: UserType) -> int {
    match role {
        UserType::Default => q.len() as int,
        UserType::Privileged => first_default(q),
    }
}

/// The queue after `identity` has joined it under `role`.
pub open spec fn joined(q: Seq<Entry>, identity: Seq<char>, role: UserType) -> Seq<Entry> {
    q.insert(insertion_point(q, role), Entry { identity, role })
}

/// What a join does: the queue it leaves and the answer it gives.
pub open spec fn join_spec(q: Seq<Entry>, identity: Seq<char>, role: UserType) -> (
    Seq<Entry>,
    Result<(), QueueError>,
) {
    if is_queued(q, identity) {
        (q, Err(QueueError::AlreadyQueued))
    } else {
        (joined(q, identity, role), Ok(()))
    }
}

/// The index of the entry of `identity`, where it has one.
pub open spec fn index_of(q: Seq<Entry>, identity: Seq<char>) -> int {
    choose|i: int| 0 <= i < q.len() && (#[trigger] q[i]).identity == identity
}

/// What a leave does: the queue it leaves and the answer it gives.
pub open spec fn leave_spec(q: Seq<Entry>, identity: Seq<char>) -> (
    Seq<Entry>,
    Result<(), QueueError>,
) {
    if is_queued(q, identity) {
        (q.remove(index_of(q, identity)), Ok(()))
    } else {
        (q, Err(QueueError::NotQueued))
    }
}

/// The identities of `q`, front first.
pub open spec fn identities(q: Seq<Entry>) -> Seq<Seq<char>> {
    Seq::new(q.len(), |i: int| q[i].identity)
}

/// What serving the head of the queue does: the queue it leaves and the
/// identity it hands out.
pub open spec fn next_spec(q: Seq<Entry>) -> (Seq<Entry>, Option<Seq<char>>) {
    if q.len() == 0 {
        (q, None)
    } else {
        (q.drop_first(), Some(q[0].identity))
    }
}

/// `first_default` is the one index with only privileged entries before it
/// and a default entry, or the end, at it.
pub proof fn lemma_first_default(q: Seq<Entry>)
    ensures
        0 <= first_default(q) <= q.len(),
        forall|i: int| 0 <= i < first_default(q) ==> (#[trigger] q[i]).role is Privileged,
        first_default(q) < q.len() ==> q[first_default(q)].role is Default,
    decreases q.len(),
{
    if q.len() == 0 || q[0].role is Default {
    } else {
        let rest = q.drop_first();
        lemma_first_default(rest);
        assert forall|i: int| 0 <= i < first_default(q) implies (#[trigger] q[i]).role
            is Privileged by {
            if i > 0 {
                assert(q[i] == rest[i - 1]);
            }
        }
    }
}

/// Any index with only privileged entries before it and a default entry, or
/// the end, at it is `first_default`.
pub proof fn lemma_first_default_unique(q: Seq<Entry>, k: int)
    requires
        0 <= k <= q.len(),
        forall|i: int| 0 <= i < k ==> (#[trigger] q[i]).role is Privileged,
        k == q.len() || q[k].role is Default,
    ensures
        k == first_default(q),
{
    lemma_first_default(q);
}

/// Joining keeps the two rules of the queue.
pub proof fn lemma_joined_wf(q: Seq<Entry>, identity: Seq<char>, role: UserType)
    requires
        queue_wf(q),
        !is_queued(q, identity),
    ensures
        queue_wf(joined(q, identity, role)),
        is_queued(joined(q, identity, role), identity),
{
    lemma_first_default(q);
    assert(joined(q, identity, role)[insertion_point(q, role)] == Entry { identity, role });
}

/// Taking an entry out keeps the two rules of the queue, and the identity
/// that left is no longer queued.
pub proof fn lemma_removed_wf(q: Seq<Entry>, k: int)
    requires
        queue_wf(q),
        0 <= k < q.len(),
    ensures
        queue_wf(q.remove(k)),
        !is_queued(q.remove(k), q[k].identity),
{
}

/// In a queue without duplicates an identity is found at one index only.
pub proof fn lemma_index_of(q: Seq<Entry>, k: int)
    requires
        no_duplicates(q),
        0 <= k < q.len(),
    ensures
        is_queued(q, q[k].identity),
        index_of(q, q[k].identity) == k,
{
}

/// A join places the newcomer and moves nobody else: without the newcomer
/// the queue is as it was. A default newcomer stands at the end.
pub proof fn lemma_join_is_stable(q: Seq<Entry>, identity: Seq<char>, role: UserType)
    ensures
        0 <= insertion_point(q, role) <= q.len(),
        joined(q, identity, role)[insertion_point(q, role)] == (Entry { identity, role }),
        joined(q, identity, role).remove(insertion_point(q, role)) == q,
        joined(q, identity, UserType::Default) == q.push(
            Entry { identity, role: UserType::Default },
        ),
{
    lemma_first_default(q);
    assert(joined(q, identity, UserType::Default) =~= q.push(
        Entry { identity, role: UserType::Default },
    ));
}

/// In a queue without duplicates every entry's identity stands exactly once.
pub proof fn lemma_queued_once(q: Seq<Entry>, k: int)
    requires
        no_duplicates(q),
        0 <= k < q.len(),
    ensures
        queued_once(q, q[k].identity),
{
}

/// Joining twice under one identity that was not queued: the first join is
/// accepted, the second is refused as already queued and changes nothing,
/// and the identity then stands in the queue exactly once.
pub proof fn lemma_second_join_is_refused(
    q: Seq<Entry>,
    identity: Seq<char>,
    first: UserType,
    second: UserType,
)
    requires
        queue_wf(q),
        !is_queued(q, identity),
    ensures
        join_spec(q, identity, first).1 is Ok,
        join_spec(join_spec(q, identity, first).0, identity, second) == (
            join_spec(q, identity, first).0,
            Err::<(), QueueError>(QueueError::AlreadyQueued),
        ),
        queued_once(join_spec(q, identity, first).0, identity),
{
    lemma_joined_wf(q, identity, first);
    lemma_join_is_stable(q, identity, first);
    lemma_queued_once(joined(q, identity, first), insertion_point(q, first));
}

/// Three default participants who join one after the other stand at the end
/// of the queue in the order they came; in an empty queue they are the
/// whole of it.
pub proof fn lemma_default_joins_keep_arrival_order(
    q: Seq<Entry>,
    a: Seq<char>,
    b: Seq<char>,
    c: Seq<char>,
)
    requires
        queue_wf(q),
        !is_queued(q, a),
        !is_queued(q, b),
        !is_queued(q, c),
        a != b,
        a != c,
        b != c,
    ensures
        ({
            let q1 = join_spec(q, a, UserType::Default);
            let q2 = join_spec(q1.0, b, UserType::Default);
            let q3 = join_spec(q2.0, c, UserType::Default);
            &&& q1.1 is Ok
            &&& q2.1 is Ok
            &&& q3.1 is Ok
            &&& identities(q3.0) == identities(q) + seq![a, b, c]
        }),
{
    let q1 = joined(q, a, UserType::Default);
    let q2 = joined(q1, b, UserType::Default);
    lemma_join_is_stable(q, a, UserType::Default);
    lemma_join_is_stable(q1, b, UserType::Default);
    lemma_join_is_stable(q2, c, UserType::Default);
}

/// The queue of waiting participants.
///
/// Every queue obeys [`queue_wf`]; the operations below are the only way to
/// change one.
#[derive(Debug)]
pub struct QueueManager {
    entries: Vec<Participant>,
}

impl View for QueueManager {
    type V = Seq<Entry>;

    closed spec fn view(&self) -> Seq<Entry> {
        entries_of(self.entries@)
    }
}

impl QueueManager {
    #[verifier::type_invariant]
    spec fn well_formed(self) -> bool {
        queue_wf(self@)
    }

    /// Shows to a caller's proof that the two rules hold of this queue. It
    /// does nothing when run.
    pub fn rules_hold(&self)
        ensures
            queue_wf(self@),
    {
        proof {
            use_type_invariant(self);
        }
    }

    /// An empty queue.
    pub fn new() -> (q: QueueManager)
        ensures
            q@ == Seq::<Entry>::empty(),
    {
        QueueManager { entries: Vec::new() }
    }

    /// The number of waiting participants.
    pub fn len(&self) -> (n: usize)
        ensures
            n == self@.len(),
    {
        self.entries.len()
    }

    /// The index of the entry of `identity`, counted from the front, if it
    /// has one.
    pub fn position(&self, identity: &str) -> (r: Option<usize>)
        ensures
            match r {
                Some(i) => {
                    &&& is_queued(self@, identity@)
                    &&& i == index_of(self@, identity@)
                    &&& i < self@.len()
                    &&& self@[i as int].identity == identity@
                },
                None => !is_queued(self@, identity@),
            },
    {
        proof {
            use_type_invariant(self);
        }
        let wanted = String::from_str(identity);
        let mut i: usize = 0;
        while i < self.entries.len()
            invariant
                i <= self.entries@.len(),
                wanted@ == identity@,
                no_duplicates(self@),
                forall|j: int| 0 <= j < i ==> (#[trigger] self@[j]).identity != identity@,
            decreases self.entries@.len() - i,
        {
            if self.entries[i].identity == wanted {
                proof {
                    lemma_index_of(self@, i as int);
                }
                return Some(i);
            }
            i = i + 1;
        }
        None
    }

    /// Adds `identity` under `role`, unless it is already waiting.
    ///
    /// A default participant goes to the end; a privileged one goes in front
    /// of the first default entry, behind the privileged ones already there.
    pub fn join(&mut self, identity: String, role: UserType) -> (r: Result<(), QueueError>)
        ensures
            (final(self)@, r) == join_spec(old(self)@, identity@, role),
            queue_wf(final(self)@),
    {
        proof {
            use_type_invariant(&*self);
        }
        if self.position(identity.as_str()).is_some() {
            return Err(QueueError::AlreadyQueued);
        }
        let at = match role {
            UserType::Default => self.entries.len(),
            UserType::Privileged => self.first_default_index(),
        };
        proof {
            lemma_first_default(self@);
            lemma_joined_wf(self@, identity@, role);
        }
        let ghost before = self@;
        let mut entries: Vec<Participant> = Vec::new();
        std::mem::swap(&mut self.entries, &mut entries);
        entries.insert(at, Participant { identity, role });
        assert(entries_of(entries@) =~= joined(before, identity@, role));
        self.entries = entries;
        Ok(())
    }

    /// Whether nobody is waiting.
    pub fn is_empty(&self) -> (b: bool)
        ensures
            b == (self@.len() == 0),
    {
        self.entries.len() == 0
    }

    /// Whether `identity` is waiting.
    pub fn contains(&self, identity: &str) -> (b: bool)
        ensures
            b == is_queued(self@, identity@),
    {
        self.position(identity).is_some()
    }

    /// The identities that are waiting, front first: a copy taken at one
    /// point in time, which later joins do not change.
    pub fn queue(&self) -> (names: Vec<String>)
        ensures
            texts(names@) == identities(self@),
    {
        let mut names: Vec<String> = Vec::new();
        let mut i: usize = 0;
        while i < self.entries.len()
            invariant
                i <= self.entries@.len(),
                names@.len() == i,
                forall|j: int| 0 <= j < i ==> (#[trigger] names@[j])@ == self@[j].identity,
            decreases self.entries@.len() - i,
        {
            names.push(self.entries[i].identity.clone());
            i = i + 1;
        }
        names
    }

    /// The waiting participants with their roles, front first: a copy taken
    /// at one point in time.
    pub fn participants(&self) -> (list: Vec<Participant>)
        ensures
            entries_of(list@) == self@,
    {
        let mut list: Vec<Participant> = Vec::new();
        let mut i: usize = 0;
        while i < self.entries.len()
            invariant
                i <= self.entries@.len(),
                list@.len() == i,
                forall|j: int| 0 <= j < i ==> (#[trigger] list@[j])@ == self@[j],
            decreases self.entries@.len() - i,
        {
            let entry = &self.entries[i];
            list.push(Participant { identity: entry.identity.clone(), role: entry.role });
            i = i + 1;
        }
        assert(entries_of(list@) =~= self@);
        list
    }

    /// Takes `identity` out of the queue, wherever it stands.
    pub fn leave(&mut self, identity: &str) -> (r: Result<(), QueueError>)
        ensures
            (final(self)@, r) == leave_spec(old(self)@, identity@),
            queue_wf(final(self)@),
    {
        proof {
            use_type_invariant(&*self);
        }
        match self.position(identity) {
            None => Err(QueueError::NotQueued),
            Some(at) => {
                proof {
                    lemma_index_of(self@, at as int);
                    lemma_removed_wf(self@, at as int);
                }
                let ghost before = self@;
                let mut entries: Vec<Participant> = Vec::new();
                std::mem::swap(&mut self.entries, &mut entries);
                let _gone = entries.remove(at);
                assert(entries_of(entries@) =~= before.remove(
                    at as int,
                ));
                self.entries = entries;
                Ok(())
            },
        }
    }

    /// Serves the participant at the front: takes them out of the queue and
    /// hands out their identity.
    pub fn next(&mut self) -> (r: Option<String>)
        ensures
            (final(self)@, opt_text(r)) == next_spec(old(self)@),
            queue_wf(final(self)@),
    {
        proof {
            use_type_invariant(&*self);
        }
        if self.entries.len() == 0 {
            return None;
        }
        proof {
            lemma_removed_wf(self@, 0);
        }
        let ghost before = self@;
        let mut entries: Vec<Participant> = Vec::new();
        std::mem::swap(&mut self.entries, &mut entries);
        let head = entries.remove(0);
        assert(entries_of(entries@) =~= before.drop_first());
        self.entries = entries;
        Some(head.identity)
    }

    fn first_default_index(&self) -> (k: usize)
        ensures
            k == first_default(self@),
    {
        let mut k: usize = 0;
        while k < self.entries.len()
            invariant
                k <= self.entries@.len(),
                forall|j: int| 0 <= j < k ==> (#[trigger] self@[j]).role is Privileged,
            decreases self.entries@.len() - k,
        {
            match self.entries[k].role {
                UserType::Default => {
                    proof {
                        lemma_first_default_unique(self@, k as int);
                    }
                    return k;
                },
                UserType::Privileged => {},
            }
            k = k + 1;
        }
        proof {
            lemma_first_default_unique(self@, k as int);
        }
        k
    }
}

} // verus!
