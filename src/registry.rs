//! The registry of live connections: one entry per routing identifier,
//! looked up by raw or routed identifier, and swept of closed connections.
use vstd::prelude::*;

verus! {

/// One live connection, keyed by its routing identifier.
pub struct ConnectionEntry<H> {
    pub id: Vec<u8>,
    pub handle: H,
}

/// The identifiers of a sequence of entries.
pub open spec fn ids_of<H>(s: Seq<ConnectionEntry<H>>) -> Seq<Seq<u8>> {
    s.map_values(|e: ConnectionEntry<H>| e.id@)
}

/// No identifier occurs twice.
pub open spec fn unique_ids<H>(s: Seq<ConnectionEntry<H>>) -> bool {
    forall|i: int, j: int| 0 <= i < j < s.len() ==> s[i].id@ != s[j].id@
}

/// The entries of `s` whose flag in `closed` is false, in their order.
pub open spec fn kept<H>(s: Seq<ConnectionEntry<H>>, closed: Seq<bool>) -> Seq<ConnectionEntry<H>>
    decreases s.len(),
{
    if s.len() == 0 || closed.len() == 0 {
        Seq::empty()
    } else {
        let prev = kept(s.drop_last(), closed.drop_last());
        if closed.last() {
            prev
        } else {
            prev.push(s.last())
        }
    }
}

/// How many flags of `closed` are set.
pub open spec fn count_closed(closed: Seq<bool>) -> nat
    decreases closed.len(),
{
    if closed.len() == 0 {
        0
    } else {
        count_closed(closed.drop_last()) + if closed.last() {
            1nat
        } else {
            0nat
        }
    }
}

/// The index of the entry with identifier `id`, if any.
pub open spec fn index_of<H>(s: Seq<ConnectionEntry<H>>, id: Seq<u8>) -> Option<int> {
    if exists|i: int| 0 <= i < s.len() && s[i].id@ == id {
        Some(choose|i: int| 0 <= i < s.len() && s[i].id@ == id)
    } else {
        None
    }
}

/// The closed flags that `is_closed` gives the entries of `s`.
pub open spec fn flags_of<H>(s: Seq<ConnectionEntry<H>>, is_closed: spec_fn(ConnectionEntry<H>) -> bool) -> Seq<bool> {
    s.map_values(|e: ConnectionEntry<H>| is_closed(e))
}

/// No entry that survives a collection is closed.
proof fn lemma_kept_open<H>(s: Seq<ConnectionEntry<H>>, is_closed: spec_fn(ConnectionEntry<H>) -> bool)
    ensures
        forall|k: int| 0 <= k < kept(s, flags_of(s, is_closed)).len() ==> !is_closed(
            #[trigger] kept(s, flags_of(s, is_closed))[k],
        ),
    decreases s.len(),
{
    if s.len() > 0 {
        lemma_kept_open(s.drop_last(), is_closed);
        let f = flags_of(s, is_closed);
        assert(f.drop_last() =~= flags_of(s.drop_last(), is_closed));
        assert(f.last() == is_closed(s.last()));
        let prev = kept(s.drop_last(), flags_of(s.drop_last(), is_closed));
        assert forall|k: int| 0 <= k < kept(s, f).len() implies !is_closed(
            #[trigger] kept(s, f)[k],
        ) by {
            if k < prev.len() {
                assert(kept(s, f)[k] == prev[k]);
            }
        }
    }
}

/// A collection over entries none of which is closed keeps them all.
proof fn lemma_kept_all_open<H>(s: Seq<ConnectionEntry<H>>, is_closed: spec_fn(ConnectionEntry<H>) -> bool)
    requires
        forall|k: int| 0 <= k < s.len() ==> !is_closed(#[trigger] s[k]),
    ensures
        kept(s, flags_of(s, is_closed)) == s,
    decreases s.len(),
{
    if s.len() > 0 {
        lemma_kept_all_open(s.drop_last(), is_closed);
        assert(flags_of(s, is_closed).drop_last() =~= flags_of(s.drop_last(), is_closed));
        assert(s.drop_last().push(s.last()) =~= s);
    }
}

/// Collecting twice in a row, with no connection changing state in between,
/// removes nothing the second time.
pub proof fn lemma_collect_idempotent<H>(s: Seq<ConnectionEntry<H>>, is_closed: spec_fn(ConnectionEntry<H>) -> bool)
    ensures
        ({
            let once = kept(s, flags_of(s, is_closed));
            kept(once, flags_of(once, is_closed)) == once && count_closed(flags_of(once, is_closed)) == 0
        }),
{
    let once = kept(s, flags_of(s, is_closed));
    lemma_kept_open(s, is_closed);
    lemma_kept_all_open(once, is_closed);
    lemma_no_flags_counted(flags_of(once, is_closed));
}

/// With no flag set, the count of set flags is zero.
proof fn lemma_no_flags_counted(closed: Seq<bool>)
    requires
        forall|i: int| 0 <= i < closed.len() ==> !closed[i],
    ensures
        count_closed(closed) == 0,
    decreases closed.len(),
{
    if closed.len() > 0 {
        lemma_no_flags_counted(closed.drop_last());
    }
}

/// With no flag set, collection keeps every entry.
proof fn lemma_kept_none_flagged<H>(s: Seq<ConnectionEntry<H>>, closed: Seq<bool>)
    requires
        s.len() == closed.len(),
        forall|i: int| 0 <= i < closed.len() ==> !closed[i],
    ensures
        kept(s, closed) == s,
    decreases s.len(),
{
    if s.len() > 0 {
        lemma_kept_none_flagged(s.drop_last(), closed.drop_last());
        assert(s.drop_last().push(s.last()) =~= s);
    }
}

/// Where exactly one flag is set, collection removes exactly that entry.
pub proof fn lemma_collect_one<H>(s: Seq<ConnectionEntry<H>>, closed: Seq<bool>, k: int)
    requires
        s.len() == closed.len(),
        0 <= k < closed.len(),
        closed[k],
        forall|i: int| 0 <= i < closed.len() && i != k ==> !closed[i],
    ensures
        kept(s, closed) == s.remove(k),
        count_closed(closed) == 1,
    decreases s.len(),
{
    if k == s.len() - 1 {
        lemma_kept_none_flagged(s.drop_last(), closed.drop_last());
        lemma_no_flags_counted(closed.drop_last());
        assert(s.drop_last() =~= s.remove(k));
    } else {
        lemma_collect_one(s.drop_last(), closed.drop_last(), k);
        assert(s.drop_last().remove(k).push(s.last()) =~= s.remove(k));
    }
}

/// `x` is one of the first `n` entries of `s`.
spec fn drawn_from<H>(x: ConnectionEntry<H>, s: Seq<ConnectionEntry<H>>, n: int) -> bool {
    exists|m: int| 0 <= m < n && x == s[m]
}

/// The live connections, each with a distinct routing identifier.
pub struct ConnectionRegistry<H> {
    pub entries: Vec<ConnectionEntry<H>>,
}

impl<H> ConnectionRegistry<H> {
    pub open spec fn view(&self) -> Seq<ConnectionEntry<H>> {
        self.entries@
    }

    pub open spec fn wf(&self) -> bool {
        unique_ids(self.view())
    }

    pub fn new() -> (r: Self)
        ensures
            r.view().len() == 0,
            r.wf(),
    {
        ConnectionRegistry { entries: Vec::new() }
    }

    pub fn len(&self) -> (r: usize)
        ensures
            r == self.view().len(),
    {
        self.entries.len()
    }

    /// The position of the entry keyed by `id`, if there is one.
    pub fn lookup(&self, id: &[u8]) -> (r: Option<usize>)
        requires
            self.wf(),
        ensures
            r is Some <==> index_of(self.view(), id@) is Some,
            r is Some ==> r->Some_0 < self.view().len() && self.view()[r->Some_0 as int].id@
                == id@,
    {
        let mut i: usize = 0;
        while i < self.entries.len()
            invariant
                i <= self.entries@.len(),
                forall|k: int| 0 <= k < i ==> self.entries@[k].id@ != id@,
            decreases self.entries@.len() - i,
        {
            if bytes_eq(self.entries[i].id.as_slice(), id) {
                return Some(i);
            }
            i = i + 1;
        }
        None
    }

    /// The connection a datagram belongs to: the entry keyed by its raw
    /// destination identifier `dcid`, else the one keyed by its routing
    /// identifier `routed`, else none (a handshake candidate).
    pub fn resolve(&self, dcid: &[u8], routed: &[u8]) -> (r: Option<usize>)
        requires
            self.wf(),
        ensures
            r is Some <==> (index_of(self.view(), dcid@) is Some || index_of(self.view(), routed@) is Some),
            r is Some ==> r->Some_0 < self.view().len(),
            index_of(self.view(), dcid@) is Some ==> r is Some && self.view()[r->Some_0 as int].id@ == dcid@,
            index_of(self.view(), dcid@) is None && r is Some ==> self.view()[r->Some_0 as int].id@ == routed@,
    {
        match self.lookup(dcid) {
            Some(i) => Some(i),
            None => self.lookup(routed),
        }
    }

    /// Adds a connection under `id`; refused, and the handle handed back,
    /// where an entry with that identifier already exists.
    pub fn insert(&mut self, id: Vec<u8>, handle: H) -> (r: Result<(), H>)
        requires
            old(self).wf(),
        ensures
            final(self).wf(),
            r is Ok <==> index_of(old(self).view(), id@) is None,
            r is Ok ==> final(self).view() == old(self).view().push(ConnectionEntry { id, handle }),
            r is Err ==> final(self).view() == old(self).view(),
    {
        match self.lookup(id.as_slice()) {
            Some(_) => Err(handle),
            None => {
                let ghost before = self.entries@;
                self.entries.push(ConnectionEntry { id, handle });
                assert forall|i: int, j: int| 0 <= i < j < self.entries@.len() implies self.entries@[i].id@ != self.entries@[j].id@ by {
                    if j < before.len() {
                        assert(before[i].id@ != before[j].id@);
                    } else {
                        assert(!(exists|m: int| 0 <= m < before.len() && before[m].id@ == self.entries@[j].id@));
                        assert(before[i] == self.entries@[i]);
                    }
                }
                Ok(())
            },
        }
    }

    /// Removes every entry whose flag in `closed` is set, where `closed[i]`
    /// says whether the engine reports the connection at position `i`
    /// closed; returns how many were removed.
    pub fn collect_terminated(&mut self, closed: &Vec<bool>) -> (r: usize)
        requires
            old(self).wf(),
            closed@.len() == old(self).view().len(),
        ensures
            final(self).wf(),
            final(self).view() == kept(old(self).view(), closed@),
            r == count_closed(closed@),
            r + final(self).view().len() == old(self).view().len(),
    {
        let ghost orig = self.entries@;
        let mut rest: Vec<ConnectionEntry<H>> = Vec::new();
        std::mem::swap(&mut self.entries, &mut rest);
        let mut removed: usize = 0;
        let mut i: usize = 0;
        while i < closed.len()
            invariant
                closed@.len() == orig.len(),
                i <= orig.len(),
                rest@ == orig.skip(i as int),
                self.entries@ == kept(orig.take(i as int), closed@.take(i as int)),
                removed == count_closed(closed@.take(i as int)),
                removed + self.entries@.len() == i,
                unique_ids(orig),
                unique_ids(self.entries@),
                forall|k: int|
                    0 <= k < self.entries@.len() ==> drawn_from(#[trigger] self.entries@[k], orig, i as int),
            decreases orig.len() - i,
        {
            let e = rest.remove(0);
            let ghost before = self.entries@;
            assert(e == orig[i as int]);
            assert(orig.take(i + 1).drop_last() =~= orig.take(i as int));
            assert(closed@.take(i + 1).drop_last() =~= closed@.take(i as int));
            assert(rest@ =~= orig.skip(i + 1));
            if closed[i] {
                removed = removed + 1;
            } else {
                self.entries.push(e);
                assert forall|a: int, b: int| 0 <= a < b < self.entries@.len() implies self.entries@[a].id@ != self.entries@[b].id@ by {
                    if b < before.len() {
                        assert(before[a].id@ != before[b].id@);
                    } else {
                        assert(drawn_from(before[a], orig, i as int));
                        let m = choose|m: int| 0 <= m < i && before[a] == orig[m];
                        assert(orig[m].id@ != orig[i as int].id@);
                    }
                }
                assert forall|k: int| 0 <= k < self.entries@.len() implies drawn_from(#[trigger] self.entries@[k], orig, i + 1) by {
                    if k < before.len() {
                        assert(drawn_from(before[k], orig, i as int));
                        let m = choose|m: int| 0 <= m < i && before[k] == orig[m];
                        assert(0 <= m < i + 1 && self.entries@[k] == orig[m]);
                    } else {
                        assert(self.entries@[k] == orig[i as int]);
                    }
                }
            }
            i = i + 1;
        }
        assert(orig.take(i as int) =~= orig);
        assert(closed@.take(i as int) =~= closed@);
        removed
    }
}

/// Byte-wise equality of two identifiers.
pub fn bytes_eq(a: &[u8], b: &[u8]) -> (r: bool)
    ensures
        r == (a@ == b@),
{
    if a.len() != b.len() {
        return false;
    }
    let mut i: usize = 0;
    while i < a.len()
        invariant
            i <= a@.len(),
            a@.len() == b@.len(),
            forall|k: int| 0 <= k < i ==> a@[k] == b@[k],
        decreases a@.len() - i,
    {
        if a[i] != b[i] {
            return false;
        }
        i = i + 1;
    }
    assert(a@ =~= b@);
    true
}

} // verus!
