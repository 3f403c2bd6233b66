//! Keyed tables: the mathematical model of one category partition of the
//! persistent store.
//!
//! Every record carries a primary key, and writing a sequence of records
//! into a table upserts them in order, so a later record with the same key
//! overwrites an earlier one. This single notion covers both the per-category
//! store tables (which makes re-writing a batch idempotent) and the
//! last-writer-wins merge of display metadata.

use vstd::prelude::*;

verus! {

/// A record that a keyed table can hold: it names its own primary key.
pub trait Record: Sized {
    /// The primary key under which the record is stored.
    spec fn key(self) -> u64;

    /// Executable access to the primary key.
    fn record_key(&self) -> (k: u64)
        ensures
            k == self.key(),
    ;
}

/// The table contents after upserting the records of `s`, in order, into `m`.
pub open spec fn table_after<R: Record>(m: Map<u64, R>, s: Seq<R>) -> Map<u64, R>
    decreases s.len(),
{
    if s.len() == 0 {
        m
    } else {
        table_after(m, s.drop_last()).insert(s.last().key(), s.last())
    }
}

/// Upserting `s` and then one more record extends the fold by one step.
pub proof fn lemma_table_after_push<R: Record>(m: Map<u64, R>, s: Seq<R>, r: R)
    ensures
        table_after(m, s.push(r)) == table_after(m, s).insert(r.key(), r),
{
    assert(s.push(r).drop_last() =~= s);
    assert(s.push(r).last() == r);
}

/// Upserting into `m` lays the records of `s` over `m`: the result is `m`
/// overridden by whatever upserting `s` into the empty table produces.
pub proof fn lemma_table_after_as_union<R: Record>(m: Map<u64, R>, s: Seq<R>)
    ensures
        table_after(m, s) == m.union_prefer_right(table_after(Map::<u64, R>::empty(), s)),
    decreases s.len(),
{
    if s.len() == 0 {
        assert(m.union_prefer_right(Map::<u64, R>::empty()) =~= m);
    } else {
        lemma_table_after_as_union(m, s.drop_last());
        let rest = table_after(Map::<u64, R>::empty(), s.drop_last());
        assert(m.union_prefer_right(rest).insert(s.last().key(), s.last()) =~= m
            .union_prefer_right(rest.insert(s.last().key(), s.last())));
    }
}

/// Upserting a concatenation is upserting the two halves in turn.
pub proof fn lemma_table_after_concat<R: Record>(m: Map<u64, R>, s1: Seq<R>, s2: Seq<R>)
    ensures
        table_after(m, s1 + s2) == table_after(table_after(m, s1), s2),
    decreases s2.len(),
{
    if s2.len() == 0 {
        assert(s1 + s2 =~= s1);
    } else {
        lemma_table_after_concat(m, s1, s2.drop_last());
        assert((s1 + s2).drop_last() =~= s1 + s2.drop_last());
        assert((s1 + s2).last() == s2.last());
    }
}

/// Writing the same records a second time changes nothing: the store's
/// tables are safe to re-write when a batch is replayed after a crash.
pub proof fn lemma_table_after_idempotent<R: Record>(m: Map<u64, R>, s: Seq<R>)
    ensures
        table_after(table_after(m, s), s) == table_after(m, s),
{
    let base = table_after(Map::<u64, R>::empty(), s);
    lemma_table_after_as_union(m, s);
    lemma_table_after_as_union(table_after(m, s), s);
    assert(m.union_prefer_right(base).union_prefer_right(base) =~= m.union_prefer_right(base));
}

/// Within one write, the last record of a key wins: the table ends up
/// holding, for each key present in `s`, the latest record of that key.
pub proof fn lemma_table_after_last_wins<R: Record>(m: Map<u64, R>, s: Seq<R>, i: int)
    requires
        0 <= i < s.len(),
        forall|j: int| i < j < s.len() ==> s[j].key() != s[i].key(),
    ensures
        table_after(m, s).contains_key(s[i].key()),
        table_after(m, s)[s[i].key()] == s[i],
    decreases s.len(),
{
    if i == s.len() - 1 {
    } else {
        lemma_table_after_last_wins(m, s.drop_last(), i);
    }
}

/// Upsert the records of `recs`, in order, into `table`.
pub fn store_all<R: Record + Copy>(table: &mut std::collections::BTreeMap<u64, R>, recs: &Vec<R>)
    ensures
        final(table)@ == table_after(old(table)@, recs@),
{
    broadcast use vstd::std_specs::btree::group_btree_axioms;
    broadcast use vstd::laws_cmp::group_laws_cmp;

    let ghost base = table@;
    let mut i: usize = 0;
    while i < recs.len()
        invariant
            i <= recs.len(),
            table@ == table_after(base, recs@.take(i as int)),
        decreases recs.len() - i,
    {
        let r = recs[i];
        table.insert(r.record_key(), r);
        proof {
            lemma_table_after_push(base, recs@.take(i as int), recs@[i as int]);
            assert(recs@.take(i as int).push(recs@[i as int]) =~= recs@.take(i as int + 1));
        }
        i = i + 1;
    }
    proof {
        assert(recs@.take(recs@.len() as int) =~= recs@);
    }
}

} // verus!
