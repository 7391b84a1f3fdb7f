//! The chain-reading seam, and the lineage of a singleton.
//!
//! This crate performs no network or chain I/O. What it must know of the chain it asks of a
//! [`ChainSource`], an honest reader that the caller supplies.
use vstd::prelude::*;

use chia_protocol::Bytes32;

use crate::bytes::{hash_to_vec, same_hash};
use crate::types::CoinSpend;

#[allow(unused_imports)]
use crate::bytes::hash_bytes;

verus! {

/// The greatest number of parent spends that a walk follows before it fails closed. A genuine lineage
/// grows by one coin per spend; the bound keeps a malicious source from making the walk endless.
pub const MAX_LINEAGE_DEPTH: usize = 100_000;

/// A caller-supplied, honest reader of chain state. It only fetches; a failed read is reported by the
/// text of its error, and is never treated as an answer.
pub trait ChainSource {
    /// The lineage of the singleton that was launched as `launcher_id`, walked to its current unspent
    /// tip, or `None` where it never existed or is melted. It must be a genuine forward walk, never an
    /// echo of a caller's coin.
    fn resolve_singleton_lineage(&self, launcher_id: Bytes32) -> (reply: Result<
        Option<SingletonLineage>,
        String,
    >);

    /// The spend that created `coin_id`, that is the spend of its parent, or `None` where none is
    /// known.
    fn parent_spend(&self, coin_id: Bytes32) -> (reply: Result<Option<CoinSpend>, String>);
}

/// The lineage of a singleton: every coin id from the launcher's spend to the current unspent tip.
/// Authority is membership in it, not equality with the tip.
#[derive(Debug)]
pub struct SingletonLineage {
    tip: Bytes32,
    members: Vec<Bytes32>,
}

/// A [`SingletonLineage`] with its ids as bytes.
#[verifier::ext_equal]
pub struct SingletonLineageView {
    pub tip: Seq<u8>,
    pub members: Set<Seq<u8>>,
}

/// The bytes of each hash of a list.
pub open spec fn all_hash_bytes(hashes: Seq<Bytes32>) -> Seq<Seq<u8>> {
    hashes.map_values(|hash: Bytes32| hash_bytes(hash))
}

impl View for SingletonLineage {
    type V = SingletonLineageView;

    closed spec fn view(&self) -> SingletonLineageView {
        SingletonLineageView {
            tip: hash_bytes(self.tip),
            members: all_hash_bytes(self.members@).to_set(),
        }
    }
}

/// Whether `hash` is among `hashes`.
fn has_hash(hashes: &Vec<Bytes32>, hash: &Bytes32) -> (found: bool)
    ensures
        found == all_hash_bytes(hashes@).contains(hash_bytes(*hash)),
{
    let ghost all = all_hash_bytes(hashes@);
    let mut index: usize = 0;
    while index < hashes.len()
        invariant
            index <= hashes@.len(),
            all == all_hash_bytes(hashes@),
            forall|i: int| 0 <= i < index ==> #[trigger] all[i] != hash_bytes(*hash),
        decreases hashes@.len() - index,
    {
        if same_hash(&hashes[index], hash) {
            assert(all[index as int] == hash_bytes(*hash));
            return true;
        }
        index = index + 1;
    }
    false
}

/// Whether `buckets` hold the hashes of a list, each in the bucket of its first byte.
spec fn sorts(buckets: Seq<Vec<Bytes32>>, hashes: Seq<Bytes32>) -> bool {
    &&& buckets.len() == 256
    &&& forall|first: int, item: Seq<u8>|
        0 <= first < 256 && item[0] == first ==> (#[trigger] all_hash_bytes(
            buckets[first]@,
        ).contains(item) <==> all_hash_bytes(hashes).contains(item))
}

/// Buckets with nothing in them.
fn empty_buckets() -> (buckets: Vec<Vec<Bytes32>>)
    ensures
        sorts(buckets@, Seq::empty()),
{
    let mut buckets: Vec<Vec<Bytes32>> = Vec::new();
    let mut index: usize = 0;
    while index < 256
        invariant
            index <= 256,
            buckets@.len() == index,
            forall|i: int| 0 <= i < index ==> (#[trigger] buckets@[i])@.len() == 0,
        decreases 256 - index,
    {
        buckets.push(Vec::new());
        index = index + 1;
    }
    buckets
}

/// Whether `hash` is among the hashes that `buckets` hold: only the bucket of its first byte is searched.
fn has_in_bucket(buckets: &Vec<Vec<Bytes32>>, hash: &Bytes32, Ghost(hashes): Ghost<Seq<Bytes32>>) -> (
found: bool)
    requires
        sorts(buckets@, hashes),
    ensures
        found == all_hash_bytes(hashes).contains(hash_bytes(*hash)),
{
    let first = hash_to_vec(hash)[0] as usize;
    has_hash(&buckets[first], hash)
}

/// Adds a hash to the bucket of its first byte.
fn push_in_bucket(
    buckets: &mut Vec<Vec<Bytes32>>,
    hash: Bytes32,
    Ghost(hashes): Ghost<Seq<Bytes32>>,
)
    requires
        sorts(old(buckets)@, hashes),
    ensures
        sorts(final(buckets)@, hashes.push(hash)),
{
    let first = hash_to_vec(&hash)[0] as usize;
    let ghost before = buckets@;
    buckets[first].push(hash);
    proof {
        lemma_push_distinct(before[first as int]@, hash);
        lemma_push_distinct(hashes, hash);
        assert forall|index: int, item: Seq<u8>|
            0 <= index < 256 && item[0] == index implies (#[trigger] all_hash_bytes(
            buckets@[index]@,
        ).contains(item) <==> all_hash_bytes(hashes.push(hash)).contains(item)) by {
            let bucket = all_hash_bytes(before[index]@);
            let listed = all_hash_bytes(hashes);
            assert(bucket.contains(item) <==> listed.contains(item));
            assert(all_hash_bytes(hashes.push(hash)).to_set().contains(item)
                == listed.to_set().insert(hash_bytes(hash)).contains(item));
            if index == first {
                assert(all_hash_bytes(buckets@[index]@).to_set().contains(item)
                    == bucket.to_set().insert(hash_bytes(hash)).contains(item));
            }
        }
    }
}

/// A copy of a list of hashes.
pub(crate) fn copy_hashes(hashes: &Vec<Bytes32>) -> (copy: Vec<Bytes32>)
    ensures
        copy@ == hashes@,
{
    let mut copy: Vec<Bytes32> = Vec::new();
    let mut index: usize = 0;
    while index < hashes.len()
        invariant
            index <= hashes@.len(),
            copy@ == hashes@.take(index as int),
        decreases hashes@.len() - index,
    {
        copy.push(hashes[index]);
        assert(hashes@.take(index as int + 1) =~= hashes@.take(index as int).push(
            hashes@[index as int],
        ));
        index = index + 1;
    }
    assert(hashes@.take(index as int) =~= hashes@);
    copy
}

impl SingletonLineage {
    /// The tip is a member, and no member is listed twice.
    #[verifier::type_invariant]
    pub(crate) closed spec fn well_formed(self) -> bool {
        &&& all_hash_bytes(self.members@).contains(hash_bytes(self.tip))
        &&& all_hash_bytes(self.members@).no_duplicates()
    }

    /// The lineage with these members and this tip. The tip is always a member and need not be listed.
    pub fn new(tip: Bytes32, members: Vec<Bytes32>) -> (lineage: SingletonLineage)
        ensures
            lineage@.tip == hash_bytes(tip),
            lineage@.members == all_hash_bytes(members@).to_set().insert(hash_bytes(tip)),
    {
        let ghost all = all_hash_bytes(members@);
        let mut distinct: Vec<Bytes32> = Vec::new();
        let mut buckets = empty_buckets();
        let mut index: usize = 0;
        assert(all_hash_bytes(distinct@) =~= Seq::<Seq<u8>>::empty());
        while index < members.len()
            invariant
                index <= members@.len(),
                all == all_hash_bytes(members@),
                sorts(buckets@, distinct@),
                all_hash_bytes(distinct@).no_duplicates(),
                all_hash_bytes(distinct@).to_set() == all.take(index as int).to_set(),
            decreases members@.len() - index,
        {
            let ghost before = distinct@;
            if !has_in_bucket(&buckets, &members[index], Ghost(distinct@)) {
                push_in_bucket(&mut buckets, members[index], Ghost(distinct@));
                distinct.push(members[index]);
            }
            proof {
                lemma_push_distinct(before, members@[index as int]);
                lemma_take_one_more(all, index as int);
                if distinct@ == before {
                    assert(all_hash_bytes(before).to_set().contains(all[index as int]));
                    assert(all_hash_bytes(before).to_set().insert(all[index as int])
                        =~= all_hash_bytes(before).to_set());
                }
            }
            index = index + 1;
        }
        let ghost before = distinct@;
        if !has_hash(&distinct, &tip) {
            distinct.push(tip);
        }
        proof {
            lemma_push_distinct(before, tip);
            assert(all.take(index as int) =~= all);
            if distinct@ == before {
                assert(all_hash_bytes(before).to_set().contains(hash_bytes(tip)));
                assert(all_hash_bytes(before).to_set().insert(hash_bytes(tip)) =~= all_hash_bytes(
                    before,
                ).to_set());
            } else {
                assert(all_hash_bytes(distinct@).last() == hash_bytes(tip));
            }
            assert(all_hash_bytes(distinct@).to_set().contains(hash_bytes(tip)));
        }
        SingletonLineage { tip, members: distinct }
    }

    /// The lineage of one coin: a singleton never spent since its launch.
    pub fn single(tip: Bytes32) -> (lineage: SingletonLineage)
        ensures
            lineage@.tip == hash_bytes(tip),
            lineage@.members == set![hash_bytes(tip)],
    {
        let lineage = SingletonLineage::new(tip, Vec::new());
        assert(lineage@.members =~= set![hash_bytes(tip)]);
        lineage
    }

    /// The current unspent tip.
    pub fn tip(&self) -> (tip: Bytes32)
        ensures
            hash_bytes(tip) == self@.tip,
            self@.members.contains(self@.tip),
    {
        proof {
            use_type_invariant(self);
        }
        self.tip
    }

    /// Whether `coin_id` is a coin of this lineage: the test of authority.
    pub fn contains(&self, coin_id: Bytes32) -> (member: bool)
        ensures
            member == self@.members.contains(hash_bytes(coin_id)),
    {
        has_hash(&self.members, &coin_id)
    }

    /// The number of coins in the lineage.
    pub fn len(&self) -> (count: usize)
        ensures
            count == self@.members.len(),
            self@.members.finite(),
    {
        proof {
            use_type_invariant(self);
            all_hash_bytes(self.members@).unique_seq_to_set();
            vstd::seq_lib::seq_to_set_is_finite(all_hash_bytes(self.members@));
        }
        self.members.len()
    }

    /// Whether the lineage has no members. It never has none.
    pub fn is_empty(&self) -> (empty: bool)
        ensures
            !empty,
            empty == (self@.members == Set::<Seq<u8>>::empty()),
    {
        proof {
            use_type_invariant(self);
            assert(self@.members.contains(hash_bytes(self.tip)));
        }
        self.members.len() == 0
    }
}

impl Clone for SingletonLineage {
    fn clone(&self) -> (copy: SingletonLineage)
        ensures
            copy@ == self@,
    {
        proof {
            use_type_invariant(self);
        }
        let members = copy_hashes(&self.members);
        SingletonLineage { tip: self.tip, members }
    }
}

impl vstd::std_specs::cmp::PartialEqSpecImpl for SingletonLineage {
    open spec fn obeys_eq_spec() -> bool {
        true
    }

    open spec fn eq_spec(&self, other: &SingletonLineage) -> bool {
        self@ == other@
    }
}

impl PartialEq for SingletonLineage {
    /// Two lineages are equal when they have the same tip and the same members.
    fn eq(&self, other: &SingletonLineage) -> (equal: bool) {
        if !same_hash(&self.tip, &other.tip) || self.len() != other.len() {
            return false;
        }
        let mut index: usize = 0;
        while index < self.members.len()
            invariant
                index <= self.members@.len(),
                forall|i: int|
                    0 <= i < index ==> other@.members.contains(
                        #[trigger] all_hash_bytes(self.members@)[i],
                    ),
            decreases self.members@.len() - index,
        {
            if !other.contains(self.members[index]) {
                proof {
                    let item = all_hash_bytes(self.members@)[index as int];
                    assert(self@.members.contains(item));
                    assert(!other@.members.contains(item));
                }
                return false;
            }
            index = index + 1;
        }
        proof {
            assert(self@.members.subset_of(other@.members));
            vstd::set_lib::lemma_subset_equality(self@.members, other@.members);
            assert(self@ =~= other@);
        }
        true
    }
}

impl Eq for SingletonLineage {

}

/// Adding a hash to a list of distinct hashes adds it to their set, and keeps them distinct where it
/// is new.
proof fn lemma_push_distinct(hashes: Seq<Bytes32>, hash: Bytes32)
    ensures
        all_hash_bytes(hashes.push(hash)) == all_hash_bytes(hashes).push(hash_bytes(hash)),
        all_hash_bytes(hashes.push(hash)).to_set() == all_hash_bytes(hashes).to_set().insert(
            hash_bytes(hash),
        ),
        all_hash_bytes(hashes).no_duplicates() && !all_hash_bytes(hashes).contains(hash_bytes(hash))
            ==> all_hash_bytes(hashes.push(hash)).no_duplicates(),
{
    let bytes = all_hash_bytes(hashes);
    assert(all_hash_bytes(hashes.push(hash)) =~= bytes.push(hash_bytes(hash)));
    assert forall|item: Seq<u8>|
        bytes.push(hash_bytes(hash)).to_set().contains(item) == bytes.to_set().insert(
            hash_bytes(hash),
        ).contains(item) by {
        let pushed = bytes.push(hash_bytes(hash));
        if bytes.contains(item) {
            let i = bytes.index_of(item);
            assert(pushed[i] == item);
        }
        if item == hash_bytes(hash) {
            assert(pushed[bytes.len() as int] == item);
        }
    }
    assert(bytes.push(hash_bytes(hash)).to_set() =~= bytes.to_set().insert(hash_bytes(hash)));
}

/// The set of one more element of a list.
proof fn lemma_take_one_more(items: Seq<Seq<u8>>, index: int)
    requires
        0 <= index < items.len(),
    ensures
        items.take(index + 1).to_set() == items.take(index).to_set().insert(items[index]),
{
    let more = items.take(index + 1);
    assert(more =~= items.take(index).push(items[index]));
    assert forall|item: Seq<u8>|
        more.to_set().contains(item) == items.take(index).to_set().insert(items[index]).contains(
            item,
        ) by {
        if items.take(index).contains(item) {
            let i = items.take(index).index_of(item);
            assert(more[i] == item);
        }
        if item == items[index] {
            assert(more[index] == item);
        }
    }
    assert(more.to_set() =~= items.take(index).to_set().insert(items[index]));
}

} // verus!
