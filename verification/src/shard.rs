//! Shards: the shard a worker belongs to, and the set of shards assigned to an
//! executor.

use vstd::prelude::*;
use vstd::string::StringExecFns;
use vstd::utf8::encode_utf8;
use std::collections::HashSet;
use crate::proto;
use vstd::std_specs::hash::spec_hash_keys_iter;
use vstd::std_specs::iter::IteratorSpec;
use crate::text::{decimal_digits, decimal_text, digit_char, i64_text, push_char, push_i64, push_u64};
use crate::worker::WorkerId;

verus! {

/// The 32-bit string hash of a byte sequence: `h = 31 * h + b` over the bytes,
/// with wrapping `i32` arithmetic, starting from 0.
pub open spec fn string_hash(bytes: Seq<u8>) -> i32
    decreases bytes.len(),
{
    if bytes.len() == 0 {
        0
    } else {
        (31i32).wrapping_mul(string_hash(bytes.drop_last())).wrapping_add(bytes.last() as i32)
    }
}

/// The high half of a worker's hash: the string hash of the decimal text of
/// the upper 64 bits of the template id, read as a signed number.
pub open spec fn worker_hash_high(w: WorkerId) -> i32 {
    string_hash(encode_utf8(decimal_text(((w.template_id.0 >> 64u128) as i64) as int)))
}

/// The low half of a worker's hash: the string hash of the decimal text of the
/// lower 64 bits of the template id (as a signed number) followed by the worker name.
pub open spec fn worker_hash_low(w: WorkerId) -> i32 {
    string_hash(encode_utf8(decimal_text((w.template_id.0 as i64) as int) + w.worker_name@))
}

/// The 64-bit hash of a worker: the high half in the upper 32 bits, the low
/// half (as an unsigned 32-bit number) in the lower 32 bits.
pub open spec fn worker_hash(w: WorkerId) -> i64 {
    (worker_hash_high(w) as int * 0x1_0000_0000 + (worker_hash_low(w) as u32) as int) as i64
}

/// The absolute value of an integer.
pub open spec fn int_abs(i: int) -> int {
    if i < 0 {
        -i
    } else {
        i
    }
}

/// `i64::abs`: the absolute value; the standard library documents that it
/// overflows (and panics in debug builds) on `i64::MIN`, which is left out.
pub assume_specification[ <i64>::abs ](x: i64) -> (res: i64)
    requires
        x != i64::MIN,
    ensures
        res == int_abs(x as int),
;

/// A shard, identified by its number.
#[derive(Clone, Copy, Debug, PartialEq, Eq, Structural, PartialOrd, Ord, Hash)]
pub struct ShardId {
    value: i64,
}

impl View for ShardId {
    type V = i64;

    /// The shard number.
    closed spec fn view(&self) -> i64 {
        self.value
    }
}

impl ShardId {
    /// The shard with number `value`.
    pub fn new(value: i64) -> (res: Self)
        ensures
            res@ == value,
    {
        Self { value }
    }

    /// The shard of a worker among `number_of_shards` shards: the absolute value
    /// of the worker's hash, modulo the shard count taken as an `i64`.
    pub fn from_worker_id(worker_id: &WorkerId, number_of_shards: usize) -> (res: Self)
        requires
            number_of_shards > 0,
            worker_hash(*worker_id) != i64::MIN,
        ensures
            res@ == int_abs(worker_hash(*worker_id) as int) % ((number_of_shards as i64) as int),
            number_of_shards <= i64::MAX ==> 0 <= res@ < number_of_shards,
    {
        let hash = Self::hash_worker_id(worker_id);
        let n: i64 = number_of_shards as i64;
        assert(n != 0) by (bit_vector)
            requires
                n == number_of_shards as i64,
                number_of_shards > 0,
        ;
        let a: i64 = hash.abs();
        let value = a % n;
        Self { value }
    }

    /// The 64-bit hash of a worker id (see `worker_hash`).
    pub fn hash_worker_id(worker_id: &WorkerId) -> (res: i64)
        ensures
            res == worker_hash(*worker_id),
    {
        let v: u128 = worker_id.template_id.0;
        let high_bits: i64 = (v >> 64u128) as i64;
        let low_bits: i64 = v as i64;
        let high = Self::hash_string(&i64_text(high_bits));
        let mut template_worker_name = i64_text(low_bits);
        template_worker_name.append(worker_id.worker_name.as_str());
        let low = Self::hash_string(&template_worker_name);
        let res = ((high as i64) << 32u64) | ((low as i64) & 0xFFFFFFFFi64);
        assert(((high as i64) << 32u64) | ((low as i64) & 0xFFFFFFFFi64) == (high as int * 0x1_0000_0000
            + (low as u32) as int) as i64) by (bit_vector);
        res
    }

    /// The string hash (see `string_hash`) of the UTF-8 bytes of a string.
    pub fn hash_string(string: &String) -> (res: i32)
        ensures
            res == string_hash(encode_utf8(string@)),
    {
        let mut hash: i32 = 0;
        if hash == 0 && !string.as_str().is_empty() {
            let bytes = string.as_str().as_bytes();
            let mut i: usize = 0;
            while i < bytes.len()
                invariant
                    i <= bytes@.len(),
                    bytes@ == encode_utf8(string@),
                    hash == string_hash(bytes@.take(i as int)),
                decreases bytes@.len() - i,
            {
                assert(bytes@.take(i + 1).drop_last() =~= bytes@.take(i as int));
                hash = 31i32.wrapping_mul(hash).wrapping_add(bytes[i] as i32);
                i = i + 1;
            }
            assert(bytes@.take(i as int) =~= bytes@);
        } else {
            assert(encode_utf8(string@) =~= Seq::<u8>::empty());
        }
        hash
    }

    /// Whether `other` is the shard right after this one.
    pub fn is_left_neighbor(&self, other: &ShardId) -> (res: bool)
        requires
            self@ < i64::MAX,
        ensures
            res == (other@ == self@ + 1),
    {
        other.value == self.value + 1
    }

    /// `<number>`, as `Display` renders a shard.
    pub open spec fn display_text(self) -> Seq<char> {
        seq!['<'] + decimal_text(self@ as int) + seq!['>']
    }

    /// The text form of the shard, as `Display` renders it: its number in angle brackets.
    pub fn to_display_string(&self) -> (res: String)
        ensures
            res@ == self.display_text(),
    {
        let mut s = String::new();
        push_char(&mut s, '<');
        push_i64(&mut s, self.value);
        push_char(&mut s, '>');
        assert(s@ =~= self.display_text());
        s
    }
}

/// Two shards are equal exactly when their numbers are.
pub proof fn lemma_shard_id_eq(a: ShardId, b: ShardId)
    ensures
        (a == b) <==> (a@ == b@),
{
}

impl From<ShardId> for proto::golem::ShardId {
    fn from(value: ShardId) -> (res: proto::golem::ShardId) {
        proto::golem::ShardId { value: value.value }
    }
}

impl vstd::std_specs::convert::FromSpecImpl<ShardId> for proto::golem::ShardId {
    open spec fn obeys_from_spec() -> bool {
        true
    }

    open spec fn from_spec(v: ShardId) -> proto::golem::ShardId {
        proto::golem::ShardId { value: v@ }
    }
}

impl From<proto::golem::ShardId> for ShardId {
    fn from(proto: proto::golem::ShardId) -> (res: Self)
        ensures
            res@ == proto.value,
    {
        Self { value: proto.value }
    }
}

impl vstd::std_specs::convert::FromSpecImpl<proto::golem::ShardId> for ShardId {
    open spec fn obeys_from_spec() -> bool {
        true
    }

    closed spec fn from_spec(v: proto::golem::ShardId) -> ShardId {
        ShardId { value: v.value }
    }
}

/// Shard numbers separated by `,`, each in angle brackets.
pub open spec fn shard_list_text(ids: Seq<i64>) -> Seq<char>
    decreases ids.len(),
{
    if ids.len() == 0 {
        Seq::empty()
    } else if ids.len() == 1 {
        seq!['<'] + decimal_text(ids[0] as int) + seq!['>']
    } else {
        shard_list_text(ids.drop_last()) + seq![','] + seq!['<'] + decimal_text(ids.last() as int)
            + seq!['>']
    }
}

/// The number of `,` characters in a text.
pub open spec fn comma_count(t: Seq<char>) -> nat
    decreases t.len(),
{
    if t.len() == 0 {
        0
    } else {
        comma_count(t.drop_last()) + if t.last() == ',' { 1nat } else { 0nat }
    }
}

proof fn lemma_comma_count_add(a: Seq<char>, b: Seq<char>)
    ensures
        comma_count(a + b) == comma_count(a) + comma_count(b),
    decreases b.len(),
{
    if b.len() == 0 {
        assert(a + b =~= a);
    } else {
        lemma_comma_count_add(a, b.drop_last());
        assert((a + b).drop_last() =~= a + b.drop_last());
        assert((a + b).last() == b.last());
    }
}

proof fn lemma_single_no_comma(c: char)
    requires
        c != ',',
    ensures
        comma_count(seq![c]) == 0,
{
    reveal_with_fuel(comma_count, 2);
    assert(seq![c].drop_last() =~= Seq::<char>::empty());
    assert(seq![c].last() == c);
}

proof fn lemma_digits_no_comma(n: nat)
    ensures
        comma_count(decimal_digits(n)) == 0,
    decreases n,
{
    let c = digit_char(n % 10);
    assert(c as int == (n % 10) + 48);
    if n >= 10 {
        lemma_digits_no_comma(n / 10);
        let d = decimal_digits(n);
        assert(d =~= decimal_digits(n / 10).push(c));
        assert(d.drop_last() =~= decimal_digits(n / 10));
        assert(d.last() == c);
    } else {
        assert(decimal_digits(n) =~= seq![c]);
        lemma_single_no_comma(c);
    }
}

proof fn lemma_shard_text_no_comma(x: i64)
    ensures
        comma_count(seq!['<'] + decimal_text(x as int) + seq!['>']) == 0,
{
    lemma_comma_count_add(seq!['<'], decimal_text(x as int));
    lemma_comma_count_add(seq!['<'] + decimal_text(x as int), seq!['>']);
    lemma_single_no_comma('<');
    lemma_single_no_comma('>');
    if x < 0 {
        lemma_digits_no_comma((-(x as int)) as nat);
        lemma_comma_count_add(seq!['-'], decimal_digits((-(x as int)) as nat));
        lemma_single_no_comma('-');
    } else {
        lemma_digits_no_comma(x as nat);
    }
}

/// The shard list is the shard texts joined by `,`: no shards give an empty
/// text, one shard gives `<x>`, and adding a shard to a non-empty list adds
/// `,<x>` at its end.
pub proof fn lemma_shard_list_is_comma_joined(s: Seq<i64>, x: i64)
    ensures
        shard_list_text(Seq::<i64>::empty()) == Seq::<char>::empty(),
        shard_list_text(seq![x]) == seq!['<'] + decimal_text(x as int) + seq!['>'],
        s.len() > 0 ==> shard_list_text(s.push(x)) == shard_list_text(s) + seq![',', '<']
            + decimal_text(x as int) + seq!['>'],
{
    assert(seq![x].len() == 1 && seq![x][0] == x);
    if s.len() > 0 {
        let t = s.push(x);
        assert(t.drop_last() =~= s);
        assert(t.last() == x);
        assert(shard_list_text(t) =~= shard_list_text(s) + seq![',', '<'] + decimal_text(x as int)
            + seq!['>']);
    }
}

/// A list of `n > 0` shards holds exactly `n - 1` commas, one between each
/// two neighbouring shards.
pub proof fn lemma_shard_list_comma_count(s: Seq<i64>)
    requires
        s.len() > 0,
    ensures
        comma_count(shard_list_text(s)) == s.len() - 1,
    decreases s.len(),
{
    if s.len() == 1 {
        lemma_shard_text_no_comma(s[0]);
    } else {
        let y = s.last();
        lemma_shard_list_comma_count(s.drop_last());
        lemma_shard_text_no_comma(y);
        let head = shard_list_text(s.drop_last());
        let tail = seq!['<'] + decimal_text(y as int) + seq!['>'];
        assert(shard_list_text(s) =~= head + seq![','] + tail);
        lemma_comma_count_add(head + seq![','], tail);
        lemma_comma_count_add(head, seq![',']);
        reveal_with_fuel(comma_count, 2);
        assert(seq![','].drop_last() =~= Seq::<char>::empty());
        assert(seq![','].last() == ',');
        assert(comma_count(seq![',']) == 1);
    }
}

/// The shards assigned to an executor, by number, and the total shard count.
#[derive(Debug)]
pub struct ShardAssignment {
    pub number_of_shards: usize,
    pub shard_ids: HashSet<i64>,
}

impl Clone for ShardAssignment {
    fn clone(&self) -> (res: Self)
        ensures
            res.number_of_shards == self.number_of_shards,
            res.shard_ids@ == self.shard_ids@,
    {
        let mut shard_ids = HashSet::new();
        Self::insert_all(&mut shard_ids, &self.shard_ids);
        assert(shard_ids@ =~= self.shard_ids@);
        ShardAssignment { number_of_shards: self.number_of_shards, shard_ids }
    }
}

impl Default for ShardAssignment {
    fn default() -> (res: Self)
        ensures
            res.number_of_shards == 0,
            res.shard_ids@ == Set::<i64>::empty(),
    {
        ShardAssignment { number_of_shards: 0, shard_ids: HashSet::new() }
    }
}

impl ShardAssignment {
    /// An assignment of the given shards out of `number_of_shards`.
    pub fn new(number_of_shards: usize, shard_ids: HashSet<i64>) -> (res: Self)
        ensures
            res.number_of_shards == number_of_shards,
            res.shard_ids@ == shard_ids@,
    {
        Self { number_of_shards, shard_ids }
    }

    /// The text form for the given order of the shards, as `Display` renders it.
    pub open spec fn display_text_for(number_of_shards: usize, order: Seq<i64>) -> Seq<char> {
        "{ number_of_shards: "@ + decimal_text(number_of_shards as int) + ", shard_ids: "@
            + shard_list_text(order) + " }"@
    }

    /// The text form, as `Display` renders it. The shards come in the order in
    /// which the set yields them, which the set does not fix: each shard appears
    /// once, in some order.
    pub fn to_display_string(&self) -> (res: String)
        ensures
            exists|order: Seq<i64>|
                {
                    &&& order.no_duplicates()
                    &&& order.to_set() == self.shard_ids@
                    &&& res@ == Self::display_text_for(self.number_of_shards, order)
                },
    {
        let mut list = String::new();
        let ghost all = spec_hash_keys_iter(&self.shard_ids).remaining();
        let ghost mut seen: Seq<i64> = Seq::empty();
        let mut first = true;
        for shard_id in it: self.shard_ids.iter()
            invariant
                it.seq() == all,
                seen == all.take(it.index()).unref(),
                list@ == shard_list_text(seen),
                first == (seen.len() == 0),
        {
            if !first {
                push_char(&mut list, ',');
            }
            first = false;
            push_char(&mut list, '<');
            push_i64(&mut list, *shard_id);
            push_char(&mut list, '>');
            proof {
                assert(all.take(it.index() + 1).unref() =~= seen.push(*shard_id));
                let next = seen.push(*shard_id);
                assert(next.drop_last() =~= seen);
                if seen.len() == 0 {
                    assert(list@ =~= shard_list_text(next));
                } else {
                    assert(list@ =~= shard_list_text(next));
                }
                seen = next;
            }
        }
        let mut s = String::from_str("{ number_of_shards: ");
        push_u64(&mut s, self.number_of_shards as u64);
        s.append(", shard_ids: ");
        s.append(list.as_str());
        s.append(" }");
        proof {
            assert(all.take(all.len() as int) =~= all);
            assert(seen =~= all.unref());
            assert(seen.no_duplicates()) by {
                assert forall|i: int, j: int| 0 <= i < seen.len() && 0 <= j < seen.len() && i != j
                    implies seen[i] != seen[j] by {
                    assert(all[i] != all[j]);
                }
            }
            assert(s@ =~= Self::display_text_for(self.number_of_shards, seen));
        }
        s
    }

    fn insert_all(target: &mut HashSet<i64>, shard_ids: &HashSet<i64>)
        ensures
            final(target)@ == old(target)@.union(shard_ids@),
    {
        let ghost start = target@;
        let ghost all = spec_hash_keys_iter(shard_ids).remaining();
        let ghost mut seen: Seq<i64> = Seq::empty();
        for shard_id in it: shard_ids.iter()
            invariant
                it.seq() == all,
                seen == all.take(it.index()).unref(),
                target@ == start.union(seen.to_set()),
        {
            proof {
                assert(all.take(it.index() + 1).unref() =~= seen.push(*shard_id));
                seen.lemma_push_to_set_commute(*shard_id);
                seen = seen.push(*shard_id);
            }
            target.insert(*shard_id);
        }
        proof {
            assert(all.take(all.len() as int) =~= all);
            assert(seen =~= all.unref());
        }
    }

    /// Adds the given shards to the assignment.
    pub fn assign_shards(&mut self, shard_ids: &HashSet<i64>)
        ensures
            final(self).shard_ids@ == old(self).shard_ids@.union(shard_ids@),
            final(self).number_of_shards == old(self).number_of_shards,
    {
        Self::insert_all(&mut self.shard_ids, shard_ids);
    }

    /// Sets the shard count and adds the given shards to the assignment.
    pub fn register(&mut self, number_of_shards: usize, shard_ids: &HashSet<i64>)
        ensures
            final(self).shard_ids@ == old(self).shard_ids@.union(shard_ids@),
            final(self).number_of_shards == number_of_shards,
    {
        self.number_of_shards = number_of_shards;
        Self::insert_all(&mut self.shard_ids, shard_ids);
    }

    /// Removes the given shards from the assignment.
    pub fn revoke_shards(&mut self, shard_ids: &HashSet<i64>)
        ensures
            final(self).shard_ids@ == old(self).shard_ids@.difference(shard_ids@),
            final(self).number_of_shards == old(self).number_of_shards,
    {
        let ghost start = self.shard_ids@;
        let ghost all = spec_hash_keys_iter(shard_ids).remaining();
        let ghost mut seen: Seq<i64> = Seq::empty();
        for shard_id in it: shard_ids.iter()
            invariant
                it.seq() == all,
                seen == all.take(it.index()).unref(),
                self.shard_ids@ == start.difference(seen.to_set()),
                self.number_of_shards == old(self).number_of_shards,
        {
            proof {
                assert(all.take(it.index() + 1).unref() =~= seen.push(*shard_id));
                seen.lemma_push_to_set_commute(*shard_id);
            }
            self.shard_ids.remove(shard_id);
            proof {
                assert(self.shard_ids@ =~= start.difference(seen.push(*shard_id).to_set()));
                seen = seen.push(*shard_id);
            }
        }
        proof {
            assert(all.take(all.len() as int) =~= all);
            assert(seen =~= all.unref());
        }
    }
}

/// Revoking shards right after assigning them restores the assignment, when
/// none of them was assigned before.
pub proof fn lemma_revoke_undoes_assign(assigned: Set<i64>, shards: Set<i64>)
    requires
        assigned.disjoint(shards),
    ensures
        assigned.union(shards).difference(shards) == assigned,
{
    assert(assigned.union(shards).difference(shards) =~= assigned);
}

/// Assigning the same shards twice is the same as assigning them once, and
/// after assigning, every assigned shard is present; after revoking, none of
/// the revoked shards is.
pub proof fn lemma_assign_revoke_membership(assigned: Set<i64>, shards: Set<i64>, id: i64)
    ensures
        assigned.union(shards).union(shards) == assigned.union(shards),
        shards.contains(id) ==> assigned.union(shards).contains(id),
        shards.contains(id) ==> !assigned.difference(shards).contains(id),
        !shards.contains(id) ==> (assigned.difference(shards).contains(id) == assigned.contains(id)),
{
    assert(assigned.union(shards).union(shards) =~= assigned.union(shards));
}

/// Every worker lands in one of the shards: with a positive shard count that
/// fits in an `i64`, the shard number is in `0 .. number_of_shards`.
pub proof fn lemma_worker_shard_in_range(w: WorkerId, number_of_shards: usize)
    requires
        0 < number_of_shards <= i64::MAX,
    ensures
        0 <= int_abs(worker_hash(w) as int) % ((number_of_shards as i64) as int) < number_of_shards,
{
    assert((number_of_shards as i64) as int == number_of_shards as int);
}

} // verus!
