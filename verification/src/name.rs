//! Derivation of the scheduler's idempotency key for a monitored pair.
//!
//! The name under which a delayed lookup is registered is the source
//! identifier, a fixed delimiter byte, and the target identifier, in that
//! order. The same pair always yields the same name, so re-registering a
//! pair addresses the existing registration instead of creating another.

use vstd::prelude::*;

verus! {

/// The byte separating the source identifier from the target identifier
/// inside a derived schedule name: ASCII `-`.
pub const DELIMITER: u8 = 45;

/// The schedule name derived from a (source, target) identifier pair.
pub open spec fn schedule_name_of(source: Seq<u8>, target: Seq<u8>) -> Seq<u8> {
    source + seq![DELIMITER] + target
}

/// Computes the schedule name for a pair: source, the delimiter, target.
pub fn derive_schedule_name(source: &Vec<u8>, target: &Vec<u8>) -> (name: Vec<u8>)
    ensures
        name@ == schedule_name_of(source@, target@),
{
    let mut name: Vec<u8> = Vec::new();
    let mut i: usize = 0;
    while i < source.len()
        invariant
            i <= source@.len(),
            name@ == source@.subrange(0, i as int),
        decreases source@.len() - i,
    {
        name.push(source[i]);
        i += 1;
    }
    proof {
        assert(name@ =~= source@);
    }
    name.push(DELIMITER);
    let mut j: usize = 0;
    while j < target.len()
        invariant
            j <= target@.len(),
            name@ == source@ + seq![DELIMITER] + target@.subrange(0, j as int),
        decreases target@.len() - j,
    {
        name.push(target[j]);
        j += 1;
    }
    proof {
        assert(name@ =~= schedule_name_of(source@, target@));
    }
    name
}

/// Two pairs whose sources are free of the delimiter byte can only derive
/// the same schedule name by being the same pair: the first delimiter in
/// the name marks where the source ends, so the name determines both
/// identifiers. (A source that itself contains the delimiter can collide
/// with another pair; such identifiers are outside this guarantee.)
pub proof fn lemma_schedule_name_injective(s1: Seq<u8>, t1: Seq<u8>, s2: Seq<u8>, t2: Seq<u8>)
    requires
        !s1.contains(DELIMITER),
        !s2.contains(DELIMITER),
        schedule_name_of(s1, t1) == schedule_name_of(s2, t2),
    ensures
        s1 == s2,
        t1 == t2,
{
    let n1 = schedule_name_of(s1, t1);
    let n2 = schedule_name_of(s2, t2);
    assert(n1.len() == s1.len() + 1 + t1.len());
    assert(n2.len() == s2.len() + 1 + t2.len());
    assert(n1[s1.len() as int] == DELIMITER);
    assert(n2[s2.len() as int] == DELIMITER);
    if s1.len() < s2.len() {
        assert(n2[s1.len() as int] == s2[s1.len() as int]);
        assert(s2.contains(DELIMITER));
        assert(false);
    }
    if s2.len() < s1.len() {
        assert(n1[s2.len() as int] == s1[s2.len() as int]);
        assert(s1.contains(DELIMITER));
        assert(false);
    }
    assert(s1.len() == s2.len());
    assert forall|i: int| 0 <= i < s1.len() implies s1[i] == s2[i] by {
        assert(n1[i] == s1[i]);
        assert(n2[i] == s2[i]);
    }
    assert(s1 =~= s2);
    assert forall|i: int| 0 <= i < t1.len() implies t1[i] == t2[i] by {
        assert(n1[s1.len() + 1 + i] == t1[i]);
        assert(n2[s2.len() + 1 + i] == t2[i]);
    }
    assert(t1 =~= t2);
}

} // verus!
