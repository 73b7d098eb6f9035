//! Permission flags and sets of them.
//!
//! A set is stored as a 64-bit mask, one bit per flag, in the layout the
//! chat platform uses on the wire. Contracts speak of the set of flags the
//! mask stands for, so callers never reason about bit arithmetic.

use vstd::prelude::*;

verus! {

/// One permission flag, identified by its bit position in the wire mask.
#[derive(Clone, Copy, Debug, PartialEq, Eq, Structural)]
pub struct Permission {
    index: u8,
}

impl Permission {
    #[verifier::type_invariant]
    spec fn in_range(self) -> bool {
        self.index < 64
    }

    /// The bit position of this flag.
    pub closed spec fn position(self) -> nat {
        self.index as nat
    }

    /// The flag at `position`.
    pub closed spec fn at(position: nat) -> Permission {
        Permission { index: position as u8 }
    }

    /// Whether this value names one of the 64 flags a mask can hold.
    pub open spec fn is_flag(self) -> bool {
        self.position() < 64
    }

    /// Permission to see a channel at all.
    pub open spec fn spec_view_channel() -> Permission {
        Permission::at(10)
    }

    /// Permission to post messages in a channel.
    pub open spec fn spec_send_messages() -> Permission {
        Permission::at(11)
    }

    /// Permission to post messages in the threads of a channel.
    pub open spec fn spec_send_messages_in_threads() -> Permission {
        Permission::at(38)
    }

    /// `at` and `position` are inverse to each other on the 64 flags.
    pub proof fn lemma_at_position(position: nat)
        requires
            position < 64,
        ensures
            Permission::at(position).position() == position,
            Permission::at(position).is_flag(),
    {
    }

    /// Two flags at the same position are the same flag.
    pub proof fn lemma_position_injective(a: Permission, b: Permission)
        requires
            a.position() == b.position(),
        ensures
            a == b,
    {
    }

    /// The flag at `index`, if `index` is one of the 64 positions.
    pub fn new(index: u8) -> (r: Option<Permission>)
        ensures
            index < 64 ==> r == Some(Permission::at(index as nat)),
            index >= 64 ==> r is None,
    {
        if index < 64 {
            Some(Permission { index })
        } else {
            None
        }
    }

    /// The bit position of this flag.
    pub fn index(&self) -> (r: u8)
        ensures
            r == self.position(),
            r < 64,
    {
        proof {
            use_type_invariant(self);
        }
        self.index
    }

    /// Permission to see a channel at all.
    #[verifier::when_used_as_spec(spec_view_channel)]
    pub fn view_channel() -> (r: Permission)
        ensures
            r == Permission::spec_view_channel(),
    {
        Permission { index: 10 }
    }

    /// Permission to post messages in a channel.
    #[verifier::when_used_as_spec(spec_send_messages)]
    pub fn send_messages() -> (r: Permission)
        ensures
            r == Permission::spec_send_messages(),
    {
        Permission { index: 11 }
    }

    /// Permission to post messages in the threads of a channel.
    #[verifier::when_used_as_spec(spec_send_messages_in_threads)]
    pub fn send_messages_in_threads() -> (r: Permission)
        ensures
            r == Permission::spec_send_messages_in_threads(),
    {
        Permission { index: 38 }
    }
}

/// Whether bit `i` of `bits` is one.
spec fn bit(bits: u64, i: u64) -> bool {
    (bits >> i) & 1 == 1
}

proof fn lemma_bit_of_zero(i: u64)
    by (bit_vector)
    requires
        i < 64,
    ensures
        (0u64 >> i) & 1 != 1,
{
}

proof fn lemma_bit_of_single(i: u64, j: u64)
    by (bit_vector)
    requires
        i < 64,
        j < 64,
    ensures
        ((1u64 << i) >> j) & 1 == 1 <==> i == j,
{
}

proof fn lemma_bit_of_or(a: u64, b: u64, i: u64)
    by (bit_vector)
    requires
        i < 64,
    ensures
        ((a | b) >> i) & 1 == 1 <==> ((a >> i) & 1 == 1 || (b >> i) & 1 == 1),
{
}

proof fn lemma_bit_of_and(a: u64, b: u64, i: u64)
    by (bit_vector)
    requires
        i < 64,
    ensures
        ((a & b) >> i) & 1 == 1 <==> ((a >> i) & 1 == 1 && (b >> i) & 1 == 1),
{
}

proof fn lemma_bit_of_and_not(a: u64, b: u64, i: u64)
    by (bit_vector)
    requires
        i < 64,
    ensures
        ((a & !b) >> i) & 1 == 1 <==> ((a >> i) & 1 == 1 && (b >> i) & 1 != 1),
{
}

proof fn lemma_bit_of_xor(a: u64, b: u64, i: u64)
    by (bit_vector)
    requires
        i < 64,
        ((a ^ b) >> i) & 1 == 1,
    ensures
        ((a >> i) & 1 == 1) != ((b >> i) & 1 == 1),
{
}

proof fn lemma_halving(d: u64)
    by (bit_vector)
    requires
        d != 0,
        d & 1 != 1,
    ensures
        d >> 1 != 0,
        d >> 1 < d,
{
}

proof fn lemma_bit_of_half(d: u64, j: u64)
    by (bit_vector)
    requires
        j < 64,
        ((d >> 1) >> j) & 1 == 1,
    ensures
        j < 63,
        (d >> ((j + 1) as u64)) & 1 == 1,
{
}

proof fn lemma_lowest_bit(d: u64)
    by (bit_vector)
    requires
        d & 1 == 1,
    ensures
        (d >> 0) & 1 == 1,
{
}

proof fn lemma_xor_zero(a: u64, b: u64)
    by (bit_vector)
    requires
        a ^ b == 0,
    ensures
        a == b,
{
}

/// A mask that is not zero has a bit that is one.
proof fn lemma_some_bit(d: u64) -> (i: u64)
    requires
        d != 0,
    ensures
        i < 64,
        bit(d, i),
    decreases d,
{
    if d & 1 == 1 {
        lemma_lowest_bit(d);
        0
    } else {
        lemma_halving(d);
        let j = lemma_some_bit(d >> 1);
        lemma_bit_of_half(d, j);
        (j + 1) as u64
    }
}

/// Two masks with the same bits are the same mask.
proof fn lemma_same_bits(a: u64, b: u64)
    requires
        forall|i: u64| i < 64 ==> #[trigger] bit(a, i) == bit(b, i),
    ensures
        a == b,
{
    if a ^ b != 0 {
        let i = lemma_some_bit(a ^ b);
        lemma_bit_of_xor(a, b, i);
        assert(bit(a, i) == bit(b, i));
    }
    lemma_xor_zero(a, b);
}

/// A set of permission flags.
#[derive(Clone, Copy, Debug, PartialEq, Eq, Structural)]
pub struct PermissionSet {
    bits: u64,
}

impl View for PermissionSet {
    type V = Set<Permission>;

    closed spec fn view(&self) -> Set<Permission> {
        Set::new(|p: Permission| p.index < 64 && bit(self.bits, p.index as u64))
    }
}

impl PermissionSet {
    /// The wire mask of this set.
    pub closed spec fn wire(self) -> u64 {
        self.bits
    }

    /// The set that the wire mask `bits` stands for.
    pub closed spec fn of_wire(bits: u64) -> PermissionSet {
        PermissionSet { bits }
    }

    /// The flags that locking a channel for posting toggles.
    pub open spec fn spec_messaging() -> Set<Permission> {
        set![Permission::spec_send_messages(), Permission::spec_send_messages_in_threads()]
    }

    /// The flags that hiding a channel toggles.
    pub open spec fn spec_viewing() -> Set<Permission> {
        set![Permission::spec_view_channel()]
    }

    /// A flag is in the set exactly if its bit of the wire mask is one, and
    /// nothing but flags is in a set.
    pub proof fn lemma_wire(self, p: Permission)
        ensures
            PermissionSet::of_wire(self.wire()) == self,
            self@.contains(p) <==> p.is_flag() && (self.wire() >> (p.position() as u64)) & 1 == 1,
    {
    }

    /// A set is determined by its members.
    pub proof fn lemma_view_injective(a: PermissionSet, b: PermissionSet)
        requires
            a@ == b@,
        ensures
            a == b,
    {
        assert forall|i: u64| i < 64 implies #[trigger] bit(a.bits, i) == bit(b.bits, i) by {
            let p = Permission { index: i as u8 };
            assert(p.index as u64 == i);
            assert(a@.contains(p) == bit(a.bits, i));
            assert(b@.contains(p) == bit(b.bits, i));
        }
        lemma_same_bits(a.bits, b.bits);
    }

    /// The set without any flag.
    pub fn empty() -> (r: PermissionSet)
        ensures
            r@ == Set::<Permission>::empty(),
            r.wire() == 0,
    {
        let r = PermissionSet { bits: 0 };
        proof {
            assert forall|p: Permission| !r@.contains(p) by {
                if p.index < 64 {
                    lemma_bit_of_zero(p.index as u64);
                }
            }
            assert(r@ =~= Set::<Permission>::empty());
        }
        r
    }

    /// The set that a wire mask stands for. Every bit is kept, whether this
    /// library has a name for its flag or not.
    pub fn from_bits(bits: u64) -> (r: PermissionSet)
        ensures
            r == PermissionSet::of_wire(bits),
            r.wire() == bits,
    {
        PermissionSet { bits }
    }

    /// The wire mask of this set.
    pub fn bits(&self) -> (r: u64)
        ensures
            r == self.wire(),
    {
        self.bits
    }

    /// The set that holds `p` and nothing else.
    pub fn of(p: Permission) -> (r: PermissionSet)
        ensures
            r@ == set![p],
            r.wire() == 1u64 << (p.position() as u64),
    {
        proof {
            use_type_invariant(&p);
        }
        let r = PermissionSet { bits: 1u64 << (p.index as u64) };
        proof {
            assert forall|q: Permission| r@.contains(q) <==> q == p by {
                if q.index < 64 {
                    lemma_bit_of_single(p.index as u64, q.index as u64);
                }
            }
            assert(r@ =~= set![p]);
        }
        r
    }

    /// The flags of either set.
    pub fn union(&self, other: &PermissionSet) -> (r: PermissionSet)
        ensures
            r@ == self@.union(other@),
            r.wire() == self.wire() | other.wire(),
    {
        let r = PermissionSet { bits: self.bits | other.bits };
        proof {
            assert forall|p: Permission|
                r@.contains(p) <==> (self@.contains(p) || other@.contains(p)) by {
                if p.index < 64 {
                    lemma_bit_of_or(self.bits, other.bits, p.index as u64);
                }
            }
            assert(r@ =~= self@.union(other@));
        }
        r
    }

    /// The flags of this set that `other` does not hold.
    pub fn difference(&self, other: &PermissionSet) -> (r: PermissionSet)
        ensures
            r@ == self@.difference(other@),
            r.wire() == self.wire() & !other.wire(),
    {
        let r = PermissionSet { bits: self.bits & !other.bits };
        proof {
            assert forall|p: Permission|
                r@.contains(p) <==> (self@.contains(p) && !other@.contains(p)) by {
                if p.index < 64 {
                    lemma_bit_of_and_not(self.bits, other.bits, p.index as u64);
                }
            }
            assert(r@ =~= self@.difference(other@));
        }
        r
    }

    /// Whether `p` is in this set.
    pub fn contains(&self, p: Permission) -> (r: bool)
        ensures
            r == self@.contains(p),
    {
        proof {
            use_type_invariant(&p);
        }
        (self.bits >> (p.index as u64)) & 1 == 1
    }

    /// Whether every flag of `other` is in this set.
    pub fn contains_all(&self, other: &PermissionSet) -> (r: bool)
        ensures
            r == other@.subset_of(self@),
    {
        let both = PermissionSet { bits: self.bits & other.bits };
        proof {
            assert forall|p: Permission|
                both@.contains(p) <==> (self@.contains(p) && other@.contains(p)) by {
                if p.index < 64 {
                    lemma_bit_of_and(self.bits, other.bits, p.index as u64);
                }
            }
            if other@.subset_of(self@) {
                assert(both@ =~= other@);
                PermissionSet::lemma_view_injective(both, *other);
            }
            if both.bits == other.bits {
                assert(both@ =~= other@);
            }
        }
        both.bits == other.bits
    }

    /// Whether the two sets share no flag.
    pub fn is_disjoint(&self, other: &PermissionSet) -> (r: bool)
        ensures
            r == self@.disjoint(other@),
    {
        let both = PermissionSet { bits: self.bits & other.bits };
        let none = PermissionSet::empty();
        proof {
            assert forall|p: Permission|
                both@.contains(p) <==> (self@.contains(p) && other@.contains(p)) by {
                if p.index < 64 {
                    lemma_bit_of_and(self.bits, other.bits, p.index as u64);
                }
            }
            if self@.disjoint(other@) {
                assert(both@ =~= none@);
                PermissionSet::lemma_view_injective(both, none);
            }
            if both.bits == 0 {
                assert(both == none);
                assert forall|p: Permission| !(self@.contains(p) && other@.contains(p)) by {
                    assert(!both@.contains(p));
                }
            }
        }
        both.bits == 0
    }

    /// Whether the set holds no flag.
    pub fn is_empty(&self) -> (r: bool)
        ensures
            r == (self@ == Set::<Permission>::empty()),
    {
        let none = PermissionSet::empty();
        proof {
            if self@ == Set::<Permission>::empty() {
                PermissionSet::lemma_view_injective(*self, none);
            }
        }
        self.bits == 0
    }

    /// The flags that locking a channel for posting toggles.
    pub fn messaging() -> (r: PermissionSet)
        ensures
            r@ == PermissionSet::spec_messaging(),
            r.wire() == 0x40_0000_0800,
    {
        let a = PermissionSet::of(Permission::send_messages());
        let b = PermissionSet::of(Permission::send_messages_in_threads());
        let r = a.union(&b);
        proof {
            assert(r@ =~= PermissionSet::spec_messaging());
            assert((1u64 << 11u64) | (1u64 << 38u64) == 0x40_0000_0800) by (bit_vector);
        }
        r
    }

    /// The flags that hiding a channel toggles.
    pub fn viewing() -> (r: PermissionSet)
        ensures
            r@ == PermissionSet::spec_viewing(),
            r.wire() == 0x400,
    {
        proof {
            assert(1u64 << 10u64 == 0x400) by (bit_vector);
        }
        PermissionSet::of(Permission::view_channel())
    }
}

} // verus!
