//! Node numbers, launch identifiers, group numbers and actor addresses.
//!
//! An address is one 64-bit word, most significant bits first:
//! 16 bits of node number (zero for the local node), 8 bits of stored group
//! number and 40 bits of slot key. The bottom 48 bits are XORed with the
//! node's launch identifier, so that addresses of one launch are meaningless
//! to another. With a launch identifier of zero this is the plain layout.

use crate::text::{decimal, decimal_string, lemma_decimal_digits, push_decimal};
use std::collections::hash_map::RandomState;
use vstd::prelude::*;

verus! {

/// Position of the node number inside an address.
pub const NODE_NO_SHIFT: u64 = 48;

/// Position of the group number inside an address.
pub const GROUP_NO_SHIFT: u64 = 40;

/// The bits of an address that hold the slot key.
pub const SLOT_KEY_MASK: u64 = 0xFF_FFFF_FFFF;

/// The bits of an address below the node number.
pub const LOCAL_MASK: u64 = 0xFFFF_FFFF_FFFF;

/// Value hashed by a freshly seeded hasher to mint a launch identifier.
const LAUNCH_SALT: u64 = 0xE1F0E1F0E1F0E1F0;

// === Bit fields of an address ===

/// The node number stored in an address word.
pub open spec fn node_field(bits: u64) -> u16 {
    (bits >> 48u64) as u16
}

/// The group number stored in an address word.
pub open spec fn group_field(bits: u64) -> u8 {
    (bits >> 40u64) as u8
}

/// The stored (possibly obfuscated) slot key of an address word.
pub open spec fn bottom_field(bits: u64) -> u64 {
    bits & 0xFF_FFFF_FFFFu64
}

/// A word is an address iff it is null or it names a group.
pub open spec fn valid_addr_bits(bits: u64) -> bool {
    bits == 0 || group_field(bits) != 0
}

/// The stored form of the group number `no` under launch `launch_id`.
pub open spec fn stored_group_no(no: u8, launch_id: u64) -> u8 {
    let xor = (launch_id >> 40u64) as u8;
    if no != xor {
        no ^ xor
    } else {
        xor
    }
}

/// The word of a local address of slot `slot_key` in stored group `group`.
pub open spec fn local_addr_bits(slot_key: u64, group: u8, launch_id: u64) -> u64 {
    ((group as u64) << 40u64) | ((slot_key ^ launch_id) & 0xFF_FFFF_FFFFu64)
}

/// The word of `bits` moved to node `node`, when `bits` is a local address.
pub open spec fn remote_addr_bits(bits: u64, node: u16) -> u64 {
    if bits != 0 && node_field(bits) == 0 {
        bits | ((node as u64) << 48u64)
    } else {
        bits
    }
}

/// The text of an address: "null", "G/S" for a local one, "N/G/S" for a
/// remote one, where S is the stored slot key.
pub open spec fn addr_text(bits: u64) -> Seq<char> {
    if bits == 0 {
        seq!['n', 'u', 'l', 'l']
    } else if node_field(bits) == 0 {
        decimal(group_field(bits) as nat) + seq!['/'] + decimal(bottom_field(bits) as nat)
    } else {
        decimal(node_field(bits) as nat) + seq!['/'] + decimal(group_field(bits) as nat) + seq![
            '/',
        ] + decimal(bottom_field(bits) as nat)
    }
}

// === NodeNo ===

/// The number of a node in a cluster. Never zero: zero stands for the local
/// node.
#[derive(Debug, Clone, Copy, PartialEq, Eq, Hash, Structural)]
pub struct NodeNo(u16);

impl View for NodeNo {
    type V = u16;

    closed spec fn view(&self) -> u16 {
        self.0
    }
}

impl NodeNo {
    #[verifier::type_invariant]
    spec fn inv(self) -> bool {
        self.0 != 0
    }

    /// The node number whose bits are `bits`.
    pub closed spec fn spec_from_bits(bits: u16) -> NodeNo {
        NodeNo(bits)
    }

    /// A node number is the one its bits name.
    pub proof fn lemma_spec_from_bits(self, bits: u16)
        ensures
            Self::spec_from_bits(self@) == self,
            Self::spec_from_bits(bits)@ == bits,
    {
    }

    pub fn from_bits(bits: u16) -> (r: Option<NodeNo>)
        ensures
            r is None <==> bits == 0,
            r matches Some(x) ==> x@ == bits && x == Self::spec_from_bits(bits),
    {
        if bits == 0 {
            None
        } else {
            Some(NodeNo(bits))
        }
    }

    pub fn into_bits(self) -> (r: u16)
        ensures
            r == self@,
            r != 0,
    {
        proof {
            use_type_invariant(self);
        }
        self.0
    }

    /// The decimal number.
    pub fn to_string(&self) -> (r: String)
        ensures
            r@ == decimal(self@ as nat),
    {
        decimal_string(self.0 as u64)
    }
}

// === NodeLaunchId ===

/// Hashes `value` with a hasher built by `state`.
/// Relies on `BuildHasher::hash_one` of std's `RandomState`; the result
/// depends on the random keys the state was seeded with.
#[verifier::external_body]
fn hash_with_state(state: &RandomState, value: u64) -> u64 {
    std::hash::BuildHasher::hash_one(state, value)
}

/// Makes a hasher state with fresh random keys.
/// Relies on `RandomState::new`, which seeds the keys randomly per process.
#[verifier::external_body]
fn fresh_random_state() -> RandomState {
    RandomState::new()
}

/// Identifier generated randomly when a node starts. It tells launches of
/// one node apart and randomizes the node's local addresses.
#[derive(Debug, Clone, Copy, PartialEq, Eq, Hash, Structural)]
pub struct NodeLaunchId(u64);

impl View for NodeLaunchId {
    type V = u64;

    closed spec fn view(&self) -> u64 {
        self.0
    }
}

impl NodeLaunchId {
    /// Draws a new launch identifier from a randomly seeded hasher. Nothing
    /// is promised of its value.
    pub fn generate() -> (r: NodeLaunchId) {
        let state = fresh_random_state();
        NodeLaunchId(hash_with_state(&state, LAUNCH_SALT))
    }

    pub fn from_bits(bits: u64) -> (r: NodeLaunchId)
        ensures
            r@ == bits,
    {
        NodeLaunchId(bits)
    }

    pub fn into_bits(self) -> (r: u64)
        ensures
            r == self@,
    {
        self.0
    }

    /// The decimal number.
    pub fn to_string(&self) -> (r: String)
        ensures
            r@ == decimal(self@ as nat),
    {
        decimal_string(self.0)
    }
}

// === GroupNo ===

/// The number of an actor group inside a node, in its stored form. Never
/// zero: zero stands for the null address.
#[derive(Debug, Clone, Copy, PartialEq, Eq, Hash, Structural)]
pub struct GroupNo(u8);

impl View for GroupNo {
    type V = u8;

    closed spec fn view(&self) -> u8 {
        self.0
    }
}

proof fn lemma_stored_group_no_bits(no: u8, xor: u8)
    by (bit_vector)
    requires
        no != 0,
    ensures
        (if no != xor {
            no ^ xor
        } else {
            xor
        }) != 0,
{
}

impl GroupNo {
    #[verifier::type_invariant]
    spec fn inv(self) -> bool {
        self.0 != 0
    }

    /// The group number `no` as stored under launch `launch_id`: `no` XORed
    /// with bits 40..48 of the launch identifier, or that byte itself where
    /// the XOR would be zero. `None` iff `no` is zero.
    pub fn new(no: u8, launch_id: NodeLaunchId) -> (r: Option<GroupNo>)
        ensures
            r is None <==> no == 0,
            r matches Some(g) ==> g@ == stored_group_no(no, launch_id@),
    {
        if no == 0 {
            return None;
        }
        let xor = (launch_id.into_bits() >> GROUP_NO_SHIFT) as u8;
        let group_no = if no != xor {
            no ^ xor
        } else {
            xor
        };
        proof {
            lemma_stored_group_no_bits(no, xor);
        }
        Some(GroupNo(group_no))
    }

    /// The group number whose bits are `bits`.
    pub closed spec fn spec_from_bits(bits: u8) -> GroupNo {
        GroupNo(bits)
    }

    /// A group number is the one its bits name.
    pub proof fn lemma_spec_from_bits(self, bits: u8)
        ensures
            Self::spec_from_bits(self@) == self,
            Self::spec_from_bits(bits)@ == bits,
    {
    }

    pub fn from_bits(bits: u8) -> (r: Option<GroupNo>)
        ensures
            r is None <==> bits == 0,
            r matches Some(x) ==> x@ == bits && x == Self::spec_from_bits(bits),
    {
        if bits == 0 {
            None
        } else {
            Some(GroupNo(bits))
        }
    }

    pub fn into_bits(self) -> (r: u8)
        ensures
            r == self@,
            r != 0,
    {
        proof {
            use_type_invariant(self);
        }
        self.0
    }

    /// The decimal number.
    pub fn to_string(&self) -> (r: String)
        ensures
            r@ == decimal(self@ as nat),
    {
        decimal_string(self.0 as u64)
    }
}

// === Addr ===

/// The address of an actor or a group: one copyable word.
///
/// Null is the zero word; any other address names a nonzero group. Alive
/// actors of one node have distinct addresses, and the slot key carries a
/// generation that guards against reuse after removal.
#[derive(Debug, Clone, Copy, PartialEq, Eq, PartialOrd, Ord, Hash, Structural)]
pub struct Addr(u64);

impl View for Addr {
    type V = u64;

    closed spec fn view(&self) -> u64 {
        self.0
    }
}

proof fn lemma_local_addr_fields(slot_key: u64, group: u8, launch_id: u64)
    by (bit_vector)
    ensures
        ((((group as u64) << 40u64) | ((slot_key ^ launch_id) & 0xFF_FFFF_FFFFu64)) >> 48u64) as u16
            == 0,
        ((((group as u64) << 40u64) | ((slot_key ^ launch_id) & 0xFF_FFFF_FFFFu64)) >> 40u64) as u8
            == group,
        (((group as u64) << 40u64) | ((slot_key ^ launch_id) & 0xFF_FFFF_FFFFu64))
            & 0xFF_FFFF_FFFFu64 == (slot_key ^ launch_id) & 0xFF_FFFF_FFFFu64,
{
}

proof fn lemma_remote_addr_fields(bits: u64, node: u16)
    by (bit_vector)
    requires
        (bits >> 48u64) as u16 == 0,
    ensures
        ((bits | ((node as u64) << 48u64)) >> 48u64) as u16 == node,
        ((bits | ((node as u64) << 48u64)) >> 40u64) as u8 == (bits >> 40u64) as u8,
        (bits | ((node as u64) << 48u64)) & 0xFF_FFFF_FFFFu64 == bits & 0xFF_FFFF_FFFFu64,
{
}

proof fn lemma_local_mask_fields(bits: u64)
    by (bit_vector)
    ensures
        ((bits & 0xFFFF_FFFF_FFFFu64) >> 48u64) as u16 == 0,
        ((bits & 0xFFFF_FFFF_FFFFu64) >> 40u64) as u8 == (bits >> 40u64) as u8,
        (bits & 0xFFFF_FFFF_FFFFu64) & 0xFF_FFFF_FFFFu64 == bits & 0xFF_FFFF_FFFFu64,
        (bits & 0xFFFF_FFFF_FFFFu64 == 0) ==> (bits >> 40u64) as u8 == 0,
        (bits >> 48u64) as u16 == 0 ==> bits & 0xFFFF_FFFF_FFFFu64 == bits,
        bits == 0 ==> (bits >> 40u64) as u8 == 0 && bits & 0xFFFF_FFFF_FFFFu64 == 0,
{
}

impl Addr {
    #[verifier::type_invariant]
    spec fn inv(self) -> bool {
        valid_addr_bits(self.0)
    }

    /// The null address, the zero word.
    pub fn null() -> (r: Addr)
        ensures
            r@ == 0,
    {
        Addr(0)
    }

    /// The local address of slot `slot_key` in group `group_no`: the slot
    /// key is XORed with the low 40 bits of the launch identifier.
    pub fn new_local(slot_key: usize, group_no: GroupNo, launch_id: NodeLaunchId) -> (r: Addr)
        requires
            slot_key < 0x100_0000_0000,
        ensures
            r@ == local_addr_bits(slot_key as u64, group_no@, launch_id@),
    {
        let masked = ((slot_key as u64) ^ launch_id.into_bits()) & SLOT_KEY_MASK;
        proof {
            let lid = launch_id@;
            let s = slot_key as u64;
            assert(masked < 0x100_0000_0000u64 && (masked ^ 0u64) & 0xFF_FFFF_FFFFu64 == masked)
                by (bit_vector)
                requires
                    masked == (s ^ lid) & 0xFF_FFFF_FFFFu64,
            ;
        }
        Self::new_local_inner(masked, group_no)
    }

    fn new_local_inner(slot_key: u64, group_no: GroupNo) -> (r: Addr)
        requires
            slot_key < 0x100_0000_0000,
        ensures
            r@ == local_addr_bits(slot_key, group_no@, 0),
    {
        let group = group_no.into_bits();
        proof {
            assert(slot_key == (slot_key ^ 0u64) & 0xFF_FFFF_FFFFu64) by (bit_vector)
                requires
                    slot_key < 0x100_0000_0000u64,
            ;
            lemma_local_addr_fields(slot_key, group, 0);
        }
        Addr((group as u64) << GROUP_NO_SHIFT | slot_key)
    }

    /// The address held in `bits`, if it is one: null, or naming a group.
    pub fn from_bits(bits: u64) -> (r: Option<Addr>)
        ensures
            r is Some <==> valid_addr_bits(bits),
            r matches Some(a) ==> a@ == bits,
    {
        if bits == 0 || (bits >> GROUP_NO_SHIFT) as u8 != 0 {
            Some(Addr(bits))
        } else {
            None
        }
    }

    pub fn into_bits(self) -> (r: u64)
        ensures
            r == self@,
            valid_addr_bits(r),
    {
        proof {
            use_type_invariant(&self);
        }
        self.0
    }

    pub fn is_null(self) -> (r: bool)
        ensures
            r == (self@ == 0),
    {
        self.0 == 0
    }

    pub fn is_local(self) -> (r: bool)
        ensures
            r == (self@ != 0 && node_field(self@) == 0),
    {
        !self.is_null() && self.node_no().is_none()
    }

    pub fn is_remote(self) -> (r: bool)
        ensures
            r == (node_field(self@) != 0),
    {
        self.node_no().is_some()
    }

    /// The node number, `None` for a local or null address.
    pub fn node_no(self) -> (r: Option<NodeNo>)
        ensures
            r is None <==> node_field(self@) == 0,
            r matches Some(n) ==> n@ == node_field(self@),
    {
        NodeNo::from_bits((self.0 >> NODE_NO_SHIFT) as u16)
    }

    /// The stored group number, `None` only for the null address.
    pub fn group_no(self) -> (r: Option<GroupNo>)
        ensures
            r is None <==> self@ == 0,
            r matches Some(g) ==> g@ == group_field(self@),
    {
        proof {
            use_type_invariant(&self);
            lemma_local_mask_fields(self.0);
        }
        GroupNo::from_bits((self.0 >> GROUP_NO_SHIFT) as u8)
    }

    /// The node number and the stored group number, as the top 24 bits.
    pub fn node_no_group_no(self) -> (r: u32)
        ensures
            r == (self@ >> 40u64) as u32,
    {
        (self.0 >> GROUP_NO_SHIFT) as u32
    }

    /// The key of the address in the object slab: the whole word XORed with
    /// the launch identifier (the slab reads its low 40 bits only).
    pub fn slot_key(self, launch_id: NodeLaunchId) -> (r: usize)
        ensures
            r == (self@ ^ launch_id@) as usize,
    {
        (self.0 ^ launch_id.into_bits()) as usize
    }

    /// The same address as seen from another node, numbered `node_no`.
    /// Null and remote addresses are returned unchanged.
    pub fn into_remote(self, node_no: NodeNo) -> (r: Addr)
        ensures
            r@ == remote_addr_bits(self@, node_no@),
    {
        if self.is_local() {
            proof {
                use_type_invariant(&self);
                lemma_remote_addr_fields(self.0, node_no@);
            }
            Addr(self.0 | (node_no.into_bits() as u64) << NODE_NO_SHIFT)
        } else {
            self
        }
    }

    /// The same address with the node number cleared.
    pub fn into_local(self) -> (r: Addr)
        ensures
            r@ == self@ & 0xFFFF_FFFF_FFFFu64,
    {
        proof {
            use_type_invariant(&self);
            lemma_local_mask_fields(self.0);
        }
        Addr(self.0 & LOCAL_MASK)
    }

    /// "null", "G/S" for a local address and "N/G/S" for a remote one, where
    /// S is the stored slot key.
    pub fn to_string(&self) -> (r: String)
        ensures
            r@ == addr_text(self@),
    {
        proof {
            reveal_strlit("null");
            reveal_strlit("/");
        }
        if self.0 == 0 {
            let r = String::from_str("null");
            assert(r@ =~= addr_text(self@));
            return r;
        }
        let bottom = self.0 & SLOT_KEY_MASK;
        let group = (self.0 >> GROUP_NO_SHIFT) as u8;
        let node = (self.0 >> NODE_NO_SHIFT) as u16;
        let mut r = String::new();
        if node != 0 {
            push_decimal(&mut r, node as u64);
            r.append("/");
        }
        push_decimal(&mut r, group as u64);
        r.append("/");
        push_decimal(&mut r, bottom);
        assert(r@ =~= addr_text(self@));
        r
    }
}

// === SlabConfig ===

/// Layout of the object slab that stores live actors. Its keys must use
/// exactly the 40 bits of an address's slot key on a 64-bit host (all 32 bits
/// of a key on a 32-bit host): the reserved high bits keep the group and node
/// numbers untouched.
#[derive(Debug, Clone, Copy, PartialEq, Eq)]
pub struct SlabConfig {}

impl SlabConfig {
    /// Slots in the first page of each shard.
    pub const INITIAL_PAGE_SIZE: usize = 32;

    /// Pages in each shard.
    pub const MAX_PAGES: usize = 15;

    /// Threads that may insert into the slab.
    pub const MAX_THREADS: usize = 256;

    /// High bits of each key left to the address.
    pub const RESERVED_BITS: usize = 24;

    /// Bits of each key that the slab uses: those of the slot key.
    pub const USED_BITS: usize = 40;

    /// Slots in the first page of each shard, on a 32-bit host.
    pub const INITIAL_PAGE_SIZE_32: usize = 32;

    /// Pages in each shard, on a 32-bit host.
    pub const MAX_PAGES_32: usize = 12;

    /// Threads that may insert into the slab, on a 32-bit host.
    pub const MAX_THREADS_32: usize = 64;

    /// High bits of each key left to the address, on a 32-bit host.
    pub const RESERVED_BITS_32: usize = 0;

    /// Bits of each key that the slab uses, on a 32-bit host.
    pub const USED_BITS_32: usize = 32;
}

// === Laws ===

/// Two addresses with the same word are the same address; likewise for node
/// and group numbers.
pub proof fn lemma_view_injective(a: Addr, b: Addr, m: NodeNo, n: NodeNo, g: GroupNo, h: GroupNo)
    ensures
        a@ == b@ ==> a == b,
        m@ == n@ ==> m == n,
        g@ == h@ ==> g == h,
{
}

/// For any fixed launch identifier, storing a group number maps 1..=255 one
/// to one onto 1..=255: every stored number is nonzero, distinct numbers stay
/// distinct, and every nonzero byte is the stored form of some number.
pub proof fn lemma_group_no_bijection(launch_id: u64, a: u8, b: u8, c: u8)
    requires
        a != 0,
        b != 0,
        c != 0,
    ensures
        stored_group_no(a, launch_id) != 0,
        stored_group_no(a, launch_id) == stored_group_no(b, launch_id) ==> a == b,
        exists|d: u8| d != 0 && #[trigger] stored_group_no(d, launch_id) == c,
{
    let x = (launch_id >> 40u64) as u8;
    let d: u8 = if c == x {
        x
    } else {
        c ^ x
    };
    assert(d != 0 && (if d != x {
        d ^ x
    } else {
        x
    }) == c) by (bit_vector)
        requires
            c != 0,
            d == (if c == x {
                x
            } else {
                c ^ x
            }),
    ;
    assert(stored_group_no(d, launch_id) == c);
    assert((if a != x {
        a ^ x
    } else {
        x
    }) != 0 && ((if a != x {
        a ^ x
    } else {
        x
    }) == (if b != x {
        b ^ x
    } else {
        x
    }) ==> a == b)) by (bit_vector)
        requires
            a != 0,
            b != 0,
    ;
}

/// Within one launch, distinct pairs of slot key and group number give
/// distinct local addresses. With a launch identifier of zero this is the
/// plain layout.
pub proof fn lemma_local_addr_unique(s1: u64, g1: u8, s2: u64, g2: u8, launch_id: u64)
    requires
        s1 < 0x100_0000_0000,
        s2 < 0x100_0000_0000,
        local_addr_bits(s1, g1, launch_id) == local_addr_bits(s2, g2, launch_id),
    ensures
        s1 == s2,
        g1 == g2,
{
    assert(s1 == s2 && g1 == g2) by (bit_vector)
        requires
            s1 < 0x100_0000_0000u64,
            s2 < 0x100_0000_0000u64,
            ((g1 as u64) << 40u64) | ((s1 ^ launch_id) & 0xFF_FFFF_FFFFu64) == ((g2 as u64)
                << 40u64) | ((s2 ^ launch_id) & 0xFF_FFFF_FFFFu64),
    ;
}

/// A local address made of a slot key and a nonzero group number is a valid,
/// non-null, local word naming that group; clearing its node number leaves it
/// unchanged; and its slab key, cut to 40 bits, is the slot key it was made from.
pub proof fn lemma_local_addr_round_trip(slot_key: u64, group: u8, launch_id: u64)
    requires
        slot_key < 0x100_0000_0000,
        group != 0,
    ensures
        valid_addr_bits(local_addr_bits(slot_key, group, launch_id)),
        local_addr_bits(slot_key, group, launch_id) != 0,
        node_field(local_addr_bits(slot_key, group, launch_id)) == 0,
        group_field(local_addr_bits(slot_key, group, launch_id)) == group,
        local_addr_bits(slot_key, group, launch_id) & 0xFFFF_FFFF_FFFFu64 == local_addr_bits(
            slot_key,
            group,
            launch_id,
        ),
        (local_addr_bits(slot_key, group, launch_id) ^ launch_id) & 0xFF_FFFF_FFFFu64 == slot_key,
{
    let b = local_addr_bits(slot_key, group, launch_id);
    lemma_local_addr_fields(slot_key, group, launch_id);
    lemma_local_mask_fields(b);
    assert((b ^ launch_id) & 0xFF_FFFF_FFFFu64 == slot_key) by (bit_vector)
        requires
            slot_key < 0x100_0000_0000u64,
            b == ((group as u64) << 40u64) | ((slot_key ^ launch_id) & 0xFF_FFFF_FFFFu64),
    ;
    assert(b != 0) by (bit_vector)
        requires
            group != 0,
            (b >> 40u64) as u8 == group,
    ;
}

/// The null word reads as "null", names no node and no group, and stays null
/// when its node number is cleared or set.
pub proof fn lemma_null_addr(node: u16)
    ensures
        addr_text(0) == seq!['n', 'u', 'l', 'l'],
        valid_addr_bits(0),
        node_field(0) == 0,
        group_field(0) == 0,
        0u64 & 0xFFFF_FFFF_FFFFu64 == 0,
        remote_addr_bits(0, node) == 0,
{
    lemma_local_mask_fields(0);
}

/// Moving a local address to node `node` makes it remote, keeps its group
/// number and slot, names `node`, and its text becomes "N/G/S": three parts,
/// the first the node number.
pub proof fn lemma_into_remote(bits: u64, node: u16)
    requires
        valid_addr_bits(bits),
        bits != 0,
        node_field(bits) == 0,
        node != 0,
    ensures
        remote_addr_bits(bits, node) != 0,
        node_field(remote_addr_bits(bits, node)) == node,
        group_field(remote_addr_bits(bits, node)) == group_field(bits),
        bottom_field(remote_addr_bits(bits, node)) == bottom_field(bits),
        valid_addr_bits(remote_addr_bits(bits, node)),
        addr_text(remote_addr_bits(bits, node)) == decimal(node as nat) + seq!['/'] + decimal(
            group_field(bits) as nat,
        ) + seq!['/'] + decimal(bottom_field(bits) as nat),
        forall|i: int|
            0 <= i < addr_text(remote_addr_bits(bits, node)).len() && #[trigger] addr_text(
                remote_addr_bits(bits, node),
            )[i] == '/' ==> i == decimal(node as nat).len() || i == decimal(node as nat).len() + 1
                + decimal(group_field(bits) as nat).len(),
{
    lemma_remote_addr_fields(bits, node);
    let r = remote_addr_bits(bits, node);
    assert(r != 0) by (bit_vector)
        requires
            node != 0,
            (r >> 48u64) as u16 == node,
    ;
    lemma_decimal_digits(node as nat);
    lemma_decimal_digits(group_field(bits) as nat);
    lemma_decimal_digits(bottom_field(bits) as nat);
    let t = addr_text(r);
    let n1 = decimal(node as nat).len();
    let n2 = decimal(group_field(bits) as nat).len();
    assert forall|i: int| 0 <= i < t.len() && #[trigger] t[i] == '/' implies i == n1 || i == n1
        + 1 + n2 by {
        if i < n1 {
            assert(t[i] == decimal(node as nat)[i]);
        } else if n1 < i < n1 + 1 + n2 {
            assert(t[i] == decimal(group_field(bits) as nat)[i - n1 - 1]);
        } else if i > n1 + 1 + n2 {
            assert(t[i] == decimal(bottom_field(bits) as nat)[i - n1 - 2 - n2]);
        }
    }
}

} // verus!
