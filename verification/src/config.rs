//! Engine configuration: the immutable knobs shared by everything
//! downstream, their consistency rule, and the fingerprint that ties a
//! precompiled artifact to the configuration it was built for.

use vstd::prelude::*;

verus! {

/// Address-space budget for one linear memory reservation: the static
/// memory size plus its guard region must fit below this bound (64 TiB).
pub const MAX_MEMORY_RESERVATION: u64 = 0x4000_0000_0000;

/// Number of bytes in an engine-configuration fingerprint.
pub const FINGERPRINT_LEN: usize = 19;

/// The recognized configuration surface of an engine.
#[derive(Clone, Copy, PartialEq, Eq, Structural, Debug)]
pub struct HostConfig {
    /// Largest linear memory reservable without relocation, in bytes.
    pub static_memory_max_size: u64,
    /// Unmapped guard region after each memory, in bytes: turns small
    /// out-of-bounds accesses into immediate faults.
    pub static_memory_guard_size: u64,
    /// Preserve source-location metadata for traps and backtraces.
    pub debug_info: bool,
    /// Track a deterministic fuel budget in every store.
    pub fuel_metering: bool,
    /// Expose a live interruption control in every store.
    pub interruptible: bool,
}

impl HostConfig {
    /// A configuration is consistent when the memory reservation and its
    /// guard region together fit in the address-space budget.
    pub open spec fn valid_spec(self) -> bool {
        self.static_memory_max_size + self.static_memory_guard_size <= MAX_MEMORY_RESERVATION
    }

    /// Checks the consistency rule.
    pub fn valid(&self) -> (r: bool)
        ensures
            r == self.valid_spec(),
    {
        self.static_memory_max_size <= MAX_MEMORY_RESERVATION
            && self.static_memory_guard_size
                <= MAX_MEMORY_RESERVATION - self.static_memory_max_size
    }
}

/// Little-endian byte decomposition of a 64-bit word.
pub open spec fn u64_le_bytes_spec(x: u64) -> Seq<u8> {
    seq![
        (x & 0xff) as u8,
        ((x >> 8u64) & 0xff) as u8,
        ((x >> 16u64) & 0xff) as u8,
        ((x >> 24u64) & 0xff) as u8,
        ((x >> 32u64) & 0xff) as u8,
        ((x >> 40u64) & 0xff) as u8,
        ((x >> 48u64) & 0xff) as u8,
        ((x >> 56u64) & 0xff) as u8,
    ]
}

/// One byte standing for a flag.
pub open spec fn bool_byte(b: bool) -> u8 {
    if b { 1u8 } else { 0u8 }
}

/// The fingerprint embedded in every artifact: both memory bounds in
/// little-endian order, then the three flag bytes.
pub open spec fn fingerprint_spec(c: HostConfig) -> Seq<u8> {
    u64_le_bytes_spec(c.static_memory_max_size)
        + u64_le_bytes_spec(c.static_memory_guard_size)
        + seq![bool_byte(c.debug_info), bool_byte(c.fuel_metering), bool_byte(c.interruptible)]
}

/// Writes the little-endian bytes of `x`.
pub fn u64_le_bytes(x: u64) -> (r: Vec<u8>)
    ensures
        r@ == u64_le_bytes_spec(x),
{
    let mut r: Vec<u8> = Vec::new();
    r.push((x & 0xff) as u8);
    r.push(((x >> 8u64) & 0xff) as u8);
    r.push(((x >> 16u64) & 0xff) as u8);
    r.push(((x >> 24u64) & 0xff) as u8);
    r.push(((x >> 32u64) & 0xff) as u8);
    r.push(((x >> 40u64) & 0xff) as u8);
    r.push(((x >> 48u64) & 0xff) as u8);
    r.push(((x >> 56u64) & 0xff) as u8);
    proof {
        assert(r@ =~= u64_le_bytes_spec(x));
    }
    r
}

/// Computes the fingerprint of a configuration.
pub fn fingerprint(c: &HostConfig) -> (r: Vec<u8>)
    ensures
        r@ == fingerprint_spec(*c),
        r@.len() == FINGERPRINT_LEN,
{
    let mut r = u64_le_bytes(c.static_memory_max_size);
    let mut guard = u64_le_bytes(c.static_memory_guard_size);
    let mut i: usize = 0;
    while i < guard.len()
        invariant
            0 <= i <= guard@.len(),
            guard@ == u64_le_bytes_spec(c.static_memory_guard_size),
            r@ == u64_le_bytes_spec(c.static_memory_max_size) + guard@.subrange(0, i as int),
        decreases guard@.len() - i,
    {
        let b = guard[i];
        r.push(b);
        proof {
            assert(r@ =~= u64_le_bytes_spec(c.static_memory_max_size)
                + guard@.subrange(0, i + 1 as int));
        }
        i += 1;
    }
    r.push(if c.debug_info { 1 } else { 0 });
    r.push(if c.fuel_metering { 1 } else { 0 });
    r.push(if c.interruptible { 1 } else { 0 });
    proof {
        assert(guard@.subrange(0, guard@.len() as int) =~= guard@);
        assert(r@ =~= fingerprint_spec(*c));
    }
    r
}

/// Little-endian decomposition is injective.
pub proof fn lemma_u64_le_bytes_injective(x: u64, y: u64)
    requires
        u64_le_bytes_spec(x) == u64_le_bytes_spec(y),
    ensures
        x == y,
{
    assert(u64_le_bytes_spec(x)[0] == u64_le_bytes_spec(y)[0]);
    assert(u64_le_bytes_spec(x)[1] == u64_le_bytes_spec(y)[1]);
    assert(u64_le_bytes_spec(x)[2] == u64_le_bytes_spec(y)[2]);
    assert(u64_le_bytes_spec(x)[3] == u64_le_bytes_spec(y)[3]);
    assert(u64_le_bytes_spec(x)[4] == u64_le_bytes_spec(y)[4]);
    assert(u64_le_bytes_spec(x)[5] == u64_le_bytes_spec(y)[5]);
    assert(u64_le_bytes_spec(x)[6] == u64_le_bytes_spec(y)[6]);
    assert(u64_le_bytes_spec(x)[7] == u64_le_bytes_spec(y)[7]);
    assert(x == y) by (bit_vector)
        requires
            (x & 0xff) as u8 == (y & 0xff) as u8,
            ((x >> 8u64) & 0xff) as u8 == ((y >> 8u64) & 0xff) as u8,
            ((x >> 16u64) & 0xff) as u8 == ((y >> 16u64) & 0xff) as u8,
            ((x >> 24u64) & 0xff) as u8 == ((y >> 24u64) & 0xff) as u8,
            ((x >> 32u64) & 0xff) as u8 == ((y >> 32u64) & 0xff) as u8,
            ((x >> 40u64) & 0xff) as u8 == ((y >> 40u64) & 0xff) as u8,
            ((x >> 48u64) & 0xff) as u8 == ((y >> 48u64) & 0xff) as u8,
            ((x >> 56u64) & 0xff) as u8 == ((y >> 56u64) & 0xff) as u8,
    ;
}

/// Two configurations with the same fingerprint are the same configuration,
/// so a fingerprint check can never confuse engines.
pub proof fn lemma_fingerprint_injective(c1: HostConfig, c2: HostConfig)
    requires
        fingerprint_spec(c1) == fingerprint_spec(c2),
    ensures
        c1 == c2,
{
    let f1 = fingerprint_spec(c1);
    let f2 = fingerprint_spec(c2);
    assert(u64_le_bytes_spec(c1.static_memory_max_size)
        =~= u64_le_bytes_spec(c2.static_memory_max_size)) by {
        assert forall|i: int| 0 <= i < 8 implies u64_le_bytes_spec(c1.static_memory_max_size)[i]
            == u64_le_bytes_spec(c2.static_memory_max_size)[i] by {
            assert(f1[i] == f2[i]);
        }
    }
    assert(u64_le_bytes_spec(c1.static_memory_guard_size)
        =~= u64_le_bytes_spec(c2.static_memory_guard_size)) by {
        assert forall|i: int| 0 <= i < 8 implies u64_le_bytes_spec(c1.static_memory_guard_size)[i]
            == u64_le_bytes_spec(c2.static_memory_guard_size)[i] by {
            assert(f1[i + 8] == f2[i + 8]);
        }
    }
    lemma_u64_le_bytes_injective(c1.static_memory_max_size, c2.static_memory_max_size);
    lemma_u64_le_bytes_injective(c1.static_memory_guard_size, c2.static_memory_guard_size);
    assert(f1[16] == f2[16]);
    assert(f1[17] == f2[17]);
    assert(f1[18] == f2[18]);
    assert(bool_byte(c1.debug_info) == bool_byte(c2.debug_info));
    assert(bool_byte(c1.fuel_metering) == bool_byte(c2.fuel_metering));
    assert(bool_byte(c1.interruptible) == bool_byte(c2.interruptible));
}

} // verus!
