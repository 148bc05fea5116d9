//! Jobs supplied by clients and the block headers built from them.
use vstd::prelude::*;
use crate::hashing::{sha256_midstate, sha256_midstate_of, sha256d, sha256d_of, DHash};

verus! {

/// Identity of a node of the mining hierarchy (a client, a hub or a solver).
pub type NodeId = u64;

/// A 256-bit target, least significant byte first.
pub type Target = [u8; 32];

/// Little-endian encoding of a 32-bit word.
pub open spec fn le_bytes(x: u32) -> Seq<u8> {
    seq![
        (x % 256) as u8,
        ((x / 256) % 256) as u8,
        ((x / 65536) % 256) as u8,
        (x / 16777216) as u8,
    ]
}

/// The 32-bit word whose little-endian encoding starts at `b[at]`.
pub open spec fn le_word(b: Seq<u8>, at: int) -> u32 {
    (b[at] as int + 256 * b[at + 1] as int + 65536 * b[at + 2] as int
        + 16777216 * b[at + 3] as int) as u32
}

/// An upstream mining job: the template of a block header.
///
/// `origin` names the client that supplied the job. The job does not keep that
/// client alive: whether it still exists is decided where solutions are routed.
#[derive(Clone, Copy, Debug)]
pub struct Job {
    pub version: u32,
    pub version_mask: u32,
    pub previous_hash: DHash,
    pub merkle_root: DHash,
    pub time: u32,
    pub bits: u32,
    pub target: Target,
    pub valid: bool,
    pub origin: NodeId,
}

impl Job {
    /// The last four bytes of the merkle root, read as a little-endian word.
    pub fn merkle_root_tail(&self) -> (r: u32)
        ensures
            r == le_word(self.merkle_root@, 28),
    {
        let b0 = self.merkle_root[28] as u32;
        let b1 = self.merkle_root[29] as u32;
        let b2 = self.merkle_root[30] as u32;
        let b3 = self.merkle_root[31] as u32;
        b0 + 256 * b1 + 65536 * b2 + 16777216 * b3
    }
}

/// A block header: a job with a chosen version, time and nonce.
#[derive(Clone, Copy, Debug)]
pub struct BlockHeader {
    pub version: u32,
    pub previous_hash: DHash,
    pub merkle_root: DHash,
    pub time: u32,
    pub bits: u32,
    pub nonce: u32,
}

/// The 80-byte serialisation of a block header.
pub open spec fn header_bytes(h: BlockHeader) -> Seq<u8> {
    le_bytes(h.version) + h.previous_hash@ + h.merkle_root@ + le_bytes(h.time) + le_bytes(h.bits)
        + le_bytes(h.nonce)
}

/// The first 64 bytes of a header with the given version: the part that does not
/// depend on time, bits or nonce.
pub open spec fn first_chunk(version: u32, previous_hash: Seq<u8>, merkle_root: Seq<u8>) -> Seq<u8> {
    le_bytes(version) + previous_hash + merkle_root.take(28)
}

/// The midstate of a header with the given version over a job.
pub open spec fn midstate_spec(job: Job, version: u32) -> Seq<u8> {
    sha256_midstate_of(first_chunk(version, job.previous_hash@, job.merkle_root@))
}

fn push_le(out: &mut Vec<u8>, x: u32)
    ensures
        final(out)@ == old(out)@ + le_bytes(x),
{
    out.push((x % 256) as u8);
    out.push(((x / 256) % 256) as u8);
    out.push(((x / 65536) % 256) as u8);
    out.push((x / 16777216) as u8);
    assert(final(out)@ =~= old(out)@ + le_bytes(x));
}

fn push_bytes(out: &mut Vec<u8>, b: &[u8; 32], len: usize)
    requires
        len <= 32,
    ensures
        final(out)@ == old(out)@ + b@.take(len as int),
{
    let ghost start = out@;
    let mut i: usize = 0;
    while i < len
        invariant
            i <= len <= 32,
            out@ == start + b@.take(i as int),
        decreases len - i,
    {
        out.push(b[i]);
        i += 1;
        assert(out@ =~= start + b@.take(i as int));
    }
}

impl BlockHeader {
    /// Serialises the header into its 80 bytes.
    pub fn to_bytes(&self) -> (r: Vec<u8>)
        ensures
            r@ == header_bytes(*self),
            r@.len() == 80,
    {
        let mut out: Vec<u8> = Vec::new();
        push_le(&mut out, self.version);
        push_bytes(&mut out, &self.previous_hash, 32);
        push_bytes(&mut out, &self.merkle_root, 32);
        push_le(&mut out, self.time);
        push_le(&mut out, self.bits);
        push_le(&mut out, self.nonce);
        assert(self.previous_hash@.take(32) =~= self.previous_hash@);
        assert(self.merkle_root@.take(32) =~= self.merkle_root@);
        out
    }

    /// The double hash of the serialised header.
    pub fn hash(&self) -> (r: DHash)
        ensures
            r@ == sha256d_of(header_bytes(*self)),
    {
        let bytes = self.to_bytes();
        sha256d(&bytes)
    }
}

/// The SHA-256 state after the first 64 bytes of a header with `version` over `job`.
pub fn job_midstate(job: &Job, version: u32) -> (r: [u8; 32])
    ensures
        r@ == midstate_spec(*job, version),
{
    let mut out: Vec<u8> = Vec::new();
    push_le(&mut out, version);
    push_bytes(&mut out, &job.previous_hash, 32);
    push_bytes(&mut out, &job.merkle_root, 28);
    assert(job.previous_hash@.take(32) =~= job.previous_hash@);
    sha256_midstate(&out)
}

/// Byte `k` (0, 1 or 2) of the mantissa of a compact target.
pub open spec fn mantissa_byte(bits: u32, k: int) -> u8 {
    if k == 0 {
        (bits % 256) as u8
    } else if k == 1 {
        ((bits / 256) % 256) as u8
    } else {
        ((bits / 65536) % 128) as u8
    }
}

/// Number of significant bytes of a compact target.
pub open spec fn compact_exponent(bits: u32) -> int {
    (bits / 16777216) as int
}

/// Byte `i` (least significant first) of the target that `bits` encodes: the
/// mantissa shifted up by `exponent - 3` bytes.
pub open spec fn compact_target_byte(bits: u32, i: int) -> u8 {
    let k = i + 3 - compact_exponent(bits);
    if 0 <= k < 3 {
        mantissa_byte(bits, k)
    } else {
        0
    }
}

/// `bits` encodes a non-negative target that fits in 256 bits.
pub open spec fn compact_is_valid(bits: u32) -> bool {
    &&& !((bits / 0x800000) % 2 == 1 && bits % 0x800000 != 0)
    &&& forall|k: int| 0 <= k < 3 && mantissa_byte(bits, k) != 0 ==> k + compact_exponent(bits) - 3 < 32
}

/// The target that a valid compact encoding stands for.
pub fn compact_target(bits: u32) -> (r: Option<Target>)
    ensures
        r is Some <==> compact_is_valid(bits),
        r matches Some(t) ==> t@ == Seq::new(32, |i: int| compact_target_byte(bits, i)),
{
    let exponent = (bits / 16777216) as usize;
    let m0 = (bits % 256) as u8;
    let m1 = ((bits / 256) % 256) as u8;
    let m2 = ((bits / 65536) % 128) as u8;
    if (bits / 0x800000) % 2 == 1 && bits % 0x800000 != 0 {
        return None;
    }
    if (m0 != 0 && exponent > 34) || (m1 != 0 && exponent > 33) || (m2 != 0 && exponent > 32) {
        assert(!compact_is_valid(bits)) by {
            if m0 != 0 && exponent > 34 {
                assert(mantissa_byte(bits, 0) != 0);
            } else if m1 != 0 && exponent > 33 {
                assert(mantissa_byte(bits, 1) != 0);
            } else {
                assert(mantissa_byte(bits, 2) != 0);
            }
        }
        return None;
    }
    assert forall|k: int| 0 <= k < 3 && mantissa_byte(bits, k) != 0 implies k + compact_exponent(bits) - 3 < 32 by {
        if k == 0 {
            assert(m0 != 0);
        } else if k == 1 {
            assert(m1 != 0);
        } else {
            assert(m2 != 0);
        }
    }
    let mut t: Target = [0u8; 32];
    let mut i: usize = 0;
    while i < 32
        invariant
            i <= 32,
            exponent == compact_exponent(bits),
            exponent <= 255,
            m0 == mantissa_byte(bits, 0),
            m1 == mantissa_byte(bits, 1),
            m2 == mantissa_byte(bits, 2),
            t@.len() == 32,
            forall|j: int| 0 <= j < i ==> t@[j] == compact_target_byte(bits, j),
            forall|j: int| i <= j < 32 ==> t@[j] == 0,
        decreases 32 - i,
    {
        if i + 3 >= exponent && i + 3 - exponent < 3 {
            let k = i + 3 - exponent;
            let b = if k == 0 {
                m0
            } else if k == 1 {
                m1
            } else {
                m2
            };
            t[i] = b;
        }
        i += 1;
    }
    assert(t@ =~= Seq::new(32, |i: int| compact_target_byte(bits, i)));
    Some(t)
}

} // verus!
