//! Bit-level arithmetic of the I²C byte protocol: how a byte is taken apart
//! into bits sent MSB-first, how eight sampled bits are assembled back into a
//! byte, how an address byte decodes into an operation, and which bit-slots
//! of a transmitted byte need a fresh drive of the data line.

use vstd::prelude::*;

verus! {

/// The operation a master asked for, decoded from the address byte.
///
/// The variant names the slave's role: `Write(a)` means the master is writing,
/// hence the slave reads; `Read(a)` means the master reads from the slave.
/// Each carries the 7-bit address.
#[derive(Debug, Clone, Copy, PartialEq, Eq, Structural)]
pub enum I2CSlaveOp {
    Read(u8),
    Write(u8),
}

/// Bit `n` of `b` counted MSB-first: `nth_bit(b, 0)` is the topmost bit.
pub open spec fn nth_bit(b: u8, n: int) -> u8
    recommends
        0 <= n < 8,
{
    (b >> ((7 - n) as u8)) & 1
}

/// The eight bits of `b`, MSB first: exactly the order the bus carries them.
pub open spec fn bits_of(b: u8) -> Seq<u8> {
    Seq::new(8, |i: int| nth_bit(b, i))
}

/// The byte assembled from the first `k` entries of `s`, each placed
/// MSB-first: entry `i` lands on bit `7 - i`.
pub open spec fn assemble_upto(s: Seq<u8>, k: int) -> u8
    decreases k,
{
    if k <= 0 {
        0
    } else {
        assemble_upto(s, k - 1) | ((s[k - 1] & 1) << ((8 - k) as u8))
    }
}

/// The byte assembled from a sequence of eight sampled bits, MSB first.
pub open spec fn assemble_bits(s: Seq<u8>) -> u8 {
    assemble_upto(s, 8)
}

/// The operation encoded by an address byte: the low bit is the direction
/// (1 means the master writes, so the slave reads), the upper seven bits are
/// the address.
pub open spec fn decode_op(b: u8) -> I2CSlaveOp {
    if b & 1 == 1 {
        I2CSlaveOp::Write(b >> 1)
    } else {
        I2CSlaveOp::Read(b >> 1)
    }
}

/// What the transmitter does to the data line as bit-slot `n` of `b` begins:
/// drive a fresh value, or hold the one already driven. Slot 0 is always a
/// fresh drive; a later slot drives only when its bit differs from the
/// previous one.
pub open spec fn drive_action(b: u8, n: int) -> Option<u8>
    recommends
        0 <= n < 8,
{
    if n <= 0 {
        Some(nth_bit(b, 0))
    } else if nth_bit(b, n) == nth_bit(b, n - 1) {
        None
    } else {
        Some(nth_bit(b, n))
    }
}

/// The values actually driven onto the data line while sending the first `k`
/// bit-slots of `b`, in order: the compressed form of `bits_of(b)`.
pub open spec fn drive_writes_upto(b: u8, k: int) -> Seq<u8>
    decreases k,
{
    if k <= 0 {
        Seq::empty()
    } else {
        match drive_action(b, k - 1) {
            Some(v) => drive_writes_upto(b, k - 1).push(v),
            None => drive_writes_upto(b, k - 1),
        }
    }
}

/// The values driven onto the data line over a whole byte transmission.
pub open spec fn drive_writes(b: u8) -> Seq<u8> {
    drive_writes_upto(b, 8)
}

/// The level the data line holds during bit-slot `n` of a transmission of
/// `b`: the value of the latest drive action at or before slot `n`.
pub open spec fn presented_level(b: u8, n: int) -> u8
    recommends
        0 <= n < 8,
    decreases n,
{
    match drive_action(b, n) {
        Some(v) => v,
        None => {
            if n <= 0 {
                nth_bit(b, 0)
            } else {
                presented_level(b, n - 1)
            }
        },
    }
}

/// `assemble_upto` looks only at the first `k` entries: two sequences that
/// agree there assemble alike.
pub proof fn lemma_assemble_upto_prefix(s1: Seq<u8>, s2: Seq<u8>, k: int)
    requires
        k <= s1.len(),
        k <= s2.len(),
        forall|i: int| 0 <= i < k ==> s1[i] == s2[i],
    ensures
        assemble_upto(s1, k) == assemble_upto(s2, k),
    decreases k,
{
    if k > 0 {
        lemma_assemble_upto_prefix(s1, s2, k - 1);
    }
}

/// Appending one sampled bit extends the assembled byte by exactly that bit
/// at the next MSB-first position.
pub proof fn lemma_assemble_push(s: Seq<u8>, v: u8)
    requires
        s.len() < 8,
    ensures
        assemble_upto(s.push(v), s.len() as int + 1) == (assemble_upto(s, s.len() as int) | ((v
            & 1) << ((7 - s.len()) as u8))),
{
    lemma_assemble_upto_prefix(s.push(v), s, s.len() as int);
}

/// Assembling the eight bits of a byte, MSB first, yields that byte back:
/// a receiver that samples exactly the bits a byte was split into recovers
/// the byte.
pub proof fn lemma_byte_round_trip(b: u8)
    ensures
        assemble_bits(bits_of(b)) == b,
{
    let s = bits_of(b);
    let v0 = s[0];
    let v1 = s[1];
    let v2 = s[2];
    let v3 = s[3];
    let v4 = s[4];
    let v5 = s[5];
    let v6 = s[6];
    let v7 = s[7];
    assert(assemble_upto(s, 0) == 0);
    assert(assemble_upto(s, 1) == assemble_upto(s, 0) | ((v0 & 1) << 7u8));
    assert(assemble_upto(s, 2) == assemble_upto(s, 1) | ((v1 & 1) << 6u8));
    assert(assemble_upto(s, 3) == assemble_upto(s, 2) | ((v2 & 1) << 5u8));
    assert(assemble_upto(s, 4) == assemble_upto(s, 3) | ((v3 & 1) << 4u8));
    assert(assemble_upto(s, 5) == assemble_upto(s, 4) | ((v4 & 1) << 3u8));
    assert(assemble_upto(s, 6) == assemble_upto(s, 5) | ((v5 & 1) << 2u8));
    assert(assemble_upto(s, 7) == assemble_upto(s, 6) | ((v6 & 1) << 1u8));
    assert(assemble_upto(s, 8) == assemble_upto(s, 7) | ((v7 & 1) << 0u8));
    assert(((((((((0 | ((v0 & 1) << 7u8)) | ((v1 & 1) << 6u8)) | ((v2 & 1) << 5u8)) | ((v3 & 1)
        << 4u8)) | ((v4 & 1) << 3u8)) | ((v5 & 1) << 2u8)) | ((v6 & 1) << 1u8)) | ((v7 & 1)
        << 0u8)) == b) by (bit_vector)
        requires
            v0 == (b >> 7u8) & 1,
            v1 == (b >> 6u8) & 1,
            v2 == (b >> 5u8) & 1,
            v3 == (b >> 4u8) & 1,
            v4 == (b >> 3u8) & 1,
            v5 == (b >> 2u8) & 1,
            v6 == (b >> 1u8) & 1,
            v7 == (b >> 0u8) & 1,
    ;
}

/// During bit-slot `n` of a transmission of `b`, the level held on the data
/// line is exactly bit `n` of `b`, MSB first: a master sampling each slot
/// receives the byte MSB-first.
pub proof fn lemma_presented_msb_first(b: u8, n: int)
    requires
        0 <= n < 8,
    ensures
        presented_level(b, n) == nth_bit(b, n),
    decreases n,
{
    if n > 0 && drive_action(b, n) is None {
        lemma_presented_msb_first(b, n - 1);
    }
}

/// An address byte encoding a 7-bit address `a` and a direction bit `d`
/// decodes to `Write(a)` exactly when `d == 1`, and to `Read(a)` otherwise.
pub proof fn lemma_decode_direction(a: u8, d: u8)
    requires
        a < 128,
        d <= 1,
    ensures
        d == 1 ==> decode_op((a << 1u8) | d) == I2CSlaveOp::Write(a),
        d == 0 ==> decode_op((a << 1u8) | d) == I2CSlaveOp::Read(a),
{
    let byte = (a << 1u8) | d;
    assert(byte & 1 == d && byte >> 1u8 == a) by (bit_vector)
        requires
            byte == (a << 1u8) | d,
            a < 128,
            d <= 1,
    ;
}

/// Transmitting `0x00` holds the data line low through all eight bit-slots,
/// and drives it exactly once.
pub proof fn lemma_write_zero_all_low()
    ensures
        forall|n: int| 0 <= n < 8 ==> presented_level(0x00, n) == 0,
        drive_writes(0x00) =~= seq![0u8],
{
    assert(forall|sh: u8| #[trigger] ((0x00u8 >> sh) & 1) == 0) by (bit_vector);
    assert(forall|n: int| 0 <= n < 8 ==> nth_bit(0x00, n) == 0);
    assert forall|n: int| 0 <= n < 8 implies presented_level(0x00, n) == 0 by {
        lemma_presented_msb_first(0x00, n);
    }
    assert(drive_writes_upto(0x00, 0) =~= Seq::<u8>::empty());
    assert(drive_writes_upto(0x00, 1) =~= seq![0u8]);
    assert(drive_writes_upto(0x00, 2) =~= seq![0u8]);
    assert(drive_writes_upto(0x00, 3) =~= seq![0u8]);
    assert(drive_writes_upto(0x00, 4) =~= seq![0u8]);
    assert(drive_writes_upto(0x00, 5) =~= seq![0u8]);
    assert(drive_writes_upto(0x00, 6) =~= seq![0u8]);
    assert(drive_writes_upto(0x00, 7) =~= seq![0u8]);
    assert(drive_writes_upto(0x00, 8) =~= seq![0u8]);
}

/// Transmitting `0xFF` holds the data line high throughout: after the initial
/// drive, no bit-slot issues a further write.
pub proof fn lemma_write_ff_no_redundant_writes()
    ensures
        forall|n: int| 0 <= n < 8 ==> presented_level(0xFF, n) == 1,
        forall|n: int| 1 <= n < 8 ==> drive_action(0xFF, n) is None,
        drive_writes(0xFF) =~= seq![1u8],
{
    assert(forall|sh: u8| sh < 8 ==> #[trigger] ((0xFFu8 >> sh) & 1) == 1) by (bit_vector);
    assert(forall|n: int| 0 <= n < 8 ==> nth_bit(0xFF, n) == 1);
    assert forall|n: int| 0 <= n < 8 implies presented_level(0xFF, n) == 1 by {
        lemma_presented_msb_first(0xFF, n);
    }
    assert(drive_writes_upto(0xFF, 0) =~= Seq::<u8>::empty());
    assert(drive_writes_upto(0xFF, 1) =~= seq![1u8]);
    assert(drive_writes_upto(0xFF, 2) =~= seq![1u8]);
    assert(drive_writes_upto(0xFF, 3) =~= seq![1u8]);
    assert(drive_writes_upto(0xFF, 4) =~= seq![1u8]);
    assert(drive_writes_upto(0xFF, 5) =~= seq![1u8]);
    assert(drive_writes_upto(0xFF, 6) =~= seq![1u8]);
    assert(drive_writes_upto(0xFF, 7) =~= seq![1u8]);
    assert(drive_writes_upto(0xFF, 8) =~= seq![1u8]);
}

/// A loopback that records the level presented during each bit-slot of a
/// transmission of `b` and assembles those eight levels recovers exactly `b`.
pub proof fn lemma_loopback_round_trip(b: u8)
    ensures
        assemble_bits(Seq::new(8, |i: int| presented_level(b, i))) == b,
{
    let presented = Seq::new(8, |i: int| presented_level(b, i));
    assert forall|i: int| 0 <= i < 8 implies presented[i] == nth_bit(b, i) by {
        lemma_presented_msb_first(b, i);
    }
    assert(presented =~= bits_of(b));
    lemma_byte_round_trip(b);
}

/// Bit `n` of `b`, MSB first, as executable code.
pub fn bit_at(b: u8, n: usize) -> (r: u8)
    requires
        n < 8,
    ensures
        r == nth_bit(b, n as int),
        r <= 1,
{
    let shift: u8 = (7 - n) as u8;
    let r = (b >> shift) & 1;
    proof {
        assert((b >> shift) & 1 <= 1) by (bit_vector);
    }
    r
}

/// The eight bits of `b`, MSB first.
pub fn byte_to_bits(b: u8) -> (v: Vec<u8>)
    ensures
        v@ == bits_of(b),
{
    let mut v: Vec<u8> = Vec::new();
    let mut n: usize = 0;
    while n < 8
        invariant
            n <= 8,
            v@.len() == n,
            forall|i: int| 0 <= i < n ==> v@[i] == nth_bit(b, i),
        decreases 8 - n,
    {
        let bit = bit_at(b, n);
        v.push(bit);
        n = n + 1;
    }
    proof {
        assert(v@ =~= bits_of(b));
    }
    v
}

/// Sets bit `7 - nr` of `acc` to `v`: one step of assembling a received byte.
pub fn accumulate_bit(acc: u8, nr: usize, v: u8) -> (r: u8)
    requires
        nr < 8,
        v <= 1,
    ensures
        r == (acc | ((v & 1) << ((7 - nr) as u8))),
{
    let shift: u8 = (7 - nr) as u8;
    proof {
        assert(v <= 1 ==> (v & 1) == v) by (bit_vector);
    }
    acc | (v << shift)
}

/// Assembles a byte from eight sampled bits, MSB first.
pub fn bits_to_byte(bits: &Vec<u8>) -> (r: u8)
    requires
        bits@.len() == 8,
    ensures
        r == assemble_bits(bits@),
{
    let mut acc: u8 = 0;
    let mut n: usize = 0;
    while n < 8
        invariant
            n <= 8,
            bits@.len() == 8,
            acc == assemble_upto(bits@, n as int),
        decreases 8 - n,
    {
        let sample = bits[n];
        proof {
            assert((sample & 1) <= 1 && ((sample & 1) & 1) == (sample & 1)) by (bit_vector);
        }
        acc = accumulate_bit(acc, n, sample & 1);
        n = n + 1;
    }
    acc
}

/// Decodes an address byte into the operation it asks for.
pub fn decode_addr_byte(b: u8) -> (r: I2CSlaveOp)
    ensures
        r == decode_op(b),
{
    if b & 1 == 1 {
        I2CSlaveOp::Write(b >> 1)
    } else {
        I2CSlaveOp::Read(b >> 1)
    }
}

} // verus!

