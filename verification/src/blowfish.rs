//! The keyed 64-bit-block symmetric cipher used for packet encryption: a
//! 16-round Feistel network whose round keys and substitution boxes are
//! derived from a 16-byte session key over a fixed initial state.
//!
//! Buffers are processed in place, 8 bytes at a time; a buffer whose length
//! is not a multiple of 8 is rejected with [`CipherError::MalformedInput`].
use crate::feistel_init::{P_INIT, S0_INIT, S1_INIT, S2_INIT, S3_INIT};
use vstd::bytes::*;
use vstd::prelude::*;
use vstd::slice::*;
use vstd::wrapping::u32_specs;

verus! {

/// Error returned when a buffer handed to the cipher is not 8-byte aligned.
#[derive(Clone, Copy, Debug, PartialEq, Eq, Structural)]
pub enum CipherError {
    MalformedInput,
}

/// Mathematical model of a derived key schedule: 18 round keys and four
/// substitution boxes of 256 words each.
#[verifier::ext_equal]
pub ghost struct Schedule {
    pub p: Seq<u32>,
    pub s0: Seq<u32>,
    pub s1: Seq<u32>,
    pub s2: Seq<u32>,
    pub s3: Seq<u32>,
}

pub open spec fn sched_wf(s: Schedule) -> bool {
    &&& s.p.len() == 18
    &&& s.s0.len() == 256
    &&& s.s1.len() == 256
    &&& s.s2.len() == 256
    &&& s.s3.len() == 256
}

/// The Feistel round function: four substitution-box lookups mixed with
/// wrapping addition and xor.
pub open spec fn spec_round_f(s: Schedule, x: u32) -> u32 {
    let a = s.s0[(x >> 24) as int];
    let b = s.s1[((x >> 16) & 0xff) as int];
    let c = s.s2[((x >> 8) & 0xff) as int];
    let d = s.s3[(x & 0xff) as int];
    u32_specs::wrapping_add(u32_specs::wrapping_add(a, b) ^ c, d)
}

/// State of a block after `n` encryption rounds. One round sends `(l, r)` to
/// `(r ^ f(l ^ p[n-1]), l ^ p[n-1])`, the swap built in.
pub open spec fn enc_rounds(s: Schedule, l: u32, r: u32, n: nat) -> (u32, u32)
    decreases n,
{
    if n == 0 {
        (l, r)
    } else {
        let prev = enc_rounds(s, l, r, (n - 1) as nat);
        let nl = prev.0 ^ s.p[n - 1];
        (prev.1 ^ spec_round_f(s, nl), nl)
    }
}

/// One encrypted block: 16 rounds, the final swap undone, and the last two
/// round keys folded in.
pub open spec fn spec_encrypt_block(s: Schedule, l: u32, r: u32) -> (u32, u32) {
    let e = enc_rounds(s, l, r, 16);
    (e.1 ^ s.p[17], e.0 ^ s.p[16])
}

/// State of a block after `n` decryption rounds: the same round shape with
/// the round keys walked backwards, `p[17]` first.
pub open spec fn dec_rounds(s: Schedule, l: u32, r: u32, n: nat) -> (u32, u32)
    decreases n,
{
    if n == 0 {
        (l, r)
    } else {
        let prev = dec_rounds(s, l, r, (n - 1) as nat);
        let nl = prev.0 ^ s.p[18 - n];
        (prev.1 ^ spec_round_f(s, nl), nl)
    }
}

/// One decrypted block.
pub open spec fn spec_decrypt_block(s: Schedule, l: u32, r: u32) -> (u32, u32) {
    let e = dec_rounds(s, l, r, 16);
    (e.1 ^ s.p[0], e.0 ^ s.p[1])
}

/// A big-endian 32-bit word read from four key bytes.
pub open spec fn be32(b0: u8, b1: u8, b2: u8, b3: u8) -> u32 {
    ((b0 as u32) << 24) | ((b1 as u32) << 16) | ((b2 as u32) << 8) | (b3 as u32)
}

/// The `i`-th key word of the schedule setup: four key bytes taken
/// cyclically, big-endian.
pub open spec fn key_word(key: Seq<u8>, i: int) -> u32
    recommends
        key.len() == 16,
{
    be32(
        key[(4 * i + 0) % 16],
        key[(4 * i + 1) % 16],
        key[(4 * i + 2) % 16],
        key[(4 * i + 3) % 16],
    )
}

/// The schedule before mixing: the fixed initial state with the key folded
/// into the round keys.
pub open spec fn init_sched(key: Seq<u8>) -> Schedule {
    Schedule {
        p: Seq::new(18, |i: int| P_INIT@[i] ^ key_word(key, i)),
        s0: S0_INIT@,
        s1: S1_INIT@,
        s2: S2_INIT@,
        s3: S3_INIT@,
    }
}

/// Running state of the key-schedule derivation.
#[verifier::ext_equal]
pub ghost struct SchedState {
    pub sched: Schedule,
    pub l: u32,
    pub r: u32,
}

/// Writes the `idx`-th derived pair into the schedule: the nine round-key
/// pairs first, then 128 pairs into each substitution box in turn.
pub open spec fn spec_write_pair(s: Schedule, idx: nat, l: u32, r: u32) -> Schedule {
    let i = idx as int;
    if i < 9 {
        Schedule { p: s.p.update(2 * i, l).update(2 * i + 1, r), ..s }
    } else if i < 137 {
        let k = i - 9;
        Schedule { s0: s.s0.update(2 * k, l).update(2 * k + 1, r), ..s }
    } else if i < 265 {
        let k = i - 137;
        Schedule { s1: s.s1.update(2 * k, l).update(2 * k + 1, r), ..s }
    } else if i < 393 {
        let k = i - 265;
        Schedule { s2: s.s2.update(2 * k, l).update(2 * k + 1, r), ..s }
    } else {
        let k = i - 393;
        Schedule { s3: s.s3.update(2 * k, l).update(2 * k + 1, r), ..s }
    }
}

/// One derivation step: encrypt the running block with the current schedule
/// and write the result into position `idx`.
pub open spec fn sched_step(st: SchedState, idx: nat) -> SchedState {
    let e = spec_encrypt_block(st.sched, st.l, st.r);
    SchedState { sched: spec_write_pair(st.sched, idx, e.0, e.1), l: e.0, r: e.1 }
}

/// The derivation state after `n` steps from the key-mixed initial state.
pub open spec fn sched_iter(key: Seq<u8>, n: nat) -> SchedState
    decreases n,
{
    if n == 0 {
        SchedState { sched: init_sched(key), l: 0, r: 0 }
    } else {
        sched_step(sched_iter(key, (n - 1) as nat), (n - 1) as nat)
    }
}

/// The full key schedule of a 16-byte key: 9 + 4 * 128 derivation steps.
pub open spec fn spec_schedule(key: Seq<u8>) -> Schedule {
    sched_iter(key, 521).sched
}

/// One 8-byte chunk encrypted: the two little-endian word halves sent
/// through the block function.
pub open spec fn spec_encrypt_chunk(s: Schedule, c: Seq<u8>) -> Seq<u8>
    recommends
        c.len() == 8,
{
    let l = spec_u32_from_le_bytes(c.subrange(0, 4));
    let r = spec_u32_from_le_bytes(c.subrange(4, 8));
    let e = spec_encrypt_block(s, l, r);
    spec_u32_to_le_bytes(e.0) + spec_u32_to_le_bytes(e.1)
}

/// One 8-byte chunk decrypted.
pub open spec fn spec_decrypt_chunk(s: Schedule, c: Seq<u8>) -> Seq<u8>
    recommends
        c.len() == 8,
{
    let l = spec_u32_from_le_bytes(c.subrange(0, 4));
    let r = spec_u32_from_le_bytes(c.subrange(4, 8));
    let e = spec_decrypt_block(s, l, r);
    spec_u32_to_le_bytes(e.0) + spec_u32_to_le_bytes(e.1)
}

/// A whole buffer encrypted chunk by chunk; a trailing fragment shorter than
/// a block is left as it is.
pub open spec fn spec_encrypt_bytes(s: Schedule, b: Seq<u8>) -> Seq<u8>
    decreases b.len(),
{
    if b.len() < 8 {
        b
    } else {
        spec_encrypt_chunk(s, b.take(8)) + spec_encrypt_bytes(s, b.skip(8))
    }
}

/// A whole buffer decrypted chunk by chunk.
pub open spec fn spec_decrypt_bytes(s: Schedule, b: Seq<u8>) -> Seq<u8>
    decreases b.len(),
{
    if b.len() < 8 {
        b
    } else {
        spec_decrypt_chunk(s, b.take(8)) + spec_decrypt_bytes(s, b.skip(8))
    }
}

/// The cipher with its derived key schedule; immutable once built, safe to
/// reuse across many buffers of one session.
pub struct Cipher {
    p: Vec<u32>,
    s0: Vec<u32>,
    s1: Vec<u32>,
    s2: Vec<u32>,
    s3: Vec<u32>,
}

impl View for Cipher {
    type V = Schedule;

    closed spec fn view(&self) -> Schedule {
        Schedule { p: self.p@, s0: self.s0@, s1: self.s1@, s2: self.s2@, s3: self.s3@ }
    }
}

impl Cipher {
    pub open spec fn wf(&self) -> bool {
        sched_wf(self@)
    }

    /// The round function on the derived boxes.
    fn round_f(&self, x: u32) -> (r: u32)
        requires
            self.wf(),
        ensures
            r == spec_round_f(self@, x),
    {
        proof {
            assert((x >> 24) < 256 && ((x >> 16) & 0xff) < 256 && ((x >> 8) & 0xff) < 256 && (x
                & 0xff) < 256) by (bit_vector);
        }
        let ia = (x >> 24) as usize;
        let ib = ((x >> 16) & 0xff) as usize;
        let ic = ((x >> 8) & 0xff) as usize;
        let id = (x & 0xff) as usize;
        let a = self.s0[ia];
        let b = self.s1[ib];
        let c = self.s2[ic];
        let d = self.s3[id];
        (a.wrapping_add(b) ^ c).wrapping_add(d)
    }

    /// Encrypts one block of two 32-bit halves.
    fn encrypt_block(&self, l: u32, r: u32) -> (res: (u32, u32))
        requires
            self.wf(),
        ensures
            res == spec_encrypt_block(self@, l, r),
    {
        let mut cl = l;
        let mut cr = r;
        let mut i: usize = 0;
        while i < 16
            invariant
                self.wf(),
                i <= 16,
                (cl, cr) == enc_rounds(self@, l, r, i as nat),
            decreases 16 - i,
        {
            let nl = cl ^ self.p[i];
            let t = cr ^ self.round_f(nl);
            cl = t;
            cr = nl;
            proof {
                assert((cl, cr) == enc_rounds(self@, l, r, (i + 1) as nat));
            }
            i = i + 1;
        }
        (cr ^ self.p[17], cl ^ self.p[16])
    }

    /// Decrypts one block of two 32-bit halves.
    fn decrypt_block(&self, l: u32, r: u32) -> (res: (u32, u32))
        requires
            self.wf(),
        ensures
            res == spec_decrypt_block(self@, l, r),
    {
        let mut cl = l;
        let mut cr = r;
        let mut i: usize = 0;
        while i < 16
            invariant
                self.wf(),
                i <= 16,
                (cl, cr) == dec_rounds(self@, l, r, i as nat),
            decreases 16 - i,
        {
            let nl = cl ^ self.p[17 - i];
            let t = cr ^ self.round_f(nl);
            cl = t;
            cr = nl;
            proof {
                assert((cl, cr) == dec_rounds(self@, l, r, (i + 1) as nat));
            }
            i = i + 1;
        }
        (cr ^ self.p[0], cl ^ self.p[1])
    }

    /// Writes the `idx`-th derived pair into the live schedule.
    fn write_pair(&mut self, idx: usize, l: u32, r: u32)
        requires
            old(self).wf(),
            idx < 521,
        ensures
            final(self)@ == spec_write_pair(old(self)@, idx as nat, l, r),
            final(self).wf(),
    {
        if idx < 9 {
            self.p.set(2 * idx, l);
            self.p.set(2 * idx + 1, r);
        } else if idx < 137 {
            let k = idx - 9;
            self.s0.set(2 * k, l);
            self.s0.set(2 * k + 1, r);
        } else if idx < 265 {
            let k = idx - 137;
            self.s1.set(2 * k, l);
            self.s1.set(2 * k + 1, r);
        } else if idx < 393 {
            let k = idx - 265;
            self.s2.set(2 * k, l);
            self.s2.set(2 * k + 1, r);
        } else {
            let k = idx - 393;
            self.s3.set(2 * k, l);
            self.s3.set(2 * k + 1, r);
        }
        proof {
            assert(self@ =~= spec_write_pair(old(self)@, idx as nat, l, r));
        }
    }

    /// Derives the round keys and substitution boxes from a 16-byte key.
    pub fn new(key: &[u8]) -> (c: Cipher)
        requires
            key@.len() == 16,
        ensures
            c.wf(),
            c@ == spec_schedule(key@),
    {
        let mut p: Vec<u32> = Vec::new();
        let mut i: usize = 0;
        while i < 18
            invariant
                i <= 18,
                key@.len() == 16,
                p@.len() == i,
                forall|j: int| 0 <= j < i ==> p@[j] == init_sched(key@).p[j],
            decreases 18 - i,
        {
            let j0 = (4 * i + 0) % 16;
            let j1 = (4 * i + 1) % 16;
            let j2 = (4 * i + 2) % 16;
            let j3 = (4 * i + 3) % 16;
            let w = ((key[j0] as u32) << 24) | ((key[j1] as u32) << 16) | ((key[j2] as u32) << 8)
                | (key[j3] as u32);
            assert(w == key_word(key@, i as int));
            p.push(P_INIT[i] ^ w);
            i = i + 1;
        }
        let s0 = slice_to_vec(S0_INIT.as_slice());
        let s1 = slice_to_vec(S1_INIT.as_slice());
        let s2 = slice_to_vec(S2_INIT.as_slice());
        let s3 = slice_to_vec(S3_INIT.as_slice());
        let mut c = Cipher { p, s0, s1, s2, s3 };
        proof {
            assert(c@.p =~= init_sched(key@).p);
            assert(c@ =~= init_sched(key@));
        }
        let mut l: u32 = 0;
        let mut r: u32 = 0;
        let mut idx: usize = 0;
        while idx < 521
            invariant
                c.wf(),
                idx <= 521,
                sched_iter(key@, idx as nat) == (SchedState { sched: c@, l, r }),
            decreases 521 - idx,
        {
            let e = c.encrypt_block(l, r);
            l = e.0;
            r = e.1;
            c.write_pair(idx, l, r);
            proof {
                assert(sched_iter(key@, (idx + 1) as nat) == (SchedState { sched: c@, l, r }));
            }
            idx = idx + 1;
        }
        c
    }

    /// Encrypts a buffer in place; the length must be a multiple of 8, or
    /// the buffer is left untouched and the call fails.
    pub fn encrypt(&self, data: &mut Vec<u8>) -> (res: Result<(), CipherError>)
        requires
            self.wf(),
        ensures
            res is Ok <==> old(data)@.len() % 8 == 0,
            res is Ok ==> final(data)@ == spec_encrypt_bytes(self@, old(data)@),
            res is Err ==> res == Result::<(), CipherError>::Err(CipherError::MalformedInput)
                && final(data)@ == old(data)@,
    {
        if data.len() % 8 != 0 {
            return Err(CipherError::MalformedInput);
        }
        let n = data.len();
        let mut out: Vec<u8> = Vec::new();
        let mut i: usize = 0;
        while i < n
            invariant
                self.wf(),
                i <= n,
                i % 8 == 0,
                n % 8 == 0,
                n == data@.len(),
                data@ == old(data)@,
                out@ == spec_encrypt_bytes(self@, data@.take(i as int)),
            decreases n - i,
        {
            let l = crate::wire::read_u32_le(data.as_slice(), i);
            let r = crate::wire::read_u32_le(data.as_slice(), i + 4);
            let e = self.encrypt_block(l, r);
            crate::wire::push_u32_le(&mut out, e.0);
            crate::wire::push_u32_le(&mut out, e.1);
            proof {
                lemma_enc_bytes_snoc(self@, data@.take(i as int), data@.subrange(i as int, i + 8));
                assert(data@.take(i as int) + data@.subrange(i as int, i + 8) =~= data@.take(
                    i + 8,
                ));
                assert(data@.subrange(i as int, i + 8).subrange(0, 4) =~= data@.subrange(
                    i as int,
                    i + 4,
                ));
                assert(data@.subrange(i as int, i + 8).subrange(4, 8) =~= data@.subrange(
                    i + 4,
                    i + 8,
                ));
            }
            i = i + 8;
        }
        proof {
            assert(data@.take(n as int) =~= data@);
        }
        *data = out;
        Ok(())
    }

    /// Decrypts a buffer in place; the length must be a multiple of 8, or
    /// the buffer is left untouched and the call fails.
    pub fn decrypt(&self, data: &mut Vec<u8>) -> (res: Result<(), CipherError>)
        requires
            self.wf(),
        ensures
            res is Ok <==> old(data)@.len() % 8 == 0,
            res is Ok ==> final(data)@ == spec_decrypt_bytes(self@, old(data)@),
            res is Err ==> res == Result::<(), CipherError>::Err(CipherError::MalformedInput)
                && final(data)@ == old(data)@,
    {
        if data.len() % 8 != 0 {
            return Err(CipherError::MalformedInput);
        }
        let n = data.len();
        let mut out: Vec<u8> = Vec::new();
        let mut i: usize = 0;
        while i < n
            invariant
                self.wf(),
                i <= n,
                i % 8 == 0,
                n % 8 == 0,
                n == data@.len(),
                data@ == old(data)@,
                out@ == spec_decrypt_bytes(self@, data@.take(i as int)),
            decreases n - i,
        {
            let l = crate::wire::read_u32_le(data.as_slice(), i);
            let r = crate::wire::read_u32_le(data.as_slice(), i + 4);
            let e = self.decrypt_block(l, r);
            crate::wire::push_u32_le(&mut out, e.0);
            crate::wire::push_u32_le(&mut out, e.1);
            proof {
                lemma_dec_bytes_snoc(self@, data@.take(i as int), data@.subrange(i as int, i + 8));
                assert(data@.take(i as int) + data@.subrange(i as int, i + 8) =~= data@.take(
                    i + 8,
                ));
                assert(data@.subrange(i as int, i + 8).subrange(0, 4) =~= data@.subrange(
                    i as int,
                    i + 4,
                ));
                assert(data@.subrange(i as int, i + 8).subrange(4, 8) =~= data@.subrange(
                    i + 4,
                    i + 8,
                ));
            }
            i = i + 8;
        }
        proof {
            assert(data@.take(n as int) =~= data@);
        }
        *data = out;
        Ok(())
    }
}

proof fn lemma_xor_cancel(a: u32, b: u32)
    ensures
        (a ^ b) ^ b == a,
{
    assert((a ^ b) ^ b == a) by (bit_vector);
}

proof fn lemma_xor_shuffle(a: u32, b: u32, c: u32)
    ensures
        ((a ^ b) ^ c) ^ b == a ^ c,
{
    assert(((a ^ b) ^ c) ^ b == a ^ c) by (bit_vector);
}

/// Appending one whole chunk to an aligned prefix encrypts piecewise.
proof fn lemma_enc_bytes_snoc(s: Schedule, a: Seq<u8>, c: Seq<u8>)
    requires
        a.len() % 8 == 0,
        c.len() == 8,
    ensures
        spec_encrypt_bytes(s, a + c) == spec_encrypt_bytes(s, a) + spec_encrypt_chunk(s, c),
    decreases a.len(),
{
    if a.len() == 0 {
        let e = Seq::<u8>::empty();
        assert(a + c =~= c);
        assert(c.take(8) =~= c);
        assert(c.skip(8) =~= e);
        assert(spec_encrypt_bytes(s, e) == e);
        assert(spec_encrypt_bytes(s, c) == spec_encrypt_chunk(s, c.take(8)) + spec_encrypt_bytes(
            s,
            c.skip(8),
        ));
        assert(spec_encrypt_bytes(s, c) =~= spec_encrypt_chunk(s, c));
        assert(spec_encrypt_bytes(s, a) =~= e);
        assert(spec_encrypt_bytes(s, a + c) =~= spec_encrypt_bytes(s, a) + spec_encrypt_chunk(
            s,
            c,
        ));
    } else {
        assert((a + c).take(8) =~= a.take(8));
        assert((a + c).skip(8) =~= a.skip(8) + c);
        lemma_enc_bytes_snoc(s, a.skip(8), c);
        assert(spec_encrypt_bytes(s, a + c) =~= spec_encrypt_bytes(s, a) + spec_encrypt_chunk(
            s,
            c,
        ));
    }
}

/// Appending one whole chunk to an aligned prefix decrypts piecewise.
proof fn lemma_dec_bytes_snoc(s: Schedule, a: Seq<u8>, c: Seq<u8>)
    requires
        a.len() % 8 == 0,
        c.len() == 8,
    ensures
        spec_decrypt_bytes(s, a + c) == spec_decrypt_bytes(s, a) + spec_decrypt_chunk(s, c),
    decreases a.len(),
{
    if a.len() == 0 {
        let e = Seq::<u8>::empty();
        assert(a + c =~= c);
        assert(c.take(8) =~= c);
        assert(c.skip(8) =~= e);
        assert(spec_decrypt_bytes(s, e) == e);
        assert(spec_decrypt_bytes(s, c) == spec_decrypt_chunk(s, c.take(8)) + spec_decrypt_bytes(
            s,
            c.skip(8),
        ));
        assert(spec_decrypt_bytes(s, c) =~= spec_decrypt_chunk(s, c));
        assert(spec_decrypt_bytes(s, a) =~= e);
        assert(spec_decrypt_bytes(s, a + c) =~= spec_decrypt_bytes(s, a) + spec_decrypt_chunk(
            s,
            c,
        ));
    } else {
        assert((a + c).take(8) =~= a.take(8));
        assert((a + c).skip(8) =~= a.skip(8) + c);
        lemma_dec_bytes_snoc(s, a.skip(8), c);
        assert(spec_decrypt_bytes(s, a + c) =~= spec_decrypt_bytes(s, a) + spec_decrypt_chunk(
            s,
            c,
        ));
    }
}

/// Tracks the decryption rounds backwards through the encryption rounds:
/// after `j` rounds of decrypting an encrypted block, the state mirrors the
/// encryption state `17 - j` with one round key and one round-function image
/// still folded into the left half.
proof fn lemma_dec_rounds_track(s: Schedule, l: u32, r: u32, j: nat)
    requires
        sched_wf(s),
        1 <= j <= 16,
    ensures
        ({
            let x = spec_encrypt_block(s, l, r);
            let e = enc_rounds(s, l, r, (17 - j) as nat);
            dec_rounds(s, x.0, x.1, j) == (((e.0 ^ s.p[17 - j]) ^ spec_round_f(s, e.1)), e.1)
        }),
    decreases j,
{
    let x = spec_encrypt_block(s, l, r);
    let e16 = enc_rounds(s, l, r, 16);
    if j == 1 {
        let d1 = dec_rounds(s, x.0, x.1, 1);
        assert(dec_rounds(s, x.0, x.1, 0) == (x.0, x.1));
        lemma_xor_cancel(e16.1, s.p[17]);
        assert(d1.1 == e16.1);
        assert(d1.0 == (e16.0 ^ s.p[16]) ^ spec_round_f(s, e16.1));
    } else {
        lemma_dec_rounds_track(s, l, r, (j - 1) as nat);
        let dj1 = dec_rounds(s, x.0, x.1, (j - 1) as nat);
        let ea = enc_rounds(s, l, r, (18 - j) as nat);
        let eb = enc_rounds(s, l, r, (17 - j) as nat);
        // ea is one encryption round past eb
        assert(ea == ((eb.1 ^ spec_round_f(s, eb.0 ^ s.p[17 - j])), eb.0 ^ s.p[17 - j]));
        // by induction: dj1 == ((ea.0 ^ p[18-j]) ^ f(ea.1), ea.1)
        let dj = dec_rounds(s, x.0, x.1, j);
        let nl = dj1.0 ^ s.p[18 - j];
        lemma_xor_shuffle(ea.0, s.p[18 - j], spec_round_f(s, ea.1));
        assert(nl == ea.0 ^ spec_round_f(s, ea.1));
        lemma_xor_cancel(eb.1, spec_round_f(s, ea.1));
        assert(nl == eb.1);
        assert(dj == ((dj1.1 ^ spec_round_f(s, nl)), nl));
        assert(dj1.1 == ea.1);
        assert(ea.1 == eb.0 ^ s.p[17 - j]);
        assert(dj == (((eb.0 ^ s.p[17 - j]) ^ spec_round_f(s, eb.1)), eb.1));
    }
}

/// Decrypting an encrypted block with the same schedule gives the block back.
pub proof fn lemma_block_round_trip(s: Schedule, l: u32, r: u32)
    requires
        sched_wf(s),
    ensures
        ({
            let e = spec_encrypt_block(s, l, r);
            spec_decrypt_block(s, e.0, e.1) == (l, r)
        }),
{
    let x = spec_encrypt_block(s, l, r);
    lemma_dec_rounds_track(s, l, r, 16);
    let e1 = enc_rounds(s, l, r, 1);
    let d16 = dec_rounds(s, x.0, x.1, 16);
    assert(enc_rounds(s, l, r, 0) == (l, r));
    assert(e1 == ((r ^ spec_round_f(s, l ^ s.p[0])), l ^ s.p[0]));
    assert(d16 == (((e1.0 ^ s.p[1]) ^ spec_round_f(s, e1.1)), e1.1));
    let fv = spec_round_f(s, l ^ s.p[0]);
    lemma_xor_shuffle(r, fv, s.p[1]);
    assert(((r ^ fv) ^ s.p[1]) ^ fv == r ^ s.p[1]);
    assert(d16.0 == r ^ s.p[1]);
    lemma_xor_cancel(l, s.p[0]);
    lemma_xor_cancel(r, s.p[1]);
    assert(spec_decrypt_block(s, x.0, x.1) == (l, r));
}

/// Decrypting an encrypted chunk with the same schedule gives the chunk back.
proof fn lemma_chunk_round_trip(s: Schedule, c: Seq<u8>)
    requires
        sched_wf(s),
        c.len() == 8,
    ensures
        spec_decrypt_chunk(s, spec_encrypt_chunk(s, c)) == c,
{
    lemma_auto_spec_u32_to_from_le_bytes();
    let l = spec_u32_from_le_bytes(c.subrange(0, 4));
    let r = spec_u32_from_le_bytes(c.subrange(4, 8));
    let e = spec_encrypt_block(s, l, r);
    let x = spec_encrypt_chunk(s, c);
    assert(x.subrange(0, 4) =~= spec_u32_to_le_bytes(e.0));
    assert(x.subrange(4, 8) =~= spec_u32_to_le_bytes(e.1));
    lemma_block_round_trip(s, l, r);
    assert(spec_decrypt_block(s, e.0, e.1) == (l, r));
    assert(spec_decrypt_chunk(s, x) =~= spec_u32_to_le_bytes(l) + spec_u32_to_le_bytes(r));
    assert(spec_u32_to_le_bytes(l) =~= c.subrange(0, 4));
    assert(spec_u32_to_le_bytes(r) =~= c.subrange(4, 8));
    assert(spec_decrypt_chunk(s, x) =~= c);
}

/// Cipher round trip: for every well-formed schedule and every 8-byte-aligned
/// buffer, decrypting the encryption gives the original buffer back.
pub proof fn lemma_cipher_round_trip(s: Schedule, b: Seq<u8>)
    requires
        sched_wf(s),
        b.len() % 8 == 0,
    ensures
        spec_decrypt_bytes(s, spec_encrypt_bytes(s, b)) == b,
    decreases b.len(),
{
    if b.len() == 0 {
        assert(spec_decrypt_bytes(s, spec_encrypt_bytes(s, b)) =~= b);
    } else {
        let c = b.take(8);
        let rest = b.skip(8);
        let ec = spec_encrypt_chunk(s, c);
        lemma_auto_spec_u32_to_from_le_bytes();
        assert(ec.len() == 8);
        let x = spec_encrypt_bytes(s, b);
        assert(x == ec + spec_encrypt_bytes(s, rest));
        assert(x.take(8) =~= ec);
        assert(x.skip(8) =~= spec_encrypt_bytes(s, rest));
        assert(spec_encrypt_bytes(s, rest).len() % 8 == 0 && x.len() >= 8) by {
            lemma_enc_bytes_len(s, rest);
        }
        lemma_chunk_round_trip(s, c);
        lemma_cipher_round_trip(s, rest);
        assert(spec_decrypt_bytes(s, x) =~= c + rest);
        assert(c + rest =~= b);
    }
}

/// Encryption keeps the buffer length.
pub proof fn lemma_enc_bytes_len(s: Schedule, b: Seq<u8>)
    ensures
        spec_encrypt_bytes(s, b).len() == b.len(),
    decreases b.len(),
{
    if b.len() < 8 {
    } else {
        lemma_auto_spec_u32_to_from_le_bytes();
        lemma_enc_bytes_len(s, b.skip(8));
    }
}

/// Decryption keeps the buffer length.
pub proof fn lemma_dec_bytes_len(s: Schedule, b: Seq<u8>)
    ensures
        spec_decrypt_bytes(s, b).len() == b.len(),
    decreases b.len(),
{
    if b.len() < 8 {
    } else {
        lemma_auto_spec_u32_to_from_le_bytes();
        lemma_dec_bytes_len(s, b.skip(8));
    }
}

} // verus!
