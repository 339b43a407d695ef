//! The lobby's world-list reply: one fixed-size record per world, padded to
//! six slots.
use crate::common::{push_str_field, read_str_field, spec_read_str, str_field};
use crate::wire::{push_u16_le, push_u32_le, push_u64_le, push_u8, push_zeroes, read_u16_le,
    read_u32_le, read_u64_le, read_u8, zeroes};
use vstd::bytes::{spec_u16_to_le_bytes, spec_u32_to_le_bytes, spec_u64_to_le_bytes};
use vstd::prelude::*;
use vstd::string::StringSliceAdditionalSpecFns;
use vstd::prelude::View;

verus! {

/// Serialized length of one world record.
pub const SERVER_SIZE: usize = 80;

/// One world entry of the world list.
#[derive(Debug, Clone)]
pub struct Server {
    pub id: u16,
    pub index: u16,
    pub population: u32,
    pub unk1: u64,
    pub name: String,
}

impl Server {
    /// An empty world slot.
    pub fn new_empty() -> (r: Self)
        ensures
            r.id == 0,
            r.index == 0,
            r.population == 0,
            r.unk1 == 0,
            r.name@ == Seq::<char>::empty(),
    {
        Server { id: 0, index: 0, population: 0, unk1: 0, name: String::new() }
    }

    /// The exact 80 bytes of one world record: the numeric fields
    /// little-endian, the name as a 64-byte NUL-padded field.
    pub open spec fn spec_encoded(&self) -> Seq<u8> {
        spec_u16_to_le_bytes(self.id) + spec_u16_to_le_bytes(self.index) + spec_u32_to_le_bytes(
            self.population,
        ) + spec_u64_to_le_bytes(self.unk1) + str_field(self.name@, 64)
    }

    /// Whether this record is what the 80-byte buffer decodes to.
    pub open spec fn is_decode_of(&self, b: Seq<u8>) -> bool {
        &&& b.len() == SERVER_SIZE
        &&& self.id == vstd::bytes::spec_u16_from_le_bytes(b.subrange(0, 2))
        &&& self.index == vstd::bytes::spec_u16_from_le_bytes(b.subrange(2, 4))
        &&& self.population == vstd::bytes::spec_u32_from_le_bytes(b.subrange(4, 8))
        &&& self.unk1 == vstd::bytes::spec_u64_from_le_bytes(b.subrange(8, 16))
        &&& self.name@ == spec_read_str(b, 16, 64)
    }

    /// Serializes one world record onto the end of a buffer.
    pub fn encode_into(&self, out: &mut Vec<u8>)
        ensures
            final(out)@ == old(out)@ + self.spec_encoded(),
            self.spec_encoded().len() == SERVER_SIZE,
    {
        push_u16_le(out, self.id);
        push_u16_le(out, self.index);
        push_u32_le(out, self.population);
        push_u64_le(out, self.unk1);
        push_str_field(out, &self.name, 64);
        proof {
            assert(final(out)@ =~= old(out)@ + self.spec_encoded());
        }
    }

    /// Decodes one world record from `off` in a buffer.
    pub fn decode_at(b: &[u8], off: usize) -> (r: Self)
        requires
            off + SERVER_SIZE <= b@.len(),
        ensures
            r.is_decode_of(b@.subrange(off as int, off as int + SERVER_SIZE as int)),
    {
        let n = b.len();
        let ghost sub = b@.subrange(off as int, off as int + SERVER_SIZE as int);
        let id = read_u16_le(b, off);
        let index = read_u16_le(b, off + 2);
        let population = read_u32_le(b, off + 4);
        let unk1 = read_u64_le(b, off + 8);
        let name = read_str_field(b, off + 16, 64);
        proof {
            assert(sub.subrange(0, 2) =~= b@.subrange(off as int, off + 2));
            assert(sub.subrange(2, 4) =~= b@.subrange(off + 2, off + 4));
            assert(sub.subrange(4, 8) =~= b@.subrange(off + 4, off + 8));
            assert(sub.subrange(8, 16) =~= b@.subrange(off + 8, off + 16));
            assert(sub.subrange(16, 80) =~= b@.subrange(off + 16, off + 80));
        }
        Server { id, index, population, unk1, name }
    }
}

/// The world-list reply payload: a sequence counter, the number of live
/// worlds, and six world slots.
#[derive(Debug, Clone)]
pub struct DistWorldInfo {
    pub sequence: u64,
    pub offset: u8,
    pub num_servers: u32,
    pub servers: Vec<Server>,
}

impl DistWorldInfo {
    /// The reply carries at most six world slots.
    pub open spec fn wf(&self) -> bool {
        self.servers@.len() <= 6
    }

    /// The exact payload bytes: header fields, then the world records, the
    /// six slots zero-padded.
    pub open spec fn spec_encoded(&self) -> Seq<u8> {
        spec_u64_to_le_bytes(self.sequence) + seq![self.offset] + zeroes(3) + spec_u32_to_le_bytes(
            self.num_servers,
        ) + crate::wire::fit_bytes(
            self.servers@.fold_left(Seq::<u8>::empty(), |acc: Seq<u8>, s: Server| acc + s.spec_encoded()),
            (6 * SERVER_SIZE) as nat,
        )
    }

    /// Serializes the payload onto the end of a buffer.
    pub fn encode_into(&self, out: &mut Vec<u8>)
        requires
            self.wf(),
        ensures
            final(out)@ == old(out)@ + self.spec_encoded(),
            self.spec_encoded().len() == 496,
    {
        push_u64_le(out, self.sequence);
        push_u8(out, self.offset);
        push_zeroes(out, 3);
        push_u32_le(out, self.num_servers);
        let mut body: Vec<u8> = Vec::new();
        let mut i: usize = 0;
        while i < self.servers.len()
            invariant
                i <= self.servers@.len() <= 6,
                body@ == self.servers@.take(i as int).fold_left(
                    Seq::<u8>::empty(),
                    |acc: Seq<u8>, s: Server| acc + s.spec_encoded(),
                ),
                body@.len() == i * SERVER_SIZE,
            decreases self.servers@.len() - i,
        {
            self.servers[i].encode_into(&mut body);
            proof {
                assert(self.servers@.take(i + 1).drop_last() =~= self.servers@.take(i as int));
                assert(self.servers@.take(i + 1).last() == self.servers@[i as int]);
            }
            i = i + 1;
        }
        proof {
            assert(self.servers@.take(self.servers@.len() as int) =~= self.servers@);
        }
        crate::wire::push_fit_bytes(out, body.as_slice(), 6 * SERVER_SIZE);
        proof {
            vstd::bytes::lemma_auto_spec_u64_to_from_le_bytes();
            assert(final(out)@ =~= old(out)@ + self.spec_encoded());
        }
    }

    /// Whether this reply is what the 496-byte payload decodes to: the six
    /// slots are always read back as six records.
    pub open spec fn is_decode_of(&self, b: Seq<u8>) -> bool {
        &&& b.len() == 496
        &&& self.sequence == vstd::bytes::spec_u64_from_le_bytes(b.subrange(0, 8))
        &&& self.offset == b[8]
        &&& self.num_servers == vstd::bytes::spec_u32_from_le_bytes(b.subrange(12, 16))
        &&& self.servers@.len() == 6
        &&& forall|j: int|
            0 <= j < 6 ==> self.servers@[j].is_decode_of(
                b.subrange(16 + 80 * j, 16 + 80 * (j + 1)),
            )
    }

    /// Decodes the payload from a 496-byte buffer.
    pub fn decode(b: &[u8]) -> (r: Self)
        requires
            b@.len() == 496,
        ensures
            r.is_decode_of(b@),
            r.wf(),
    {
        let sequence = read_u64_le(b, 0);
        let offset = read_u8(b, 8);
        let num_servers = read_u32_le(b, 12);
        let mut servers: Vec<Server> = Vec::new();
        let mut i: usize = 0;
        while i < 6
            invariant
                i <= 6,
                b@.len() == 496,
                servers@.len() == i,
                forall|j: int|
                    0 <= j < i ==> servers@[j].is_decode_of(
                        b@.subrange(16 + 80 * j, 16 + 80 * (j + 1)),
                    ),
            decreases 6 - i,
        {
            let s = Server::decode_at(b, 16 + 80 * i);
            servers.push(s);
            i = i + 1;
        }
        DistWorldInfo { sequence, offset, num_servers, servers }
    }
}

} // verus!
