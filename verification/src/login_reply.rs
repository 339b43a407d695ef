//! The lobby's negative acknowledgement, service-account list and retainer
//! list payloads.
use crate::common::{push_str_field, read_str_field, spec_read_str, str_field};
use crate::wire::{push_u16_le, push_u32_le, push_u64_le, push_u8, push_zeroes, read_u16_le,
    read_u32_le, read_u64_le, read_u8, zeroes};
use vstd::bytes::{spec_u16_to_le_bytes, spec_u32_to_le_bytes, spec_u64_to_le_bytes};
use vstd::prelude::*;
use vstd::string::StringSliceAdditionalSpecFns;

verus! {

/// A lobby error reply.
#[derive(Debug, Clone)]
pub struct NackReply {
    pub sequence: u64,
    pub error: u32,
    pub value: u32,
    pub exd_error_id: u16,
    pub unk1: u16,
}

impl Default for NackReply {
    /// An all-zero error reply.
    fn default() -> (r: Self)
        ensures
            r.sequence == 0,
            r.error == 0,
            r.value == 0,
            r.exd_error_id == 0,
            r.unk1 == 0,
    {
        NackReply { sequence: 0, error: 0, value: 0, exd_error_id: 0, unk1: 0 }
    }
}

impl NackReply {
    /// The exact 24 payload bytes.
    pub open spec fn spec_encoded(&self) -> Seq<u8> {
        spec_u64_to_le_bytes(self.sequence) + spec_u32_to_le_bytes(self.error)
            + spec_u32_to_le_bytes(self.value) + spec_u16_to_le_bytes(self.exd_error_id)
            + spec_u16_to_le_bytes(self.unk1) + zeroes(4)
    }

    /// Whether this reply is what the 24-byte payload decodes to.
    pub open spec fn is_decode_of(&self, b: Seq<u8>) -> bool {
        &&& b.len() == 24
        &&& self.sequence == vstd::bytes::spec_u64_from_le_bytes(b.subrange(0, 8))
        &&& self.error == vstd::bytes::spec_u32_from_le_bytes(b.subrange(8, 12))
        &&& self.value == vstd::bytes::spec_u32_from_le_bytes(b.subrange(12, 16))
        &&& self.exd_error_id == vstd::bytes::spec_u16_from_le_bytes(b.subrange(16, 18))
        &&& self.unk1 == vstd::bytes::spec_u16_from_le_bytes(b.subrange(18, 20))
    }

    /// Serializes the payload onto the end of a buffer.
    pub fn encode_into(&self, out: &mut Vec<u8>)
        ensures
            final(out)@ == old(out)@ + self.spec_encoded(),
            self.spec_encoded().len() == 24,
    {
        push_u64_le(out, self.sequence);
        push_u32_le(out, self.error);
        push_u32_le(out, self.value);
        push_u16_le(out, self.exd_error_id);
        push_u16_le(out, self.unk1);
        push_zeroes(out, 4);
        proof {
            assert(final(out)@ =~= old(out)@ + self.spec_encoded());
        }
    }

    /// Decodes the payload from a 24-byte buffer.
    pub fn decode(b: &[u8]) -> (r: Self)
        requires
            b@.len() == 24,
        ensures
            r.is_decode_of(b@),
    {
        NackReply {
            sequence: read_u64_le(b, 0),
            error: read_u32_le(b, 8),
            value: read_u32_le(b, 12),
            exd_error_id: read_u16_le(b, 16),
            unk1: read_u16_le(b, 18),
        }
    }
}

/// Serialized length of one service-account record.
pub const SERVICE_ACCOUNT_SIZE: usize = 80;

/// One service account attached to a login.
#[derive(Debug, Clone)]
pub struct ServiceAccount {
    pub id: u32,
    pub unk1: u32,
    pub index: u32,
    pub name: String,
}

impl ServiceAccount {
    /// An empty account slot.
    pub fn new_empty() -> (r: Self)
        ensures
            r.id == 0,
            r.unk1 == 0,
            r.index == 0,
            r.name@ == Seq::<char>::empty(),
    {
        ServiceAccount { id: 0, unk1: 0, index: 0, name: String::new() }
    }

    /// The exact 80 bytes of one account record.
    pub open spec fn spec_encoded(&self) -> Seq<u8> {
        spec_u32_to_le_bytes(self.id) + spec_u32_to_le_bytes(self.unk1) + spec_u32_to_le_bytes(
            self.index,
        ) + str_field(self.name@, 68)
    }

    /// Whether this record is what the 80-byte buffer decodes to.
    pub open spec fn is_decode_of(&self, b: Seq<u8>) -> bool {
        &&& b.len() == SERVICE_ACCOUNT_SIZE
        &&& self.id == vstd::bytes::spec_u32_from_le_bytes(b.subrange(0, 4))
        &&& self.unk1 == vstd::bytes::spec_u32_from_le_bytes(b.subrange(4, 8))
        &&& self.index == vstd::bytes::spec_u32_from_le_bytes(b.subrange(8, 12))
        &&& self.name@ == spec_read_str(b, 12, 68)
    }

    /// Serializes one account record onto the end of a buffer.
    pub fn encode_into(&self, out: &mut Vec<u8>)
        ensures
            final(out)@ == old(out)@ + self.spec_encoded(),
            self.spec_encoded().len() == SERVICE_ACCOUNT_SIZE,
    {
        push_u32_le(out, self.id);
        push_u32_le(out, self.unk1);
        push_u32_le(out, self.index);
        push_str_field(out, &self.name, 68);
        proof {
            assert(final(out)@ =~= old(out)@ + self.spec_encoded());
        }
    }

    /// Decodes one account record from `off` in a buffer.
    pub fn decode_at(b: &[u8], off: usize) -> (r: Self)
        requires
            off + SERVICE_ACCOUNT_SIZE <= b@.len(),
        ensures
            r.is_decode_of(b@.subrange(off as int, off as int + SERVICE_ACCOUNT_SIZE as int)),
    {
        let n = b.len();
        let ghost sub = b@.subrange(off as int, off as int + SERVICE_ACCOUNT_SIZE as int);
        let id = read_u32_le(b, off);
        let unk1 = read_u32_le(b, off + 4);
        let index = read_u32_le(b, off + 8);
        let name = read_str_field(b, off + 12, 68);
        proof {
            assert(sub.subrange(0, 4) =~= b@.subrange(off as int, off + 4));
            assert(sub.subrange(4, 8) =~= b@.subrange(off + 4, off + 8));
            assert(sub.subrange(8, 12) =~= b@.subrange(off + 8, off + 12));
            assert(sub.subrange(12, 80) =~= b@.subrange(off + 12, off + 80));
        }
        ServiceAccount { id, unk1, index, name }
    }
}

/// The service-account list reply payload: eight account slots.
#[derive(Debug, Clone)]
pub struct LoginReply {
    pub sequence: u64,
    pub num_service_accounts: u8,
    pub unk1: u8,
    pub unk2: u8,
    pub service_accounts: Vec<ServiceAccount>,
}

impl LoginReply {
    /// The reply carries at most eight account slots.
    pub open spec fn wf(&self) -> bool {
        self.service_accounts@.len() <= 8
    }

    /// The exact payload bytes: header fields, then the account records,
    /// the eight slots zero-padded.
    pub open spec fn spec_encoded(&self) -> Seq<u8> {
        spec_u64_to_le_bytes(self.sequence)
            + seq![self.num_service_accounts, self.unk1, self.unk2] + zeroes(5)
            + crate::wire::fit_bytes(
            self.service_accounts@.fold_left(
                Seq::<u8>::empty(),
                |acc: Seq<u8>, a: ServiceAccount| acc + a.spec_encoded(),
            ),
            (8 * SERVICE_ACCOUNT_SIZE) as nat,
        )
    }

    /// Serializes the payload onto the end of a buffer.
    pub fn encode_into(&self, out: &mut Vec<u8>)
        requires
            self.wf(),
        ensures
            final(out)@ == old(out)@ + self.spec_encoded(),
            self.spec_encoded().len() == 656,
    {
        push_u64_le(out, self.sequence);
        push_u8(out, self.num_service_accounts);
        push_u8(out, self.unk1);
        push_u8(out, self.unk2);
        push_zeroes(out, 5);
        let mut body: Vec<u8> = Vec::new();
        let mut i: usize = 0;
        while i < self.service_accounts.len()
            invariant
                i <= self.service_accounts@.len() <= 8,
                body@ == self.service_accounts@.take(i as int).fold_left(
                    Seq::<u8>::empty(),
                    |acc: Seq<u8>, a: ServiceAccount| acc + a.spec_encoded(),
                ),
                body@.len() == i * SERVICE_ACCOUNT_SIZE,
            decreases self.service_accounts@.len() - i,
        {
            self.service_accounts[i].encode_into(&mut body);
            proof {
                assert(self.service_accounts@.take(i + 1).drop_last() =~= self.service_accounts@.take(
                    i as int,
                ));
                assert(self.service_accounts@.take(i + 1).last() == self.service_accounts@[i as int]);
            }
            i = i + 1;
        }
        proof {
            assert(self.service_accounts@.take(self.service_accounts@.len() as int)
                =~= self.service_accounts@);
        }
        crate::wire::push_fit_bytes(out, body.as_slice(), 8 * SERVICE_ACCOUNT_SIZE);
        proof {
            vstd::bytes::lemma_auto_spec_u64_to_from_le_bytes();
            assert(final(out)@ =~= old(out)@ + self.spec_encoded());
        }
    }

    /// Whether this reply is what the 656-byte payload decodes to: the
    /// eight slots are always read back as eight records.
    pub open spec fn is_decode_of(&self, b: Seq<u8>) -> bool {
        &&& b.len() == 656
        &&& self.sequence == vstd::bytes::spec_u64_from_le_bytes(b.subrange(0, 8))
        &&& self.num_service_accounts == b[8]
        &&& self.unk1 == b[9]
        &&& self.unk2 == b[10]
        &&& self.service_accounts@.len() == 8
        &&& forall|j: int|
            0 <= j < 8 ==> self.service_accounts@[j].is_decode_of(
                b.subrange(16 + 80 * j, 16 + 80 * (j + 1)),
            )
    }

    /// Decodes the payload from a 656-byte buffer.
    pub fn decode(b: &[u8]) -> (r: Self)
        requires
            b@.len() == 656,
        ensures
            r.is_decode_of(b@),
            r.wf(),
    {
        let sequence = read_u64_le(b, 0);
        let num_service_accounts = read_u8(b, 8);
        let unk1 = read_u8(b, 9);
        let unk2 = read_u8(b, 10);
        let mut service_accounts: Vec<ServiceAccount> = Vec::new();
        let mut i: usize = 0;
        while i < 8
            invariant
                i <= 8,
                b@.len() == 656,
                service_accounts@.len() == i,
                forall|j: int|
                    0 <= j < i ==> service_accounts@[j].is_decode_of(
                        b@.subrange(16 + 80 * j, 16 + 80 * (j + 1)),
                    ),
            decreases 8 - i,
        {
            let a = ServiceAccount::decode_at(b, 16 + 80 * i);
            service_accounts.push(a);
            i = i + 1;
        }
        LoginReply { sequence, num_service_accounts, unk1, unk2, service_accounts }
    }
}

/// The retainer-list reply payload: a sequence counter and a reserved body.
#[derive(Debug, Clone)]
pub struct DistRetainerInfo {
    pub sequence: u64,
}

impl Default for DistRetainerInfo {
    /// An empty retainer list.
    fn default() -> (r: Self)
        ensures
            r.sequence == 0,
    {
        DistRetainerInfo { sequence: 0 }
    }
}

impl DistRetainerInfo {
    /// The exact 72 payload bytes: the sequence counter and 64 reserved
    /// zero bytes.
    pub open spec fn spec_encoded(&self) -> Seq<u8> {
        spec_u64_to_le_bytes(self.sequence) + zeroes(64)
    }

    /// Whether this reply is what the 72-byte payload decodes to.
    pub open spec fn is_decode_of(&self, b: Seq<u8>) -> bool {
        &&& b.len() == 72
        &&& self.sequence == vstd::bytes::spec_u64_from_le_bytes(b.subrange(0, 8))
    }

    /// Serializes the payload onto the end of a buffer.
    pub fn encode_into(&self, out: &mut Vec<u8>)
        ensures
            final(out)@ == old(out)@ + self.spec_encoded(),
            self.spec_encoded().len() == 72,
    {
        push_u64_le(out, self.sequence);
        push_zeroes(out, 64);
        proof {
            assert(final(out)@ =~= old(out)@ + self.spec_encoded());
        }
    }

    /// Decodes the payload from a 72-byte buffer.
    pub fn decode(b: &[u8]) -> (r: Self)
        requires
            b@.len() == 72,
        ensures
            r.is_decode_of(b@),
    {
        DistRetainerInfo { sequence: read_u64_le(b, 0) }
    }
}

} // verus!
