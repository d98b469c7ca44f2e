use vstd::prelude::*;

verus! {

/// Length in bytes of a randomness record: an 8-byte discriminator and the
/// record's 400 bytes of fields.
pub const RECORD_LEN: usize = 408;

/// The eight bytes that open every randomness record.
pub open spec fn randomness_discriminator() -> Seq<u8> {
    seq![10u8, 66u8, 229u8, 135u8, 220u8, 239u8, 217u8, 114u8]
}

/// The unsigned number that the bytes `b` hold, least significant byte first.
pub open spec fn le_u64(b: Seq<u8>) -> int
    decreases b.len(),
{
    if b.len() == 0 {
        0
    } else {
        b[0] as int + 256 * le_u64(b.drop_first())
    }
}

/// What a well-formed record of `data` holds at its fixed offsets.
pub open spec fn record_of(data: Seq<u8>, rec: OracleRecord) -> bool {
    &&& data.len() >= RECORD_LEN
    &&& data.subrange(0, 8) == randomness_discriminator()
    &&& rec.seed_slot as int == le_u64(data.subrange(104, 112))
    &&& rec.reveal_slot as int == le_u64(data.subrange(144, 152))
    &&& rec.value@ == data.subrange(152, 184)
}

/// The fields of an oracle's randomness record that the lottery reads.
#[derive(Clone, Copy, Debug, PartialEq, Eq)]
pub struct OracleRecord {
    /// The slot whose hash seeds the randomness.
    pub seed_slot: u64,
    /// The slot at which the value was revealed.
    pub reveal_slot: u64,
    /// The revealed value.
    pub value: [u8; 32],
}

impl OracleRecord {
    /// The revealed value as it can be read at `slot`.
    pub open spec fn value_at(&self, slot: u64) -> Option<Seq<u8>> {
        if slot == self.reveal_slot {
            Some(self.value@)
        } else {
            None
        }
    }

    /// The revealed value, which can only be read at the slot of the reveal.
    pub fn revealed_value(&self, slot: u64) -> (r: Option<[u8; 32]>)
        ensures
            r is None <==> self.value_at(slot) is None,
            r matches Some(v) ==> Some(v@) == self.value_at(slot),
    {
        if slot != self.reveal_slot {
            None
        } else {
            Some(self.value)
        }
    }
}

/// Whether `data` is too short for a randomness record or is not opened by
/// the record's discriminator.
pub open spec fn malformed(data: Seq<u8>) -> bool {
    data.len() < RECORD_LEN || data.subrange(0, 8) != randomness_discriminator()
}

/// Relies on switchboard_on_demand's `RandomnessAccountData::parse`: it refuses
/// data shorter than a record or not opened by the record's discriminator, and
/// otherwise reads the fields in place from their fixed offsets, in the
/// machine's byte order (little-endian on the targets this library supports).
/// It also refuses data that is not 8-byte aligned, so the bytes are first
/// copied into a buffer of `u64` words, viewed as bytes with bytemuck's
/// `cast_slice_mut`, where every record is aligned.
#[verifier::external_body]
pub(crate) fn parse_randomness(data: &[u8]) -> (r: Option<OracleRecord>)
    ensures
        r is None <==> malformed(data@),
        r matches Some(rec) ==> record_of(data@, rec),
{
    let mut words = vec![0u64; data.len()];
    let bytes: &mut [u8] = bytemuck::cast_slice_mut(&mut words[..]);
    let buf = &mut bytes[..data.len()];
    buf.copy_from_slice(data);
    let cell = std::cell::RefCell::new(buf);
    let parsed = match switchboard_on_demand::accounts::RandomnessAccountData::parse(cell.borrow()) {
        Ok(rec) => Some(OracleRecord { seed_slot: rec.seed_slot, reveal_slot: rec.reveal_slot, value: rec.value }),
        Err(_) => None,
    };
    parsed
}

} // verus!
