//! Fixed-offset binary codec for catalog entries.
//!
//! A record serializes as: slot index (1 byte), content pointer length
//! (4 bytes, little endian), content pointer bytes, token identity (32 bytes),
//! settled price and listed price (8 bytes each, little endian).  Slot `i` of a
//! repository region starts at byte `i * NFT_RECORD_SIZE`; bytes of the slot
//! past the serialized form are left untouched by a write and ignored by a
//! read.

use vstd::prelude::*;
use vstd::bytes::{
    lemma_auto_spec_u32_to_from_le_bytes, lemma_auto_spec_u64_to_from_le_bytes,
    spec_u32_from_le_bytes, spec_u32_to_le_bytes, spec_u64_from_le_bytes, spec_u64_to_le_bytes,
    u32_from_le_bytes, u32_to_le_bytes, u64_from_le_bytes, u64_to_le_bytes,
};
use vstd::slice::{slice_subrange, slice_to_vec};

use crate::error::HeroError;
use crate::state::{NFTRecord, NFTRecordV, NFT_RECORD_SIZE, RECORD_FIXED_LEN};

verus! {

/// Canonical serialization of a record.
pub open spec fn record_bytes(rec: NFTRecordV) -> Seq<u8> {
    seq![rec.hero_id]
        .add(spec_u32_to_le_bytes(rec.content_uri.len() as u32))
        .add(rec.content_uri)
        .add(rec.key_nft)
        .add(spec_u64_to_le_bytes(rec.last_price))
        .add(spec_u64_to_le_bytes(rec.listed_price))
}

/// The record read from the leading bytes of one slot, if they parse.
pub open spec fn parse_record(slot: Seq<u8>) -> Option<NFTRecordV> {
    if slot.len() < 5 {
        None
    } else {
        let n = spec_u32_from_le_bytes(slot.subrange(1, 5)) as int;
        if RECORD_FIXED_LEN + n > slot.len() {
            None
        } else {
            Some(NFTRecordV {
                hero_id: slot[0],
                content_uri: slot.subrange(5, 5 + n),
                key_nft: slot.subrange(5 + n, 37 + n),
                last_price: spec_u64_from_le_bytes(slot.subrange(37 + n, 45 + n)),
                listed_price: spec_u64_from_le_bytes(slot.subrange(45 + n, 53 + n)),
            })
        }
    }
}

/// Bytes of slot `id` inside a repository region.
pub open spec fn slot_of(data: Seq<u8>, id: int) -> Seq<u8> {
    data.subrange(id * NFT_RECORD_SIZE as int, (id + 1) * NFT_RECORD_SIZE as int)
}

/// Whether slot `id` lies inside the region.
pub open spec fn slot_in_range(data: Seq<u8>, id: int) -> bool {
    (id + 1) * NFT_RECORD_SIZE as int <= data.len()
}

/// Outcome of reading the record at slot `id`.
pub open spec fn load_record_spec(data: Seq<u8>, id: u8) -> Result<NFTRecordV, HeroError> {
    if !slot_in_range(data, id as int) {
        Err(HeroError::HeroOverflow)
    } else {
        match parse_record(slot_of(data, id as int)) {
            Option::None => Err(HeroError::MalformedRecord),
            Option::Some(rec) => Ok(rec),
        }
    }
}

/// Outcome of writing `rec` at its own slot: the whole region after the
/// write, or the error that refused it.  Only the serialized bytes of the
/// slot are overwritten; nothing is written on failure.
pub open spec fn save_record_spec(data: Seq<u8>, rec: NFTRecordV) -> Result<Seq<u8>, HeroError> {
    if rec.key_nft.len() != 32 || RECORD_FIXED_LEN + rec.content_uri.len() > NFT_RECORD_SIZE {
        Err(HeroError::RecordTooLarge)
    } else if !slot_in_range(data, rec.hero_id as int) {
        Err(HeroError::HeroOverflow)
    } else {
        let start = rec.hero_id as int * NFT_RECORD_SIZE as int;
        let written = RECORD_FIXED_LEN + rec.content_uri.len();
        Ok(data.subrange(0, start).add(record_bytes(rec)).add(
            data.subrange(start + written, data.len() as int),
        ))
    }
}

/// Reads the record at slot `hero_id` of the repository region.
pub fn get_nft_data_from_repository(repo_data: &Vec<u8>, hero_id: u8) -> (r: Result<
    NFTRecord,
    HeroError,
>)
    ensures
        match r {
            Ok(rec) => load_record_spec(repo_data@, hero_id) == Ok::<NFTRecordV, HeroError>(rec@),
            Err(e) => load_record_spec(repo_data@, hero_id) == Err::<NFTRecordV, HeroError>(e),
        },
{
    let start: usize = (hero_id as usize) * NFT_RECORD_SIZE;
    if repo_data.len() < NFT_RECORD_SIZE || start > repo_data.len() - NFT_RECORD_SIZE {
        return Err(HeroError::HeroOverflow);
    }
    let ghost slot = slot_of(repo_data@, hero_id as int);
    assert(slot.len() == NFT_RECORD_SIZE);
    let lenb = slice_subrange(repo_data.as_slice(), start + 1, start + 5);
    assert(lenb@ =~= slot.subrange(1, 5));
    let n32 = u32_from_le_bytes(lenb);
    let n = n32 as usize;
    if n > NFT_RECORD_SIZE - RECORD_FIXED_LEN {
        assert(parse_record(slot) is None);
        return Err(HeroError::MalformedRecord);
    }
    let uri = slice_to_vec(slice_subrange(repo_data.as_slice(), start + 5, start + 5 + n));
    let key = slice_to_vec(slice_subrange(repo_data.as_slice(), start + 5 + n, start + 37 + n));
    let lastb = slice_subrange(repo_data.as_slice(), start + 37 + n, start + 45 + n);
    let listedb = slice_subrange(repo_data.as_slice(), start + 45 + n, start + 53 + n);
    let rec = NFTRecord {
        hero_id: repo_data[start],
        content_uri: uri,
        key_nft: key,
        last_price: u64_from_le_bytes(lastb),
        listed_price: u64_from_le_bytes(listedb),
    };
    assert(uri@ =~= slot.subrange(5, 5 + n as int));
    assert(key@ =~= slot.subrange(5 + n as int, 37 + n as int));
    assert(lastb@ =~= slot.subrange(37 + n as int, 45 + n as int));
    assert(listedb@ =~= slot.subrange(45 + n as int, 53 + n as int));
    assert(parse_record(slot) == Some(rec@));
    Ok(rec)
}

/// Serializes a record to its canonical bytes.
fn serialize_record(rec: &NFTRecord) -> (out: Vec<u8>)
    requires
        rec.content_uri@.len() + RECORD_FIXED_LEN <= NFT_RECORD_SIZE,
        rec.key_nft@.len() == 32,
    ensures
        out@ == record_bytes(rec@),
        out@.len() == RECORD_FIXED_LEN + rec.content_uri@.len(),
{
    proof {
        lemma_auto_spec_u32_to_from_le_bytes();
        lemma_auto_spec_u64_to_from_le_bytes();
    }
    let mut out: Vec<u8> = Vec::new();
    out.push(rec.hero_id);
    let mut piece = u32_to_le_bytes(rec.content_uri.len() as u32);
    out.append(&mut piece);
    append_bytes(&mut out, &rec.content_uri);
    append_bytes(&mut out, &rec.key_nft);
    let mut piece = u64_to_le_bytes(rec.last_price);
    out.append(&mut piece);
    let mut piece = u64_to_le_bytes(rec.listed_price);
    out.append(&mut piece);
    assert(out@ =~= record_bytes(rec@));
    out
}

/// Writes the record into its slot.  The slot's bytes past the serialized
/// form, and every other byte of the region, are untouched; on failure the
/// region is untouched entirely.
pub fn save_nft_data_to_repository(nft_record: &NFTRecord, repo_data: &mut Vec<u8>) -> (r: Result<
    (),
    HeroError,
>)
    ensures
        match r {
            Ok(()) => save_record_spec(old(repo_data)@, nft_record@) == Ok::<Seq<u8>, HeroError>(final(repo_data)@),
            Err(e) => save_record_spec(old(repo_data)@, nft_record@) == Err::<Seq<u8>, HeroError>(e) && final(repo_data)@
                == old(repo_data)@,
        },
{
    if nft_record.key_nft.len() != 32 || nft_record.content_uri.len() > NFT_RECORD_SIZE
        - RECORD_FIXED_LEN {
        return Err(HeroError::RecordTooLarge);
    }
    let start: usize = (nft_record.hero_id as usize) * NFT_RECORD_SIZE;
    if repo_data.len() < NFT_RECORD_SIZE || start > repo_data.len() - NFT_RECORD_SIZE {
        return Err(HeroError::HeroOverflow);
    }
    let ser = serialize_record(nft_record);
    let new_data = spliced(repo_data, start, &ser);
    *repo_data = new_data;
    Ok(())
}

/// Appends every byte of `src` to `out`.
pub(crate) fn append_bytes(out: &mut Vec<u8>, src: &Vec<u8>)
    ensures
        final(out)@ == old(out)@.add(src@),
{
    let mut i: usize = 0;
    while i < src.len()
        invariant
            i <= src@.len(),
            out@ == old(out)@.add(src@.subrange(0, i as int)),
        decreases src@.len() - i,
    {
        out.push(src[i]);
        assert(out@ =~= old(out)@.add(src@.subrange(0, i + 1)));
        i = i + 1;
    }
    assert(old(out)@.add(src@.subrange(0, src@.len() as int)) =~= old(out)@.add(src@));
}

/// Copy of `base` with `src` written over the bytes starting at `start`.
fn spliced(base: &Vec<u8>, start: usize, src: &Vec<u8>) -> (out: Vec<u8>)
    requires
        start + src@.len() <= base@.len(),
    ensures
        out@ == base@.subrange(0, start as int).add(src@).add(
            base@.subrange(start as int + src@.len() as int, base@.len() as int),
        ),
{
    let mut out = slice_to_vec(slice_subrange(base.as_slice(), 0, start));
    let mut i: usize = 0;
    while i < src.len()
        invariant
            i <= src@.len(),
            start + src@.len() <= base@.len(),
            out@ == base@.subrange(0, start as int).add(src@.subrange(0, i as int)),
        decreases src@.len() - i,
    {
        out.push(src[i]);
        assert(out@ =~= base@.subrange(0, start as int).add(src@.subrange(0, i + 1)));
        i = i + 1;
    }
    assert(src@.subrange(0, src@.len() as int) =~= src@);
    let base_len: usize = base.len();
    assert(start + src@.len() <= base_len);
    let mut j: usize = start + src.len();
    while j < base.len()
        invariant
            start + src@.len() <= j <= base@.len(),
            out@ == base@.subrange(0, start as int).add(src@).add(
                base@.subrange(start as int + src@.len() as int, j as int),
            ),
        decreases base@.len() - j,
    {
        out.push(base[j]);
        assert(out@ =~= base@.subrange(0, start as int).add(src@).add(
            base@.subrange(start as int + src@.len() as int, j + 1),
        ));
        j = j + 1;
    }
    out
}

/// A serialized record, followed by any slot remainder, parses back to the
/// record it came from.
pub proof fn lemma_parse_encoded(rec: NFTRecordV, rest: Seq<u8>)
    requires
        rec.key_nft.len() == 32,
        RECORD_FIXED_LEN + rec.content_uri.len() + rest.len() <= NFT_RECORD_SIZE,
    ensures
        parse_record(record_bytes(rec).add(rest)) == Some(rec),
{
    lemma_auto_spec_u32_to_from_le_bytes();
    lemma_auto_spec_u64_to_from_le_bytes();
    let slot = record_bytes(rec).add(rest);
    let n = rec.content_uri.len() as int;
    assert(slot.subrange(1, 5) =~= spec_u32_to_le_bytes(rec.content_uri.len() as u32));
    assert(spec_u32_from_le_bytes(slot.subrange(1, 5)) == n);
    assert(slot.subrange(5, 5 + n) =~= rec.content_uri);
    assert(slot.subrange(5 + n, 37 + n) =~= rec.key_nft);
    assert(slot.subrange(37 + n, 45 + n) =~= spec_u64_to_le_bytes(rec.last_price));
    assert(slot.subrange(45 + n, 53 + n) =~= spec_u64_to_le_bytes(rec.listed_price));
    assert(parse_record(slot)->Some_0 =~= rec);
}

/// Decoding then re-encoding is the identity on the decoded prefix of a slot:
/// the bytes written back are exactly the bytes read.
pub proof fn lemma_record_round_trip(slot: Seq<u8>)
    requires
        parse_record(slot) is Some,
    ensures
        ({
            let rec = parse_record(slot)->Some_0;
            &&& record_bytes(rec) == slot.subrange(
                0,
                RECORD_FIXED_LEN + rec.content_uri.len(),
            )
            &&& rec.key_nft.len() == 32
            &&& RECORD_FIXED_LEN + rec.content_uri.len() <= slot.len()
        }),
{
    lemma_auto_spec_u32_to_from_le_bytes();
    lemma_auto_spec_u64_to_from_le_bytes();
    let rec = parse_record(slot)->Some_0;
    let n = rec.content_uri.len() as int;
    assert(spec_u32_to_le_bytes(spec_u32_from_le_bytes(slot.subrange(1, 5))) == slot.subrange(
        1,
        5,
    ));
    assert(spec_u64_to_le_bytes(spec_u64_from_le_bytes(slot.subrange(37 + n, 45 + n)))
        == slot.subrange(37 + n, 45 + n));
    assert(spec_u64_to_le_bytes(spec_u64_from_le_bytes(slot.subrange(45 + n, 53 + n)))
        == slot.subrange(45 + n, 53 + n));
    assert(record_bytes(rec) =~= slot.subrange(0, RECORD_FIXED_LEN + n));
}

/// A successful write changes nothing but its own slot: the written slot
/// parses back to the written record, every other slot keeps its bytes, and
/// the region keeps its length.
pub proof fn lemma_save_record_effect(data: Seq<u8>, rec: NFTRecordV, new_data: Seq<u8>)
    requires
        save_record_spec(data, rec) == Ok::<Seq<u8>, HeroError>(new_data),
    ensures
        new_data.len() == data.len(),
        parse_record(slot_of(new_data, rec.hero_id as int)) == Some(rec),
        forall|j: int|
            0 <= j && j != rec.hero_id as int && slot_in_range(data, j) ==> slot_of(new_data, j)
                == slot_of(data, j),
{
    lemma_auto_spec_u32_to_from_le_bytes();
    lemma_auto_spec_u64_to_from_le_bytes();
    let start = rec.hero_id as int * NFT_RECORD_SIZE as int;
    let n = rec.content_uri.len() as int;
    let written = RECORD_FIXED_LEN + n;
    assert(record_bytes(rec).len() == written);
    let tail = data.subrange(start + written, start + NFT_RECORD_SIZE as int);
    assert(slot_of(new_data, rec.hero_id as int) =~= record_bytes(rec).add(tail));
    lemma_parse_encoded(rec, tail);
    assert forall|j: int|
        0 <= j && j != rec.hero_id as int && slot_in_range(data, j) implies slot_of(new_data, j)
        == slot_of(data, j) by {
        assert(slot_of(new_data, j) =~= slot_of(data, j));
    }
}

/// Re-saving a record exactly as it was loaded leaves the whole region
/// byte-identical.
pub proof fn lemma_decode_reencode_identity(data: Seq<u8>, id: u8)
    requires
        load_record_spec(data, id) is Ok,
        load_record_spec(data, id)->Ok_0.hero_id == id,
    ensures
        save_record_spec(data, load_record_spec(data, id)->Ok_0) == Ok::<Seq<u8>, HeroError>(data),
{
    let rec = load_record_spec(data, id)->Ok_0;
    let slot = slot_of(data, id as int);
    lemma_record_round_trip(slot);
    let start = id as int * NFT_RECORD_SIZE as int;
    let written = RECORD_FIXED_LEN + rec.content_uri.len();
    assert(record_bytes(rec) =~= data.subrange(start, start + written));
    assert(data.subrange(0, start).add(record_bytes(rec)).add(
        data.subrange(start + written, data.len() as int),
    ) =~= data);
}

} // verus!
