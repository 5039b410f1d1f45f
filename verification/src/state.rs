use vstd::prelude::*;

verus! {

/// Capacity of the repository region, in record slots.
pub const NFT_COUNT: usize = 12;

/// Fixed byte width of one slot.  Every record is addressed at
/// `hero_id * NFT_RECORD_SIZE` and must serialize within this bound.
pub const NFT_RECORD_SIZE: usize = 250;

/// Bytes a serialized record occupies besides its content pointer:
/// the slot index, the pointer's length prefix, the token identity and the
/// two price fields.
pub const RECORD_FIXED_LEN: usize = 1 + 4 + 32 + 8 + 8;

/// Seed text that ties an administrator's identity to the repository address.
pub const REPO_ACCOUNT_SEED: &'static str = "hallofheros";

/// One catalog entry: a record describing a token-bound listing.
pub struct NFTRecord {
    /// Slot index; fixed at creation, it determines the record's byte offset.
    pub hero_id: u8,
    /// Content pointer for the listing, as bytes of bounded length.
    pub content_uri: Vec<u8>,
    /// The 32-byte address of the non-fungible token bound to this slot.
    pub key_nft: Vec<u8>,
    /// Price at which the most recent purchase settled.
    pub last_price: u64,
    /// Price at which the current owner offers to sell.
    pub listed_price: u64,
}

/// Mathematical image of an [`NFTRecord`].
#[verifier::ext_equal]
pub ghost struct NFTRecordV {
    pub hero_id: u8,
    pub content_uri: Seq<u8>,
    pub key_nft: Seq<u8>,
    pub last_price: u64,
    pub listed_price: u64,
}

impl View for NFTRecord {
    type V = NFTRecordV;

    open spec fn view(&self) -> NFTRecordV {
        NFTRecordV {
            hero_id: self.hero_id,
            content_uri: self.content_uri@,
            key_nft: self.key_nft@,
            last_price: self.last_price,
            listed_price: self.listed_price,
        }
    }
}

impl NFTRecordV {
    /// A record is well formed when its token identity is a full address and
    /// its serialization fits one slot.
    pub open spec fn wf(self) -> bool {
        &&& self.key_nft.len() == 32
        &&& RECORD_FIXED_LEN + self.content_uri.len() <= NFT_RECORD_SIZE
    }
}

} // verus!
