//! Call-outs to the host's primitives: deterministic address derivation,
//! base58 address text, and the fixed account images of the token and
//! token-metadata programs.  Each wrapper's contract states what the called
//! crate's own source shows of the call; the logic around the calls is
//! verified against these contracts.

use vstd::prelude::*;

verus! {

/// Address the host derives from a base identity, a seed text and an owning
/// program, or `None` where the derivation is refused.  The result depends on
/// the three arguments alone.
pub uninterp spec fn derived_address(base: Seq<u8>, seed: Seq<char>, owner: Seq<u8>) -> Option<
    Seq<u8>,
>;

/// Relies on `solana_program::pubkey::Pubkey::create_with_seed`: the result is
/// a digest of `(base, seed, owner)` and of nothing else; the call fails only
/// for a seed longer than the seed limit or an owner that ends in the
/// program-derived-address marker, and a returned address is 32 bytes.
#[verifier::external_body]
pub(crate) fn create_address_with_seed(base: &Vec<u8>, seed: &str, owner: &Vec<u8>) -> (r: Option<
    Vec<u8>,
>)
    requires
        base@.len() == 32,
        owner@.len() == 32,
    ensures
        match r {
            Some(a) => derived_address(base@, seed@, owner@) == Some(a@) && a@.len() == 32,
            None => derived_address(base@, seed@, owner@) is None,
        },
{
    let base_key = solana_program::pubkey::Pubkey::new(base.as_slice());
    let owner_key = solana_program::pubkey::Pubkey::new(owner.as_slice());
    match solana_program::pubkey::Pubkey::create_with_seed(&base_key, seed, &owner_key) {
        Ok(p) => Some(p.to_bytes().to_vec()),
        Err(_) => None,
    }
}

/// The 32-byte address whose base58 rendering is the given UTF-8 text, or
/// `None` where the text is not such a rendering.  The result depends on the
/// text alone.
pub uninterp spec fn text_address(text: Seq<u8>) -> Option<Seq<u8>>;

/// Relies on `Pubkey`'s `FromStr` in `solana_program` (base58 decoding, which
/// accepts exactly the well-formed 32-byte renderings), with `str::from_utf8`
/// converting the argument; a returned address is 32 bytes.
#[verifier::external_body]
pub(crate) fn parse_text_address(text: &Vec<u8>) -> (r: Option<Vec<u8>>)
    ensures
        match r {
            Some(a) => text_address(text@) == Some(a@) && a@.len() == 32,
            None => text_address(text@) is None,
        },
{
    let s = match core::str::from_utf8(text.as_slice()) {
        Ok(s) => s,
        Err(_) => return None,
    };
    match <solana_program::pubkey::Pubkey as core::str::FromStr>::from_str(s) {
        Ok(p) => Some(p.to_bytes().to_vec()),
        Err(_) => None,
    }
}

/// Whether a four-byte optional-field tag of a token account image is well
/// formed.
pub open spec fn coption_tag_ok(d: Seq<u8>, off: int) -> bool {
    &&& (d[off] == 0 || d[off] == 1)
    &&& d[off + 1] == 0
    &&& d[off + 2] == 0
    &&& d[off + 3] == 0
}

/// Whether the leading 165 bytes parse as a token account image: the three
/// optional-field tags and the state byte must be well formed.
pub open spec fn token_account_parses(d: Seq<u8>) -> bool {
    &&& coption_tag_ok(d, 72)
    &&& d[108] <= 2
    &&& coption_tag_ok(d, 109)
    &&& coption_tag_ok(d, 129)
}

/// The token identity recorded in a token account image.
pub open spec fn token_mint_of(d: Seq<u8>) -> Seq<u8> {
    d.subrange(0, 32)
}

/// The holder recorded in a token account image.
pub open spec fn token_holder_of(d: Seq<u8>) -> Seq<u8> {
    d.subrange(32, 64)
}

/// Relies on `spl_token::state::Account::unpack_from_slice`: the image is a
/// fixed 165-byte layout with the mint at bytes 0..32, the holder at 32..64,
/// optional-field tags at 72, 109 and 129 and the state byte at 108; the call
/// reads the leading 165 bytes and fails exactly when a tag or the state byte
/// is out of range.  Returns the recorded (mint, holder) pair.
#[verifier::external_body]
pub(crate) fn unpack_token_account(data: &Vec<u8>) -> (r: Option<(Vec<u8>, Vec<u8>)>)
    requires
        data@.len() >= 165,
    ensures
        match r {
            Some(p) => token_account_parses(data@) && p.0@ == token_mint_of(data@) && p.1@
                == token_holder_of(data@),
            None => !token_account_parses(data@),
        },
{
    let parsed = <spl_token::state::Account as solana_program::program_pack::Pack>::unpack_from_slice(
        data.as_slice(),
    );
    match parsed {
        Ok(a) => Some((a.mint.to_bytes().to_vec(), a.owner.to_bytes().to_vec())),
        Err(_) => None,
    }
}

/// The mint recorded in a token-metadata account image, or `None` where the
/// bytes do not parse as one.  The result depends on the bytes alone.
pub uninterp spec fn metadata_mint(data: Seq<u8>) -> Option<Seq<u8>>;

/// Relies on `spl_token_metadata::utils::try_from_slice_checked` for
/// `Metadata`: the image must be exactly the fixed metadata length of 679
/// bytes, tagged as metadata, and carries the mint at bytes 33..65 after the
/// one-byte tag and the 32-byte update authority.
#[verifier::external_body]
pub(crate) fn read_metadata_mint(data: &Vec<u8>) -> (r: Option<Vec<u8>>)
    requires
        data@.len() >= 1,
    ensures
        match r {
            Some(m) => metadata_mint(data@) == Some(m@) && m@ == data@.subrange(33, 65)
                && data@.len() == 679,
            None => metadata_mint(data@) is None,
        },
{
    let parsed: Result<spl_token_metadata::state::Metadata, _> =
        spl_token_metadata::utils::try_from_slice_checked(
        data.as_slice(),
        spl_token_metadata::state::Key::MetadataV1,
        spl_token_metadata::state::MAX_METADATA_LEN,
    );
    match parsed {
        Ok(m) => Some(m.mint.to_bytes().to_vec()),
        Err(_) => None,
    }
}

} // verus!
