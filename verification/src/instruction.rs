//! Tagged wire form of the three instructions.
//!
//! The first byte of an instruction buffer selects the handler; the remainder
//! is the argument record, serialized field by field: one byte for a slot
//! index, a 4-byte little-endian length prefix before each byte string, raw
//! 32 bytes for an address, 8 little-endian bytes for a price.  The argument
//! record must fill the remainder exactly.

use vstd::prelude::*;
use vstd::bytes::{spec_u32_from_le_bytes, spec_u64_from_le_bytes, u32_from_le_bytes, u64_from_le_bytes};
use vstd::slice::{slice_index_get, slice_subrange, slice_to_vec};

use crate::error::HeroError;
use crate::processor::{
    AddRecordArgs, AddRecordArgsV, BuyRecordArgs, BuyRecordArgsV, UpdateRecordArgs,
    UpdateRecordArgsV,
};

verus! {

/// A decoded instruction, ready for its handler.
pub enum HeroInstruction {
    /// Write a fresh record into a slot of the repository.
    AddRecord(AddRecordArgs),
    /// Re-price and re-describe the record of a held token.
    UpdateRecord(UpdateRecordArgs),
    /// Purchase a record: move the token, retire the old metadata, settle the
    /// price and pay the seller.
    BuyRecord(BuyRecordArgs),
    /// Diagnostic instruction without any effect.
    OnChainMinting,
}

/// Mathematical image of a [`HeroInstruction`].
pub ghost enum HeroInstructionV {
    AddRecord(AddRecordArgsV),
    UpdateRecord(UpdateRecordArgsV),
    BuyRecord(BuyRecordArgsV),
    OnChainMinting,
}

impl View for HeroInstruction {
    type V = HeroInstructionV;

    open spec fn view(&self) -> HeroInstructionV {
        match self {
            HeroInstruction::AddRecord(a) => HeroInstructionV::AddRecord(a@),
            HeroInstruction::UpdateRecord(a) => HeroInstructionV::UpdateRecord(a@),
            HeroInstruction::BuyRecord(a) => HeroInstructionV::BuyRecord(a@),
            HeroInstruction::OnChainMinting => HeroInstructionV::OnChainMinting,
        }
    }
}

/// A length-prefixed byte string read at `off`: the bytes and the offset just
/// past them.
pub open spec fn parse_borsh_bytes(b: Seq<u8>, off: int) -> Option<(Seq<u8>, int)> {
    if off + 4 > b.len() {
        None
    } else {
        let n = spec_u32_from_le_bytes(b.subrange(off, off + 4)) as int;
        if off + 4 + n > b.len() {
            None
        } else {
            Some((b.subrange(off + 4, off + 4 + n), off + 4 + n))
        }
    }
}

/// The argument record of a record addition, if the buffer holds exactly one.
pub open spec fn parse_add_args(b: Seq<u8>) -> Option<AddRecordArgsV> {
    if b.len() < 1 {
        None
    } else {
        match parse_borsh_bytes(b, 1) {
            Option::None => None,
            Option::Some((uri, o1)) => match parse_borsh_bytes(b, o1) {
                Option::None => None,
                Option::Some((key, o2)) => if o2 + 16 != b.len() {
                    None
                } else {
                    Some(AddRecordArgsV {
                        hero_id: b[0],
                        content_uri: uri,
                        key_nft: key,
                        last_price: spec_u64_from_le_bytes(b.subrange(o2, o2 + 8)),
                        listed_price: spec_u64_from_le_bytes(b.subrange(o2 + 8, o2 + 16)),
                    })
                },
            },
        }
    }
}

/// The argument record of an update, if the buffer holds exactly one.
pub open spec fn parse_update_args(b: Seq<u8>) -> Option<UpdateRecordArgsV> {
    if b.len() < 41 {
        None
    } else {
        match parse_borsh_bytes(b, 41) {
            Option::None => None,
            Option::Some((uri, o1)) => if o1 != b.len() {
                None
            } else {
                Some(UpdateRecordArgsV {
                    hero_id: b[0],
                    key_nft: b.subrange(1, 33),
                    new_price: spec_u64_from_le_bytes(b.subrange(33, 41)),
                    content_uri: uri,
                })
            },
        }
    }
}

/// The argument record of a purchase, if the buffer holds exactly one.
pub open spec fn parse_buy_args(b: Seq<u8>) -> Option<BuyRecordArgsV> {
    if b.len() < 1 {
        None
    } else {
        match parse_borsh_bytes(b, 1) {
            Option::None => None,
            Option::Some((uri, o1)) => match parse_borsh_bytes(b, o1) {
                Option::None => None,
                Option::Some((name, o2)) => if o2 != b.len() {
                    None
                } else {
                    Some(BuyRecordArgsV { hero_id: b[0], dead_uri: uri, dead_name: name })
                },
            },
        }
    }
}

/// The instruction an input buffer decodes to: the first byte selects the
/// shape, the remainder must hold exactly its argument record.
pub open spec fn unpack_spec(b: Seq<u8>) -> Result<HeroInstructionV, HeroError> {
    if b.len() == 0 {
        Err(HeroError::InvalidInstruction)
    } else {
        let rest = b.skip(1);
        if b[0] == 0 {
            match parse_add_args(rest) {
                Option::Some(a) => Ok(HeroInstructionV::AddRecord(a)),
                Option::None => Err(HeroError::InvalidInstruction),
            }
        } else if b[0] == 1 {
            match parse_update_args(rest) {
                Option::Some(a) => Ok(HeroInstructionV::UpdateRecord(a)),
                Option::None => Err(HeroError::InvalidInstruction),
            }
        } else if b[0] == 2 {
            match parse_buy_args(rest) {
                Option::Some(a) => Ok(HeroInstructionV::BuyRecord(a)),
                Option::None => Err(HeroError::InvalidInstruction),
            }
        } else if b[0] == 3 {
            Ok(HeroInstructionV::OnChainMinting)
        } else {
            Err(HeroError::InvalidInstruction)
        }
    }
}

/// Reads a length-prefixed byte string at `off`.
fn read_borsh_bytes(input: &[u8], off: usize) -> (r: Option<(Vec<u8>, usize)>)
    requires
        off <= input@.len(),
    ensures
        match r {
            Some(p) => parse_borsh_bytes(input@, off as int) == Some((p.0@, p.1 as int)) && off + 4
                <= p.1 <= input@.len(),
            None => parse_borsh_bytes(input@, off as int) is None,
        },
{
    let len = input.len();
    if len < 4 || off > len - 4 {
        return None;
    }
    let n32 = u32_from_le_bytes(slice_subrange(input, off, off + 4));
    let n = n32 as usize;
    if n > len - (off + 4) {
        return None;
    }
    let bytes = slice_to_vec(slice_subrange(input, off + 4, off + 4 + n));
    Some((bytes, off + 4 + n))
}

impl HeroInstruction {
    /// Decodes an instruction buffer, or refuses it as a whole.
    pub fn unpack(input: &[u8]) -> (r: Result<HeroInstruction, HeroError>)
        ensures
            match r {
                Ok(i) => unpack_spec(input@) == Ok::<HeroInstructionV, HeroError>(i@),
                Err(e) => unpack_spec(input@) == Err::<HeroInstructionV, HeroError>(e),
            },
    {
        if input.len() == 0 {
            return Err(HeroError::InvalidInstruction);
        }
        let tag = *slice_index_get(input, 0);
        let rest = slice_subrange(input, 1, input.len());
        assert(rest@ =~= input@.skip(1));
        if tag == 0 {
            match Self::unpack_add_record_args(rest) {
                Ok(a) => Ok(HeroInstruction::AddRecord(a)),
                Err(e) => Err(e),
            }
        } else if tag == 1 {
            match Self::unpack_update_record_args(rest) {
                Ok(a) => Ok(HeroInstruction::UpdateRecord(a)),
                Err(e) => Err(e),
            }
        } else if tag == 2 {
            match Self::unpack_buy_record_args(rest) {
                Ok(a) => Ok(HeroInstruction::BuyRecord(a)),
                Err(e) => Err(e),
            }
        } else if tag == 3 {
            Ok(HeroInstruction::OnChainMinting)
        } else {
            Err(HeroError::InvalidInstruction)
        }
    }

    /// Decodes the argument record of a record addition.
    fn unpack_add_record_args(input: &[u8]) -> (r: Result<AddRecordArgs, HeroError>)
        ensures
            match r {
                Ok(a) => parse_add_args(input@) == Some(a@),
                Err(e) => parse_add_args(input@) is None && e == HeroError::InvalidInstruction,
            },
    {
        let len = input.len();
        if len < 1 {
            return Err(HeroError::InvalidInstruction);
        }
        let hero_id = *slice_index_get(input, 0);
        let (content_uri, o1) = match read_borsh_bytes(input, 1) {
            None => return Err(HeroError::InvalidInstruction),
            Some(p) => p,
        };
        let (key_nft, o2) = match read_borsh_bytes(input, o1) {
            None => return Err(HeroError::InvalidInstruction),
            Some(p) => p,
        };
        if len - o2 != 16 {
            return Err(HeroError::InvalidInstruction);
        }
        let last_price = u64_from_le_bytes(slice_subrange(input, o2, o2 + 8));
        let listed_price = u64_from_le_bytes(slice_subrange(input, o2 + 8, o2 + 16));
        Ok(AddRecordArgs { hero_id, content_uri, key_nft, last_price, listed_price })
    }

    /// Decodes the argument record of an update.
    fn unpack_update_record_args(input: &[u8]) -> (r: Result<UpdateRecordArgs, HeroError>)
        ensures
            match r {
                Ok(a) => parse_update_args(input@) == Some(a@),
                Err(e) => parse_update_args(input@) is None && e == HeroError::InvalidInstruction,
            },
    {
        let len = input.len();
        if len < 41 {
            return Err(HeroError::InvalidInstruction);
        }
        let hero_id = *slice_index_get(input, 0);
        let key_nft = slice_to_vec(slice_subrange(input, 1, 33));
        let new_price = u64_from_le_bytes(slice_subrange(input, 33, 41));
        let (content_uri, o1) = match read_borsh_bytes(input, 41) {
            None => return Err(HeroError::InvalidInstruction),
            Some(p) => p,
        };
        if o1 != len {
            return Err(HeroError::InvalidInstruction);
        }
        Ok(UpdateRecordArgs { hero_id, key_nft, new_price, content_uri })
    }

    /// Decodes the argument record of a purchase.
    fn unpack_buy_record_args(input: &[u8]) -> (r: Result<BuyRecordArgs, HeroError>)
        ensures
            match r {
                Ok(a) => parse_buy_args(input@) == Some(a@),
                Err(e) => parse_buy_args(input@) is None && e == HeroError::InvalidInstruction,
            },
    {
        let len = input.len();
        if len < 1 {
            return Err(HeroError::InvalidInstruction);
        }
        let hero_id = *slice_index_get(input, 0);
        let (dead_uri, o1) = match read_borsh_bytes(input, 1) {
            None => return Err(HeroError::InvalidInstruction),
            Some(p) => p,
        };
        let (dead_name, o2) = match read_borsh_bytes(input, o1) {
            None => return Err(HeroError::InvalidInstruction),
            Some(p) => p,
        };
        if o2 != len {
            return Err(HeroError::InvalidInstruction);
        }
        Ok(BuyRecordArgs { hero_id, dead_uri, dead_name })
    }
}

} // verus!
