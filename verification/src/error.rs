use vstd::prelude::*;

verus! {

/// Every condition on which a handler refuses to act.  Each failure is final
/// for the whole invocation: the host undoes any effect already performed.
#[derive(Clone, Copy, Debug, PartialEq, Eq, Structural)]
pub enum HeroError {
    /// The instruction buffer is empty, carries an unknown tag, or its
    /// argument payload does not decode.
    InvalidInstruction,
    /// A slot index falls outside the repository region.
    HeroOverflow,
    /// The stored record's token identity disagrees with the supplied key
    /// during a purchase.
    InvalidNFTKey,
    /// Reserved by the wire protocol for accounts below the rent floor.
    NotRentExempt,
    /// A required signer did not sign.
    MissingSignature,
    /// The repository account is not owned by this program.
    WrongProgramOwner,
    /// The caller's derived repository address does not match the repository.
    NotAuthorized,
    /// A token-holding account's recorded holder or token identity differs
    /// from the expected pair.
    OwnershipMismatch,
    /// The stored record's token identity disagrees with the supplied key
    /// during an update.
    InvalidTokenKey,
    /// A record's serialization would not fit its slot.
    RecordTooLarge,
    /// Slot bytes do not parse as a record.
    MalformedRecord,
    /// A token or metadata account's bytes are not a valid account image.
    InvalidAccountData,
    /// The caller supplied fewer accounts than the handler's positional list
    /// requires.
    NotEnoughAccounts,
}

} // verus!
