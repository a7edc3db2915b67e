//! Errors of the vault program and the program-level error they become.
use vstd::prelude::*;

use crate::codec::BorshError;

verus! {

/// Errors that may be returned by the VovoVault program.
#[derive(Clone, Copy, Debug, PartialEq, Eq, Structural)]
pub enum VovoVaultError {
    /// Account does not have correct owner
    IncorrectOwner,
    /// Lamport balance below rent-exempt threshold
    NotRentExempt,
    /// VovoVault account specified is invalid.
    InvalidVovoVaultAccount,
    /// Balance too low to make bid.
    BalanceTooLow,
    /// Failed to derive an account from seeds.
    DerivedKeyInvalid,
    /// Token transfer failed
    TokenTransferFailed,
    /// Token mint to failed
    TokenMintToFailed,
    /// Token burn failed
    TokenBurnFailed,
    /// Invalid authority
    InvalidAuthority,
    /// Authority not signer
    AuthorityNotSigner,
    /// Uninitialized
    Uninitialized,
    /// Metadata account is missing or invalid.
    MetadataInvalid,
    /// Bidder pot is missing, and required for SPL trades.
    BidderPotDoesNotExist,
    /// Existing Bid is already active.
    BidAlreadyActive,
    /// Incorrect mint specified, must match vault.
    IncorrectMint,
    /// Must reveal price when ending a blinded vault.
    MustReveal,
    /// The revealing hash is invalid.
    InvalidReveal,
    /// This is not a valid token program
    InvalidTokenProgram,
    /// Data type mismatch
    DataTypeMismatch,
    /// Invalid token pool address
    InvalidTokenPool,
}

impl VovoVaultError {
    /// The number by which the runtime reports this error: its position in the declaration.
    pub open spec fn spec_code(self) -> u32 {
        match self {
            VovoVaultError::IncorrectOwner => 0,
            VovoVaultError::NotRentExempt => 1,
            VovoVaultError::InvalidVovoVaultAccount => 2,
            VovoVaultError::BalanceTooLow => 3,
            VovoVaultError::DerivedKeyInvalid => 4,
            VovoVaultError::TokenTransferFailed => 5,
            VovoVaultError::TokenMintToFailed => 6,
            VovoVaultError::TokenBurnFailed => 7,
            VovoVaultError::InvalidAuthority => 8,
            VovoVaultError::AuthorityNotSigner => 9,
            VovoVaultError::Uninitialized => 10,
            VovoVaultError::MetadataInvalid => 11,
            VovoVaultError::BidderPotDoesNotExist => 12,
            VovoVaultError::BidAlreadyActive => 13,
            VovoVaultError::IncorrectMint => 14,
            VovoVaultError::MustReveal => 15,
            VovoVaultError::InvalidReveal => 16,
            VovoVaultError::InvalidTokenProgram => 17,
            VovoVaultError::DataTypeMismatch => 18,
            VovoVaultError::InvalidTokenPool => 19,
        }
    }

    /// The error's text.
    pub open spec fn spec_message(self) -> Seq<char> {
        match self {
            VovoVaultError::IncorrectOwner => "Account does not have correct owner"@,
            VovoVaultError::NotRentExempt => "Lamport balance below rent-exempt threshold"@,
            VovoVaultError::InvalidVovoVaultAccount => "VovoVault account specified is invalid."@,
            VovoVaultError::BalanceTooLow => "Balance too low to make bid."@,
            VovoVaultError::DerivedKeyInvalid => "Failed to derive an account from seeds."@,
            VovoVaultError::TokenTransferFailed => "Token transfer failed"@,
            VovoVaultError::TokenMintToFailed => "Token mint to failed"@,
            VovoVaultError::TokenBurnFailed => "Token burn failed"@,
            VovoVaultError::InvalidAuthority => "Invalid authority"@,
            VovoVaultError::AuthorityNotSigner => "Authority not signer"@,
            VovoVaultError::Uninitialized => "Uninitialized"@,
            VovoVaultError::MetadataInvalid => "Metadata account is missing or invalid."@,
            VovoVaultError::BidderPotDoesNotExist => "Bidder pot is missing, and required for SPL trades."@,
            VovoVaultError::BidAlreadyActive => "Existing Bid is already active."@,
            VovoVaultError::IncorrectMint => "Incorrect mint specified, must match vault."@,
            VovoVaultError::MustReveal => "Must reveal price when ending a blinded vault."@,
            VovoVaultError::InvalidReveal => "The revealing hash is invalid."@,
            VovoVaultError::InvalidTokenProgram => " This is not a valid token program"@,
            VovoVaultError::DataTypeMismatch => "Data type mismatch"@,
            VovoVaultError::InvalidTokenPool => "Invalid token pool address"@,
        }
    }

    /// The variant whose number is `code`, if there is one.
    pub open spec fn spec_from_u32(code: u32) -> Option<VovoVaultError> {
        if code == 0 {
            Some(VovoVaultError::IncorrectOwner)
        } else if code == 1 {
            Some(VovoVaultError::NotRentExempt)
        } else if code == 2 {
            Some(VovoVaultError::InvalidVovoVaultAccount)
        } else if code == 3 {
            Some(VovoVaultError::BalanceTooLow)
        } else if code == 4 {
            Some(VovoVaultError::DerivedKeyInvalid)
        } else if code == 5 {
            Some(VovoVaultError::TokenTransferFailed)
        } else if code == 6 {
            Some(VovoVaultError::TokenMintToFailed)
        } else if code == 7 {
            Some(VovoVaultError::TokenBurnFailed)
        } else if code == 8 {
            Some(VovoVaultError::InvalidAuthority)
        } else if code == 9 {
            Some(VovoVaultError::AuthorityNotSigner)
        } else if code == 10 {
            Some(VovoVaultError::Uninitialized)
        } else if code == 11 {
            Some(VovoVaultError::MetadataInvalid)
        } else if code == 12 {
            Some(VovoVaultError::BidderPotDoesNotExist)
        } else if code == 13 {
            Some(VovoVaultError::BidAlreadyActive)
        } else if code == 14 {
            Some(VovoVaultError::IncorrectMint)
        } else if code == 15 {
            Some(VovoVaultError::MustReveal)
        } else if code == 16 {
            Some(VovoVaultError::InvalidReveal)
        } else if code == 17 {
            Some(VovoVaultError::InvalidTokenProgram)
        } else if code == 18 {
            Some(VovoVaultError::DataTypeMismatch)
        } else if code == 19 {
            Some(VovoVaultError::InvalidTokenPool)
        } else {
            None
        }
    }

    /// The number by which the runtime reports this error.
    pub fn code(&self) -> (c: u32)
        ensures
            c == self.spec_code(),
    {
        match self {
            VovoVaultError::IncorrectOwner => 0,
            VovoVaultError::NotRentExempt => 1,
            VovoVaultError::InvalidVovoVaultAccount => 2,
            VovoVaultError::BalanceTooLow => 3,
            VovoVaultError::DerivedKeyInvalid => 4,
            VovoVaultError::TokenTransferFailed => 5,
            VovoVaultError::TokenMintToFailed => 6,
            VovoVaultError::TokenBurnFailed => 7,
            VovoVaultError::InvalidAuthority => 8,
            VovoVaultError::AuthorityNotSigner => 9,
            VovoVaultError::Uninitialized => 10,
            VovoVaultError::MetadataInvalid => 11,
            VovoVaultError::BidderPotDoesNotExist => 12,
            VovoVaultError::BidAlreadyActive => 13,
            VovoVaultError::IncorrectMint => 14,
            VovoVaultError::MustReveal => 15,
            VovoVaultError::InvalidReveal => 16,
            VovoVaultError::InvalidTokenProgram => 17,
            VovoVaultError::DataTypeMismatch => 18,
            VovoVaultError::InvalidTokenPool => 19,
        }
    }

    /// The error's text.
    pub fn message(&self) -> (s: &'static str)
        ensures
            s@ == self.spec_message(),
    {
        match self {
            VovoVaultError::IncorrectOwner => {
                proof {
                    reveal_strlit("Account does not have correct owner");
                }
                "Account does not have correct owner"
            },
            VovoVaultError::NotRentExempt => {
                proof {
                    reveal_strlit("Lamport balance below rent-exempt threshold");
                }
                "Lamport balance below rent-exempt threshold"
            },
            VovoVaultError::InvalidVovoVaultAccount => {
                proof {
                    reveal_strlit("VovoVault account specified is invalid.");
                }
                "VovoVault account specified is invalid."
            },
            VovoVaultError::BalanceTooLow => {
                proof {
                    reveal_strlit("Balance too low to make bid.");
                }
                "Balance too low to make bid."
            },
            VovoVaultError::DerivedKeyInvalid => {
                proof {
                    reveal_strlit("Failed to derive an account from seeds.");
                }
                "Failed to derive an account from seeds."
            },
            VovoVaultError::TokenTransferFailed => {
                proof {
                    reveal_strlit("Token transfer failed");
                }
                "Token transfer failed"
            },
            VovoVaultError::TokenMintToFailed => {
                proof {
                    reveal_strlit("Token mint to failed");
                }
                "Token mint to failed"
            },
            VovoVaultError::TokenBurnFailed => {
                proof {
                    reveal_strlit("Token burn failed");
                }
                "Token burn failed"
            },
            VovoVaultError::InvalidAuthority => {
                proof {
                    reveal_strlit("Invalid authority");
                }
                "Invalid authority"
            },
            VovoVaultError::AuthorityNotSigner => {
                proof {
                    reveal_strlit("Authority not signer");
                }
                "Authority not signer"
            },
            VovoVaultError::Uninitialized => {
                proof {
                    reveal_strlit("Uninitialized");
                }
                "Uninitialized"
            },
            VovoVaultError::MetadataInvalid => {
                proof {
                    reveal_strlit("Metadata account is missing or invalid.");
                }
                "Metadata account is missing or invalid."
            },
            VovoVaultError::BidderPotDoesNotExist => {
                proof {
                    reveal_strlit("Bidder pot is missing, and required for SPL trades.");
                }
                "Bidder pot is missing, and required for SPL trades."
            },
            VovoVaultError::BidAlreadyActive => {
                proof {
                    reveal_strlit("Existing Bid is already active.");
                }
                "Existing Bid is already active."
            },
            VovoVaultError::IncorrectMint => {
                proof {
                    reveal_strlit("Incorrect mint specified, must match vault.");
                }
                "Incorrect mint specified, must match vault."
            },
            VovoVaultError::MustReveal => {
                proof {
                    reveal_strlit("Must reveal price when ending a blinded vault.");
                }
                "Must reveal price when ending a blinded vault."
            },
            VovoVaultError::InvalidReveal => {
                proof {
                    reveal_strlit("The revealing hash is invalid.");
                }
                "The revealing hash is invalid."
            },
            VovoVaultError::InvalidTokenProgram => {
                proof {
                    reveal_strlit(" This is not a valid token program");
                }
                " This is not a valid token program"
            },
            VovoVaultError::DataTypeMismatch => {
                proof {
                    reveal_strlit("Data type mismatch");
                }
                "Data type mismatch"
            },
            VovoVaultError::InvalidTokenPool => {
                proof {
                    reveal_strlit("Invalid token pool address");
                }
                "Invalid token pool address"
            },
        }
    }

    /// The variant whose number is `code`; `None` past the last variant.
    pub fn from_u32(code: u32) -> (r: Option<VovoVaultError>)
        ensures
            r == Self::spec_from_u32(code),
    {
        if code == 0 {
            Some(VovoVaultError::IncorrectOwner)
        } else if code == 1 {
            Some(VovoVaultError::NotRentExempt)
        } else if code == 2 {
            Some(VovoVaultError::InvalidVovoVaultAccount)
        } else if code == 3 {
            Some(VovoVaultError::BalanceTooLow)
        } else if code == 4 {
            Some(VovoVaultError::DerivedKeyInvalid)
        } else if code == 5 {
            Some(VovoVaultError::TokenTransferFailed)
        } else if code == 6 {
            Some(VovoVaultError::TokenMintToFailed)
        } else if code == 7 {
            Some(VovoVaultError::TokenBurnFailed)
        } else if code == 8 {
            Some(VovoVaultError::InvalidAuthority)
        } else if code == 9 {
            Some(VovoVaultError::AuthorityNotSigner)
        } else if code == 10 {
            Some(VovoVaultError::Uninitialized)
        } else if code == 11 {
            Some(VovoVaultError::MetadataInvalid)
        } else if code == 12 {
            Some(VovoVaultError::BidderPotDoesNotExist)
        } else if code == 13 {
            Some(VovoVaultError::BidAlreadyActive)
        } else if code == 14 {
            Some(VovoVaultError::IncorrectMint)
        } else if code == 15 {
            Some(VovoVaultError::MustReveal)
        } else if code == 16 {
            Some(VovoVaultError::InvalidReveal)
        } else if code == 17 {
            Some(VovoVaultError::InvalidTokenProgram)
        } else if code == 18 {
            Some(VovoVaultError::DataTypeMismatch)
        } else if code == 19 {
            Some(VovoVaultError::InvalidTokenPool)
        } else {
            None
        }
    }
}

/// Reasons the program may fail, as the runtime reports them.
#[derive(Clone, Copy, Debug, PartialEq, Eq, Structural)]
pub enum ProgramError {
    /// A program-specific error, reported by its number.
    Custom(u32),
    /// The instruction expected additional account keys.
    NotEnoughAccountKeys,
    /// A signature was required but not found.
    MissingRequiredSignature,
    /// Account or instruction data could not be read or written.
    BorshIoError(BorshError),
}

impl From<VovoVaultError> for ProgramError {
    fn from(e: VovoVaultError) -> (r: ProgramError) {
        ProgramError::Custom(e.code())
    }
}

impl vstd::std_specs::convert::FromSpecImpl<VovoVaultError> for ProgramError {
    open spec fn obeys_from_spec() -> bool {
        true
    }

    open spec fn from_spec(e: VovoVaultError) -> ProgramError {
        ProgramError::Custom(e.spec_code())
    }
}

/// The program-level error that a vault error becomes.
pub open spec fn vault_error(e: VovoVaultError) -> ProgramError {
    ProgramError::Custom(e.spec_code())
}

/// Each vault error has its own number, and that number leads back to it.
pub proof fn lemma_error_codes_identify_errors(e: VovoVaultError, f: VovoVaultError)
    ensures
        VovoVaultError::spec_from_u32(e.spec_code()) == Some(e),
        e.spec_code() < 20,
        e.spec_code() == f.spec_code() ==> e == f,
        vault_error(e) == vault_error(f) ==> e == f,
{
}

/// Numbers past the last variant name no vault error.
pub proof fn lemma_unknown_codes(code: u32)
    ensures
        VovoVaultError::spec_from_u32(code) is None <==> code >= 20,
        VovoVaultError::spec_from_u32(code) matches Some(e) ==> e.spec_code() == code,
{
}

/// The runtime reports each vault error as a custom error numbered by the
/// error's place in the declaration, counting from 0.
pub proof fn lemma_error_numbers_follow_the_declaration()
    ensures
        vault_error(VovoVaultError::IncorrectOwner) == ProgramError::Custom(0),
        vault_error(VovoVaultError::NotRentExempt) == ProgramError::Custom(1),
        vault_error(VovoVaultError::InvalidVovoVaultAccount) == ProgramError::Custom(2),
        vault_error(VovoVaultError::BalanceTooLow) == ProgramError::Custom(3),
        vault_error(VovoVaultError::DerivedKeyInvalid) == ProgramError::Custom(4),
        vault_error(VovoVaultError::TokenTransferFailed) == ProgramError::Custom(5),
        vault_error(VovoVaultError::TokenMintToFailed) == ProgramError::Custom(6),
        vault_error(VovoVaultError::TokenBurnFailed) == ProgramError::Custom(7),
        vault_error(VovoVaultError::InvalidAuthority) == ProgramError::Custom(8),
        vault_error(VovoVaultError::AuthorityNotSigner) == ProgramError::Custom(9),
        vault_error(VovoVaultError::Uninitialized) == ProgramError::Custom(10),
        vault_error(VovoVaultError::MetadataInvalid) == ProgramError::Custom(11),
        vault_error(VovoVaultError::BidderPotDoesNotExist) == ProgramError::Custom(12),
        vault_error(VovoVaultError::BidAlreadyActive) == ProgramError::Custom(13),
        vault_error(VovoVaultError::IncorrectMint) == ProgramError::Custom(14),
        vault_error(VovoVaultError::MustReveal) == ProgramError::Custom(15),
        vault_error(VovoVaultError::InvalidReveal) == ProgramError::Custom(16),
        vault_error(VovoVaultError::InvalidTokenProgram) == ProgramError::Custom(17),
        vault_error(VovoVaultError::DataTypeMismatch) == ProgramError::Custom(18),
        vault_error(VovoVaultError::InvalidTokenPool) == ProgramError::Custom(19),
{
}

} // verus!
