//! The accounts that each instruction of the router is handed, and the rules
//! that they must meet before the instruction is run.
//!
//! An instruction names its accounts in a fixed order. Each is read at its
//! place, and the first rule that is broken answers.

use crate::address::{continuation_address, find_continuation_address};
use crate::continuation::Continuation;
use crate::error::FrameworkError;
use crate::pubkey::Pubkey;
use crate::token_account::TokenAccount;
use vstd::prelude::*;

verus! {

/// What an account holds, as far as the router reads it.
#[derive(Clone, Copy, Debug)]
pub enum AccountData {
    /// Nothing that the router reads.
    Other,
    /// Storage of the router that carries no mark yet: its first eight bytes
    /// are zero. It reads as the continuation that the bytes after them
    /// encode, which is the default one where they are all zero too.
    Fresh(Continuation),
    /// A balance record of the token program.
    Token { mint: Pubkey, owner: Pubkey, amount: u64 },
    /// A continuation of the router.
    Continuation(Continuation),
}

/// An account as it is handed to an instruction.
#[derive(Clone, Copy, Debug)]
pub struct AccountInfo {
    /// The address of the account.
    pub key: Pubkey,
    /// Whether the account signed the transaction.
    pub is_signer: bool,
    /// Whether the instruction may change the account.
    pub is_writable: bool,
    /// Whether the account holds enough to be exempt from rent.
    pub rent_exempt: bool,
    /// What the account holds.
    pub data: AccountData,
}

/// The address of the account at place `i`; `AccountNotEnoughKeys` where the
/// list ends before it.
pub open spec fn spec_key_at(accounts: Seq<AccountInfo>, i: int) -> Result<Pubkey, FrameworkError> {
    if accounts.len() <= i {
        Err(FrameworkError::AccountNotEnoughKeys)
    } else {
        Ok(accounts[i].key)
    }
}

/// The address of the signer at place `i`; `AccountNotEnoughKeys` where the
/// list ends before it, `AccountNotSigner` where the account did not sign.
pub open spec fn spec_signer_at(accounts: Seq<AccountInfo>, i: int) -> Result<
    Pubkey,
    FrameworkError,
> {
    if accounts.len() <= i {
        Err(FrameworkError::AccountNotEnoughKeys)
    } else if !accounts[i].is_signer {
        Err(FrameworkError::AccountNotSigner)
    } else {
        Ok(accounts[i].key)
    }
}

/// The balance record at place `i`; `AccountNotEnoughKeys` where the list
/// ends before it, `AccountOwnedByWrongProgram` where the account holds none.
pub open spec fn spec_token_at(accounts: Seq<AccountInfo>, i: int) -> Result<
    TokenAccount,
    FrameworkError,
> {
    if accounts.len() <= i {
        Err(FrameworkError::AccountNotEnoughKeys)
    } else {
        match accounts[i].data {
            AccountData::Token { mint, owner, amount } => Ok(
                TokenAccount { key: accounts[i].key, mint, owner, amount },
            ),
            _ => Err(FrameworkError::AccountOwnedByWrongProgram),
        }
    }
}

/// The continuation at place `i`; `AccountNotEnoughKeys` where the list ends
/// before it, `AccountOwnedByWrongProgram` where the account holds none.
pub open spec fn spec_continuation_at(accounts: Seq<AccountInfo>, i: int) -> Result<
    Continuation,
    FrameworkError,
> {
    if accounts.len() <= i {
        Err(FrameworkError::AccountNotEnoughKeys)
    } else {
        match accounts[i].data {
            AccountData::Continuation(c) => Ok(c),
            _ => Err(FrameworkError::AccountOwnedByWrongProgram),
        }
    }
}

/// Reads the address of the account at place `i`.
pub fn key_at(accounts: &[AccountInfo], i: usize) -> (out: Result<Pubkey, FrameworkError>)
    ensures
        out == spec_key_at(accounts@, i as int),
{
    if accounts.len() <= i {
        return Err(FrameworkError::AccountNotEnoughKeys);
    }
    Ok(accounts[i].key)
}

/// Reads the address of the signer at place `i`.
pub fn signer_at(accounts: &[AccountInfo], i: usize) -> (out: Result<Pubkey, FrameworkError>)
    ensures
        out == spec_signer_at(accounts@, i as int),
{
    if accounts.len() <= i {
        return Err(FrameworkError::AccountNotEnoughKeys);
    }
    if !accounts[i].is_signer {
        return Err(FrameworkError::AccountNotSigner);
    }
    Ok(accounts[i].key)
}

/// Reads the balance record at place `i`.
pub fn token_at(accounts: &[AccountInfo], i: usize) -> (out: Result<TokenAccount, FrameworkError>)
    ensures
        out == spec_token_at(accounts@, i as int),
{
    if accounts.len() <= i {
        return Err(FrameworkError::AccountNotEnoughKeys);
    }
    match accounts[i].data {
        AccountData::Token { mint, owner, amount } => Ok(
            TokenAccount { key: accounts[i].key, mint, owner, amount },
        ),
        _ => Err(FrameworkError::AccountOwnedByWrongProgram),
    }
}

/// Reads the continuation at place `i`.
pub fn continuation_at(accounts: &[AccountInfo], i: usize) -> (out: Result<
    Continuation,
    FrameworkError,
>)
    ensures
        out == spec_continuation_at(accounts@, i as int),
{
    if accounts.len() <= i {
        return Err(FrameworkError::AccountNotEnoughKeys);
    }
    match accounts[i].data {
        AccountData::Continuation(c) => Ok(c),
        _ => Err(FrameworkError::AccountOwnedByWrongProgram),
    }
}

/// Begins a route.
///
/// The accounts, in order: the storage of the continuation, at the address
/// derived for the owner and the nonce; the nonce; the input and the output
/// record; the owner and the payer, who both sign; the rent and the system
/// service of the host.
#[derive(Clone, Copy, Debug)]
pub struct Begin {
    /// Continuation state.
    pub continuation: Continuation,
    /// Nonce used for associating the continuation. Any arbitrary [`Pubkey`]
    /// can be passed here.
    pub random: Pubkey,
    /// Input token account.
    pub input: TokenAccount,
    /// Output token account.
    pub output: TokenAccount,
    /// Owner of all token accounts in the chain.
    pub owner: Pubkey,
    /// Funds the continuation in the beginning transaction and receives the
    /// staked lamports of the continuation in the end transaction.
    pub payer: Pubkey,
}

/// Begins a route whose continuation is kept in storage that the caller
/// supplies.
///
/// The accounts, in order: the storage of the continuation, which carries no
/// mark yet; the input and the output record; the owner, who signs.
#[derive(Clone, Copy, Debug)]
pub struct BeginV2 {
    /// Continuation state.
    pub continuation: Continuation,
    /// Input token account.
    pub input: TokenAccount,
    /// Output token account.
    pub output: TokenAccount,
    /// Owner of all token accounts in the chain.
    pub owner: Pubkey,
}

/// Ends a route.
///
/// The accounts, in order: the continuation; the output record; the owner,
/// who signs; the payer.
#[derive(Clone, Copy, Debug)]
pub struct End {
    /// Continuation state.
    pub continuation: Continuation,
    /// Output token account.
    pub output: TokenAccount,
    /// Owner of all accounts in the chain.
    pub owner: Pubkey,
    /// Funds the continuation in the beginning transaction and receives the
    /// staked lamports of the continuation in the end transaction.
    pub payer: Pubkey,
}

/// Context common to all router operations.
///
/// The accounts, in order: the continuation; the token program; the program
/// of the venue; the owner, who signs.
#[derive(Clone, Copy, Debug)]
pub struct ContinuationAccounts {
    /// Continuation state.
    pub continuation: Continuation,
    /// The spl_token program.
    pub token_program: Pubkey,
    /// The relevant swap program.
    pub swap_program: Pubkey,
    /// The owner of all involved token accounts.
    pub owner: Pubkey,
}

impl Begin {
    /// Number of accounts that the instruction names.
    pub const ACCOUNTS: usize = 8;

    /// The accounts of the instruction as they are read from the list, or the
    /// first rule that the list breaks, where `derived` is the address
    /// derived for the continuation of the owner and the nonce, with its bump.
    ///
    /// Every account must stand at its place, the two records must be balance
    /// records, and the owner and the payer must have signed. Then: the
    /// storage stands at the derived address (`ConstraintSeeds`), may be
    /// changed (`ConstraintMut`) and is exempt from rent
    /// (`ConstraintRentExempt`); the input and the output record belong to
    /// the owner (`ConstraintHasOne`); and the payer may be changed
    /// (`ConstraintMut`). The continuation is that of fresh storage.
    pub open spec fn spec_try_accounts(
        accounts: Seq<AccountInfo>,
        derived: Option<(Pubkey, u8)>,
    ) -> Result<(Begin, u8), FrameworkError> {
        if accounts.len() < 3 {
            Err(FrameworkError::AccountNotEnoughKeys)
        } else if spec_token_at(accounts, 2) is Err {
            Err(spec_token_at(accounts, 2)->Err_0)
        } else if spec_token_at(accounts, 3) is Err {
            Err(spec_token_at(accounts, 3)->Err_0)
        } else if spec_signer_at(accounts, 4) is Err {
            Err(spec_signer_at(accounts, 4)->Err_0)
        } else if spec_signer_at(accounts, 5) is Err {
            Err(spec_signer_at(accounts, 5)->Err_0)
        } else if accounts.len() < 8 {
            Err(FrameworkError::AccountNotEnoughKeys)
        } else if derived is None || derived.unwrap().0 != accounts[0].key {
            Err(FrameworkError::ConstraintSeeds)
        } else if !accounts[0].is_writable {
            Err(FrameworkError::ConstraintMut)
        } else if !accounts[0].rent_exempt {
            Err(FrameworkError::ConstraintRentExempt)
        } else if spec_token_at(accounts, 2)->Ok_0.owner != accounts[4].key {
            Err(FrameworkError::ConstraintHasOne)
        } else if spec_token_at(accounts, 3)->Ok_0.owner != accounts[4].key {
            Err(FrameworkError::ConstraintHasOne)
        } else if !accounts[5].is_writable {
            Err(FrameworkError::ConstraintMut)
        } else {
            Ok(
                (
                    Begin {
                        continuation: Continuation::spec_default(),
                        random: accounts[1].key,
                        input: spec_token_at(accounts, 2)->Ok_0,
                        output: spec_token_at(accounts, 3)->Ok_0,
                        owner: accounts[4].key,
                        payer: accounts[5].key,
                    },
                    derived.unwrap().1,
                ),
            )
        }
    }

    /// The address derived for the continuation that the list asks for, with
    /// its bump; `None` where the list ends before the owner, or no address
    /// can be derived.
    pub open spec fn spec_derived(program_id: Pubkey, accounts: Seq<AccountInfo>) -> Option<
        (Seq<u8>, u8),
    > {
        if accounts.len() < 5 {
            None
        } else {
            continuation_address(program_id, accounts[4].key, accounts[1].key)
        }
    }

    /// Reads the accounts of the instruction from the list, given the address
    /// derived for the continuation and its bump.
    pub fn try_accounts_at(accounts: &[AccountInfo], derived: Option<(Pubkey, u8)>) -> (out: Result<
        (Begin, u8),
        FrameworkError,
    >)
        ensures
            out == Self::spec_try_accounts(accounts@, derived),
    {
        if accounts.len() < 3 {
            return Err(FrameworkError::AccountNotEnoughKeys);
        }
        let continuation = accounts[0];
        let random = accounts[1].key;
        let input = match token_at(accounts, 2) {
            Ok(input) => input,
            Err(e) => {
                return Err(e);
            },
        };
        let output = match token_at(accounts, 3) {
            Ok(output) => output,
            Err(e) => {
                return Err(e);
            },
        };
        let owner = match signer_at(accounts, 4) {
            Ok(owner) => owner,
            Err(e) => {
                return Err(e);
            },
        };
        let payer = match signer_at(accounts, 5) {
            Ok(payer) => payer,
            Err(e) => {
                return Err(e);
            },
        };
        if accounts.len() < 8 {
            return Err(FrameworkError::AccountNotEnoughKeys);
        }
        let bump = match derived {
            Some((address, bump)) => {
                if continuation.key != address {
                    return Err(FrameworkError::ConstraintSeeds);
                }
                bump
            },
            None => {
                return Err(FrameworkError::ConstraintSeeds);
            },
        };
        if !continuation.is_writable {
            return Err(FrameworkError::ConstraintMut);
        }
        if !continuation.rent_exempt {
            return Err(FrameworkError::ConstraintRentExempt);
        }
        if input.owner != owner {
            return Err(FrameworkError::ConstraintHasOne);
        }
        if output.owner != owner {
            return Err(FrameworkError::ConstraintHasOne);
        }
        if !accounts[5].is_writable {
            return Err(FrameworkError::ConstraintMut);
        }
        Ok(
            (
                Begin { continuation: Continuation::default(), random, input, output, owner, payer },
                bump,
            ),
        )
    }

    /// Reads the accounts of the instruction from the list, and derives the
    /// address at which the continuation must stand.
    ///
    /// The outcome is that of [`Begin::try_accounts_at`] on the address that
    /// the host derives for the owner and the nonce in the list.
    pub fn try_accounts(program_id: &Pubkey, accounts: &[AccountInfo]) -> (out: Result<
        (Begin, u8),
        FrameworkError,
    >)
        ensures
            exists|derived: Option<(Pubkey, u8)>|
                {
                    &&& out == #[trigger] Self::spec_try_accounts(accounts@, derived)
                    &&& match derived {
                        Some((address, bump)) => Self::spec_derived(*program_id, accounts@)
                            == Some((address@, bump)),
                        None => Self::spec_derived(*program_id, accounts@) is None,
                    }
                },
    {
        let derived = if accounts.len() < 5 {
            None
        } else {
            find_continuation_address(program_id, &accounts[4].key, &accounts[1].key)
        };
        Self::try_accounts_at(accounts, derived)
    }
}

impl BeginV2 {
    /// Number of accounts that the instruction names.
    pub const ACCOUNTS: usize = 4;

    /// The accounts of the instruction as they are read from the list, or the
    /// first rule that the list breaks.
    ///
    /// Every account must stand at its place, the two records must be balance
    /// records, and the owner must have signed. Then: the storage carries no
    /// mark yet (`ConstraintZero`), may be changed (`ConstraintMut`) and is
    /// exempt from rent (`ConstraintRentExempt`); and the input and the output
    /// record belong to the owner (`ConstraintHasOne`). The continuation is
    /// the one that the storage reads as.
    pub open spec fn spec_try_accounts(accounts: Seq<AccountInfo>) -> Result<
        BeginV2,
        FrameworkError,
    > {
        if accounts.len() < 1 {
            Err(FrameworkError::AccountNotEnoughKeys)
        } else if spec_token_at(accounts, 1) is Err {
            Err(spec_token_at(accounts, 1)->Err_0)
        } else if spec_token_at(accounts, 2) is Err {
            Err(spec_token_at(accounts, 2)->Err_0)
        } else if spec_signer_at(accounts, 3) is Err {
            Err(spec_signer_at(accounts, 3)->Err_0)
        } else if !(accounts[0].data is Fresh) {
            Err(FrameworkError::ConstraintZero)
        } else if !accounts[0].is_writable {
            Err(FrameworkError::ConstraintMut)
        } else if !accounts[0].rent_exempt {
            Err(FrameworkError::ConstraintRentExempt)
        } else if spec_token_at(accounts, 1)->Ok_0.owner != accounts[3].key {
            Err(FrameworkError::ConstraintHasOne)
        } else if spec_token_at(accounts, 2)->Ok_0.owner != accounts[3].key {
            Err(FrameworkError::ConstraintHasOne)
        } else {
            Ok(
                BeginV2 {
                    continuation: accounts[0].data->Fresh_0,
                    input: spec_token_at(accounts, 1)->Ok_0,
                    output: spec_token_at(accounts, 2)->Ok_0,
                    owner: accounts[3].key,
                },
            )
        }
    }

    /// Reads the accounts of the instruction from the list.
    pub fn try_accounts(accounts: &[AccountInfo]) -> (out: Result<BeginV2, FrameworkError>)
        ensures
            out == Self::spec_try_accounts(accounts@),
    {
        if accounts.len() < 1 {
            return Err(FrameworkError::AccountNotEnoughKeys);
        }
        let continuation = accounts[0];
        let input = match token_at(accounts, 1) {
            Ok(input) => input,
            Err(e) => {
                return Err(e);
            },
        };
        let output = match token_at(accounts, 2) {
            Ok(output) => output,
            Err(e) => {
                return Err(e);
            },
        };
        let owner = match signer_at(accounts, 3) {
            Ok(owner) => owner,
            Err(e) => {
                return Err(e);
            },
        };
        let record = match continuation.data {
            AccountData::Fresh(record) => record,
            _ => {
                return Err(FrameworkError::ConstraintZero);
            },
        };
        if !continuation.is_writable {
            return Err(FrameworkError::ConstraintMut);
        }
        if !continuation.rent_exempt {
            return Err(FrameworkError::ConstraintRentExempt);
        }
        if input.owner != owner {
            return Err(FrameworkError::ConstraintHasOne);
        }
        if output.owner != owner {
            return Err(FrameworkError::ConstraintHasOne);
        }
        Ok(BeginV2 { continuation: record, input, output, owner })
    }
}

impl End {
    /// Number of accounts that the instruction names.
    pub const ACCOUNTS: usize = 4;

    /// The accounts of the instruction as they are read from the list, or the
    /// first rule that the list breaks.
    ///
    /// Every account must stand at its place, the first must hold a
    /// continuation and the second a balance record, and the owner must have
    /// signed. Then: the continuation may be changed (`ConstraintMut`); it
    /// names the owner, the payer and the output record that the list names
    /// (`ConstraintHasOne`); it is not kept in the account of the payer, into
    /// which it is closed (`ConstraintClose`); and the payer may be changed
    /// (`ConstraintMut`).
    pub open spec fn spec_try_accounts(accounts: Seq<AccountInfo>) -> Result<End, FrameworkError> {
        if spec_continuation_at(accounts, 0) is Err {
            Err(spec_continuation_at(accounts, 0)->Err_0)
        } else if spec_token_at(accounts, 1) is Err {
            Err(spec_token_at(accounts, 1)->Err_0)
        } else if spec_signer_at(accounts, 2) is Err {
            Err(spec_signer_at(accounts, 2)->Err_0)
        } else if accounts.len() < 4 {
            Err(FrameworkError::AccountNotEnoughKeys)
        } else if !accounts[0].is_writable {
            Err(FrameworkError::ConstraintMut)
        } else if spec_continuation_at(accounts, 0)->Ok_0.owner != accounts[2].key {
            Err(FrameworkError::ConstraintHasOne)
        } else if spec_continuation_at(accounts, 0)->Ok_0.payer != accounts[3].key {
            Err(FrameworkError::ConstraintHasOne)
        } else if spec_continuation_at(accounts, 0)->Ok_0.output != accounts[1].key {
            Err(FrameworkError::ConstraintHasOne)
        } else if accounts[0].key == accounts[3].key {
            Err(FrameworkError::ConstraintClose)
        } else if !accounts[3].is_writable {
            Err(FrameworkError::ConstraintMut)
        } else {
            Ok(
                End {
                    continuation: spec_continuation_at(accounts, 0)->Ok_0,
                    output: spec_token_at(accounts, 1)->Ok_0,
                    owner: accounts[2].key,
                    payer: accounts[3].key,
                },
            )
        }
    }

    /// Reads the accounts of the instruction from the list.
    pub fn try_accounts(accounts: &[AccountInfo]) -> (out: Result<End, FrameworkError>)
        ensures
            out == Self::spec_try_accounts(accounts@),
    {
        let continuation = match continuation_at(accounts, 0) {
            Ok(continuation) => continuation,
            Err(e) => {
                return Err(e);
            },
        };
        let output = match token_at(accounts, 1) {
            Ok(output) => output,
            Err(e) => {
                return Err(e);
            },
        };
        let owner = match signer_at(accounts, 2) {
            Ok(owner) => owner,
            Err(e) => {
                return Err(e);
            },
        };
        let payer = match key_at(accounts, 3) {
            Ok(payer) => payer,
            Err(e) => {
                return Err(e);
            },
        };
        if !accounts[0].is_writable {
            return Err(FrameworkError::ConstraintMut);
        }
        if continuation.owner != owner {
            return Err(FrameworkError::ConstraintHasOne);
        }
        if continuation.payer != payer {
            return Err(FrameworkError::ConstraintHasOne);
        }
        if continuation.output != output.key {
            return Err(FrameworkError::ConstraintHasOne);
        }
        if accounts[0].key == payer {
            return Err(FrameworkError::ConstraintClose);
        }
        if !accounts[3].is_writable {
            return Err(FrameworkError::ConstraintMut);
        }
        Ok(End { continuation, output, owner, payer })
    }
}

impl ContinuationAccounts {
    /// Number of accounts that every hop names before its own.
    pub const ACCOUNTS: usize = 4;

    /// The accounts common to all hops as they are read from the list, or the
    /// first rule that the list breaks.
    ///
    /// Every account must stand at its place, the first must hold a
    /// continuation, and the owner must have signed. Then: the continuation
    /// may be changed (`ConstraintMut`) and names the owner
    /// (`ConstraintHasOne`).
    pub open spec fn spec_try_accounts(accounts: Seq<AccountInfo>) -> Result<
        ContinuationAccounts,
        FrameworkError,
    > {
        if spec_continuation_at(accounts, 0) is Err {
            Err(spec_continuation_at(accounts, 0)->Err_0)
        } else if spec_signer_at(accounts, 3) is Err {
            Err(spec_signer_at(accounts, 3)->Err_0)
        } else if !accounts[0].is_writable {
            Err(FrameworkError::ConstraintMut)
        } else if spec_continuation_at(accounts, 0)->Ok_0.owner != accounts[3].key {
            Err(FrameworkError::ConstraintHasOne)
        } else {
            Ok(
                ContinuationAccounts {
                    continuation: spec_continuation_at(accounts, 0)->Ok_0,
                    token_program: accounts[1].key,
                    swap_program: accounts[2].key,
                    owner: accounts[3].key,
                },
            )
        }
    }

    /// Reads the accounts common to all hops from the list.
    pub fn try_accounts(accounts: &[AccountInfo]) -> (out: Result<
        ContinuationAccounts,
        FrameworkError,
    >)
        ensures
            out == Self::spec_try_accounts(accounts@),
    {
        let continuation = match continuation_at(accounts, 0) {
            Ok(continuation) => continuation,
            Err(e) => {
                return Err(e);
            },
        };
        let owner = match signer_at(accounts, 3) {
            Ok(owner) => owner,
            Err(e) => {
                return Err(e);
            },
        };
        if !accounts[0].is_writable {
            return Err(FrameworkError::ConstraintMut);
        }
        if continuation.owner != owner {
            return Err(FrameworkError::ConstraintHasOne);
        }
        Ok(
            ContinuationAccounts {
                continuation,
                token_program: accounts[1].key,
                swap_program: accounts[2].key,
                owner,
            },
        )
    }
}

} // verus!
