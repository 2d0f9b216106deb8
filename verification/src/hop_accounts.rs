//! The accounts of each hop: those common to all hops, then those of its
//! venue, read in order from the list that the instruction names.

use crate::accounts::{key_at, spec_key_at, spec_token_at, token_at, AccountInfo,
    ContinuationAccounts};
use crate::action::{ADDeposit, ADWithdraw, Action, SSDeposit, SSDepositA, SSDepositB, SSSwap,
    SSWithdrawOne, StableSwap, SwapOutput, SwapToken};
use crate::error::FrameworkError;
use vstd::prelude::*;

verus! {

impl StableSwap {
    /// Number of accounts that the pool takes in the list.
    pub const ACCOUNTS: usize = 3;

    /// The accounts of the pool, read from place `at` on: the swap, its
    /// authority and the clock. `AccountNotEnoughKeys` where the list ends
    /// before the last of them.
    pub open spec fn spec_try_accounts(accounts: Seq<AccountInfo>, at: int) -> Result<
        StableSwap,
        FrameworkError,
    > {
        if accounts.len() < at + 3 {
            Err(FrameworkError::AccountNotEnoughKeys)
        } else {
            Ok(
                StableSwap {
                    swap: accounts[at].key,
                    swap_authority: accounts[at + 1].key,
                    clock: accounts[at + 2].key,
                },
            )
        }
    }

    /// Reads the accounts of the pool from place `at` on.
    pub fn try_accounts(accounts: &[AccountInfo], at: usize) -> (out: Result<
        StableSwap,
        FrameworkError,
    >)
        ensures
            out == Self::spec_try_accounts(accounts@, at as int),
    {
        proof {
            assert(accounts@.len() == accounts.len() <= usize::MAX);
        }
        if accounts.len() < 3 || at > accounts.len() - 3 {
            return Err(FrameworkError::AccountNotEnoughKeys);
        }
        Ok(
            StableSwap {
                swap: accounts[at].key,
                swap_authority: accounts[at + 1].key,
                clock: accounts[at + 2].key,
            },
        )
    }
}

impl SwapToken {
    /// Number of accounts that the token takes in the list.
    pub const ACCOUNTS: usize = 2;

    /// The accounts of one token of a pool, read from place `at` on: the
    /// record of the user, then the reserve of the pool. Both must stand at
    /// their places, the first must hold a balance record, and both must be
    /// open to change (`ConstraintMut`), the record first.
    pub open spec fn spec_try_accounts(accounts: Seq<AccountInfo>, at: int) -> Result<
        SwapToken,
        FrameworkError,
    > {
        match spec_token_at(accounts, at) {
            Err(e) => Err(e),
            Ok(user) => if accounts.len() < at + 2 {
                Err(FrameworkError::AccountNotEnoughKeys)
            } else if !accounts[at].is_writable || !accounts[at + 1].is_writable {
                Err(FrameworkError::ConstraintMut)
            } else {
                Ok(SwapToken { user, reserve: accounts[at + 1].key })
            },
        }
    }

    /// Reads the accounts of one token of a pool from place `at` on.
    pub fn try_accounts(accounts: &[AccountInfo], at: usize) -> (out: Result<
        SwapToken,
        FrameworkError,
    >)
        ensures
            out == Self::spec_try_accounts(accounts@, at as int),
    {
        proof {
            assert(accounts@.len() == accounts.len() <= usize::MAX);
        }
        let user = match token_at(accounts, at) {
            Ok(user) => user,
            Err(e) => {
                return Err(e);
            },
        };
        let reserve = match key_at(accounts, at + 1) {
            Ok(reserve) => reserve,
            Err(e) => {
                return Err(e);
            },
        };
        if !accounts[at].is_writable {
            return Err(FrameworkError::ConstraintMut);
        }
        if !accounts[at + 1].is_writable {
            return Err(FrameworkError::ConstraintMut);
        }
        Ok(SwapToken { user, reserve })
    }
}

impl SwapOutput {
    /// Number of accounts that the output takes in the list.
    pub const ACCOUNTS: usize = 3;

    /// The accounts of the output of a pool, read from place `at` on: those
    /// of its token, then the record that collects the fees, which must be
    /// open to change (`ConstraintMut`).
    pub open spec fn spec_try_accounts(accounts: Seq<AccountInfo>, at: int) -> Result<
        SwapOutput,
        FrameworkError,
    > {
        match SwapToken::spec_try_accounts(accounts, at) {
            Err(e) => Err(e),
            Ok(user_token) => if accounts.len() < at + 3 {
                Err(FrameworkError::AccountNotEnoughKeys)
            } else if !accounts[at + 2].is_writable {
                Err(FrameworkError::ConstraintMut)
            } else {
                Ok(SwapOutput { user_token, fees: accounts[at + 2].key })
            },
        }
    }

    /// Reads the accounts of the output of a pool from place `at` on.
    pub fn try_accounts(accounts: &[AccountInfo], at: usize) -> (out: Result<
        SwapOutput,
        FrameworkError,
    >)
        ensures
            out == Self::spec_try_accounts(accounts@, at as int),
    {
        proof {
            assert(accounts@.len() == accounts.len() <= usize::MAX);
        }
        let user_token = match SwapToken::try_accounts(accounts, at) {
            Ok(user_token) => user_token,
            Err(e) => {
                return Err(e);
            },
        };
        let fees = match key_at(accounts, at + 2) {
            Ok(fees) => fees,
            Err(e) => {
                return Err(e);
            },
        };
        if !accounts[at + 2].is_writable {
            return Err(FrameworkError::ConstraintMut);
        }
        Ok(SwapOutput { user_token, fees })
    }
}

impl SSSwap {
    /// Number of accounts that the hop takes in the list.
    pub const ACCOUNTS: usize = 8;

    /// The accounts of the hop, read from place `at` on: the pool, the input
    /// token and the output.
    pub open spec fn spec_try_accounts(accounts: Seq<AccountInfo>, at: int) -> Result<
        SSSwap,
        FrameworkError,
    > {
        match StableSwap::spec_try_accounts(accounts, at) {
            Err(e) => Err(e),
            Ok(swap) => match SwapToken::spec_try_accounts(accounts, at + 3) {
                Err(e) => Err(e),
                Ok(input) => match SwapOutput::spec_try_accounts(accounts, at + 5) {
                    Err(e) => Err(e),
                    Ok(output) => Ok(SSSwap { swap, input, output }),
                },
            },
        }
    }

    /// Reads the accounts of the hop from place `at` on.
    pub fn try_accounts(accounts: &[AccountInfo], at: usize) -> (out: Result<
        SSSwap,
        FrameworkError,
    >)
        ensures
            out == Self::spec_try_accounts(accounts@, at as int),
    {
        proof {
            assert(accounts@.len() == accounts.len() <= usize::MAX);
        }
        let swap = match StableSwap::try_accounts(accounts, at) {
            Ok(swap) => swap,
            Err(e) => {
                return Err(e);
            },
        };
        let input = match SwapToken::try_accounts(accounts, at + 3) {
            Ok(input) => input,
            Err(e) => {
                return Err(e);
            },
        };
        let output = match SwapOutput::try_accounts(accounts, at + 5) {
            Ok(output) => output,
            Err(e) => {
                return Err(e);
            },
        };
        Ok(SSSwap { swap, input, output })
    }
}

impl SSWithdrawOne {
    /// Number of accounts that the hop takes in the list.
    pub const ACCOUNTS: usize = 9;

    /// The accounts of the hop, read from place `at` on: the pool; the mint
    /// of the pool; the record of pool tokens that the hop draws on; the
    /// reserve of the token that is not paid out; and the output. When all
    /// are read, the mint, the record and the reserve must be open to change
    /// (`ConstraintMut`).
    pub open spec fn spec_try_accounts(accounts: Seq<AccountInfo>, at: int) -> Result<
        SSWithdrawOne,
        FrameworkError,
    > {
        match StableSwap::spec_try_accounts(accounts, at) {
            Err(e) => Err(e),
            Ok(swap) => match spec_key_at(accounts, at + 3) {
                Err(e) => Err(e),
                Ok(pool_mint) => match spec_token_at(accounts, at + 4) {
                    Err(e) => Err(e),
                    Ok(input_lp) => match spec_key_at(accounts, at + 5) {
                        Err(e) => Err(e),
                        Ok(quote_reserves) => match SwapOutput::spec_try_accounts(
                            accounts,
                            at + 6,
                        ) {
                            Err(e) => Err(e),
                            Ok(output) => if !accounts[at + 3].is_writable || !accounts[at
                                + 4].is_writable || !accounts[at + 5].is_writable {
                                Err(FrameworkError::ConstraintMut)
                            } else {
                                Ok(
                                    SSWithdrawOne {
                                        swap,
                                        pool_mint,
                                        input_lp,
                                        quote_reserves,
                                        output,
                                    },
                                )
                            },
                        },
                    },
                },
            },
        }
    }

    /// Reads the accounts of the hop from place `at` on.
    pub fn try_accounts(accounts: &[AccountInfo], at: usize) -> (out: Result<
        SSWithdrawOne,
        FrameworkError,
    >)
        ensures
            out == Self::spec_try_accounts(accounts@, at as int),
    {
        proof {
            assert(accounts@.len() == accounts.len() <= usize::MAX);
        }
        let swap = match StableSwap::try_accounts(accounts, at) {
            Ok(swap) => swap,
            Err(e) => {
                return Err(e);
            },
        };
        let pool_mint = match key_at(accounts, at + 3) {
            Ok(pool_mint) => pool_mint,
            Err(e) => {
                return Err(e);
            },
        };
        let input_lp = match token_at(accounts, at + 4) {
            Ok(input_lp) => input_lp,
            Err(e) => {
                return Err(e);
            },
        };
        let quote_reserves = match key_at(accounts, at + 5) {
            Ok(quote_reserves) => quote_reserves,
            Err(e) => {
                return Err(e);
            },
        };
        let output = match SwapOutput::try_accounts(accounts, at + 6) {
            Ok(output) => output,
            Err(e) => {
                return Err(e);
            },
        };
        if !accounts[at + 3].is_writable {
            return Err(FrameworkError::ConstraintMut);
        }
        if !accounts[at + 4].is_writable {
            return Err(FrameworkError::ConstraintMut);
        }
        if !accounts[at + 5].is_writable {
            return Err(FrameworkError::ConstraintMut);
        }
        Ok(SSWithdrawOne { swap, pool_mint, input_lp, quote_reserves, output })
    }
}

impl SSDeposit {
    /// Number of accounts that the deposit takes in the list.
    pub const ACCOUNTS: usize = 9;

    /// The accounts of a deposit, read from place `at` on: the pool; its two
    /// tokens; the mint of the pool; and the record that receives the pool
    /// tokens. When all are read, the mint and the record must be open to
    /// change (`ConstraintMut`).
    pub open spec fn spec_try_accounts(accounts: Seq<AccountInfo>, at: int) -> Result<
        SSDeposit,
        FrameworkError,
    > {
        match StableSwap::spec_try_accounts(accounts, at) {
            Err(e) => Err(e),
            Ok(swap) => match SwapToken::spec_try_accounts(accounts, at + 3) {
                Err(e) => Err(e),
                Ok(input_a) => match SwapToken::spec_try_accounts(accounts, at + 5) {
                    Err(e) => Err(e),
                    Ok(input_b) => match spec_key_at(accounts, at + 7) {
                        Err(e) => Err(e),
                        Ok(pool_mint) => match spec_token_at(accounts, at + 8) {
                            Err(e) => Err(e),
                            Ok(output_lp) => if !accounts[at + 7].is_writable || !accounts[at
                                + 8].is_writable {
                                Err(FrameworkError::ConstraintMut)
                            } else {
                                Ok(SSDeposit { swap, input_a, input_b, pool_mint, output_lp })
                            },
                        },
                    },
                },
            },
        }
    }

    /// Reads the accounts of a deposit from place `at` on.
    pub fn try_accounts(accounts: &[AccountInfo], at: usize) -> (out: Result<
        SSDeposit,
        FrameworkError,
    >)
        ensures
            out == Self::spec_try_accounts(accounts@, at as int),
    {
        proof {
            assert(accounts@.len() == accounts.len() <= usize::MAX);
        }
        let swap = match StableSwap::try_accounts(accounts, at) {
            Ok(swap) => swap,
            Err(e) => {
                return Err(e);
            },
        };
        let input_a = match SwapToken::try_accounts(accounts, at + 3) {
            Ok(input_a) => input_a,
            Err(e) => {
                return Err(e);
            },
        };
        let input_b = match SwapToken::try_accounts(accounts, at + 5) {
            Ok(input_b) => input_b,
            Err(e) => {
                return Err(e);
            },
        };
        let pool_mint = match key_at(accounts, at + 7) {
            Ok(pool_mint) => pool_mint,
            Err(e) => {
                return Err(e);
            },
        };
        let output_lp = match token_at(accounts, at + 8) {
            Ok(output_lp) => output_lp,
            Err(e) => {
                return Err(e);
            },
        };
        if !accounts[at + 7].is_writable {
            return Err(FrameworkError::ConstraintMut);
        }
        if !accounts[at + 8].is_writable {
            return Err(FrameworkError::ConstraintMut);
        }
        Ok(SSDeposit { swap, input_a, input_b, pool_mint, output_lp })
    }
}

/// The two records of a hop through a venue that speaks the router's own
/// interface, read from place `at` on: the one it draws on, then the one it
/// pays into. Both must stand at their places and hold balance records.
pub open spec fn spec_record_pair(accounts: Seq<AccountInfo>, at: int) -> Result<
    (crate::token_account::TokenAccount, crate::token_account::TokenAccount),
    FrameworkError,
> {
    match spec_token_at(accounts, at) {
        Err(e) => Err(e),
        Ok(input) => match spec_token_at(accounts, at + 1) {
            Err(e) => Err(e),
            Ok(output) => Ok((input, output)),
        },
    }
}

/// Reads the two records of a hop through a venue that speaks the router's
/// own interface from place `at` on.
pub fn record_pair(accounts: &[AccountInfo], at: usize) -> (out: Result<
    (crate::token_account::TokenAccount, crate::token_account::TokenAccount),
    FrameworkError,
>)
    ensures
        out == spec_record_pair(accounts@, at as int),
{
    proof {
        assert(accounts@.len() == accounts.len() <= usize::MAX);
    }
    let input = match token_at(accounts, at) {
        Ok(input) => input,
        Err(e) => {
            return Err(e);
        },
    };
    let output = match token_at(accounts, at + 1) {
        Ok(output) => output,
        Err(e) => {
            return Err(e);
        },
    };
    Ok((input, output))
}

/// The accounts of a hop: those common to all hops, then those of its venue.
#[derive(Clone, Copy, Debug)]
pub struct SSSwapAccounts {
    pub continuation: ContinuationAccounts,
    pub action: SSSwap,
}

/// The accounts of a hop: those common to all hops, then those of its venue.
#[derive(Clone, Copy, Debug)]
pub struct SSWithdrawOneAccounts {
    pub continuation: ContinuationAccounts,
    pub action: SSWithdrawOne,
}

/// The accounts of a hop: those common to all hops, then those of its venue.
#[derive(Clone, Copy, Debug)]
pub struct SSDepositAAccounts {
    pub continuation: ContinuationAccounts,
    pub action: SSDepositA,
}

/// The accounts of a hop: those common to all hops, then those of its venue.
#[derive(Clone, Copy, Debug)]
pub struct SSDepositBAccounts {
    pub continuation: ContinuationAccounts,
    pub action: SSDepositB,
}

/// The accounts of a hop: those common to all hops, then the two records of
/// the hop. What follows them in the list is handed to the venue unread.
#[derive(Clone, Copy, Debug)]
pub struct ADWithdrawAccounts {
    pub continuation: ContinuationAccounts,
    pub action: ADWithdraw,
}

/// The accounts of a hop: those common to all hops, then the two records of
/// the hop. What follows them in the list is handed to the venue unread.
#[derive(Clone, Copy, Debug)]
pub struct ADDepositAccounts {
    pub continuation: ContinuationAccounts,
    pub action: ADDeposit,
}

impl SSSwapAccounts {
    /// The accounts of the hop as they are read from the list, or the first
    /// rule that the list breaks: the rules of the common accounts come
    /// first.
    pub open spec fn spec_try_accounts(accounts: Seq<AccountInfo>) -> Result<
        SSSwapAccounts,
        FrameworkError,
    > {
        match ContinuationAccounts::spec_try_accounts(accounts) {
            Err(e) => Err(e),
            Ok(continuation) => match SSSwap::spec_try_accounts(accounts, 4) {
                Err(e) => Err(e),
                Ok(action) => Ok(SSSwapAccounts { continuation, action }),
            },
        }
    }

    /// Reads the accounts of the hop from the list.
    pub fn try_accounts(accounts: &[AccountInfo]) -> (out: Result<SSSwapAccounts, FrameworkError>)
        ensures
            out == Self::spec_try_accounts(accounts@),
    {
        let continuation = match ContinuationAccounts::try_accounts(accounts) {
            Ok(continuation) => continuation,
            Err(e) => {
                return Err(e);
            },
        };
        match SSSwap::try_accounts(accounts, 4) {
            Ok(action) => Ok(SSSwapAccounts { continuation, action }),
            Err(e) => Err(e),
        }
    }

    /// The hop that the accounts describe.
    pub fn action(&self) -> (hop: Action)
        ensures
            hop == Action::SSSwap(self.action),
    {
        Action::SSSwap(self.action)
    }
}

impl SSWithdrawOneAccounts {
    /// The accounts of the hop as they are read from the list, or the first
    /// rule that the list breaks: the rules of the common accounts come
    /// first.
    pub open spec fn spec_try_accounts(accounts: Seq<AccountInfo>) -> Result<
        SSWithdrawOneAccounts,
        FrameworkError,
    > {
        match ContinuationAccounts::spec_try_accounts(accounts) {
            Err(e) => Err(e),
            Ok(continuation) => match SSWithdrawOne::spec_try_accounts(accounts, 4) {
                Err(e) => Err(e),
                Ok(action) => Ok(SSWithdrawOneAccounts { continuation, action }),
            },
        }
    }

    /// Reads the accounts of the hop from the list.
    pub fn try_accounts(accounts: &[AccountInfo]) -> (out: Result<
        SSWithdrawOneAccounts,
        FrameworkError,
    >)
        ensures
            out == Self::spec_try_accounts(accounts@),
    {
        let continuation = match ContinuationAccounts::try_accounts(accounts) {
            Ok(continuation) => continuation,
            Err(e) => {
                return Err(e);
            },
        };
        match SSWithdrawOne::try_accounts(accounts, 4) {
            Ok(action) => Ok(SSWithdrawOneAccounts { continuation, action }),
            Err(e) => Err(e),
        }
    }

    /// The hop that the accounts describe.
    pub fn action(&self) -> (hop: Action)
        ensures
            hop == Action::SSWithdrawOne(self.action),
    {
        Action::SSWithdrawOne(self.action)
    }
}

impl SSDepositAAccounts {
    /// The accounts of the hop as they are read from the list, or the first
    /// rule that the list breaks: the rules of the common accounts come
    /// first.
    pub open spec fn spec_try_accounts(accounts: Seq<AccountInfo>) -> Result<
        SSDepositAAccounts,
        FrameworkError,
    > {
        match ContinuationAccounts::spec_try_accounts(accounts) {
            Err(e) => Err(e),
            Ok(continuation) => match SSDeposit::spec_try_accounts(accounts, 4) {
                Err(e) => Err(e),
                Ok(inner) => Ok(SSDepositAAccounts { continuation, action: SSDepositA { inner } }),
            },
        }
    }

    /// Reads the accounts of the hop from the list.
    pub fn try_accounts(accounts: &[AccountInfo]) -> (out: Result<
        SSDepositAAccounts,
        FrameworkError,
    >)
        ensures
            out == Self::spec_try_accounts(accounts@),
    {
        let continuation = match ContinuationAccounts::try_accounts(accounts) {
            Ok(continuation) => continuation,
            Err(e) => {
                return Err(e);
            },
        };
        match SSDeposit::try_accounts(accounts, 4) {
            Ok(inner) => Ok(SSDepositAAccounts { continuation, action: SSDepositA { inner } }),
            Err(e) => Err(e),
        }
    }

    /// The hop that the accounts describe.
    pub fn action(&self) -> (hop: Action)
        ensures
            hop == Action::SSDepositA(self.action),
    {
        Action::SSDepositA(self.action)
    }
}

impl SSDepositBAccounts {
    /// The accounts of the hop as they are read from the list, or the first
    /// rule that the list breaks: the rules of the common accounts come
    /// first.
    pub open spec fn spec_try_accounts(accounts: Seq<AccountInfo>) -> Result<
        SSDepositBAccounts,
        FrameworkError,
    > {
        match ContinuationAccounts::spec_try_accounts(accounts) {
            Err(e) => Err(e),
            Ok(continuation) => match SSDeposit::spec_try_accounts(accounts, 4) {
                Err(e) => Err(e),
                Ok(inner) => Ok(SSDepositBAccounts { continuation, action: SSDepositB { inner } }),
            },
        }
    }

    /// Reads the accounts of the hop from the list.
    pub fn try_accounts(accounts: &[AccountInfo]) -> (out: Result<
        SSDepositBAccounts,
        FrameworkError,
    >)
        ensures
            out == Self::spec_try_accounts(accounts@),
    {
        let continuation = match ContinuationAccounts::try_accounts(accounts) {
            Ok(continuation) => continuation,
            Err(e) => {
                return Err(e);
            },
        };
        match SSDeposit::try_accounts(accounts, 4) {
            Ok(inner) => Ok(SSDepositBAccounts { continuation, action: SSDepositB { inner } }),
            Err(e) => Err(e),
        }
    }

    /// The hop that the accounts describe.
    pub fn action(&self) -> (hop: Action)
        ensures
            hop == Action::SSDepositB(self.action),
    {
        Action::SSDepositB(self.action)
    }
}

impl ADWithdrawAccounts {
    /// The place in the list from which the accounts are handed to the venue
    /// unread.
    pub const REMAINING_FROM: usize = 6;

    /// The accounts of the hop as they are read from the list, or the first
    /// rule that the list breaks: the rules of the common accounts come
    /// first.
    pub open spec fn spec_try_accounts(accounts: Seq<AccountInfo>) -> Result<
        ADWithdrawAccounts,
        FrameworkError,
    > {
        match ContinuationAccounts::spec_try_accounts(accounts) {
            Err(e) => Err(e),
            Ok(continuation) => match spec_record_pair(accounts, 4) {
                Err(e) => Err(e),
                Ok((input, output)) => Ok(
                    ADWithdrawAccounts { continuation, action: ADWithdraw { input, output } },
                ),
            },
        }
    }

    /// Reads the accounts of the hop from the list.
    pub fn try_accounts(accounts: &[AccountInfo]) -> (out: Result<
        ADWithdrawAccounts,
        FrameworkError,
    >)
        ensures
            out == Self::spec_try_accounts(accounts@),
    {
        let continuation = match ContinuationAccounts::try_accounts(accounts) {
            Ok(continuation) => continuation,
            Err(e) => {
                return Err(e);
            },
        };
        match record_pair(accounts, 4) {
            Ok((input, output)) => Ok(
                ADWithdrawAccounts { continuation, action: ADWithdraw { input, output } },
            ),
            Err(e) => Err(e),
        }
    }

    /// The hop that the accounts describe.
    pub fn action(&self) -> (hop: Action)
        ensures
            hop == Action::ADWithdraw(self.action),
    {
        Action::ADWithdraw(self.action)
    }
}

impl ADDepositAccounts {
    /// The place in the list from which the accounts are handed to the venue
    /// unread.
    pub const REMAINING_FROM: usize = 6;

    /// The accounts of the hop as they are read from the list, or the first
    /// rule that the list breaks: the rules of the common accounts come
    /// first.
    pub open spec fn spec_try_accounts(accounts: Seq<AccountInfo>) -> Result<
        ADDepositAccounts,
        FrameworkError,
    > {
        match ContinuationAccounts::spec_try_accounts(accounts) {
            Err(e) => Err(e),
            Ok(continuation) => match spec_record_pair(accounts, 4) {
                Err(e) => Err(e),
                Ok((input, output)) => Ok(
                    ADDepositAccounts { continuation, action: ADDeposit { input, output } },
                ),
            },
        }
    }

    /// Reads the accounts of the hop from the list.
    pub fn try_accounts(accounts: &[AccountInfo]) -> (out: Result<
        ADDepositAccounts,
        FrameworkError,
    >)
        ensures
            out == Self::spec_try_accounts(accounts@),
    {
        let continuation = match ContinuationAccounts::try_accounts(accounts) {
            Ok(continuation) => continuation,
            Err(e) => {
                return Err(e);
            },
        };
        match record_pair(accounts, 4) {
            Ok((input, output)) => Ok(
                ADDepositAccounts { continuation, action: ADDeposit { input, output } },
            ),
            Err(e) => Err(e),
        }
    }

    /// The hop that the accounts describe.
    pub fn action(&self) -> (hop: Action)
        ensures
            hop == Action::ADDeposit(self.action),
    {
        Action::ADDeposit(self.action)
    }
}

} // verus!
