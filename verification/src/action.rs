//! The hops that a route can take, and what each asks of its venue.

use crate::action_type::ActionType;
use crate::codec::{put_mark, put_u16, put_u64, u16_le, u64_le};
use crate::pubkey::Pubkey;
use crate::token_account::TokenAccount;
use vstd::prelude::*;

verus! {

/// Accounts for interacting with a StableSwap pool.
#[derive(Clone, Copy, Debug)]
pub struct StableSwap {
    /// The swap account.
    pub swap: Pubkey,
    /// The authority of the swap.
    pub swap_authority: Pubkey,
    /// The clock.
    pub clock: Pubkey,
}

/// Token accounts for a StableSwap instruction.
#[derive(Clone, Copy, Debug)]
pub struct SwapToken {
    /// The token account associated with the user.
    pub user: TokenAccount,
    /// The token account for the pool's reserves of this token.
    pub reserve: Pubkey,
}

/// Token accounts for the destination of a StableSwap instruction.
#[derive(Clone, Copy, Debug)]
pub struct SwapOutput {
    /// The token accounts of the user and the token.
    pub user_token: SwapToken,
    /// The token account for the fees associated with the token.
    pub fees: Pubkey,
}

/// Swaps one token of a pool for the other.
#[derive(Clone, Copy, Debug)]
pub struct SSSwap {
    /// Swap and authority.
    pub swap: StableSwap,
    /// The input token of this component of the route.
    pub input: SwapToken,
    /// The output token of this component of the route.
    pub output: SwapOutput,
}

/// Redeems tokens of a pool for one of its two tokens.
#[derive(Clone, Copy, Debug)]
pub struct SSWithdrawOne {
    /// Swap and authority.
    pub swap: StableSwap,
    /// The pool mint of the swap.
    pub pool_mint: Pubkey,
    /// The input account for LP tokens.
    pub input_lp: TokenAccount,
    /// The output of the unused token of this component of the route.
    pub quote_reserves: Pubkey,
    /// The output of this component of the route.
    pub output: SwapOutput,
}

/// Deposit accounts.
#[derive(Clone, Copy, Debug)]
pub struct SSDeposit {
    /// Swap and authority.
    pub swap: StableSwap,
    /// The input of token A of this component of the route.
    pub input_a: SwapToken,
    /// The input of token B of this component of the route.
    pub input_b: SwapToken,
    /// The pool mint of the swap.
    pub pool_mint: Pubkey,
    /// The destination account for LP tokens.
    pub output_lp: TokenAccount,
}

/// Deposits token A of a pool, and nothing of token B.
#[derive(Clone, Copy, Debug)]
pub struct SSDepositA {
    pub inner: SSDeposit,
}

/// Deposits token B of a pool, and nothing of token A.
#[derive(Clone, Copy, Debug)]
pub struct SSDepositB {
    pub inner: SSDeposit,
}

/// Withdraws through a venue that speaks the router's own interface.
#[derive(Clone, Copy, Debug)]
pub struct ADWithdraw {
    pub input: TokenAccount,
    pub output: TokenAccount,
}

/// Deposits through a venue that speaks the router's own interface.
#[derive(Clone, Copy, Debug)]
pub struct ADDeposit {
    pub input: TokenAccount,
    pub output: TokenAccount,
}

/// One hop of a route.
#[derive(Clone, Copy, Debug)]
pub enum Action {
    SSSwap(SSSwap),
    SSWithdrawOne(SSWithdrawOne),
    SSDepositA(SSDepositA),
    SSDepositB(SSDepositB),
    ADWithdraw(ADWithdraw),
    ADDeposit(ADDeposit),
}

/// What a hop asks of its venue.
#[derive(Clone, Copy, Debug, PartialEq, Eq, Structural)]
pub enum VenueCall {
    /// Swap `amount_in` of the input token for at least `minimum_amount_out`
    /// of the output token.
    Swap { amount_in: u64, minimum_amount_out: u64 },
    /// Redeem `pool_token_amount` tokens of the pool for at least
    /// `minimum_token_amount` of one of its tokens.
    WithdrawOne { pool_token_amount: u64, minimum_token_amount: u64 },
    /// Deposit the two amounts for at least `min_mint_amount` tokens of the
    /// pool.
    Deposit { token_a_amount: u64, token_b_amount: u64, min_mint_amount: u64 },
    /// Ask a venue that speaks the router's own interface for the action with
    /// the code `action`.
    ProcessAction { action: u16, amount_in: u64, minimum_amount_out: u64 },
}

/// The eight bytes by which a venue knows a request in the router's own
/// interface.
pub open spec fn spec_process_action_tag() -> Seq<u8> {
    seq![214u8, 8u8, 4u8, 77u8, 180u8, 230u8, 207u8, 158u8]
}

/// The bytes of a request in the router's own interface: its tag, then the
/// code of the action, the amount to consume and the least to pay out.
pub open spec fn spec_process_action(action: u16, amount_in: u64, minimum_amount_out: u64) -> Seq<
    u8,
> {
    spec_process_action_tag() + u16_le(action) + u64_le(amount_in) + u64_le(minimum_amount_out)
}

/// Writes a request in the router's own interface, for a venue that speaks
/// it.
pub fn process_action(action: u16, amount_in: u64, minimum_amount_out: u64) -> (data: Vec<u8>)
    ensures
        data@ == spec_process_action(action, amount_in, minimum_amount_out),
{
    let tag: [u8; 8] = [214, 8, 4, 77, 180, 230, 207, 158];
    proof {
        assert(tag@ =~= spec_process_action_tag());
    }
    let mut data: Vec<u8> = Vec::new();
    put_mark(&mut data, &tag);
    put_u16(&mut data, action);
    put_u64(&mut data, amount_in);
    put_u64(&mut data, minimum_amount_out);
    data
}

impl SSSwap {
    /// The record that the hop draws on.
    pub fn input_account(&self) -> (account: TokenAccount)
        ensures
            account == self.input.user,
    {
        self.input.user
    }

    /// The record that the hop pays into.
    pub fn output_account(&self) -> (account: TokenAccount)
        ensures
            account == self.output.user_token.user,
    {
        self.output.user_token.user
    }
}

impl SSWithdrawOne {
    /// The record that the hop draws on.
    pub fn input_account(&self) -> (account: TokenAccount)
        ensures
            account == self.input_lp,
    {
        self.input_lp
    }

    /// The record that the hop pays into.
    pub fn output_account(&self) -> (account: TokenAccount)
        ensures
            account == self.output.user_token.user,
    {
        self.output.user_token.user
    }
}

impl SSDepositA {
    /// The record that the hop draws on.
    pub fn input_account(&self) -> (account: TokenAccount)
        ensures
            account == self.inner.input_a.user,
    {
        self.inner.input_a.user
    }

    /// The record that the hop pays into.
    pub fn output_account(&self) -> (account: TokenAccount)
        ensures
            account == self.inner.output_lp,
    {
        self.inner.output_lp
    }
}

impl SSDepositB {
    /// The record that the hop draws on.
    pub fn input_account(&self) -> (account: TokenAccount)
        ensures
            account == self.inner.input_b.user,
    {
        self.inner.input_b.user
    }

    /// The record that the hop pays into.
    pub fn output_account(&self) -> (account: TokenAccount)
        ensures
            account == self.inner.output_lp,
    {
        self.inner.output_lp
    }
}

impl ADWithdraw {
    /// The record that the hop draws on.
    pub fn input_account(&self) -> (account: TokenAccount)
        ensures
            account == self.input,
    {
        self.input
    }

    /// The record that the hop pays into.
    pub fn output_account(&self) -> (account: TokenAccount)
        ensures
            account == self.output,
    {
        self.output
    }
}

impl ADDeposit {
    /// The record that the hop draws on.
    pub fn input_account(&self) -> (account: TokenAccount)
        ensures
            account == self.input,
    {
        self.input
    }

    /// The record that the hop pays into.
    pub fn output_account(&self) -> (account: TokenAccount)
        ensures
            account == self.output,
    {
        self.output
    }
}

impl Action {
    /// The kind of the hop.
    pub open spec fn spec_action_type(self) -> ActionType {
        match self {
            Action::SSSwap(_) => ActionType::SSSwap,
            Action::SSWithdrawOne(_) => ActionType::SSWithdrawOne,
            Action::SSDepositA(_) => ActionType::SSDepositA,
            Action::SSDepositB(_) => ActionType::SSDepositB,
            Action::ADWithdraw(_) => ActionType::ADWithdraw,
            Action::ADDeposit(_) => ActionType::ADDeposit,
        }
    }

    /// The record that the hop draws on.
    pub open spec fn spec_input_account(self) -> TokenAccount {
        match self {
            Action::SSSwap(a) => a.input.user,
            Action::SSWithdrawOne(a) => a.input_lp,
            Action::SSDepositA(a) => a.inner.input_a.user,
            Action::SSDepositB(a) => a.inner.input_b.user,
            Action::ADWithdraw(a) => a.input,
            Action::ADDeposit(a) => a.input,
        }
    }

    /// The record that the hop pays into.
    pub open spec fn spec_output_account(self) -> TokenAccount {
        match self {
            Action::SSSwap(a) => a.output.user_token.user,
            Action::SSWithdrawOne(a) => a.output.user_token.user,
            Action::SSDepositA(a) => a.inner.output_lp,
            Action::SSDepositB(a) => a.inner.output_lp,
            Action::ADWithdraw(a) => a.output,
            Action::ADDeposit(a) => a.output,
        }
    }

    /// What the hop asks of its venue when it is to consume `amount_in` and
    /// to pay out at least `minimum_amount_out`. A deposit puts in one token
    /// of the pool only, so the amount of the other is zero.
    pub open spec fn spec_venue_call(self, amount_in: u64, minimum_amount_out: u64) -> VenueCall {
        match self {
            Action::SSSwap(_) => VenueCall::Swap { amount_in, minimum_amount_out },
            Action::SSWithdrawOne(_) => VenueCall::WithdrawOne {
                pool_token_amount: amount_in,
                minimum_token_amount: minimum_amount_out,
            },
            Action::SSDepositA(_) => VenueCall::Deposit {
                token_a_amount: amount_in,
                token_b_amount: 0,
                min_mint_amount: minimum_amount_out,
            },
            Action::SSDepositB(_) => VenueCall::Deposit {
                token_a_amount: 0,
                token_b_amount: amount_in,
                min_mint_amount: minimum_amount_out,
            },
            Action::ADWithdraw(_) => VenueCall::ProcessAction {
                action: ActionType::ADWithdraw.code(),
                amount_in,
                minimum_amount_out,
            },
            Action::ADDeposit(_) => VenueCall::ProcessAction {
                action: ActionType::ADDeposit.code(),
                amount_in,
                minimum_amount_out,
            },
        }
    }

    /// The kind of the hop.
    pub fn action_type(&self) -> (kind: ActionType)
        ensures
            kind == self.spec_action_type(),
    {
        match self {
            Action::SSSwap(_) => ActionType::SSSwap,
            Action::SSWithdrawOne(_) => ActionType::SSWithdrawOne,
            Action::SSDepositA(_) => ActionType::SSDepositA,
            Action::SSDepositB(_) => ActionType::SSDepositB,
            Action::ADWithdraw(_) => ActionType::ADWithdraw,
            Action::ADDeposit(_) => ActionType::ADDeposit,
        }
    }

    /// The record that the hop draws on.
    pub fn input_account(&self) -> (account: TokenAccount)
        ensures
            account == self.spec_input_account(),
    {
        match self {
            Action::SSSwap(a) => a.input_account(),
            Action::SSWithdrawOne(a) => a.input_account(),
            Action::SSDepositA(a) => a.input_account(),
            Action::SSDepositB(a) => a.input_account(),
            Action::ADWithdraw(a) => a.input_account(),
            Action::ADDeposit(a) => a.input_account(),
        }
    }

    /// The record that the hop pays into.
    pub fn output_account(&self) -> (account: TokenAccount)
        ensures
            account == self.spec_output_account(),
    {
        match self {
            Action::SSSwap(a) => a.output_account(),
            Action::SSWithdrawOne(a) => a.output_account(),
            Action::SSDepositA(a) => a.output_account(),
            Action::SSDepositB(a) => a.output_account(),
            Action::ADWithdraw(a) => a.output_account(),
            Action::ADDeposit(a) => a.output_account(),
        }
    }

    /// What the hop asks of its venue when it is to consume `amount_in` and
    /// to pay out at least `minimum_amount_out`.
    pub fn venue_call(&self, amount_in: u64, minimum_amount_out: u64) -> (call: VenueCall)
        ensures
            call == self.spec_venue_call(amount_in, minimum_amount_out),
    {
        match self {
            Action::SSSwap(_) => VenueCall::Swap { amount_in, minimum_amount_out },
            Action::SSWithdrawOne(_) => VenueCall::WithdrawOne {
                pool_token_amount: amount_in,
                minimum_token_amount: minimum_amount_out,
            },
            Action::SSDepositA(_) => VenueCall::Deposit {
                token_a_amount: amount_in,
                token_b_amount: 0,
                min_mint_amount: minimum_amount_out,
            },
            Action::SSDepositB(_) => VenueCall::Deposit {
                token_a_amount: 0,
                token_b_amount: amount_in,
                min_mint_amount: minimum_amount_out,
            },
            Action::ADWithdraw(_) => VenueCall::ProcessAction {
                action: u16::from(ActionType::ADWithdraw),
                amount_in,
                minimum_amount_out,
            },
            Action::ADDeposit(_) => VenueCall::ProcessAction {
                action: u16::from(ActionType::ADDeposit),
                amount_in,
                minimum_amount_out,
            },
        }
    }
}

} // verus!
