//! The life of a chain: how it is begun and how it is ended.

use crate::accounts::{Begin, BeginV2, End};
use crate::action::Action;
use crate::continuation::Continuation;
use crate::error::ErrorCode;
use crate::event::{SwapActionEvent, SwapCompleteEvent};
use crate::hop_accounts::{ADDepositAccounts, ADWithdrawAccounts, SSDepositAAccounts,
    SSDepositBAccounts, SSSwapAccounts, SSWithdrawOneAccounts};
use crate::processor::{process, spec_processed, ProcessError, Processor};
use crate::pubkey::Pubkey;
use crate::token_account::TokenAccount;
use crate::token_amount::TokenAmount;
use vstd::prelude::*;

verus! {

/// What the end of a chain leaves behind.
#[derive(Clone, Copy, Debug)]
pub struct Completion {
    /// The record of the chain for the log.
    pub event: SwapCompleteEvent,
    /// Who receives what was staked for the storage of the continuation,
    /// which is given up.
    pub refund_to: Pubkey,
}

/// The continuation of a chain that is about to take its first hop.
///
/// The chain draws `amount_in` from `input` and is to pay at least
/// `minimum_amount_out` into `output`, on top of what `output` holds now, in
/// `num_steps` hops.
pub open spec fn spec_begin(
    owner: Pubkey,
    payer: Pubkey,
    input: TokenAccount,
    output: TokenAccount,
    amount_in: u64,
    minimum_amount_out: u64,
    num_steps: u16,
    nonce: u8,
) -> Continuation {
    Continuation {
        owner,
        payer,
        initial_amount_in: TokenAmount { mint: input.mint, amount: amount_in },
        input: input.key,
        amount_in: TokenAmount { mint: input.mint, amount: amount_in },
        steps_left: num_steps,
        output: output.key,
        output_initial_balance: output.amount,
        minimum_amount_out: TokenAmount { mint: output.mint, amount: minimum_amount_out },
        nonce,
    }
}

/// Begins a swap transaction whose continuation is kept at the address
/// derived with the bump seed `bump`.
pub fn begin(ctx: &mut Begin, bump: u8, amount_in: u64, minimum_amount_out: u64, num_steps: u16)
    ensures
        final(ctx).continuation == spec_begin(
            old(ctx).owner,
            old(ctx).payer,
            old(ctx).input,
            old(ctx).output,
            amount_in,
            minimum_amount_out,
            num_steps,
            bump,
        ),
        *final(ctx) == (Begin { continuation: final(ctx).continuation, ..*old(ctx) }),
{
    ctx.continuation.owner = ctx.owner;
    ctx.continuation.payer = ctx.payer;
    ctx.continuation.input = ctx.input.key;
    ctx.continuation.initial_amount_in = TokenAmount::new(ctx.input.mint, amount_in);
    ctx.continuation.output = ctx.output.key;
    ctx.continuation.output_initial_balance = ctx.output.amount;
    ctx.continuation.amount_in = TokenAmount::new(ctx.input.mint, amount_in);
    ctx.continuation.minimum_amount_out = TokenAmount::new(ctx.output.mint, minimum_amount_out);
    ctx.continuation.steps_left = num_steps;
    ctx.continuation.nonce = bump;
}

/// Begins a swap transaction whose continuation is kept in storage that the
/// caller supplied. The owner of the chain stands as its payer, and the other
/// fields are as [`begin`] sets them; what the storage held is kept where no
/// field says otherwise.
pub fn begin_v2(ctx: &mut BeginV2, amount_in: u64, minimum_amount_out: u64, num_steps: u16)
    ensures
        final(ctx).continuation == spec_begin(
            old(ctx).owner,
            old(ctx).owner,
            old(ctx).input,
            old(ctx).output,
            amount_in,
            minimum_amount_out,
            num_steps,
            old(ctx).continuation.nonce,
        ),
        *final(ctx) == (BeginV2 { continuation: final(ctx).continuation, ..*old(ctx) }),
{
    ctx.continuation.owner = ctx.owner;
    ctx.continuation.payer = ctx.owner;
    ctx.continuation.input = ctx.input.key;
    ctx.continuation.initial_amount_in = TokenAmount::new(ctx.input.mint, amount_in);
    ctx.continuation.output = ctx.output.key;
    ctx.continuation.output_initial_balance = ctx.output.amount;
    ctx.continuation.amount_in = TokenAmount::new(ctx.input.mint, amount_in);
    ctx.continuation.minimum_amount_out = TokenAmount::new(ctx.output.mint, minimum_amount_out);
    ctx.continuation.steps_left = num_steps;
}

impl End {
    /// What the chain brought in: what the output record gained since the
    /// chain began, and, where the chain started from the token that it ends
    /// in, what it started with on top.
    pub open spec fn spec_amount_out(self) -> int {
        self.output.amount - self.continuation.output_initial_balance + if self.continuation.initial_amount_in.mint
            == self.output.mint {
            self.continuation.initial_amount_in.amount as int
        } else {
            0
        }
    }

    /// Whether the chain has taken all its steps and its output record holds
    /// no less than when the chain began.
    pub open spec fn spec_settled(self) -> bool {
        self.continuation.steps_left == 0 && self.output.amount
            >= self.continuation.output_initial_balance
    }

    /// Whether what the chain brought in can be written as a quantity.
    pub open spec fn spec_amount_out_fits(self) -> bool {
        self.spec_settled() ==> self.spec_amount_out() <= u64::MAX
    }

    /// The verdict on the end of the chain: its completion, or the first rule
    /// that it breaks.
    ///
    /// The rules, in order: no step is left; the output record holds no less
    /// than when the chain began; what the chain brought in reaches the
    /// promised minimum; and the output record counts the promised token.
    pub open spec fn spec_end(self) -> Result<Completion, ErrorCode> {
        let c = self.continuation;
        if c.steps_left != 0 {
            Err(ErrorCode::EndIncomplete)
        } else if self.output.amount < c.output_initial_balance {
            Err(ErrorCode::BalanceLower)
        } else if self.spec_amount_out() < c.minimum_amount_out.amount {
            Err(ErrorCode::MinimumOutNotMet)
        } else if self.output.mint != c.minimum_amount_out.mint {
            Err(ErrorCode::OutputMintMismatch)
        } else {
            Ok(
                Completion {
                    event: SwapCompleteEvent {
                        owner: c.owner,
                        amount_in: c.initial_amount_in,
                        amount_out: TokenAmount {
                            mint: c.minimum_amount_out.mint,
                            amount: self.spec_amount_out() as u64,
                        },
                    },
                    refund_to: c.payer,
                },
            )
        }
    }

    /// Whether what the chain brought in can be written as a quantity, so
    /// that [`end`] can be asked.
    pub fn amount_out_fits(&self) -> (fits: bool)
        ensures
            fits == self.spec_amount_out_fits(),
    {
        let c = &self.continuation;
        if c.steps_left != 0 || self.output.amount < c.output_initial_balance {
            return true;
        }
        if c.initial_amount_in.mint != self.output.mint {
            return true;
        }
        let gained = self.output.amount - c.output_initial_balance;
        gained <= u64::MAX - c.initial_amount_in.amount
    }
}

/// Cleans up the transaction and checks several invariants.
///
/// The continuation is only read. Where the chain is refused it stays open;
/// where it is completed, its storage is given up to the payer it names.
pub fn end(ctx: &End) -> (out: Result<Completion, ErrorCode>)
    requires
        ctx.spec_amount_out_fits(),
    ensures
        out == ctx.spec_end(),
{
    let continuation = &ctx.continuation;
    if !(continuation.steps_left == 0) {
        return Err(ErrorCode::EndIncomplete);
    }
    let result_balance = ctx.output.amount;
    if !(result_balance >= continuation.output_initial_balance) {
        return Err(ErrorCode::BalanceLower);
    }
    let mut amount_out = result_balance - continuation.output_initial_balance;
    if continuation.initial_amount_in.mint == ctx.output.mint {
        amount_out += continuation.initial_amount_in.amount;
    }
    if !(amount_out >= continuation.minimum_amount_out.amount) {
        return Err(ErrorCode::MinimumOutNotMet);
    }
    if !(ctx.output.mint == continuation.minimum_amount_out.mint) {
        return Err(ErrorCode::OutputMintMismatch);
    }
    Ok(
        Completion {
            event: SwapCompleteEvent {
                owner: continuation.owner,
                amount_in: continuation.initial_amount_in,
                amount_out: TokenAmount::new(continuation.minimum_amount_out.mint, amount_out),
            },
            refund_to: continuation.payer,
        },
    )
}

/// Takes a hop that swaps one token of a pool for the other.
///
/// The hop is taken on the continuation among the accounts, as [`process`]
/// takes it; the other accounts stay as they were.
pub fn ss_swap<P: Processor>(venue: &mut P, ctx: &mut SSSwapAccounts) -> (out: Result<
    SwapActionEvent,
    ProcessError<P::Error>,
>)
    ensures
        spec_processed(
            old(ctx).continuation.continuation,
            Action::SSSwap(old(ctx).action),
            final(ctx).continuation.continuation,
            out,
        ),
        final(ctx).action == old(ctx).action,
        final(ctx).continuation.token_program == old(ctx).continuation.token_program,
        final(ctx).continuation.swap_program == old(ctx).continuation.swap_program,
        final(ctx).continuation.owner == old(ctx).continuation.owner,
{
    let action = ctx.action();
    process(venue, &action, &mut ctx.continuation.continuation)
}

/// Takes a hop that redeems tokens of a pool for one of its tokens.
///
/// The hop is taken on the continuation among the accounts, as [`process`]
/// takes it; the other accounts stay as they were.
pub fn ss_withdraw_one<P: Processor>(venue: &mut P, ctx: &mut SSWithdrawOneAccounts) -> (out: Result<
    SwapActionEvent,
    ProcessError<P::Error>,
>)
    ensures
        spec_processed(
            old(ctx).continuation.continuation,
            Action::SSWithdrawOne(old(ctx).action),
            final(ctx).continuation.continuation,
            out,
        ),
        final(ctx).action == old(ctx).action,
        final(ctx).continuation.token_program == old(ctx).continuation.token_program,
        final(ctx).continuation.swap_program == old(ctx).continuation.swap_program,
        final(ctx).continuation.owner == old(ctx).continuation.owner,
{
    let action = ctx.action();
    process(venue, &action, &mut ctx.continuation.continuation)
}

/// Takes a hop that deposits token A of a pool.
///
/// The hop is taken on the continuation among the accounts, as [`process`]
/// takes it; the other accounts stay as they were.
pub fn ss_deposit_a<P: Processor>(venue: &mut P, ctx: &mut SSDepositAAccounts) -> (out: Result<
    SwapActionEvent,
    ProcessError<P::Error>,
>)
    ensures
        spec_processed(
            old(ctx).continuation.continuation,
            Action::SSDepositA(old(ctx).action),
            final(ctx).continuation.continuation,
            out,
        ),
        final(ctx).action == old(ctx).action,
        final(ctx).continuation.token_program == old(ctx).continuation.token_program,
        final(ctx).continuation.swap_program == old(ctx).continuation.swap_program,
        final(ctx).continuation.owner == old(ctx).continuation.owner,
{
    let action = ctx.action();
    process(venue, &action, &mut ctx.continuation.continuation)
}

/// Takes a hop that deposits token B of a pool.
///
/// The hop is taken on the continuation among the accounts, as [`process`]
/// takes it; the other accounts stay as they were.
pub fn ss_deposit_b<P: Processor>(venue: &mut P, ctx: &mut SSDepositBAccounts) -> (out: Result<
    SwapActionEvent,
    ProcessError<P::Error>,
>)
    ensures
        spec_processed(
            old(ctx).continuation.continuation,
            Action::SSDepositB(old(ctx).action),
            final(ctx).continuation.continuation,
            out,
        ),
        final(ctx).action == old(ctx).action,
        final(ctx).continuation.token_program == old(ctx).continuation.token_program,
        final(ctx).continuation.swap_program == old(ctx).continuation.swap_program,
        final(ctx).continuation.owner == old(ctx).continuation.owner,
{
    let action = ctx.action();
    process(venue, &action, &mut ctx.continuation.continuation)
}

/// Takes a hop that withdraws through a venue of the router's own interface.
///
/// The hop is taken on the continuation among the accounts, as [`process`]
/// takes it; the other accounts stay as they were.
pub fn ad_withdraw<P: Processor>(venue: &mut P, ctx: &mut ADWithdrawAccounts) -> (out: Result<
    SwapActionEvent,
    ProcessError<P::Error>,
>)
    ensures
        spec_processed(
            old(ctx).continuation.continuation,
            Action::ADWithdraw(old(ctx).action),
            final(ctx).continuation.continuation,
            out,
        ),
        final(ctx).action == old(ctx).action,
        final(ctx).continuation.token_program == old(ctx).continuation.token_program,
        final(ctx).continuation.swap_program == old(ctx).continuation.swap_program,
        final(ctx).continuation.owner == old(ctx).continuation.owner,
{
    let action = ctx.action();
    process(venue, &action, &mut ctx.continuation.continuation)
}

/// Takes a hop that deposits through a venue of the router's own interface.
///
/// The hop is taken on the continuation among the accounts, as [`process`]
/// takes it; the other accounts stay as they were.
pub fn ad_deposit<P: Processor>(venue: &mut P, ctx: &mut ADDepositAccounts) -> (out: Result<
    SwapActionEvent,
    ProcessError<P::Error>,
>)
    ensures
        spec_processed(
            old(ctx).continuation.continuation,
            Action::ADDeposit(old(ctx).action),
            final(ctx).continuation.continuation,
            out,
        ),
        final(ctx).action == old(ctx).action,
        final(ctx).continuation.token_program == old(ctx).continuation.token_program,
        final(ctx).continuation.swap_program == old(ctx).continuation.swap_program,
        final(ctx).continuation.owner == old(ctx).continuation.owner,
{
    let action = ctx.action();
    process(venue, &action, &mut ctx.continuation.continuation)
}

} // verus!
