//! The step processor: every hop of a chain passes through it.
//!
//! A hop is checked against the continuation before the venue is called, and
//! the continuation is advanced afterwards by what the output record is seen
//! to have gained, whatever the venue says it paid.

use crate::action::{Action, VenueCall};
use crate::action_type::ActionType;
use crate::continuation::Continuation;
use crate::error::ErrorCode;
use crate::event::SwapActionEvent;
use crate::token_account::TokenAccount;
use crate::token_amount::TokenAmount;
use vstd::prelude::*;

verus! {

/// What a hop hands to its venue.
#[derive(Clone, Copy, Debug, PartialEq, Eq, Structural)]
pub struct StepOrder {
    /// The quantity that the venue is to consume.
    pub amount_in: u64,
    /// The least that the venue is to pay out: the floor of the chain at its
    /// last hop, nothing before.
    pub minimum_amount_out: u64,
}

/// Why a hop failed.
#[derive(Clone, Copy, Debug, PartialEq, Eq)]
pub enum ProcessError<E> {
    /// The router refused the hop.
    Router(ErrorCode),
    /// The venue failed; its error is handed on as it came.
    Venue(E),
}

/// The part of a hop that is not the router's: the exchange at the venue.
pub trait Processor {
    /// What the venue reports when it fails.
    type Error;

    /// Performs `call` at the venue of the hop `action`, then reads the
    /// output record of the hop again and returns it as it now stands.
    ///
    /// The venue is only ever asked for a hop that has passed the checks on
    /// `continuation`, and only for the order of that hop.
    fn process_unchecked(
        &mut self,
        continuation: &Continuation,
        action: &Action,
        call: &VenueCall,
    ) -> Result<TokenAccount, Self::Error>
        requires
            spec_venue_call(*continuation, *action) == Some(*call),
    ;
}

/// What the hop `action` asks of its venue when the chain stands at `c`:
/// to consume what the chain holds, and to pay out at least the floor of the
/// chain if the hop is its last, anything otherwise. `None` where the hop
/// breaks a rule: its venue is not asked at all.
pub open spec fn spec_venue_call(c: Continuation, action: Action) -> Option<VenueCall> {
    match spec_check_step(c, action.spec_input_account(), action.spec_output_account()) {
        Ok(order) => Some(action.spec_venue_call(order.amount_in, order.minimum_amount_out)),
        Err(_) => None,
    }
}

/// The verdict on a hop before its venue is called: the order for the venue,
/// or the first rule that the hop breaks.
///
/// The rules, in order: the chain has a step left; the hop draws on the record
/// that the chain stands at; that record belongs to the owner of the chain and
/// counts the token that the chain holds; the chain holds something, and the
/// record covers it; the record that the hop pays into belongs to the owner;
/// and at the last step it counts the token that the chain was promised.
pub open spec fn spec_check_step(
    c: Continuation,
    input: TokenAccount,
    output: TokenAccount,
) -> Result<StepOrder, ErrorCode> {
    if c.steps_left == 0 {
        Err(ErrorCode::NoMoreSteps)
    } else if input.key != c.input {
        Err(ErrorCode::PathInputOutputMismatch)
    } else if input.owner != c.owner {
        Err(ErrorCode::InputOwnerMismatch)
    } else if input.mint != c.amount_in.mint {
        Err(ErrorCode::InputMintMismatch)
    } else if c.amount_in.amount == 0 {
        Err(ErrorCode::ZeroSwap)
    } else if input.amount < c.amount_in.amount {
        Err(ErrorCode::InsufficientInputBalance)
    } else if output.owner != c.owner {
        Err(ErrorCode::OutputOwnerMismatch)
    } else if c.steps_left == 1 && c.minimum_amount_out.mint != output.mint {
        Err(ErrorCode::OutputMintMismatch)
    } else {
        Ok(
            StepOrder {
                amount_in: c.amount_in.amount,
                minimum_amount_out: if c.steps_left == 1 {
                    c.minimum_amount_out.amount
                } else {
                    0
                },
            },
        )
    }
}

/// The continuation after a hop that paid into `output`, which now stands as
/// `reloaded`: the chain stands at `output`, holds what `output` gained, of the
/// token that it is now seen to count, and has one step less to go.
pub open spec fn spec_advance(
    c: Continuation,
    output: TokenAccount,
    reloaded: TokenAccount,
) -> Continuation {
    Continuation {
        input: output.key,
        amount_in: TokenAmount {
            mint: reloaded.mint,
            amount: (reloaded.amount - output.amount) as u64,
        },
        steps_left: (c.steps_left - 1) as u16,
        ..c
    }
}

/// The record of a hop of kind `action_type` that took the continuation from
/// `before` to `after`.
pub open spec fn spec_step_event(
    action_type: ActionType,
    before: Continuation,
    after: Continuation,
) -> SwapActionEvent {
    SwapActionEvent {
        action_type,
        owner: after.owner,
        input_amount: before.amount_in,
        output_account: after.input,
        output_amount: after.amount_in,
    }
}

/// The verdict on a hop after its venue has returned: the continuation as it
/// goes on, or the rule that the hop broke. A hop must not leave its output
/// record with less than it held.
pub open spec fn spec_finish_step(
    c: Continuation,
    output: TokenAccount,
    reloaded: TokenAccount,
) -> Result<Continuation, ErrorCode> {
    if c.steps_left == 0 {
        Err(ErrorCode::NoMoreSteps)
    } else if reloaded.amount < output.amount {
        Err(ErrorCode::BalanceLower)
    } else {
        Ok(spec_advance(c, output, reloaded))
    }
}

/// Checks a hop against the continuation before its venue is called, and
/// gives the order for the venue.
pub fn check_step(c: &Continuation, input: &TokenAccount, output: &TokenAccount) -> (out: Result<
    StepOrder,
    ErrorCode,
>)
    ensures
        out == spec_check_step(*c, *input, *output),
{
    if !(c.steps_left > 0) {
        return Err(ErrorCode::NoMoreSteps);
    }
    if input.key != c.input {
        return Err(ErrorCode::PathInputOutputMismatch);
    }
    if input.owner != c.owner {
        return Err(ErrorCode::InputOwnerMismatch);
    }
    if input.mint != c.amount_in.mint {
        return Err(ErrorCode::InputMintMismatch);
    }
    let amount_in = c.amount_in;
    if !(amount_in.amount != 0) {
        return Err(ErrorCode::ZeroSwap);
    }
    if !(input.amount >= amount_in.amount) {
        return Err(ErrorCode::InsufficientInputBalance);
    }
    if output.owner != c.owner {
        return Err(ErrorCode::OutputOwnerMismatch);
    }
    let minimum_amount_out = if c.steps_left == 1 {
        if c.minimum_amount_out.mint != output.mint {
            return Err(ErrorCode::OutputMintMismatch);
        }
        c.minimum_amount_out.amount
    } else {
        0
    };
    Ok(StepOrder { amount_in: amount_in.amount, minimum_amount_out })
}

/// Advances the continuation over a hop whose venue has returned.
///
/// `output` is the record that the hop paid into as it stood before the venue
/// was called, `reloaded` the same record as it stands now. The continuation
/// moves on by the difference of the two balances and by nothing else. Where
/// the hop is refused the continuation stays as it was.
pub fn finish_step(
    c: &mut Continuation,
    action_type: ActionType,
    output: &TokenAccount,
    reloaded: &TokenAccount,
) -> (out: Result<SwapActionEvent, ErrorCode>)
    ensures
        match spec_finish_step(*old(c), *output, *reloaded) {
            Ok(next) => *final(c) == next && out == Ok::<SwapActionEvent, ErrorCode>(
                spec_step_event(action_type, *old(c), next),
            ),
            Err(e) => *final(c) == *old(c) && out == Err::<SwapActionEvent, ErrorCode>(e),
        },
        reloaded.amount < output.amount && old(c).steps_left > 0 ==> out == Err::<
            SwapActionEvent,
            ErrorCode,
        >(ErrorCode::BalanceLower),
        out is Ok ==> final(c).steps_left == old(c).steps_left - 1,
        out is Ok ==> final(c).amount_in.amount == reloaded.amount - output.amount,
{
    if !(c.steps_left > 0) {
        return Err(ErrorCode::NoMoreSteps);
    }
    let initial_balance = output.amount;
    let result_balance = reloaded.amount;
    if !(result_balance >= initial_balance) {
        return Err(ErrorCode::BalanceLower);
    }
    let amount_in = c.amount_in;
    let next_amount_in = result_balance - initial_balance;
    c.input = output.key;
    c.amount_in = TokenAmount::new(reloaded.mint, next_amount_in);
    c.steps_left -= 1;
    Ok(
        SwapActionEvent {
            action_type,
            owner: c.owner,
            input_amount: amount_in,
            output_account: c.input,
            output_amount: c.amount_in,
        },
    )
}

/// Whether `out` and `after` are a possible outcome of taking the hop
/// `action` on the continuation `before`.
///
/// Where a rule is broken before the venue is called, the error is that rule
/// and the continuation stays as it was. Otherwise either the venue failed,
/// and the continuation stays as it was; or the output record was seen with
/// less than it held, the error is `BalanceLower` and the continuation stays
/// as it was; or the continuation has advanced by what the output record was
/// seen to gain, and `out` is the record of that hop.
pub open spec fn spec_processed<E>(
    before: Continuation,
    action: Action,
    after: Continuation,
    out: Result<SwapActionEvent, ProcessError<E>>,
) -> bool {
    match spec_check_step(before, action.spec_input_account(), action.spec_output_account()) {
        Err(e) => out == Err::<SwapActionEvent, ProcessError<E>>(ProcessError::Router(e)) && after
            == before,
        Ok(order) => match out {
            Ok(event) => exists|reloaded: TokenAccount|
                {
                    &&& reloaded.amount >= action.spec_output_account().amount
                    &&& after == #[trigger] spec_advance(
                        before,
                        action.spec_output_account(),
                        reloaded,
                    )
                    &&& event == spec_step_event(action.spec_action_type(), before, after)
                },
            Err(ProcessError::Router(e)) => e == ErrorCode::BalanceLower && after == before,
            Err(ProcessError::Venue(_)) => after == before,
        },
    }
}

/// Takes one hop: checks it, has `venue` perform it, and advances the
/// continuation by what the output record gained.
///
/// Where a rule is broken before the venue is called, the venue is not called,
/// the continuation stays as it was and the error is that rule. Otherwise the
/// venue is handed the order of the hop, as [`spec_venue_call`] gives it.
/// Where it fails, its error is handed on and the continuation stays as it
/// was. Where it returns, the outcome is that of [`finish_step`] on the record
/// that it read.
pub fn process<P: Processor>(venue: &mut P, action: &Action, continuation: &mut Continuation) -> (out:
    Result<SwapActionEvent, ProcessError<P::Error>>)
    ensures
        spec_processed(*old(continuation), *action, *final(continuation), out),
{
    let input_account = action.input_account();
    let output_account = action.output_account();
    let order = match check_step(continuation, &input_account, &output_account) {
        Ok(order) => order,
        Err(e) => {
            return Err(ProcessError::Router(e));
        },
    };
    let call = action.venue_call(order.amount_in, order.minimum_amount_out);
    let reloaded = match venue.process_unchecked(continuation, action, &call) {
        Ok(reloaded) => reloaded,
        Err(e) => {
            return Err(ProcessError::Venue(e));
        },
    };
    match finish_step(continuation, action.action_type(), &output_account, &reloaded) {
        Ok(event) => Ok(event),
        Err(e) => Err(ProcessError::Router(e)),
    }
}

} // verus!
