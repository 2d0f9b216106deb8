//! What holds of every chain of hops, whatever the venues do.

use crate::accounts::End;
use crate::continuation::Continuation;
use crate::error::ErrorCode;
use crate::processor::{spec_advance, spec_check_step, spec_finish_step};
use crate::token_account::TokenAccount;
use vstd::prelude::*;

verus! {

/// A hop as the router sees it: the record it draws on, the record it pays
/// into as it stood before the venue was called, and that record as it stands
/// after the venue returned.
pub struct Hop {
    pub input: TokenAccount,
    pub output: TokenAccount,
    pub reloaded: TokenAccount,
}

/// The continuation after the hop, or the rule that the hop breaks.
pub open spec fn spec_step(c: Continuation, hop: Hop) -> Result<Continuation, ErrorCode> {
    match spec_check_step(c, hop.input, hop.output) {
        Err(e) => Err(e),
        Ok(_) => spec_finish_step(c, hop.output, hop.reloaded),
    }
}

/// The continuation after the hops, taken in order, or the rule that the first
/// failing hop breaks.
pub open spec fn spec_run(c: Continuation, hops: Seq<Hop>) -> Result<Continuation, ErrorCode>
    decreases hops.len(),
{
    if hops.len() == 0 {
        Ok(c)
    } else {
        match spec_step(c, hops[0]) {
            Err(e) => Err(e),
            Ok(next) => spec_run(next, hops.drop_first()),
        }
    }
}

/// The record at which the chain stands when it comes to the hop `i`: the
/// record that the hop before paid into, or, for the first hop, the record
/// that the chain began at.
pub open spec fn spec_source(c: Continuation, hops: Seq<Hop>, i: int) -> crate::pubkey::Pubkey {
    if i == 0 {
        c.input
    } else {
        hops[i - 1].output.key
    }
}

/// What the chain holds when it comes to the hop `i`: what the output record
/// of the hop before was seen to gain, or, for the first hop, what the chain
/// began with.
pub open spec fn spec_holding(c: Continuation, hops: Seq<Hop>, i: int) -> int {
    if i == 0 {
        c.amount_in.amount as int
    } else {
        hops[i - 1].reloaded.amount - hops[i - 1].output.amount
    }
}

/// A hop never leaves its output record with less than it held: a hop that
/// passed the checks before the venue and then shows a lower balance is
/// refused with `BalanceLower`, and a hop that is accepted shows no lower
/// balance.
pub proof fn lemma_monotonicity(c: Continuation, hop: Hop)
    ensures
        spec_check_step(c, hop.input, hop.output) is Ok && hop.reloaded.amount
            < hop.output.amount ==> spec_step(c, hop) == Err::<Continuation, ErrorCode>(
            ErrorCode::BalanceLower,
        ),
        spec_step(c, hop) is Ok ==> hop.reloaded.amount >= hop.output.amount,
{
}

/// A hop must draw on the record at which the chain stands: with a step left,
/// any other record is refused with `PathInputOutputMismatch`; and after a hop
/// the chain stands at the record that the hop paid into.
pub proof fn lemma_chain_continuity(c: Continuation, hop: Hop)
    ensures
        c.steps_left > 0 && hop.input.key != c.input ==> spec_step(c, hop) == Err::<
            Continuation,
            ErrorCode,
        >(ErrorCode::PathInputOutputMismatch),
        spec_step(c, hop) matches Ok(next) ==> hop.input.key == c.input && next.input
            == hop.output.key,
{
}

/// Every hop that is accepted takes exactly one step off the chain, and a
/// chain with no step left accepts no hop: it answers `NoMoreSteps`.
pub proof fn lemma_decrement(c: Continuation, hop: Hop)
    ensures
        spec_step(c, hop) matches Ok(next) ==> c.steps_left > 0 && next.steps_left
            == c.steps_left - 1,
        c.steps_left == 0 ==> spec_step(c, hop) == Err::<Continuation, ErrorCode>(
            ErrorCode::NoMoreSteps,
        ),
{
}

/// The chain goes on with what the output record was seen to gain, of the
/// token that the record is seen to count, and with nothing else: the
/// continuation after a hop is given by the continuation before it and the
/// two states of the output record.
pub proof fn lemma_delta_fidelity(c: Continuation, hop: Hop)
    ensures
        spec_step(c, hop) matches Ok(next) ==> {
            &&& next.amount_in.amount == hop.reloaded.amount - hop.output.amount
            &&& next.amount_in.mint == hop.reloaded.mint
            &&& next == spec_advance(c, hop.output, hop.reloaded)
        },
{
}

/// The hop after a hop is ordered to consume exactly what the output record
/// of that hop was seen to gain.
pub proof fn lemma_next_hop_receives_delta(c: Continuation, hop: Hop, next: Hop)
    ensures
        spec_step(c, hop) matches Ok(after) ==> (spec_check_step(
            after,
            next.input,
            next.output,
        ) matches Ok(order) ==> order.amount_in == hop.reloaded.amount - hop.output.amount),
{
}

/// A hop changes nothing of what was fixed when the chain began: its owner
/// and payer, what it started with, where it is to end, what that record held
/// and what it is to gain.
pub proof fn lemma_step_keeps_terms(c: Continuation, hop: Hop)
    ensures
        spec_step(c, hop) matches Ok(next) ==> spec_same_terms(c, next),
{
}

/// Whether two continuations agree in what is fixed when a chain begins.
pub open spec fn spec_same_terms(a: Continuation, b: Continuation) -> bool {
    &&& a.owner == b.owner
    &&& a.payer == b.payer
    &&& a.initial_amount_in == b.initial_amount_in
    &&& a.output == b.output
    &&& a.output_initial_balance == b.output_initial_balance
    &&& a.minimum_amount_out == b.minimum_amount_out
    &&& a.nonce == b.nonce
}

/// Of every chain of hops that is accepted: each hop draws on the record that
/// the hop before paid into and is handed what that record gained; no hop
/// leaves its output record with less than it held; the steps left go down by
/// the number of hops; and the terms of the chain stay as they were.
pub proof fn lemma_run(c: Continuation, hops: Seq<Hop>)
    ensures
        spec_run(c, hops) matches Ok(last) ==> {
            &&& last.steps_left + hops.len() == c.steps_left
            &&& spec_same_terms(c, last)
            &&& forall|i: int|
                0 <= i < hops.len() ==> {
                    &&& (#[trigger] hops[i]).input.key == spec_source(c, hops, i)
                    &&& hops[i].input.amount >= spec_holding(c, hops, i) > 0
                    &&& hops[i].reloaded.amount >= hops[i].output.amount
                }
            &&& hops.len() > 0 ==> last.input == hops.last().output.key && last.amount_in.amount
                == hops.last().reloaded.amount - hops.last().output.amount
        },
    decreases hops.len(),
{
    if hops.len() > 0 {
        if let Ok(next) = spec_step(c, hops[0]) {
            let rest = hops.drop_first();
            lemma_run(next, rest);
            if let Ok(last) = spec_run(next, rest) {
                assert forall|i: int| 0 <= i < hops.len() implies {
                    &&& (#[trigger] hops[i]).input.key == spec_source(c, hops, i)
                    &&& hops[i].input.amount >= spec_holding(c, hops, i) > 0
                    &&& hops[i].reloaded.amount >= hops[i].output.amount
                } by {
                    if i > 0 {
                        assert(hops[i] == rest[i - 1]);
                        if i > 1 {
                            assert(hops[i - 1] == rest[i - 2]);
                        }
                    }
                }
                if rest.len() > 0 {
                    assert(rest.last() == hops.last());
                }
            }
        }
    }
}

/// A chain takes no more hops than the steps it was begun with, and can be
/// ended only when it has taken exactly that many.
pub proof fn lemma_steps_bound(c: Continuation, hops: Seq<Hop>)
    ensures
        spec_run(c, hops) is Ok ==> hops.len() <= c.steps_left,
        spec_run(c, hops) matches Ok(last) ==> (last.steps_left == 0 <==> hops.len()
            == c.steps_left),
{
    lemma_run(c, hops);
}

/// Once all steps are taken and the output record holds no less than when the
/// chain began, the chain is refused with `MinimumOutNotMet` exactly when what
/// it brought in is below the promised minimum; and where the output record
/// counts the promised token, the end succeeds exactly when the minimum is
/// reached.
pub proof fn lemma_floor(ctx: End)
    requires
        ctx.spec_settled(),
    ensures
        ctx.spec_end() == Err::<crate::router::Completion, ErrorCode>(ErrorCode::MinimumOutNotMet)
            <==> ctx.spec_amount_out() < ctx.continuation.minimum_amount_out.amount,
        ctx.output.mint == ctx.continuation.minimum_amount_out.mint ==> (ctx.spec_end() is Ok
            <==> ctx.spec_amount_out() >= ctx.continuation.minimum_amount_out.amount),
{
}

/// A chain with a step left cannot be ended: the answer is `EndIncomplete`.
pub proof fn lemma_end_incomplete(ctx: End)
    requires
        ctx.continuation.steps_left > 0,
    ensures
        ctx.spec_end() == Err::<crate::router::Completion, ErrorCode>(ErrorCode::EndIncomplete),
{
}

} // verus!
