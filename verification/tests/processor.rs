use continuation_router::action::{ADDeposit, ADWithdraw, Action, VenueCall};
use continuation_router::action_type::ActionType;
use continuation_router::continuation::Continuation;
use continuation_router::error::ErrorCode;
use continuation_router::event::SwapActionEvent;
use continuation_router::processor::{
    check_step, finish_step, process, ProcessError, Processor, StepOrder,
};
use continuation_router::pubkey::Pubkey;
use continuation_router::token_account::TokenAccount;
use continuation_router::token_amount::TokenAmount;

fn k(fill: u8) -> Pubkey {
    Pubkey::new_from_array([fill; 32])
}

const OWNER: u8 = 1;
const MINT_A: u8 = 10;
const MINT_B: u8 = 11;
const ACC_A: u8 = 20;
const ACC_B: u8 = 21;
const ACC_OUT: u8 = 22;

fn chain(steps_left: u16, amount_in: u64, minimum_out: u64) -> Continuation {
    let mut c = Continuation::default();
    c.owner = k(OWNER);
    c.payer = k(OWNER);
    c.initial_amount_in = TokenAmount::new(k(MINT_A), amount_in);
    c.input = k(ACC_A);
    c.amount_in = TokenAmount::new(k(MINT_A), amount_in);
    c.steps_left = steps_left;
    c.output = k(ACC_OUT);
    c.output_initial_balance = 0;
    c.minimum_amount_out = TokenAmount::new(k(MINT_B), minimum_out);
    c
}

fn acct(key: u8, mint: u8, owner: u8, amount: u64) -> TokenAccount {
    TokenAccount::new(k(key), k(mint), k(owner), amount)
}

/// A venue that says it pays `promised` and pays `delivered`.
struct StubVenue {
    promised: u64,
    delivered: u64,
    calls: Vec<VenueCall>,
}

impl Processor for StubVenue {
    type Error = u32;

    fn process_unchecked(
        &mut self,
        _: &Continuation,
        action: &Action,
        call: &VenueCall,
    ) -> Result<TokenAccount, u32> {
        self.calls.push(*call);
        let before = action.output_account();
        Ok(TokenAccount::new(before.key, before.mint, before.owner, before.amount + self.delivered))
    }
}

/// A venue that always fails with the code it was made with.
struct FailingVenue(u32);

impl Processor for FailingVenue {
    type Error = u32;

    fn process_unchecked(
        &mut self,
        _: &Continuation,
        _: &Action,
        _: &VenueCall,
    ) -> Result<TokenAccount, u32> {
        Err(self.0)
    }
}

/// A venue that takes from the output record.
struct DilutingVenue;

impl Processor for DilutingVenue {
    type Error = u32;

    fn process_unchecked(
        &mut self,
        _: &Continuation,
        action: &Action,
        _: &VenueCall,
    ) -> Result<TokenAccount, u32> {
        let before = action.output_account();
        Ok(TokenAccount::new(before.key, before.mint, before.owner, before.amount - 1))
    }
}

#[test]
fn check_step_gives_the_order_of_an_intermediate_hop() {
    let c = chain(2, 1000, 990);
    let order = check_step(&c, &acct(ACC_A, MINT_A, OWNER, 1000), &acct(ACC_B, MINT_B, OWNER, 7));
    assert_eq!(order, Ok(StepOrder { amount_in: 1000, minimum_amount_out: 0 }));
}

#[test]
fn check_step_hands_the_floor_to_the_last_hop() {
    let c = chain(1, 1000, 990);
    let order = check_step(&c, &acct(ACC_A, MINT_A, OWNER, 5000), &acct(ACC_B, MINT_B, OWNER, 7));
    assert_eq!(order, Ok(StepOrder { amount_in: 1000, minimum_amount_out: 990 }));
}

#[test]
fn check_step_refuses_when_no_step_is_left() {
    let c = chain(0, 1000, 990);
    let order = check_step(&c, &acct(ACC_A, MINT_A, OWNER, 1000), &acct(ACC_B, MINT_B, OWNER, 0));
    assert_eq!(order, Err(ErrorCode::NoMoreSteps));
}

#[test]
fn check_step_refuses_another_input_record() {
    let c = chain(2, 1000, 990);
    let order = check_step(&c, &acct(ACC_B, MINT_A, OWNER, 1000), &acct(ACC_B, MINT_B, OWNER, 0));
    assert_eq!(order, Err(ErrorCode::PathInputOutputMismatch));
}

#[test]
fn check_step_refuses_an_input_of_another_owner() {
    let c = chain(2, 1000, 990);
    let order = check_step(&c, &acct(ACC_A, MINT_A, 2, 1000), &acct(ACC_B, MINT_B, OWNER, 0));
    assert_eq!(order, Err(ErrorCode::InputOwnerMismatch));
}

#[test]
fn check_step_refuses_an_input_of_another_mint() {
    let c = chain(2, 1000, 990);
    let order = check_step(&c, &acct(ACC_A, MINT_B, OWNER, 1000), &acct(ACC_B, MINT_B, OWNER, 0));
    assert_eq!(order, Err(ErrorCode::InputMintMismatch));
}

#[test]
fn check_step_refuses_a_zero_swap() {
    let c = chain(2, 0, 990);
    let order = check_step(&c, &acct(ACC_A, MINT_A, OWNER, 1000), &acct(ACC_B, MINT_B, OWNER, 0));
    assert_eq!(order, Err(ErrorCode::ZeroSwap));
}

#[test]
fn check_step_refuses_an_input_that_does_not_cover_the_amount() {
    let c = chain(2, 1000, 990);
    let order = check_step(&c, &acct(ACC_A, MINT_A, OWNER, 999), &acct(ACC_B, MINT_B, OWNER, 0));
    assert_eq!(order, Err(ErrorCode::InsufficientInputBalance));
    let order = check_step(&c, &acct(ACC_A, MINT_A, OWNER, 1000), &acct(ACC_B, MINT_B, OWNER, 0));
    assert!(order.is_ok());
}

#[test]
fn check_step_refuses_an_output_of_another_owner() {
    let c = chain(2, 1000, 990);
    let order = check_step(&c, &acct(ACC_A, MINT_A, OWNER, 1000), &acct(ACC_B, MINT_B, 2, 0));
    assert_eq!(order, Err(ErrorCode::OutputOwnerMismatch));
}

#[test]
fn check_step_takes_the_rules_in_order() {
    // Everything is wrong at once: the first rule answers.
    let c = chain(0, 0, 990);
    let order = check_step(&c, &acct(ACC_B, MINT_B, 2, 0), &acct(ACC_B, MINT_A, 2, 0));
    assert_eq!(order, Err(ErrorCode::NoMoreSteps));
    let c = chain(1, 0, 990);
    let order = check_step(&c, &acct(ACC_B, MINT_B, 2, 0), &acct(ACC_B, MINT_A, 2, 0));
    assert_eq!(order, Err(ErrorCode::PathInputOutputMismatch));
    let order = check_step(&c, &acct(ACC_A, MINT_B, 2, 0), &acct(ACC_B, MINT_A, 2, 0));
    assert_eq!(order, Err(ErrorCode::InputOwnerMismatch));
    let order = check_step(&c, &acct(ACC_A, MINT_B, OWNER, 0), &acct(ACC_B, MINT_A, 2, 0));
    assert_eq!(order, Err(ErrorCode::InputMintMismatch));
    let order = check_step(&c, &acct(ACC_A, MINT_A, OWNER, 0), &acct(ACC_B, MINT_A, 2, 0));
    assert_eq!(order, Err(ErrorCode::ZeroSwap));
    let c = chain(1, 5, 990);
    let order = check_step(&c, &acct(ACC_A, MINT_A, OWNER, 0), &acct(ACC_B, MINT_A, 2, 0));
    assert_eq!(order, Err(ErrorCode::InsufficientInputBalance));
    let order = check_step(&c, &acct(ACC_A, MINT_A, OWNER, 5), &acct(ACC_B, MINT_A, 2, 0));
    assert_eq!(order, Err(ErrorCode::OutputOwnerMismatch));
    let order = check_step(&c, &acct(ACC_A, MINT_A, OWNER, 5), &acct(ACC_B, MINT_A, OWNER, 0));
    assert_eq!(order, Err(ErrorCode::OutputMintMismatch));
}

#[test]
fn intermediate_hop_may_pay_any_mint() {
    let c = chain(2, 1000, 990);
    let order = check_step(&c, &acct(ACC_A, MINT_A, OWNER, 1000), &acct(ACC_B, 99, OWNER, 0));
    assert_eq!(order, Ok(StepOrder { amount_in: 1000, minimum_amount_out: 0 }));
}

#[test]
fn finish_step_advances_by_the_observed_delta() {
    let mut c = chain(2, 1000, 990);
    let before = c;
    let output = acct(ACC_B, MINT_B, OWNER, 40);
    let reloaded = acct(ACC_B, MINT_B, OWNER, 1045);
    let event = finish_step(&mut c, ActionType::SSSwap, &output, &reloaded);
    assert_eq!(
        event,
        Ok(SwapActionEvent {
            action_type: ActionType::SSSwap,
            owner: k(OWNER),
            input_amount: TokenAmount::new(k(MINT_A), 1000),
            output_account: k(ACC_B),
            output_amount: TokenAmount::new(k(MINT_B), 1005),
        })
    );
    assert_eq!(c.input, k(ACC_B));
    assert_eq!(c.amount_in, TokenAmount::new(k(MINT_B), 1005));
    assert_eq!(c.steps_left, 1);
    assert_eq!(c.owner, before.owner);
    assert_eq!(c.payer, before.payer);
    assert_eq!(c.initial_amount_in, before.initial_amount_in);
    assert_eq!(c.output, before.output);
    assert_eq!(c.output_initial_balance, before.output_initial_balance);
    assert_eq!(c.minimum_amount_out, before.minimum_amount_out);
}

#[test]
fn finish_step_refuses_a_lower_balance() {
    let mut c = chain(2, 1000, 990);
    let before = c;
    let output = acct(ACC_B, MINT_B, OWNER, 40);
    let reloaded = acct(ACC_B, MINT_B, OWNER, 39);
    let event = finish_step(&mut c, ActionType::SSSwap, &output, &reloaded);
    assert_eq!(event, Err(ErrorCode::BalanceLower));
    assert_eq!(c, before);
}

#[test]
fn finish_step_accepts_an_unchanged_balance() {
    let mut c = chain(2, 1000, 990);
    let output = acct(ACC_B, MINT_B, OWNER, 40);
    let event = finish_step(&mut c, ActionType::ADDeposit, &output, &output);
    assert!(event.is_ok());
    assert_eq!(c.amount_in, TokenAmount::new(k(MINT_B), 0));
    assert_eq!(c.steps_left, 1);
}

#[test]
fn finish_step_never_takes_steps_below_zero() {
    let mut c = chain(0, 1000, 990);
    let before = c;
    let output = acct(ACC_B, MINT_B, OWNER, 40);
    let reloaded = acct(ACC_B, MINT_B, OWNER, 50);
    let event = finish_step(&mut c, ActionType::SSSwap, &output, &reloaded);
    assert_eq!(event, Err(ErrorCode::NoMoreSteps));
    assert_eq!(c, before);
}

fn withdraw(input: TokenAccount, output: TokenAccount) -> Action {
    Action::ADWithdraw(ADWithdraw { input, output })
}

#[test]
fn process_propagates_the_actual_delta_not_the_promised_one() {
    let mut c = chain(2, 1000, 990);
    let mut venue = StubVenue { promised: 1005, delivered: 1000, calls: Vec::new() };
    let hop1 = withdraw(acct(ACC_A, MINT_A, OWNER, 1000), acct(ACC_B, MINT_B, OWNER, 3));
    let event = process(&mut venue, &hop1, &mut c).unwrap();
    assert_ne!(venue.promised, venue.delivered);
    assert_eq!(event.output_amount, TokenAmount::new(k(MINT_B), 1000));
    assert_eq!(c.amount_in.amount, 1000);

    // The next hop is handed the smaller value.
    let hop2 = Action::ADDeposit(ADDeposit {
        input: acct(ACC_B, MINT_B, OWNER, 1003),
        output: acct(ACC_OUT, MINT_B, OWNER, 0),
    });
    process(&mut venue, &hop2, &mut c).unwrap();
    assert_eq!(
        venue.calls,
        vec![
            VenueCall::ProcessAction { action: 10, amount_in: 1000, minimum_amount_out: 0 },
            VenueCall::ProcessAction { action: 11, amount_in: 1000, minimum_amount_out: 990 },
        ]
    );
    assert_eq!(c.steps_left, 0);
}

#[test]
fn process_hands_on_the_error_of_the_venue() {
    let mut c = chain(2, 1000, 990);
    let before = c;
    let hop = withdraw(acct(ACC_A, MINT_A, OWNER, 1000), acct(ACC_B, MINT_B, OWNER, 3));
    let out = process(&mut FailingVenue(77), &hop, &mut c);
    assert_eq!(out, Err(ProcessError::Venue(77)));
    assert_eq!(c, before);
}

#[test]
fn process_refuses_a_dilutive_hop() {
    let mut c = chain(2, 1000, 990);
    let before = c;
    let hop = withdraw(acct(ACC_A, MINT_A, OWNER, 1000), acct(ACC_B, MINT_B, OWNER, 3));
    let out = process(&mut DilutingVenue, &hop, &mut c);
    assert_eq!(out, Err(ProcessError::Router(ErrorCode::BalanceLower)));
    assert_eq!(c, before);
}

#[test]
fn process_does_not_call_the_venue_of_a_refused_hop() {
    let mut c = chain(0, 1000, 990);
    let mut venue = StubVenue { promised: 1, delivered: 1, calls: Vec::new() };
    let hop = withdraw(acct(ACC_A, MINT_A, OWNER, 1000), acct(ACC_B, MINT_B, OWNER, 3));
    let out = process(&mut venue, &hop, &mut c);
    assert_eq!(out, Err(ProcessError::Router(ErrorCode::NoMoreSteps)));
    assert!(venue.calls.is_empty());
}

#[test]
fn single_hop_into_another_mint_fails_before_the_venue() {
    // One step, and the hop pays a mint that is not the promised one.
    let mut c = chain(1, 1000, 990);
    let before = c;
    let mut venue = StubVenue { promised: 1000, delivered: 1000, calls: Vec::new() };
    let hop = withdraw(acct(ACC_A, MINT_A, OWNER, 1000), acct(ACC_OUT, 99, OWNER, 0));
    let out = process(&mut venue, &hop, &mut c);
    assert_eq!(out, Err(ProcessError::Router(ErrorCode::OutputMintMismatch)));
    assert!(venue.calls.is_empty());
    assert_eq!(c, before);
}

#[test]
fn steps_left_goes_down_by_one_per_hop_and_stops_at_zero() {
    let mut c = chain(3, 10, 1);
    let mut venue = StubVenue { promised: 10, delivered: 10, calls: Vec::new() };
    let mut source = ACC_A;
    let mut mint = MINT_A;
    for (left, target) in [(2u16, 30u8), (1, 31), (0, 32)] {
        let hop = withdraw(acct(source, mint, OWNER, 10), acct(target, MINT_B, OWNER, 0));
        process(&mut venue, &hop, &mut c).unwrap();
        assert_eq!(c.steps_left, left);
        source = target;
        mint = MINT_B;
    }
    let hop = withdraw(acct(source, mint, OWNER, 10), acct(33, MINT_B, OWNER, 0));
    let out = process(&mut venue, &hop, &mut c);
    assert_eq!(out, Err(ProcessError::Router(ErrorCode::NoMoreSteps)));
    assert_eq!(c.steps_left, 0);
}

#[test]
fn a_hop_out_of_order_is_refused() {
    let mut c = chain(3, 10, 1);
    let mut venue = StubVenue { promised: 10, delivered: 10, calls: Vec::new() };
    let hop1 = withdraw(acct(ACC_A, MINT_A, OWNER, 10), acct(ACC_B, MINT_B, OWNER, 0));
    process(&mut venue, &hop1, &mut c).unwrap();
    // The second hop must draw on the record that the first paid into.
    let skipped = withdraw(acct(ACC_A, MINT_A, OWNER, 10), acct(ACC_OUT, MINT_B, OWNER, 0));
    let out = process(&mut venue, &skipped, &mut c);
    assert_eq!(out, Err(ProcessError::Router(ErrorCode::PathInputOutputMismatch)));
    let hop2 = withdraw(acct(ACC_B, MINT_B, OWNER, 10), acct(ACC_OUT, MINT_B, OWNER, 0));
    assert!(process(&mut venue, &hop2, &mut c).is_ok());
}
