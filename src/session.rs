use crate::accumulator::{settled, Accumulator};
use crate::pubkey::Pubkey;
use vstd::prelude::*;

verus! {

/// What a session is for: the contract that pays, where to forward, and how often to settle
/// (milliseconds).
#[derive(Debug)]
pub struct NewConnParams {
    pub contract_pubkey: Pubkey,
    pub destination: String,
    pub fee_interval: u16,
}

/// The price of forwarding `data_amount` bytes.
pub open spec fn spec_business_logic(data_amount: u64) -> u64 {
    data_amount
}

/// The price of forwarding `data_amount` bytes: one lamport per byte.
pub fn business_logic(data_amount: u64) -> (r: u64)
    ensures
        r == spec_business_logic(data_amount),
{
    data_amount
}

/// A balance notification stream event, as the metering step needs it.
#[derive(Clone, Copy, Debug, PartialEq, Eq, Structural)]
pub enum PubsubUpdate {
    /// The contract account now holds this many lamports.
    Balance(u64),
    /// The notification stream closed.
    Disconnected,
    /// Anything else, such as a notification without a balance.
    Other,
}

/// What the session must do after a metering step.
#[derive(Clone, Copy, Debug, PartialEq, Eq, Structural)]
pub enum MeterAction {
    /// Forward the bytes and go on.
    Continue,
    /// Forward the bytes and hand a `Spend` of this amount to the settlement worker; on a
    /// successful hand-off, record it with [`Accumulator::settle`].
    Settle(u64),
    /// The budget is exhausted: do not forward; spend `charge` now, refund the rest when
    /// `refund` holds, and end the session.
    Exhausted { charge: u64, refund: bool },
}

/// The initiator's known balance once `event` has been taken into account.
pub open spec fn fund_after(acc: Accumulator, event: Option<PubsubUpdate>) -> u64 {
    match event {
        Some(PubsubUpdate::Balance(b)) => b,
        _ => acc.initiator_fund,
    }
}

/// The charge of `data_amount` more bytes fits in the known balance `fund`, and the byte count
/// stays within range.
pub open spec fn admits(acc: Accumulator, fund: u64, data_amount: u64) -> bool {
    &&& acc.amount_charged + spec_business_logic(data_amount) <= fund
    &&& acc.total_data_amount + data_amount <= u64::MAX
}

/// Milliseconds since the last settlement, at time `now`.
pub open spec fn elapsed(acc: Accumulator, now: u64) -> nat {
    if now >= acc.now {
        (now - acc.now) as nat
    } else {
        0
    }
}

/// The accumulator after a metering step on `acc`.
pub open spec fn meter_state(acc: Accumulator, event: Option<PubsubUpdate>, data_amount: u64) -> Accumulator {
    let fund = fund_after(acc, event);
    if admits(acc, fund, data_amount) {
        Accumulator {
            total_data_amount: (acc.total_data_amount + data_amount) as u64,
            amount_charged: (acc.amount_charged + spec_business_logic(data_amount)) as u64,
            initiator_fund: fund,
            now: acc.now,
        }
    } else {
        Accumulator { initiator_fund: fund, ..acc }
    }
}

/// The action of a metering step on `acc`.
pub open spec fn meter_action(
    acc: Accumulator,
    event: Option<PubsubUpdate>,
    data_amount: u64,
    now: u64,
    fee_interval: u16,
) -> MeterAction {
    let fund = fund_after(acc, event);
    if admits(acc, fund, data_amount) {
        if elapsed(acc, now) > fee_interval {
            MeterAction::Settle((acc.amount_charged + spec_business_logic(data_amount)) as u64)
        } else {
            MeterAction::Continue
        }
    } else {
        MeterAction::Exhausted { charge: acc.amount_charged, refund: fund > acc.amount_charged }
    }
}

/// The metering step, run once for each read of `data_amount` bytes at time `now`.
///
/// It takes the latest balance from `event`, prices the bytes, and either admits them (and asks
/// for a settlement once more than `fee_interval` milliseconds have passed since the last one),
/// or, where the charge would exceed the known balance, ends the session.
pub fn process_data(
    params: &NewConnParams,
    accumulator: &mut Accumulator,
    event: Option<PubsubUpdate>,
    data_amount: u64,
    now: u64,
) -> (r: MeterAction)
    ensures
        *final(accumulator) == meter_state(*old(accumulator), event, data_amount),
        r == meter_action(*old(accumulator), event, data_amount, now, params.fee_interval),
{
    if let Some(PubsubUpdate::Balance(lamports)) = event {
        accumulator.initiator_fund = lamports;
    }
    let cost = business_logic(data_amount);
    let fits = match accumulator.amount_charged.checked_add(cost) {
        Some(charge) => charge <= accumulator.initiator_fund,
        None => false,
    };
    let counted = accumulator.total_data_amount.checked_add(data_amount).is_some();
    if fits && counted {
        accumulator.amount_charged = accumulator.amount_charged + cost;
        accumulator.total_data_amount = accumulator.total_data_amount + data_amount;
        let waited: u64 = if now >= accumulator.now {
            now - accumulator.now
        } else {
            0
        };
        if waited > params.fee_interval as u64 {
            MeterAction::Settle(accumulator.amount_charged)
        } else {
            MeterAction::Continue
        }
    } else {
        let refund = accumulator.initiator_fund > accumulator.amount_charged;
        MeterAction::Exhausted { charge: accumulator.amount_charged, refund }
    }
}

/// What the session's close sequence settles on the ledger.
#[derive(Clone, Copy, Debug, PartialEq, Eq, Structural)]
pub struct TeardownPlan {
    /// The `Spend` to make first, if any.
    pub spend: Option<u64>,
    /// Whether to `Refund` the rest afterwards.
    pub refund: bool,
}

/// The close sequence after the forwarding loop ends: where the contract could be read again,
/// spend the unsettled charge if there is one, then refund; otherwise do nothing.
pub fn teardown_plan(accumulator: &Accumulator, contract_readable: bool) -> (r: TeardownPlan)
    ensures
        contract_readable ==> r.refund && (accumulator.amount_charged > 0 ==> r.spend == Some(
            accumulator.amount_charged,
        )) && (accumulator.amount_charged == 0 ==> r.spend is None),
        !contract_readable ==> !r.refund && r.spend is None,
{
    if !contract_readable {
        TeardownPlan { spend: None, refund: false }
    } else if accumulator.amount_charged > 0 {
        TeardownPlan { spend: Some(accumulator.amount_charged), refund: true }
    } else {
        TeardownPlan { spend: None, refund: true }
    }
}

/// One thing that happens to a session's accumulator while it forwards.
#[derive(Clone, Copy, Debug, PartialEq, Eq, Structural)]
pub enum MeterInput {
    /// A metering step for a read of `data_amount` bytes at `now`, after `event`.
    Read { event: Option<PubsubUpdate>, data_amount: u64, now: u64 },
    /// The unsettled charge was handed off for settlement at `now`.
    HandedOff { now: u64 },
}

/// Runs `inputs` on `acc` for as long as the session forwards, that is up to the first read that
/// the budget does not admit. Returns the accumulator, the total handed off for settlement, and
/// the net change of the known balance that notifications brought (funding).
pub open spec fn run_meter(acc: Accumulator, inputs: Seq<MeterInput>) -> (Accumulator, int, int)
    decreases inputs.len(),
{
    if inputs.len() == 0 {
        (acc, 0, 0)
    } else {
        match inputs[0] {
            MeterInput::Read { event, data_amount, now } => {
                let fund = fund_after(acc, event);
                if !admits(acc, fund, data_amount) {
                    (acc, 0, 0)
                } else {
                    let rest = run_meter(meter_state(acc, event, data_amount), inputs.drop_first());
                    (rest.0, rest.1, rest.2 + fund - acc.initiator_fund)
                }
            },
            MeterInput::HandedOff { now } => {
                let rest = run_meter(settled(acc, now), inputs.drop_first());
                (rest.0, rest.1 + acc.amount_charged, rest.2)
            },
        }
    }
}

/// While a session forwards, its books balance: what was handed off for settlement plus the
/// known balance is the balance it started from plus the funding that notifications reported,
/// the unsettled charge never exceeds the known balance, and so the charges, settled or not,
/// never exceed the starting balance plus that funding.
pub proof fn lemma_meter_books_balance(acc: Accumulator, inputs: Seq<MeterInput>)
    requires
        acc.charge_covered(),
    ensures
        run_meter(acc, inputs).0.charge_covered(),
        run_meter(acc, inputs).1 + run_meter(acc, inputs).0.initiator_fund == acc.initiator_fund
            + run_meter(acc, inputs).2,
        run_meter(acc, inputs).0.amount_charged + run_meter(acc, inputs).1 <= acc.initiator_fund
            + run_meter(acc, inputs).2,
    decreases inputs.len(),
{
    if inputs.len() > 0 {
        match inputs[0] {
            MeterInput::Read { event, data_amount, now } => {
                let fund = fund_after(acc, event);
                if admits(acc, fund, data_amount) {
                    lemma_meter_books_balance(meter_state(acc, event, data_amount), inputs.drop_first());
                }
            },
            MeterInput::HandedOff { now } => {
                lemma_meter_books_balance(settled(acc, now), inputs.drop_first());
            },
        }
    }
}

/// The stages of a session.
#[derive(Clone, Copy, Debug, PartialEq, Eq, Structural)]
pub enum SessionPhase {
    Validating,
    Connecting,
    Accepting,
    Forwarding,
    Draining,
    Terminated,
}

/// What happens to a session.
#[derive(Clone, Copy, Debug, PartialEq, Eq, Structural)]
pub enum SessionEvent {
    /// The request and the contract were found in order.
    Validated,
    /// The connection to the destination is open.
    Connected,
    /// The initiator's connection was accepted.
    Accepted,
    /// The session must end: a hangup, a reset, an exhausted budget, an I/O error or a cancel.
    Ended,
    /// The close sequence has run.
    Drained,
}

/// The phase that follows `phase` on `event`.
pub open spec fn spec_next_phase(phase: SessionPhase, event: SessionEvent) -> SessionPhase {
    match (phase, event) {
        (SessionPhase::Validating, SessionEvent::Validated) => SessionPhase::Connecting,
        (SessionPhase::Connecting, SessionEvent::Connected) => SessionPhase::Accepting,
        (SessionPhase::Accepting, SessionEvent::Accepted) => SessionPhase::Forwarding,
        (SessionPhase::Draining, SessionEvent::Drained) => SessionPhase::Terminated,
        (SessionPhase::Draining, _) => SessionPhase::Draining,
        (SessionPhase::Terminated, _) => SessionPhase::Terminated,
        (_, SessionEvent::Ended) => SessionPhase::Draining,
        _ => phase,
    }
}

/// Moves a session on: each stage leads to the next, an end leads from any live stage to
/// draining, and only draining leads to the end.
pub fn next_phase(phase: SessionPhase, event: SessionEvent) -> (r: SessionPhase)
    ensures
        r == spec_next_phase(phase, event),
        r == SessionPhase::Terminated ==> phase == SessionPhase::Draining || phase
            == SessionPhase::Terminated,
{
    match (phase, event) {
        (SessionPhase::Validating, SessionEvent::Validated) => SessionPhase::Connecting,
        (SessionPhase::Connecting, SessionEvent::Connected) => SessionPhase::Accepting,
        (SessionPhase::Accepting, SessionEvent::Accepted) => SessionPhase::Forwarding,
        (SessionPhase::Draining, SessionEvent::Drained) => SessionPhase::Terminated,
        (SessionPhase::Draining, _) => SessionPhase::Draining,
        (SessionPhase::Terminated, _) => SessionPhase::Terminated,
        (_, SessionEvent::Ended) => SessionPhase::Draining,
        _ => phase,
    }
}

} // verus!
