use vstd::prelude::*;

verus! {

/// What one session has metered: bytes forwarded, the charge not yet settled, the initiator's
/// last known balance, and when the last settlement was made (milliseconds on a monotonic clock).
#[derive(Clone, Copy, Debug, PartialEq, Eq, Structural)]
pub struct Accumulator {
    pub total_data_amount: u64,
    pub amount_charged: u64,
    pub initiator_fund: u64,
    pub now: u64,
}

impl Default for Accumulator {
    fn default() -> (r: Accumulator)
        ensures
            r.total_data_amount == 0,
            r.amount_charged == 0,
            r.initiator_fund == 0,
            r.now == 0,
    {
        Accumulator { total_data_amount: 0, amount_charged: 0, initiator_fund: 0, now: 0 }
    }
}

impl Accumulator {
    /// The accumulator of a session that starts at `now` on a contract holding `starting_balance`.
    pub fn new(starting_balance: u64, now: u64) -> (r: Accumulator)
        ensures
            r.total_data_amount == 0,
            r.amount_charged == 0,
            r.initiator_fund == starting_balance,
            r.now == now,
    {
        Accumulator { total_data_amount: 0, amount_charged: 0, initiator_fund: starting_balance, now }
    }

    /// The charge does not exceed what the initiator is known to hold.
    pub open spec fn charge_covered(&self) -> bool {
        self.amount_charged <= self.initiator_fund
    }

    /// Records that the unsettled charge was handed off for settlement at `now`: it leaves the
    /// known balance and the charge starts again from zero.
    pub fn settle(&mut self, now: u64)
        requires
            old(self).charge_covered(),
        ensures
            *final(self) == settled(*old(self), now),
    {
        self.initiator_fund = self.initiator_fund - self.amount_charged;
        self.amount_charged = 0;
        self.now = now;
    }
}

/// `acc` after its charge was handed off for settlement at `now`.
pub open spec fn settled(acc: Accumulator, now: u64) -> Accumulator {
    Accumulator {
        initiator_fund: (acc.initiator_fund - acc.amount_charged) as u64,
        amount_charged: 0,
        now,
        ..acc
    }
}

} // verus!
