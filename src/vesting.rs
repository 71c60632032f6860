use vstd::prelude::*;

verus! {

/// A vesting schedule: a grant of tokens, the part unlocked at once, and
/// the number of payments it is spread over.
#[derive(Debug, Clone, Copy, Default)]
pub struct Schedule {
    pub schedule_id: u32,
    pub amount_of_token: u128,
    pub initial_unlock: u128,
    pub duration: u64,
}

impl Schedule {
    /// An empty schedule over four payments.
    pub fn new() -> (r: Self)
        ensures
            r.schedule_id == 0,
            r.amount_of_token == 0,
            r.initial_unlock == 0,
            r.duration == 4,
    {
        Schedule { schedule_id: 0, amount_of_token: 0, initial_unlock: 0, duration: 4 }
    }
}

/// A vesting account: what it was granted, what is still locked and what
/// is already unlocked.
#[derive(Debug, Clone)]
pub struct Vestors {
    pub id: String,
    pub owner_id: String,
    pub amount_of_token: u128,
    pub locked_amount: u128,
    pub unlocked_amount: u128,
    pub duration: u64,
    pub timestamp: u64,
    pub nb_time_payment: u8,
}

impl Vestors {
    /// An empty vesting account over four payments.
    pub fn new() -> (r: Self)
        ensures
            r.id@ == Seq::<char>::empty(),
            r.owner_id@ == Seq::<char>::empty(),
            r.amount_of_token == 0,
            r.locked_amount == 0,
            r.unlocked_amount == 0,
            r.duration == 4,
            r.timestamp == 0,
            r.nb_time_payment == 0,
    {
        Vestors {
            id: String::new(),
            owner_id: String::new(),
            amount_of_token: 0,
            locked_amount: 0,
            unlocked_amount: 0,
            duration: 4,
            timestamp: 0,
            nb_time_payment: 0,
        }
    }
}

} // verus!
