use vstd::prelude::*;

use crate::identity::Identity;

verus! {

/// A wallet was created.
#[derive(Clone, Copy, Debug)]
pub struct WalletInitialized {
    pub wallet: Identity,
    pub owner: Identity,
    pub spending_limit: u64,
    pub daily_limit: u64,
}

/// An operator was delegated.
#[derive(Clone, Copy, Debug)]
pub struct OperatorAdded {
    pub wallet: Identity,
    pub operator: Identity,
}

/// An operator was removed (or was never there).
#[derive(Clone, Copy, Debug)]
pub struct OperatorRemoved {
    pub wallet: Identity,
    pub operator: Identity,
}

/// A spend intent was created.
#[derive(Clone, Copy, Debug)]
pub struct SpendIntentCreated {
    pub intent: Identity,
    pub wallet: Identity,
    pub recipient: Identity,
    pub amount: u64,
}

/// A spend intent was executed.
#[derive(Clone, Copy, Debug)]
pub struct SpendIntentExecuted {
    pub intent: Identity,
    pub amount: u64,
}

} // verus!
