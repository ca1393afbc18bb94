//! Accounts as an instruction receives them, and the calls into other programs that
//! the instructions make.
use vstd::prelude::*;

use crate::pubkey::Pubkey;
use crate::vault::ZoOrderType;

verus! {

/// An account handed to an instruction: its address, and `info`, the handle by which
/// the runtime passes it on to another program.
pub struct AccountRef<A> {
    pub key: Pubkey,
    pub info: A,
}

/// An account whose data the program reads: address, data, handle.
pub struct Account<A, T> {
    pub key: Pubkey,
    pub data: T,
    pub info: A,
}

/// What the program reads of a token account.
#[derive(Clone, Copy, Debug)]
pub struct TokenAccount {
    /// The mint whose tokens the account holds.
    pub mint: Pubkey,
    /// The wallet that owns the account.
    pub owner: Pubkey,
}

/// A call into another program: the program, the accounts it takes, and the seeds of
/// the program-derived address that signs for this program (none where `signer_seeds`
/// is empty).
pub struct CpiContext<A, T> {
    pub program: A,
    pub accounts: T,
    pub signer_seeds: Vec<Vec<u8>>,
}

impl<A, T> CpiContext<A, T> {
    /// A call of `program` on `accounts` that no derived address signs.
    pub fn new(program: A, accounts: T) -> (cpi: Self)
        ensures
            cpi.program == program,
            cpi.accounts == accounts,
            cpi.signer_seeds@.len() == 0,
    {
        CpiContext { program, accounts, signer_seeds: Vec::new() }
    }

    /// The same call, signed by the address that `seeds` derive.
    pub fn with_signer(self, seeds: Vec<Vec<u8>>) -> (cpi: Self)
        ensures
            cpi.program == self.program,
            cpi.accounts == self.accounts,
            cpi.signer_seeds == seeds,
    {
        CpiContext { program: self.program, accounts: self.accounts, signer_seeds: seeds }
    }
}

/// The accounts of the exchange's `create_margin`.
pub struct CreateMargin<A> {
    pub state: A,
    pub payer: A,
    pub authority: A,
    pub margin: A,
    pub control: A,
    pub rent: A,
    pub system_program: A,
}

/// The accounts of the exchange's `deposit`.
pub struct Deposit<A> {
    pub state: A,
    pub state_signer: A,
    pub cache: A,
    pub authority: A,
    pub margin: A,
    pub token_account: A,
    pub vault: A,
    pub token_program: A,
}

/// The accounts of the exchange's `withdraw`.
pub struct Withdraw<A> {
    pub state: A,
    pub state_signer: A,
    pub cache: A,
    pub control: A,
    pub authority: A,
    pub margin: A,
    pub token_account: A,
    pub vault: A,
    pub token_program: A,
}

/// The accounts of the exchange's `create_perp_open_orders`.
pub struct CreatePerpOpenOrders<A> {
    pub state: A,
    pub state_signer: A,
    pub authority: A,
    pub payer: A,
    pub margin: A,
    pub control: A,
    pub open_orders: A,
    pub dex_market: A,
    pub dex_program: A,
    pub rent: A,
    pub system_program: A,
}

/// The accounts of the exchange's `place_perp_order`.
pub struct PlacePerpOrder<A> {
    pub state: A,
    pub state_signer: A,
    pub cache: A,
    pub authority: A,
    pub margin: A,
    pub control: A,
    pub open_orders: A,
    pub dex_market: A,
    pub req_q: A,
    pub event_q: A,
    pub market_bids: A,
    pub market_asks: A,
    pub dex_program: A,
    pub rent: A,
}

/// The accounts of the exchange's `cancel_perp_order`.
pub struct CancelPerpOrder<A> {
    pub state: A,
    pub cache: A,
    pub authority: A,
    pub margin: A,
    pub control: A,
    pub open_orders: A,
    pub dex_market: A,
    pub market_bids: A,
    pub market_asks: A,
    pub event_q: A,
    pub dex_program: A,
}

/// The accounts of the exchange's `cancel_all_perp_orders`.
pub struct CancelAllPerpOrders<A> {
    pub state: A,
    pub state_signer: A,
    pub cache: A,
    pub authority: A,
    pub margin: A,
    pub control: A,
    pub open_orders: A,
    pub dex_market: A,
    pub req_q: A,
    pub event_q: A,
    pub market_bids: A,
    pub market_asks: A,
    pub dex_program: A,
}

/// The accounts of the token program's `transfer`.
pub struct Transfer<A> {
    pub from: A,
    pub to: A,
    pub authority: A,
}

/// A call to make into another program: the call's accounts and signer, and the
/// arguments of its instruction.
pub struct Invocation<A, T, D> {
    pub cpi: CpiContext<A, T>,
    pub args: D,
}

/// The arguments of the exchange's `deposit`.
#[derive(Clone, Copy, Debug)]
pub struct DepositArgs {
    pub repay_only: bool,
    pub amount: u64,
}

/// The arguments of the exchange's `withdraw`.
#[derive(Clone, Copy, Debug)]
pub struct WithdrawArgs {
    pub allow_borrow: bool,
    pub amount: u64,
}

/// The arguments of the exchange's `place_perp_order`.
#[derive(Clone, Copy, Debug)]
pub struct PlacePerpOrderArgs {
    pub is_long: bool,
    pub limit_price: u64,
    pub max_base_quantity: u64,
    pub max_quote_quantity: u64,
    pub order_type: ZoOrderType,
    pub limit: u16,
    pub client_id: u64,
}

/// The arguments of the exchange's `cancel_perp_order`.
#[derive(Clone, Copy, Debug)]
pub struct CancelPerpOrderArgs {
    pub order_id: Option<u128>,
    pub is_long: Option<bool>,
    pub client_id: Option<u64>,
}

} // verus!
