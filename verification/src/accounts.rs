//! The accounts each instruction takes, the checks they must pass before the
//! instruction runs, and the calls into other programs built from them.
use vstd::prelude::*;

use crate::cpi::{
    Account, AccountRef, CancelAllPerpOrders, CancelPerpOrder, CpiContext, CreateMargin,
    CreatePerpOpenOrders, Deposit, PlacePerpOrder, TokenAccount, Transfer, Withdraw,
};
use crate::pubkey::{lemma_bytes_deep_view, lemma_same_bytes_same_key, parsed_pubkey, program_address_search, try_find_program_address, zo_dex_pid, zo_dex_pid_bytes, Pubkey};
use crate::vault::{Vault, VaultError, ZO_DEVNET_USDC_MINT};

verus! {

/// Accounts of `create_zo_margin`.
pub struct CreateZoMargin<A> {
    pub authority: AccountRef<A>,
    pub payer: AccountRef<A>,
    pub zo_program_state: AccountRef<A>,
    pub zo_margin: AccountRef<A>,
    pub zo_program: AccountRef<A>,
    pub control: AccountRef<A>,
    pub rent: AccountRef<A>,
    pub system_program: AccountRef<A>,
}

impl<A: Clone> CreateZoMargin<A> {
    /// `cpi` calls the program in `zo_program` and passes on the accounts below, each a
    /// clone of the handle of the account of this instruction that is named beside it.
    pub open spec fn create_margin_call(&self, cpi: CpiContext<A, CreateMargin<A>>) -> bool {
        &&& cloned(self.zo_program.info, cpi.program)
        &&& cloned(self.zo_program_state.info, cpi.accounts.state)
        &&& cloned(self.payer.info, cpi.accounts.payer)
        &&& cloned(self.authority.info, cpi.accounts.authority)
        &&& cloned(self.zo_margin.info, cpi.accounts.margin)
        &&& cloned(self.control.info, cpi.accounts.control)
        &&& cloned(self.rent.info, cpi.accounts.rent)
        &&& cloned(self.system_program.info, cpi.accounts.system_program)
    }

    /// The call into `zo_program` that this instruction makes, not yet signed.
    pub fn into_create_zo_margin_context(&self) -> (cpi: CpiContext<A, CreateMargin<A>>)
        ensures
            self.create_margin_call(cpi),
            cpi.signer_seeds@.len() == 0,
    {
        let cpi_program = self.zo_program.info.clone();
        let cpi_accounts = CreateMargin {
            state: self.zo_program_state.info.clone(),
            payer: self.payer.info.clone(),
            authority: self.authority.info.clone(),
            margin: self.zo_margin.info.clone(),
            control: self.control.info.clone(),
            rent: self.rent.info.clone(),
            system_program: self.system_program.info.clone(),
        };
        CpiContext::new(cpi_program, cpi_accounts)
    }
}

/// Accounts of `zo_deposit`.
pub struct ZoDeposit<A> {
    pub authority: AccountRef<A>,
    pub zo_program_state: AccountRef<A>,
    pub zo_program_margin: AccountRef<A>,
    pub zo_program: AccountRef<A>,
    pub state_signer: AccountRef<A>,
    pub cache: AccountRef<A>,
    pub token_account: Account<A, TokenAccount>,
    pub zo_program_vault: Account<A, TokenAccount>,
    pub token_program: AccountRef<A>,
}

impl<A: Clone> ZoDeposit<A> {
    /// `cpi` calls the program in `zo_program` and passes on the accounts below, each a
    /// clone of the handle of the account of this instruction that is named beside it.
    pub open spec fn deposit_call(&self, cpi: CpiContext<A, Deposit<A>>) -> bool {
        &&& cloned(self.zo_program.info, cpi.program)
        &&& cloned(self.zo_program_state.info, cpi.accounts.state)
        &&& cloned(self.state_signer.info, cpi.accounts.state_signer)
        &&& cloned(self.cache.info, cpi.accounts.cache)
        &&& cloned(self.authority.info, cpi.accounts.authority)
        &&& cloned(self.zo_program_margin.info, cpi.accounts.margin)
        &&& cloned(self.token_account.info, cpi.accounts.token_account)
        &&& cloned(self.zo_program_vault.info, cpi.accounts.vault)
        &&& cloned(self.token_program.info, cpi.accounts.token_program)
    }

    /// The call into `zo_program` that this instruction makes, not yet signed.
    pub fn into_zo_deposit_context(&self) -> (cpi: CpiContext<A, Deposit<A>>)
        ensures
            self.deposit_call(cpi),
            cpi.signer_seeds@.len() == 0,
    {
        let cpi_program = self.zo_program.info.clone();
        let cpi_accounts = Deposit {
            state: self.zo_program_state.info.clone(),
            state_signer: self.state_signer.info.clone(),
            cache: self.cache.info.clone(),
            authority: self.authority.info.clone(),
            margin: self.zo_program_margin.info.clone(),
            token_account: self.token_account.info.clone(),
            vault: self.zo_program_vault.info.clone(),
            token_program: self.token_program.info.clone(),
        };
        CpiContext::new(cpi_program, cpi_accounts)
    }
}

/// Accounts of `zo_withdrawal`.
pub struct ZoWithdrawal<A> {
    pub authority: AccountRef<A>,
    pub zo_program_state: AccountRef<A>,
    pub zo_program_margin: AccountRef<A>,
    pub zo_program: AccountRef<A>,
    pub state_signer: AccountRef<A>,
    pub cache: AccountRef<A>,
    pub control: AccountRef<A>,
    pub token_account: Account<A, TokenAccount>,
    pub zo_program_vault: Account<A, TokenAccount>,
    pub token_program: AccountRef<A>,
}

impl<A: Clone> ZoWithdrawal<A> {
    /// `cpi` calls the program in `zo_program` and passes on the accounts below, each a
    /// clone of the handle of the account of this instruction that is named beside it.
    pub open spec fn withdraw_call(&self, cpi: CpiContext<A, Withdraw<A>>) -> bool {
        &&& cloned(self.zo_program.info, cpi.program)
        &&& cloned(self.zo_program_state.info, cpi.accounts.state)
        &&& cloned(self.state_signer.info, cpi.accounts.state_signer)
        &&& cloned(self.cache.info, cpi.accounts.cache)
        &&& cloned(self.control.info, cpi.accounts.control)
        &&& cloned(self.authority.info, cpi.accounts.authority)
        &&& cloned(self.zo_program_margin.info, cpi.accounts.margin)
        &&& cloned(self.token_account.info, cpi.accounts.token_account)
        &&& cloned(self.zo_program_vault.info, cpi.accounts.vault)
        &&& cloned(self.token_program.info, cpi.accounts.token_program)
    }

    /// The call into `zo_program` that this instruction makes, not yet signed.
    pub fn into_zo_withdrawal_context(&self) -> (cpi: CpiContext<A, Withdraw<A>>)
        ensures
            self.withdraw_call(cpi),
            cpi.signer_seeds@.len() == 0,
    {
        let cpi_program = self.zo_program.info.clone();
        let cpi_accounts = Withdraw {
            state: self.zo_program_state.info.clone(),
            state_signer: self.state_signer.info.clone(),
            cache: self.cache.info.clone(),
            control: self.control.info.clone(),
            authority: self.authority.info.clone(),
            margin: self.zo_program_margin.info.clone(),
            token_account: self.token_account.info.clone(),
            vault: self.zo_program_vault.info.clone(),
            token_program: self.token_program.info.clone(),
        };
        CpiContext::new(cpi_program, cpi_accounts)
    }
}

/// Accounts of `create_zo_perp_order`.
pub struct CreateZoPerpOpenOrders<A> {
    pub state: AccountRef<A>,
    pub state_signer: AccountRef<A>,
    pub authority: AccountRef<A>,
    pub payer: AccountRef<A>,
    pub margin: AccountRef<A>,
    pub control: AccountRef<A>,
    pub open_orders: AccountRef<A>,
    pub dex_market: AccountRef<A>,
    pub dex_program: AccountRef<A>,
    pub rent: AccountRef<A>,
    pub zo_program: AccountRef<A>,
    pub system_program: AccountRef<A>,
}

impl<A: Clone> CreateZoPerpOpenOrders<A> {
    /// `cpi` calls the program in `zo_program` and passes on the accounts below, each a
    /// clone of the handle of the account of this instruction that is named beside it.
    pub open spec fn create_perp_open_orders_call(&self, cpi: CpiContext<A, CreatePerpOpenOrders<A>>) -> bool {
        &&& cloned(self.zo_program.info, cpi.program)
        &&& cloned(self.state.info, cpi.accounts.state)
        &&& cloned(self.state_signer.info, cpi.accounts.state_signer)
        &&& cloned(self.control.info, cpi.accounts.control)
        &&& cloned(self.authority.info, cpi.accounts.authority)
        &&& cloned(self.payer.info, cpi.accounts.payer)
        &&& cloned(self.margin.info, cpi.accounts.margin)
        &&& cloned(self.rent.info, cpi.accounts.rent)
        &&& cloned(self.open_orders.info, cpi.accounts.open_orders)
        &&& cloned(self.system_program.info, cpi.accounts.system_program)
        &&& cloned(self.dex_market.info, cpi.accounts.dex_market)
        &&& cloned(self.dex_program.info, cpi.accounts.dex_program)
    }

    /// The call into `zo_program` that this instruction makes, not yet signed.
    pub fn into_create_zo_perp_order_context(&self) -> (cpi: CpiContext<A, CreatePerpOpenOrders<A>>)
        ensures
            self.create_perp_open_orders_call(cpi),
            cpi.signer_seeds@.len() == 0,
    {
        let cpi_program = self.zo_program.info.clone();
        let cpi_accounts = CreatePerpOpenOrders {
            state: self.state.info.clone(),
            state_signer: self.state_signer.info.clone(),
            control: self.control.info.clone(),
            authority: self.authority.info.clone(),
            payer: self.payer.info.clone(),
            margin: self.margin.info.clone(),
            rent: self.rent.info.clone(),
            open_orders: self.open_orders.info.clone(),
            system_program: self.system_program.info.clone(),
            dex_market: self.dex_market.info.clone(),
            dex_program: self.dex_program.info.clone(),
        };
        CpiContext::new(cpi_program, cpi_accounts)
    }
}

/// Accounts of `place_zo_perp_order`.
pub struct PlaceZoPerpOrder<A> {
    pub state: AccountRef<A>,
    pub state_signer: AccountRef<A>,
    pub cache: AccountRef<A>,
    pub authority: AccountRef<A>,
    pub margin: AccountRef<A>,
    pub control: AccountRef<A>,
    pub open_orders: AccountRef<A>,
    pub dex_market: AccountRef<A>,
    pub req_q: AccountRef<A>,
    pub event_q: AccountRef<A>,
    pub market_bids: AccountRef<A>,
    pub market_asks: AccountRef<A>,
    pub dex_program: AccountRef<A>,
    pub zo_program: AccountRef<A>,
    pub rent: AccountRef<A>,
}

impl<A: Clone> PlaceZoPerpOrder<A> {
    /// `cpi` calls the program in `zo_program` and passes on the accounts below, each a
    /// clone of the handle of the account of this instruction that is named beside it.
    pub open spec fn place_perp_order_call(&self, cpi: CpiContext<A, PlacePerpOrder<A>>) -> bool {
        &&& cloned(self.zo_program.info, cpi.program)
        &&& cloned(self.state.info, cpi.accounts.state)
        &&& cloned(self.state_signer.info, cpi.accounts.state_signer)
        &&& cloned(self.control.info, cpi.accounts.control)
        &&& cloned(self.authority.info, cpi.accounts.authority)
        &&& cloned(self.margin.info, cpi.accounts.margin)
        &&& cloned(self.rent.info, cpi.accounts.rent)
        &&& cloned(self.open_orders.info, cpi.accounts.open_orders)
        &&& cloned(self.dex_market.info, cpi.accounts.dex_market)
        &&& cloned(self.dex_program.info, cpi.accounts.dex_program)
        &&& cloned(self.cache.info, cpi.accounts.cache)
        &&& cloned(self.req_q.info, cpi.accounts.req_q)
        &&& cloned(self.event_q.info, cpi.accounts.event_q)
        &&& cloned(self.market_bids.info, cpi.accounts.market_bids)
        &&& cloned(self.market_asks.info, cpi.accounts.market_asks)
    }

    /// The call into `zo_program` that this instruction makes, not yet signed.
    pub fn into_place_zo_perp_order_context(&self) -> (cpi: CpiContext<A, PlacePerpOrder<A>>)
        ensures
            self.place_perp_order_call(cpi),
            cpi.signer_seeds@.len() == 0,
    {
        let cpi_program = self.zo_program.info.clone();
        let cpi_accounts = PlacePerpOrder {
            state: self.state.info.clone(),
            state_signer: self.state_signer.info.clone(),
            control: self.control.info.clone(),
            authority: self.authority.info.clone(),
            margin: self.margin.info.clone(),
            rent: self.rent.info.clone(),
            open_orders: self.open_orders.info.clone(),
            dex_market: self.dex_market.info.clone(),
            dex_program: self.dex_program.info.clone(),
            cache: self.cache.info.clone(),
            req_q: self.req_q.info.clone(),
            event_q: self.event_q.info.clone(),
            market_bids: self.market_bids.info.clone(),
            market_asks: self.market_asks.info.clone(),
        };
        CpiContext::new(cpi_program, cpi_accounts)
    }
}

/// Accounts of `cancel_zo_perp_order`.
pub struct CancelZoPerpOrder<A> {
    pub state: AccountRef<A>,
    pub cache: AccountRef<A>,
    pub authority: AccountRef<A>,
    pub margin: AccountRef<A>,
    pub control: AccountRef<A>,
    pub open_orders: AccountRef<A>,
    pub dex_market: AccountRef<A>,
    pub market_bids: AccountRef<A>,
    pub market_asks: AccountRef<A>,
    pub event_q: AccountRef<A>,
    pub dex_program: AccountRef<A>,
    pub zo_program: AccountRef<A>,
}

impl<A: Clone> CancelZoPerpOrder<A> {
    /// `cpi` calls the program in `zo_program` and passes on the accounts below, each a
    /// clone of the handle of the account of this instruction that is named beside it.
    pub open spec fn cancel_perp_order_call(&self, cpi: CpiContext<A, CancelPerpOrder<A>>) -> bool {
        &&& cloned(self.zo_program.info, cpi.program)
        &&& cloned(self.state.info, cpi.accounts.state)
        &&& cloned(self.control.info, cpi.accounts.control)
        &&& cloned(self.authority.info, cpi.accounts.authority)
        &&& cloned(self.margin.info, cpi.accounts.margin)
        &&& cloned(self.open_orders.info, cpi.accounts.open_orders)
        &&& cloned(self.dex_market.info, cpi.accounts.dex_market)
        &&& cloned(self.dex_program.info, cpi.accounts.dex_program)
        &&& cloned(self.cache.info, cpi.accounts.cache)
        &&& cloned(self.event_q.info, cpi.accounts.event_q)
        &&& cloned(self.market_bids.info, cpi.accounts.market_bids)
        &&& cloned(self.market_asks.info, cpi.accounts.market_asks)
    }

    /// The call into `zo_program` that this instruction makes, not yet signed.
    pub fn into_cancel_zo_perp_order_context(&self) -> (cpi: CpiContext<A, CancelPerpOrder<A>>)
        ensures
            self.cancel_perp_order_call(cpi),
            cpi.signer_seeds@.len() == 0,
    {
        let cpi_program = self.zo_program.info.clone();
        let cpi_accounts = CancelPerpOrder {
            state: self.state.info.clone(),
            control: self.control.info.clone(),
            authority: self.authority.info.clone(),
            margin: self.margin.info.clone(),
            open_orders: self.open_orders.info.clone(),
            dex_market: self.dex_market.info.clone(),
            dex_program: self.dex_program.info.clone(),
            cache: self.cache.info.clone(),
            event_q: self.event_q.info.clone(),
            market_bids: self.market_bids.info.clone(),
            market_asks: self.market_asks.info.clone(),
        };
        CpiContext::new(cpi_program, cpi_accounts)
    }
}

/// Accounts of `cancel_all_zo_perp_order`.
pub struct CancelAllZoPerpOrders<A> {
    pub authority: AccountRef<A>,
    pub state: AccountRef<A>,
    pub cache: AccountRef<A>,
    pub state_signer: AccountRef<A>,
    pub margin: AccountRef<A>,
    pub control: AccountRef<A>,
    pub open_orders: AccountRef<A>,
    pub dex_market: AccountRef<A>,
    pub req_q: AccountRef<A>,
    pub event_q: AccountRef<A>,
    pub market_bids: AccountRef<A>,
    pub market_asks: AccountRef<A>,
    pub dex_program: AccountRef<A>,
    pub zo_program: AccountRef<A>,
}

impl<A: Clone> CancelAllZoPerpOrders<A> {
    /// `cpi` calls the program in `zo_program` and passes on the accounts below, each a
    /// clone of the handle of the account of this instruction that is named beside it.
    pub open spec fn cancel_all_perp_orders_call(&self, cpi: CpiContext<A, CancelAllPerpOrders<A>>) -> bool {
        &&& cloned(self.zo_program.info, cpi.program)
        &&& cloned(self.state.info, cpi.accounts.state)
        &&& cloned(self.state_signer.info, cpi.accounts.state_signer)
        &&& cloned(self.control.info, cpi.accounts.control)
        &&& cloned(self.authority.info, cpi.accounts.authority)
        &&& cloned(self.margin.info, cpi.accounts.margin)
        &&& cloned(self.open_orders.info, cpi.accounts.open_orders)
        &&& cloned(self.dex_market.info, cpi.accounts.dex_market)
        &&& cloned(self.dex_program.info, cpi.accounts.dex_program)
        &&& cloned(self.cache.info, cpi.accounts.cache)
        &&& cloned(self.req_q.info, cpi.accounts.req_q)
        &&& cloned(self.event_q.info, cpi.accounts.event_q)
        &&& cloned(self.market_bids.info, cpi.accounts.market_bids)
        &&& cloned(self.market_asks.info, cpi.accounts.market_asks)
    }

    /// The call into `zo_program` that this instruction makes, not yet signed.
    pub fn into_cancel_all_zo_perp_orders_context(&self) -> (cpi: CpiContext<A, CancelAllPerpOrders<A>>)
        ensures
            self.cancel_all_perp_orders_call(cpi),
            cpi.signer_seeds@.len() == 0,
    {
        let cpi_program = self.zo_program.info.clone();
        let cpi_accounts = CancelAllPerpOrders {
            state: self.state.info.clone(),
            state_signer: self.state_signer.info.clone(),
            control: self.control.info.clone(),
            authority: self.authority.info.clone(),
            margin: self.margin.info.clone(),
            open_orders: self.open_orders.info.clone(),
            dex_market: self.dex_market.info.clone(),
            dex_program: self.dex_program.info.clone(),
            cache: self.cache.info.clone(),
            req_q: self.req_q.info.clone(),
            event_q: self.event_q.info.clone(),
            market_bids: self.market_bids.info.clone(),
            market_asks: self.market_asks.info.clone(),
        };
        CpiContext::new(cpi_program, cpi_accounts)
    }
}

/// Accounts of `deposit_to_vault`.
pub struct DepositToVault<A> {
    pub depositor: AccountRef<A>,
    pub depositor_token_acct: Account<A, TokenAccount>,
    pub vault_token_acct: Account<A, TokenAccount>,
    pub vault: Account<A, Vault>,
    pub token_program: AccountRef<A>,
}

impl<A: Clone> DepositToVault<A> {
    /// `cpi` calls the program in `token_program` and passes on the accounts below, each a
    /// clone of the handle of the account of this instruction that is named beside it.
    pub open spec fn transfer_call(&self, cpi: CpiContext<A, Transfer<A>>) -> bool {
        &&& cloned(self.token_program.info, cpi.program)
        &&& cloned(self.depositor_token_acct.info, cpi.accounts.from)
        &&& cloned(self.vault_token_acct.info, cpi.accounts.to)
        &&& cloned(self.depositor.info, cpi.accounts.authority)
    }

    /// The call into `token_program` that this instruction makes, not yet signed.
    pub fn into_deposit_to_vault_context(&self) -> (cpi: CpiContext<A, Transfer<A>>)
        ensures
            self.transfer_call(cpi),
            cpi.signer_seeds@.len() == 0,
    {
        let cpi_program = self.token_program.info.clone();
        let cpi_accounts = Transfer {
            from: self.depositor_token_acct.info.clone(),
            to: self.vault_token_acct.info.clone(),
            authority: self.depositor.info.clone(),
        };
        CpiContext::new(cpi_program, cpi_accounts)
    }
}

/// Accounts of `withdraw_from_vault`.
pub struct WithdrawFromVault<A> {
    pub depositor: AccountRef<A>,
    pub depositor_token_acct: Account<A, TokenAccount>,
    pub vault_token_acct: Account<A, TokenAccount>,
    pub pda_account: AccountRef<A>,
    pub vault: Account<A, Vault>,
    pub token_program: AccountRef<A>,
}

impl<A: Clone> WithdrawFromVault<A> {
    /// `cpi` calls the program in `token_program` and passes on the accounts below, each a
    /// clone of the handle of the account of this instruction that is named beside it.
    pub open spec fn transfer_call(&self, cpi: CpiContext<A, Transfer<A>>) -> bool {
        &&& cloned(self.token_program.info, cpi.program)
        &&& cloned(self.vault_token_acct.info, cpi.accounts.from)
        &&& cloned(self.depositor_token_acct.info, cpi.accounts.to)
        &&& cloned(self.pda_account.info, cpi.accounts.authority)
    }

    /// The call into `token_program` that this instruction makes, not yet signed.
    pub fn into_withdraw_from_vault_context(&self) -> (cpi: CpiContext<A, Transfer<A>>)
        ensures
            self.transfer_call(cpi),
            cpi.signer_seeds@.len() == 0,
    {
        let cpi_program = self.token_program.info.clone();
        let cpi_accounts = Transfer {
            from: self.vault_token_acct.info.clone(),
            to: self.depositor_token_acct.info.clone(),
            authority: self.pda_account.info.clone(),
        };
        CpiContext::new(cpi_program, cpi_accounts)
    }
}

impl<A> ZoDeposit<A> {
    /// The constraint on these accounts: the token account belongs to the authority.
    pub open spec fn constraints_hold(&self) -> bool {
        self.token_account.data.owner == self.authority.key
    }

    /// Checks the constraint on these accounts.
    pub fn check_constraints(&self) -> (checked: Result<(), VaultError>)
        ensures
            checked is Ok <==> self.token_account.data.owner == self.authority.key,
            checked is Ok <==> self.constraints_hold(),
            checked matches Err(e) ==> e == VaultError::ConstraintRaw,
    {
        if self.token_account.data.owner == self.authority.key {
            Ok(())
        } else {
            Err(VaultError::ConstraintRaw)
        }
    }
}

impl<A> ZoWithdrawal<A> {
    /// The constraint on these accounts: the token account belongs to the authority.
    pub open spec fn constraints_hold(&self) -> bool {
        self.token_account.data.owner == self.authority.key
    }

    /// Checks the constraint on these accounts.
    pub fn check_constraints(&self) -> (checked: Result<(), VaultError>)
        ensures
            checked is Ok <==> self.token_account.data.owner == self.authority.key,
            checked is Ok <==> self.constraints_hold(),
            checked matches Err(e) ==> e == VaultError::ConstraintRaw,
    {
        if self.token_account.data.owner == self.authority.key {
            Ok(())
        } else {
            Err(VaultError::ConstraintRaw)
        }
    }
}

impl<A> PlaceZoPerpOrder<A> {
    /// The constraint on these accounts: the dex program is the exchange's dex.
    pub open spec fn constraints_hold(&self) -> bool {
        self.dex_program.key@ == zo_dex_pid_bytes()
    }

    /// Checks the constraint on these accounts.
    pub fn check_constraints(&self) -> (checked: Result<(), VaultError>)
        ensures
            checked is Ok <==> self.dex_program.key@ == zo_dex_pid_bytes(),
            checked is Ok <==> self.constraints_hold(),
            checked matches Err(e) ==> e == VaultError::ConstraintAddress,
    {
        let dex = zo_dex_pid();
        proof {
            lemma_same_bytes_same_key(dex, self.dex_program.key);
        }
        if self.dex_program.key == dex {
            Ok(())
        } else {
            Err(VaultError::ConstraintAddress)
        }
    }
}

impl<A> DepositToVault<A> {
    /// These accounts with the vault's state replaced by `data`.
    pub open spec fn with_vault_data(self, data: Vault) -> Self {
        DepositToVault { vault: Account { data, ..self.vault }, ..self }
    }

    /// The constraints on these accounts: both token accounts are the vault's.
    pub open spec fn constraints_hold(&self) -> bool {
        &&& self.vault.data.depositor_token_account == self.depositor_token_acct.key
        &&& self.vault.data.vault_token_account == self.vault_token_acct.key
    }

    /// Checks the constraints on these accounts.
    pub fn check_constraints(&self) -> (checked: Result<(), VaultError>)
        ensures
            checked is Ok <==> (self.vault.data.depositor_token_account == self.depositor_token_acct.key
                && self.vault.data.vault_token_account == self.vault_token_acct.key),
            checked is Ok <==> self.constraints_hold(),
            checked matches Err(e) ==> e == VaultError::ConstraintRaw,
    {
        if self.vault.data.depositor_token_account == self.depositor_token_acct.key
            && self.vault.data.vault_token_account == self.vault_token_acct.key {
            Ok(())
        } else {
            Err(VaultError::ConstraintRaw)
        }
    }
}

impl<A> WithdrawFromVault<A> {
    /// These accounts with the vault's state replaced by `data`.
    pub open spec fn with_vault_data(self, data: Vault) -> Self {
        WithdrawFromVault { vault: Account { data, ..self.vault }, ..self }
    }

    /// The constraints on these accounts for a withdrawal of `transfer_amount`: the vault
    /// holds at least that much, and both token accounts are the vault's.
    pub open spec fn constraints_hold(&self, transfer_amount: u64) -> bool {
        &&& self.vault.data.vault_amount >= transfer_amount
        &&& self.vault.data.depositor_token_account == self.depositor_token_acct.key
        &&& self.vault.data.vault_token_account == self.vault_token_acct.key
    }

    /// Checks the constraints on these accounts for a withdrawal of `transfer_amount`.
    pub fn check_constraints(&self, transfer_amount: u64) -> (checked: Result<(), VaultError>)
        ensures
            checked is Ok <==> (transfer_amount <= self.vault.data.vault_amount
                && self.vault.data.depositor_token_account == self.depositor_token_acct.key
                && self.vault.data.vault_token_account == self.vault_token_acct.key),
            checked is Ok <==> self.constraints_hold(transfer_amount),
            checked matches Err(e) ==> e == VaultError::ConstraintRaw,
    {
        if self.vault.data.vault_amount >= transfer_amount
            && self.vault.data.depositor_token_account == self.depositor_token_acct.key
            && self.vault.data.vault_token_account == self.vault_token_acct.key {
            Ok(())
        } else {
            Err(VaultError::ConstraintRaw)
        }
    }
}

/// The seed, `vault`, that follows the depositor's address in the seeds of a vault account.
pub open spec fn vault_seed() -> Seq<u8> {
    seq![118u8, 97, 117, 108, 116]
}

fn vault_seed_bytes() -> (seed: Vec<u8>)
    ensures
        seed@ == vault_seed(),
{
    let seed: Vec<u8> = vec![118u8, 97, 117, 108, 116];
    seed
}

/// Accounts of `create_vault`.
pub struct CreateVault<A> {
    pub depositor: AccountRef<A>,
    pub vault: Account<A, Vault>,
    pub vault_token_acct: Account<A, TokenAccount>,
    pub depositor_token_acct: Account<A, TokenAccount>,
    pub system_program: AccountRef<A>,
}

impl<A> CreateVault<A> {
    /// The state of a vault set up from these accounts, signed for by `pda_account`.
    pub open spec fn new_vault_data(&self, pda_account: Pubkey) -> Vault {
        Vault {
            depositor: self.depositor.key,
            depositor_token_account: self.depositor_token_acct.key,
            vault_token_account: self.vault_token_acct.key,
            pda_account,
            vault_amount: 0,
        }
    }

    /// These accounts with the vault's state replaced by `data`.
    pub open spec fn with_vault_data(self, data: Vault) -> Self {
        CreateVault { vault: Account { data, ..self.vault }, ..self }
    }

    /// The seeds from which the vault account's address is derived: the depositor's
    /// address, then `vault`.
    pub open spec fn vault_seeds(&self) -> Seq<Seq<u8>> {
        seq![self.depositor.key@, vault_seed()]
    }

    /// What checking these accounts gives, in the order the checks are made: the vault
    /// account must be at the address its seeds derive under `program_id` (with the bump
    /// that the search finds), and both token accounts must hold the devnet USDC mint.
    pub open spec fn constraint_outcome(&self, program_id: Pubkey) -> Result<(), VaultError> {
        match program_address_search(self.vault_seeds(), program_id@) {
            None => Err(VaultError::NoViableBump),
            Some((address, _)) => if address != self.vault.key@ {
                Err(VaultError::ConstraintSeeds)
            } else {
                match parsed_pubkey(ZO_DEVNET_USDC_MINT@) {
                    None => Err(VaultError::InvalidAddress),
                    Some(mint) => if self.vault_token_acct.data.mint@ == mint
                        && self.depositor_token_acct.data.mint@ == mint {
                        Ok(())
                    } else {
                        Err(VaultError::ConstraintRaw)
                    },
                }
            },
        }
    }

    /// Checks the constraints on these accounts for the program `program_id`.
    pub fn check_constraints(&self, program_id: &Pubkey) -> (checked: Result<(), VaultError>)
        ensures
            checked is Ok ==> parsed_pubkey(ZO_DEVNET_USDC_MINT@) == Some(self.vault_token_acct.data.mint@),
            checked is Ok ==> parsed_pubkey(ZO_DEVNET_USDC_MINT@) == Some(self.depositor_token_acct.data.mint@),
            checked is Ok ==> (program_address_search(seq![self.depositor.key@, seq![118u8, 97, 117, 108, 116]], program_id@) is Some
                && program_address_search(seq![self.depositor.key@, seq![118u8, 97, 117, 108, 116]], program_id@).unwrap().0 == self.vault.key@),
            (program_address_search(seq![self.depositor.key@, seq![118u8, 97, 117, 108, 116]], program_id@) is Some
                && program_address_search(seq![self.depositor.key@, seq![118u8, 97, 117, 108, 116]], program_id@).unwrap().0 == self.vault.key@
                && parsed_pubkey(ZO_DEVNET_USDC_MINT@) is Some
                && (self.vault_token_acct.data.mint@ != parsed_pubkey(ZO_DEVNET_USDC_MINT@).unwrap() || self.depositor_token_acct.data.mint@ != parsed_pubkey(ZO_DEVNET_USDC_MINT@).unwrap()))
                ==> checked == Err::<(), VaultError>(VaultError::ConstraintRaw),
            (program_address_search(seq![self.depositor.key@, seq![118u8, 97, 117, 108, 116]], program_id@) is Some
                && program_address_search(seq![self.depositor.key@, seq![118u8, 97, 117, 108, 116]], program_id@).unwrap().0 == self.vault.key@
                && parsed_pubkey(ZO_DEVNET_USDC_MINT@) is Some
                && self.vault_token_acct.data.mint@ == parsed_pubkey(ZO_DEVNET_USDC_MINT@).unwrap() && self.depositor_token_acct.data.mint@ == parsed_pubkey(ZO_DEVNET_USDC_MINT@).unwrap())
                ==> checked is Ok,
            checked == self.constraint_outcome(*program_id),
    {
        let mut seeds: Vec<Vec<u8>> = Vec::new();
        seeds.push(self.depositor.key.to_vec());
        seeds.push(vault_seed_bytes());
        proof {
            lemma_bytes_deep_view(seeds@[0]);
            lemma_bytes_deep_view(seeds@[1]);
            assert(seeds.deep_view() =~= self.vault_seeds());
        }
        match try_find_program_address(&seeds, program_id) {
            None => Err(VaultError::NoViableBump),
            Some((address, _bump)) => {
                proof {
                    lemma_same_bytes_same_key(address, self.vault.key);
                }
                if !(address == self.vault.key) {
                    return Err(VaultError::ConstraintSeeds);
                }
                match Vault::zo_devnet_usdc_mint() {
                    Err(e) => Err(e),
                    Ok(mint) => {
                        proof {
                            lemma_same_bytes_same_key(self.vault_token_acct.data.mint, mint);
                            lemma_same_bytes_same_key(self.depositor_token_acct.data.mint, mint);
                        }
                        if self.vault_token_acct.data.mint == mint
                            && self.depositor_token_acct.data.mint == mint {
                            Ok(())
                        } else {
                            Err(VaultError::ConstraintRaw)
                        }
                    },
                }
            },
        }
    }
}

} // verus!
