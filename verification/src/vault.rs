use vstd::prelude::*;

use crate::pubkey::{parsed_pubkey, pubkey_from_str, Pubkey};

verus! {

/// Why an instruction is refused.
#[derive(Clone, Copy, Debug, PartialEq, Eq, Structural)]
pub enum VaultError {
    /// A `constraint` that an account must meet does not hold.
    ConstraintRaw,
    /// An account is not at the one address it must have.
    ConstraintAddress,
    /// The vault account is not at the address that its seeds derive.
    ConstraintSeeds,
    /// No bump seed turns the seeds into an address off the curve.
    NoViableBump,
    /// An address written in base58 does not decode to 32 bytes.
    InvalidAddress,
}

/// The base58 address of the devnet USDC mint that the exchange trades against.
pub const ZO_DEVNET_USDC_MINT: &'static str = "7UT1javY6X1M9R2UrPGrwcZ78SX3huaXyETff5hm5YdX";

/// The state a vault account keeps.
#[derive(Clone, Copy, Debug)]
pub struct Vault {
    /// The depositor's wallet.
    pub depositor: Pubkey,
    /// The token account the depositor pays in from and is paid back to.
    pub depositor_token_account: Pubkey,
    /// The token account that holds the vault's tokens.
    pub vault_token_account: Pubkey,
    /// The program-derived address that signs for the vault.
    pub pda_account: Pubkey,
    /// How many tokens the vault holds for the depositor.
    pub vault_amount: u64,
}

impl Vault {
    /// The bytes the vault's fields take in the account: four addresses and the amount,
    /// with room to spare.
    pub const LEN: usize = 64 + 32 + 32 + 32 + 32;

    /// The vault after `amount` more tokens came in.
    pub open spec fn after_deposit(self, amount: u64) -> Vault {
        Vault { vault_amount: (self.vault_amount + amount) as u64, ..self }
    }

    /// The vault after `amount` tokens went out.
    pub open spec fn after_withdrawal(self, amount: u64) -> Vault {
        Vault { vault_amount: (self.vault_amount - amount) as u64, ..self }
    }

    /// The vault after `call`: changed where the call goes through, as it was where the
    /// call is refused. A deposit goes through where its accounts pass their checks and
    /// the amount can take it (beyond that the instruction aborts); a withdrawal where
    /// its accounts and signer pass their checks and the vault holds enough.
    pub open spec fn after_call(self, call: VaultCall) -> Vault {
        match call {
            VaultCall::Deposit { amount, authorized } => if authorized && self.vault_amount + amount <= u64::MAX {
                self.after_deposit(amount)
            } else {
                self
            },
            VaultCall::Withdrawal { amount, authorized } => if authorized && amount <= self.vault_amount {
                self.after_withdrawal(amount)
            } else {
                self
            },
        }
    }

    /// What `call` moves into the vault: the amount of a deposit that goes through, less
    /// the amount of a withdrawal that goes through; nothing for a refused call.
    pub open spec fn flow_of(self, call: VaultCall) -> int {
        match call {
            VaultCall::Deposit { amount, authorized } => if authorized && self.vault_amount + amount <= u64::MAX {
                amount as int
            } else {
                0
            },
            VaultCall::Withdrawal { amount, authorized } => if authorized && amount <= self.vault_amount {
                -(amount as int)
            } else {
                0
            },
        }
    }

    /// The amount the vault holds once `amount` more tokens came in. The vault itself is
    /// left as it was.
    pub fn add_to_vault(&mut self, amount: u64) -> (total: u64)
        requires
            old(self).vault_amount + amount <= u64::MAX,
        ensures
            total == old(self).vault_amount + amount,
            *final(self) == *old(self),
    {
        self.vault_amount + amount
    }

    /// The amount the vault holds once `amount` tokens went out. The vault itself is left
    /// as it was.
    pub fn sub_from_vault(&mut self, amount: u64) -> (total: u64)
        requires
            old(self).vault_amount >= amount,
        ensures
            total == old(self).vault_amount - amount,
            *final(self) == *old(self),
    {
        self.vault_amount - amount
    }

    /// The address of the devnet USDC mint, decoded from `ZO_DEVNET_USDC_MINT`.
    pub fn zo_devnet_usdc_mint() -> (mint: Result<Pubkey, VaultError>)
        ensures
            match mint {
                Ok(key) => parsed_pubkey(ZO_DEVNET_USDC_MINT@) == Some(key@),
                Err(e) => e == VaultError::InvalidAddress && parsed_pubkey(ZO_DEVNET_USDC_MINT@) is None,
            },
    {
        match pubkey_from_str(ZO_DEVNET_USDC_MINT) {
            Ok(key) => Ok(key),
            Err(_) => Err(VaultError::InvalidAddress),
        }
    }
}

/// A call of `deposit_to_vault` or `withdraw_from_vault` on a vault, seen from the vault:
/// the amount, and whether everything but the vault's amount lets the call through.
pub enum VaultCall {
    Deposit { amount: u64, authorized: bool },
    Withdrawal { amount: u64, authorized: bool },
}

/// How an order on the exchange is placed.
#[derive(Clone, Copy, Debug, PartialEq, Eq, Structural)]
pub enum ZoOrderType {
    Limit,
    ImmediateOrCancel,
    PostOnly,
    ReduceOnlyIoc,
    ReduceOnlyLimit,
    FillOrKill,
}

} // verus!
