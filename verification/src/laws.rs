//! What holds of the instructions taken together.
use vstd::prelude::*;

use crate::accounts::{
    CreateVault, DepositToVault, PlaceZoPerpOrder, WithdrawFromVault, ZoDeposit, ZoWithdrawal,
};
use crate::instructions::{signer_seed, signer_seeds, vault_signer};
use crate::pubkey::{parsed_pubkey, program_address_search, zo_dex_pid_bytes, Pubkey};
use crate::cpi::{CpiContext, Transfer};
use crate::vault::{Vault, VaultCall, VaultError, ZO_DEVNET_USDC_MINT};

verus! {

/// The vault after `calls`, in order, each going through or refused.
pub open spec fn settle(vault: Vault, calls: Seq<VaultCall>) -> Vault
    decreases calls.len(),
{
    if calls.len() == 0 {
        vault
    } else {
        settle(vault.after_call(calls[0]), calls.drop_first())
    }
}

/// Tokens deposited less tokens withdrawn by the calls among `calls` that go through.
pub open spec fn accepted_flow(vault: Vault, calls: Seq<VaultCall>) -> int
    decreases calls.len(),
{
    if calls.len() == 0 {
        0
    } else {
        vault.flow_of(calls[0]) + accepted_flow(vault.after_call(calls[0]), calls.drop_first())
    }
}

/// A deposit followed by a withdrawal of the same amount leaves the vault as it was.
pub proof fn lemma_deposit_then_withdrawal_restores(vault: Vault, amount: u64)
    requires
        vault.vault_amount + amount <= u64::MAX,
    ensures
        vault.after_deposit(amount).after_withdrawal(amount) == vault,
{
}

/// A withdrawal followed by a deposit of the same amount leaves the vault as it was.
pub proof fn lemma_withdrawal_then_deposit_restores(vault: Vault, amount: u64)
    requires
        amount <= vault.vault_amount,
    ensures
        vault.after_withdrawal(amount).after_deposit(amount) == vault,
{
}

/// Deposits and withdrawals change the amount the vault holds and nothing else: the
/// depositor, both token accounts and the signer stay.
pub proof fn lemma_movements_keep_accounts(vault: Vault, amount: u64)
    ensures
        vault.after_deposit(amount) == (Vault { vault_amount: vault.after_deposit(amount).vault_amount, ..vault }),
        vault.after_withdrawal(amount) == (Vault { vault_amount: vault.after_withdrawal(amount).vault_amount, ..vault }),
{
}

/// Over any run of deposits and withdrawals, some going through and some refused, the
/// vault ends up holding what it held at the start plus what the accepted deposits
/// brought in less what the accepted withdrawals took out, and it records the same
/// depositor, token accounts and signer.
pub proof fn lemma_settle_balances(vault: Vault, calls: Seq<VaultCall>)
    ensures
        settle(vault, calls).vault_amount == vault.vault_amount + accepted_flow(vault, calls),
        settle(vault, calls) == (Vault { vault_amount: settle(vault, calls).vault_amount, ..vault }),
    decreases calls.len(),
{
    if calls.len() > 0 {
        lemma_settle_balances(vault.after_call(calls[0]), calls.drop_first());
    }
}

/// A vault that `create_vault` set up holds, after any run of deposits and withdrawals,
/// exactly what the accepted deposits brought in less what the accepted withdrawals took
/// out, which is never below zero; its depositor, token accounts and signer stay as
/// `create_vault` recorded them.
pub proof fn lemma_new_vault_balances<A>(setup: CreateVault<A>, pda_account: Pubkey, calls: Seq<VaultCall>)
    ensures
        settle(setup.new_vault_data(pda_account), calls).vault_amount
            == accepted_flow(setup.new_vault_data(pda_account), calls),
        accepted_flow(setup.new_vault_data(pda_account), calls) >= 0,
        settle(setup.new_vault_data(pda_account), calls).depositor == setup.depositor.key,
        settle(setup.new_vault_data(pda_account), calls).depositor_token_account == setup.depositor_token_acct.key,
        settle(setup.new_vault_data(pda_account), calls).vault_token_account == setup.vault_token_acct.key,
        settle(setup.new_vault_data(pda_account), calls).pda_account == pda_account,
{
    lemma_settle_balances(setup.new_vault_data(pda_account), calls);
}

/// For a deposit and a withdrawal on one vault whose accounts both pass their checks,
/// the withdrawal's transfer runs the opposite way to the deposit's: it takes from the
/// token account (the same address) that the deposit pays into, and pays into the one
/// the deposit takes from.
pub proof fn lemma_withdrawal_reverses_deposit<A: Clone>(
    deposit: DepositToVault<A>,
    withdrawal: WithdrawFromVault<A>,
    amount: u64,
    deposit_cpi: CpiContext<A, Transfer<A>>,
    withdrawal_cpi: CpiContext<A, Transfer<A>>,
)
    requires
        deposit.vault.data.depositor_token_account == withdrawal.vault.data.depositor_token_account,
        deposit.vault.data.vault_token_account == withdrawal.vault.data.vault_token_account,
        deposit.constraints_hold(),
        withdrawal.constraints_hold(amount),
        deposit.transfer_call(deposit_cpi),
        withdrawal.transfer_call(withdrawal_cpi),
    ensures
        withdrawal.vault_token_acct.key == deposit.vault_token_acct.key,
        withdrawal.depositor_token_acct.key == deposit.depositor_token_acct.key,
        cloned(withdrawal.vault_token_acct.info, withdrawal_cpi.accounts.from),
        cloned(deposit.vault_token_acct.info, deposit_cpi.accounts.to),
        cloned(withdrawal.depositor_token_acct.info, withdrawal_cpi.accounts.to),
        cloned(deposit.depositor_token_acct.info, deposit_cpi.accounts.from),
{
}

/// A vault that `create_vault` set up holds nothing, and takes deposits exactly from
/// and into the two token accounts it was set up with.
pub proof fn lemma_new_vault_takes_deposits_from_its_accounts<A>(setup: CreateVault<A>, pda_account: Pubkey, deposit: DepositToVault<A>)
    requires
        deposit.vault.data == setup.new_vault_data(pda_account),
    ensures
        deposit.vault.data.vault_amount == 0,
        deposit.constraints_hold() <==> (deposit.depositor_token_acct.key == setup.depositor_token_acct.key
            && deposit.vault_token_acct.key == setup.vault_token_acct.key),
{
}

/// A withdrawal goes through only to the vault's own depositor token account, from its
/// own vault token account, and for no more than the vault holds.
pub proof fn lemma_withdrawal_needs_funds_and_own_accounts<A>(withdrawal: WithdrawFromVault<A>, amount: u64)
    ensures
        withdrawal.constraints_hold(amount) ==> {
            &&& amount <= withdrawal.vault.data.vault_amount
            &&& withdrawal.depositor_token_acct.key == withdrawal.vault.data.depositor_token_account
            &&& withdrawal.vault_token_acct.key == withdrawal.vault.data.vault_token_account
        },
{
}

/// The address that `create_vault` records as the vault's signer is the one that the
/// calls signed for the vault sign as: with bump `bump`, the search over the signing
/// seeds without their bump finds that address and that bump.
pub proof fn lemma_recorded_signer_signs<A>(setup: CreateVault<A>, program_id: Pubkey, pda_account: Pubkey, bump: u8)
    requires
        vault_signer(program_id) == Some((pda_account@, bump)),
    ensures
        signer_seeds(bump) == seq![signer_seed(), seq![bump]],
        program_address_search(signer_seeds(bump).take(1), program_id@)
            == Some((setup.new_vault_data(pda_account).pda_account@, signer_seeds(bump)[1][0])),
{
    assert(signer_seeds(bump).take(1) =~= seq![signer_seed()]);
}

/// A deposit's accounts pass their checks exactly when its two token accounts are the
/// ones the vault records, whatever the vault holds.
pub proof fn lemma_deposit_checks_only_token_accounts<A>(deposit: DepositToVault<A>)
    ensures
        deposit.constraints_hold() <==> (deposit.vault.data.depositor_token_account == deposit.depositor_token_acct.key
            && deposit.vault.data.vault_token_account == deposit.vault_token_acct.key),
{
}

/// A withdrawal's accounts pass their checks exactly when the vault holds at least the
/// amount and its two token accounts are the ones the vault records.
pub proof fn lemma_withdrawal_checks<A>(withdrawal: WithdrawFromVault<A>, amount: u64)
    ensures
        withdrawal.constraints_hold(amount) <==> (amount <= withdrawal.vault.data.vault_amount
            && withdrawal.vault.data.depositor_token_account == withdrawal.depositor_token_acct.key
            && withdrawal.vault.data.vault_token_account == withdrawal.vault_token_acct.key),
{
}

/// Moving tokens into or out of the exchange needs only that the token account belongs
/// to the authority: its mint, and every other account, play no part in the check.
pub proof fn lemma_exchange_transfers_check_only_owner<A>(deposit: ZoDeposit<A>, withdrawal: ZoWithdrawal<A>)
    ensures
        deposit.constraints_hold() <==> deposit.token_account.data.owner == deposit.authority.key,
        withdrawal.constraints_hold() <==> withdrawal.token_account.data.owner == withdrawal.authority.key,
{
}

/// An order goes to the exchange exactly when the dex program is the exchange's dex.
pub proof fn lemma_orders_need_the_exchange_dex<A>(order: PlaceZoPerpOrder<A>)
    ensures
        order.constraints_hold() <==> order.dex_program.key@ == zo_dex_pid_bytes(),
{
}

/// A vault is set up only at the address its seeds (the depositor, then `vault`) derive,
/// and only over two token accounts that both hold the devnet USDC mint; a vault at its
/// address over a token account of any other mint is refused with `ConstraintRaw`.
pub proof fn lemma_vault_setup_needs_usdc_accounts<A>(setup: CreateVault<A>, program_id: Pubkey)
    ensures
        setup.constraint_outcome(program_id) is Ok ==> (program_address_search(seq![setup.depositor.key@, seq![118u8, 97, 117, 108, 116]], program_id@) is Some
            && program_address_search(seq![setup.depositor.key@, seq![118u8, 97, 117, 108, 116]], program_id@).unwrap().0 == setup.vault.key@
            && parsed_pubkey(ZO_DEVNET_USDC_MINT@) == Some(setup.vault_token_acct.data.mint@)
            && parsed_pubkey(ZO_DEVNET_USDC_MINT@) == Some(setup.depositor_token_acct.data.mint@)),
        (program_address_search(seq![setup.depositor.key@, seq![118u8, 97, 117, 108, 116]], program_id@) is Some
            && program_address_search(seq![setup.depositor.key@, seq![118u8, 97, 117, 108, 116]], program_id@).unwrap().0 == setup.vault.key@
            && parsed_pubkey(ZO_DEVNET_USDC_MINT@) is Some
            && (setup.vault_token_acct.data.mint@ != parsed_pubkey(ZO_DEVNET_USDC_MINT@).unwrap()
                || setup.depositor_token_acct.data.mint@ != parsed_pubkey(ZO_DEVNET_USDC_MINT@).unwrap()))
            ==> setup.constraint_outcome(program_id) == Err::<(), VaultError>(VaultError::ConstraintRaw),
{
    assert(setup.vault_seeds() == seq![setup.depositor.key@, seq![118u8, 97, 117, 108, 116]]);
}

} // verus!
