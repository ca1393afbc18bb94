//! The program's instructions. Each checks its accounts, settles what the vault
//! records, and hands back the call into another program that it makes; the caller
//! makes that call, and keeps the vault's new state only where the call succeeds.
use vstd::prelude::*;

use crate::accounts::{
    CancelAllZoPerpOrders, CancelZoPerpOrder, CreateVault, CreateZoMargin, CreateZoPerpOpenOrders,
    DepositToVault, PlaceZoPerpOrder, WithdrawFromVault, ZoDeposit, ZoWithdrawal,
};
use crate::cpi::{
    CancelAllPerpOrders, CancelPerpOrder, CancelPerpOrderArgs, CpiContext, CreateMargin,
    CreatePerpOpenOrders, Deposit, DepositArgs, Invocation, PlacePerpOrder, PlacePerpOrderArgs,
    Transfer, Withdraw, WithdrawArgs,
};
use crate::pubkey::{
    lemma_bytes_deep_view, parsed_pubkey, program_address_search, try_find_program_address, zo_dex_pid_bytes,
    Pubkey,
};
use crate::vault::{Vault, VaultCall, VaultError, ZoOrderType, ZO_DEVNET_USDC_MINT};

verus! {

/// An instruction's accounts, with the address of the program that runs it.
pub struct Context<T> {
    pub program_id: Pubkey,
    pub accounts: T,
}

/// The seed, `msvault`, of the program-derived address that signs for the vault.
pub open spec fn signer_seed() -> Seq<u8> {
    seq![109u8, 115, 118, 97, 117, 108, 116]
}

/// The address that signs for the vaults of `program_id`, with its bump seed, as the
/// search over the seed `msvault` finds them.
pub open spec fn vault_signer(program_id: Pubkey) -> Option<(Seq<u8>, u8)> {
    program_address_search(seq![signer_seed()], program_id@)
}

/// The seeds with which the vault signer signs: `msvault`, then the bump.
pub open spec fn signer_seeds(bump: u8) -> Seq<Seq<u8>> {
    seq![signer_seed(), seq![bump]]
}

fn signer_seed_bytes() -> (seed: Vec<u8>)
    ensures
        seed@ == signer_seed(),
{
    let mut seed: Vec<u8> = Vec::new();
    seed.push(109u8);
    seed.push(115u8);
    seed.push(118u8);
    seed.push(97u8);
    seed.push(117u8);
    seed.push(108u8);
    seed.push(116u8);
    proof {
        assert(seed@ =~= signer_seed());
    }
    seed
}

/// Finds the vault signer of `program_id`.
fn find_vault_signer(program_id: &Pubkey) -> (found: Option<(Pubkey, u8)>)
    ensures
        match vault_signer(*program_id) {
            Some((address, bump)) => found matches Some((key, b)) && key@ == address && b == bump,
            None => found is None,
        },
{
    let mut seeds: Vec<Vec<u8>> = Vec::new();
    seeds.push(signer_seed_bytes());
    proof {
        lemma_bytes_deep_view(seeds@[0]);
        assert(seeds.deep_view() =~= seq![signer_seed()]);
    }
    try_find_program_address(&seeds, program_id)
}

/// The seeds with which the vault signer signs, as the call into another program takes them.
fn signer_seeds_with(bump: u8) -> (seeds: Vec<Vec<u8>>)
    ensures
        seeds.deep_view() == signer_seeds(bump),
{
    let mut bump_seed: Vec<u8> = Vec::new();
    bump_seed.push(bump);
    let mut seeds: Vec<Vec<u8>> = Vec::new();
    seeds.push(signer_seed_bytes());
    seeds.push(bump_seed);
    proof {
        lemma_bytes_deep_view(seeds@[0]);
        lemma_bytes_deep_view(seeds@[1]);
        assert(seeds@[1]@ =~= seq![bump]);
        assert(seeds.deep_view() =~= signer_seeds(bump));
    }
    seeds
}

/// The signed call of the vault signer of `program_id`, or `NoViableBump` where the
/// search finds no signer.
fn signed_by_vault_signer<A, T>(program_id: &Pubkey, cpi: CpiContext<A, T>) -> (signed: Result<CpiContext<A, T>, VaultError>)
    ensures
        match vault_signer(*program_id) {
            Some((_, bump)) => signed matches Ok(c) && c.program == cpi.program
                && c.accounts == cpi.accounts && c.signer_seeds.deep_view() == signer_seeds(bump),
            None => signed matches Err(e) && e == VaultError::NoViableBump,
        },
{
    match find_vault_signer(program_id) {
        None => Err(VaultError::NoViableBump),
        Some((_, bump)) => Ok(cpi.with_signer(signer_seeds_with(bump))),
    }
}

/// Opens a margin account on the exchange for the vault signer: the call to the
/// exchange's `create_margin`, signed by the vault signer.
pub fn create_zo_margin<A: Clone>(ctx: &Context<CreateZoMargin<A>>, zo_margin_nonce: u8) -> (call: Result<Invocation<A, CreateMargin<A>, u8>, VaultError>)
    ensures
        match vault_signer(ctx.program_id) {
            Some((_, bump)) => call matches Ok(c) && ctx.accounts.create_margin_call(c.cpi)
                && c.cpi.signer_seeds.deep_view() == signer_seeds(bump) && c.args == zo_margin_nonce,
            None => call matches Err(e) && e == VaultError::NoViableBump,
        },
{
    let cpi = ctx.accounts.into_create_zo_margin_context();
    match signed_by_vault_signer(&ctx.program_id, cpi) {
        Err(e) => Err(e),
        Ok(cpi) => Ok(Invocation { cpi, args: zo_margin_nonce }),
    }
}

/// Moves tokens into the vault signer's margin account: the call to the exchange's
/// `deposit`, signed by the vault signer.
pub fn zo_deposit<A: Clone>(ctx: &Context<ZoDeposit<A>>, repay_only: bool, amount: u64) -> (call: Result<Invocation<A, Deposit<A>, DepositArgs>, VaultError>)
    ensures
        (ctx.accounts.token_account.data.owner == ctx.accounts.authority.key
            && vault_signer(ctx.program_id) is Some) ==> call is Ok,
        ctx.accounts.token_account.data.owner != ctx.accounts.authority.key
            ==> (call matches Err(e) && e == VaultError::ConstraintRaw),
        !ctx.accounts.constraints_hold() ==> (call matches Err(e) && e == VaultError::ConstraintRaw),
        ctx.accounts.constraints_hold() ==> match vault_signer(ctx.program_id) {
            Some((_, bump)) => call matches Ok(c) && ctx.accounts.deposit_call(c.cpi)
                && c.cpi.signer_seeds.deep_view() == signer_seeds(bump)
                && c.args.repay_only == repay_only && c.args.amount == amount,
            None => call matches Err(e) && e == VaultError::NoViableBump,
        },
{
    match ctx.accounts.check_constraints() {
        Err(e) => Err(e),
        Ok(()) => {
            let cpi = ctx.accounts.into_zo_deposit_context();
            match signed_by_vault_signer(&ctx.program_id, cpi) {
                Err(e) => Err(e),
                Ok(cpi) => Ok(Invocation { cpi, args: DepositArgs { repay_only, amount } }),
            }
        },
    }
}

/// Moves tokens out of the vault signer's margin account: the call to the exchange's
/// `withdraw`, signed by the vault signer.
pub fn zo_withdrawal<A: Clone>(ctx: &Context<ZoWithdrawal<A>>, allow_borrow: bool, amount: u64) -> (call: Result<Invocation<A, Withdraw<A>, WithdrawArgs>, VaultError>)
    ensures
        (ctx.accounts.token_account.data.owner == ctx.accounts.authority.key
            && vault_signer(ctx.program_id) is Some) ==> call is Ok,
        ctx.accounts.token_account.data.owner != ctx.accounts.authority.key
            ==> (call matches Err(e) && e == VaultError::ConstraintRaw),
        !ctx.accounts.constraints_hold() ==> (call matches Err(e) && e == VaultError::ConstraintRaw),
        ctx.accounts.constraints_hold() ==> match vault_signer(ctx.program_id) {
            Some((_, bump)) => call matches Ok(c) && ctx.accounts.withdraw_call(c.cpi)
                && c.cpi.signer_seeds.deep_view() == signer_seeds(bump)
                && c.args.allow_borrow == allow_borrow && c.args.amount == amount,
            None => call matches Err(e) && e == VaultError::NoViableBump,
        },
{
    match ctx.accounts.check_constraints() {
        Err(e) => Err(e),
        Ok(()) => {
            let cpi = ctx.accounts.into_zo_withdrawal_context();
            match signed_by_vault_signer(&ctx.program_id, cpi) {
                Err(e) => Err(e),
                Ok(cpi) => Ok(Invocation { cpi, args: WithdrawArgs { allow_borrow, amount } }),
            }
        },
    }
}

/// Opens the orders account of a market: the call to the exchange's
/// `create_perp_open_orders`, which the authority signs itself.
pub fn create_zo_perp_order<A: Clone>(ctx: &Context<CreateZoPerpOpenOrders<A>>) -> (call: Invocation<A, CreatePerpOpenOrders<A>, ()>)
    ensures
        ctx.accounts.create_perp_open_orders_call(call.cpi),
        call.cpi.signer_seeds@.len() == 0,
{
    Invocation { cpi: ctx.accounts.into_create_zo_perp_order_context(), args: () }
}

/// Places an order: the call to the exchange's `place_perp_order`, which the authority
/// signs itself.
pub fn place_zo_perp_order<A: Clone>(
    ctx: &Context<PlaceZoPerpOrder<A>>,
    is_long: bool,
    limit_price: u64,
    max_base_quantity: u64,
    max_quote_quantity: u64,
    order_type: ZoOrderType,
    limit: u16,
    client_id: u64,
) -> (call: Result<Invocation<A, PlacePerpOrder<A>, PlacePerpOrderArgs>, VaultError>)
    ensures
        call is Ok <==> ctx.accounts.dex_program.key@ == zo_dex_pid_bytes(),
        !ctx.accounts.constraints_hold() ==> (call matches Err(e) && e == VaultError::ConstraintAddress),
        ctx.accounts.constraints_hold() ==> (call matches Ok(c)
            && ctx.accounts.place_perp_order_call(c.cpi)
            && c.cpi.signer_seeds@.len() == 0
            && c.args == (PlacePerpOrderArgs {
                is_long,
                limit_price,
                max_base_quantity,
                max_quote_quantity,
                order_type,
                limit,
                client_id,
            })),
{
    match ctx.accounts.check_constraints() {
        Err(e) => Err(e),
        Ok(()) => {
            let args = PlacePerpOrderArgs {
                is_long,
                limit_price,
                max_base_quantity,
                max_quote_quantity,
                order_type,
                limit,
                client_id,
            };
            Ok(Invocation { cpi: ctx.accounts.into_place_zo_perp_order_context(), args })
        },
    }
}

/// Cancels an order, named by `order_id` and `is_long` or by `client_id`: the call to
/// the exchange's `cancel_perp_order`, which the authority signs itself.
pub fn cancel_zo_perp_order<A: Clone>(
    ctx: &Context<CancelZoPerpOrder<A>>,
    order_id: Option<u128>,
    is_long: Option<bool>,
    client_id: Option<u64>,
) -> (call: Invocation<A, CancelPerpOrder<A>, CancelPerpOrderArgs>)
    ensures
        ctx.accounts.cancel_perp_order_call(call.cpi),
        call.cpi.signer_seeds@.len() == 0,
        call.args == (CancelPerpOrderArgs { order_id, is_long, client_id }),
{
    Invocation {
        cpi: ctx.accounts.into_cancel_zo_perp_order_context(),
        args: CancelPerpOrderArgs { order_id, is_long, client_id },
    }
}

/// Cancels up to `limit` orders: the call to the exchange's `cancel_all_perp_orders`,
/// which the authority signs itself.
pub fn cancel_all_zo_perp_order<A: Clone>(ctx: &Context<CancelAllZoPerpOrders<A>>, limit: u16) -> (call: Invocation<A, CancelAllPerpOrders<A>, u16>)
    ensures
        ctx.accounts.cancel_all_perp_orders_call(call.cpi),
        call.cpi.signer_seeds@.len() == 0,
        call.args == limit,
{
    Invocation { cpi: ctx.accounts.into_cancel_all_zo_perp_orders_context(), args: limit }
}

/// Sets up a new vault: it records the depositor, both token accounts and the vault
/// signer, and holds nothing yet.
pub fn create_vault<A>(ctx: &mut Context<CreateVault<A>>) -> (created: Result<(), VaultError>)
    ensures
        created is Ok ==> parsed_pubkey(ZO_DEVNET_USDC_MINT@) == Some(old(ctx).accounts.vault_token_acct.data.mint@),
        created is Ok ==> parsed_pubkey(ZO_DEVNET_USDC_MINT@) == Some(old(ctx).accounts.depositor_token_acct.data.mint@),
        created is Ok ==> (program_address_search(seq![old(ctx).accounts.depositor.key@, seq![118u8, 97, 117, 108, 116]], old(ctx).program_id@) is Some
            && program_address_search(seq![old(ctx).accounts.depositor.key@, seq![118u8, 97, 117, 108, 116]], old(ctx).program_id@).unwrap().0 == old(ctx).accounts.vault.key@),
        (program_address_search(seq![old(ctx).accounts.depositor.key@, seq![118u8, 97, 117, 108, 116]], old(ctx).program_id@) is Some
            && program_address_search(seq![old(ctx).accounts.depositor.key@, seq![118u8, 97, 117, 108, 116]], old(ctx).program_id@).unwrap().0 == old(ctx).accounts.vault.key@
            && parsed_pubkey(ZO_DEVNET_USDC_MINT@) is Some
            && (old(ctx).accounts.vault_token_acct.data.mint@ != parsed_pubkey(ZO_DEVNET_USDC_MINT@).unwrap()
                || old(ctx).accounts.depositor_token_acct.data.mint@ != parsed_pubkey(ZO_DEVNET_USDC_MINT@).unwrap()))
            ==> (created == Err::<(), VaultError>(VaultError::ConstraintRaw)
                && final(ctx).accounts.vault.data == old(ctx).accounts.vault.data),
        created is Ok ==> (final(ctx).accounts.vault.data.vault_amount == 0
            && final(ctx).accounts.vault.data.depositor == old(ctx).accounts.depositor.key
            && final(ctx).accounts.vault.data.depositor_token_account == old(ctx).accounts.depositor_token_acct.key
            && final(ctx).accounts.vault.data.vault_token_account == old(ctx).accounts.vault_token_acct.key),
        created is Err ==> final(ctx).accounts.vault.data == old(ctx).accounts.vault.data,
        final(ctx).program_id == old(ctx).program_id,
        match old(ctx).accounts.constraint_outcome(old(ctx).program_id) {
            Err(e) => created == Err::<(), VaultError>(e) && final(ctx).accounts == old(ctx).accounts,
            Ok(()) => match vault_signer(old(ctx).program_id) {
                None => created == Err::<(), VaultError>(VaultError::NoViableBump)
                    && final(ctx).accounts == old(ctx).accounts,
                Some((pda, _)) => created is Ok
                    && final(ctx).accounts.vault.data.pda_account@ == pda
                    && final(ctx).accounts == old(ctx).accounts.with_vault_data(
                        old(ctx).accounts.new_vault_data(final(ctx).accounts.vault.data.pda_account)),
            },
        },
{
    match ctx.accounts.check_constraints(&ctx.program_id) {
        Err(e) => Err(e),
        Ok(()) => match find_vault_signer(&ctx.program_id) {
            None => Err(VaultError::NoViableBump),
            Some((pda_account, _)) => {
                ctx.accounts.vault.data = Vault {
                    depositor: ctx.accounts.depositor.key,
                    depositor_token_account: ctx.accounts.depositor_token_acct.key,
                    vault_token_account: ctx.accounts.vault_token_acct.key,
                    pda_account,
                    vault_amount: 0,
                };
                Ok(())
            },
        },
    }
}

/// Pays `transfer_amount` tokens from the depositor into the vault: the transfer to make,
/// which the depositor signs, and the vault's amount raised by as much.
pub fn deposit_to_vault<A: Clone>(ctx: &mut Context<DepositToVault<A>>, transfer_amount: u64) -> (transfer: Result<Invocation<A, Transfer<A>, u64>, VaultError>)
    requires
        old(ctx).accounts.constraints_hold() ==> old(ctx).accounts.vault.data.vault_amount + transfer_amount <= u64::MAX,
    ensures
        transfer is Ok <==> (old(ctx).accounts.vault.data.depositor_token_account == old(ctx).accounts.depositor_token_acct.key
            && old(ctx).accounts.vault.data.vault_token_account == old(ctx).accounts.vault_token_acct.key),
        transfer is Ok ==> final(ctx).accounts.vault.data.vault_amount
            == old(ctx).accounts.vault.data.vault_amount + transfer_amount,
        transfer is Err ==> final(ctx).accounts.vault.data == old(ctx).accounts.vault.data,
        final(ctx).program_id == old(ctx).program_id,
        !old(ctx).accounts.constraints_hold() ==> (transfer matches Err(e) && e == VaultError::ConstraintRaw
            && final(ctx).accounts == old(ctx).accounts),
        old(ctx).accounts.constraints_hold() ==> (transfer matches Ok(t)
            && old(ctx).accounts.transfer_call(t.cpi)
            && t.cpi.signer_seeds@.len() == 0
            && t.args == transfer_amount
            && final(ctx).accounts == old(ctx).accounts.with_vault_data(
                old(ctx).accounts.vault.data.after_deposit(transfer_amount))),
        final(ctx).accounts.vault.data == old(ctx).accounts.vault.data.after_call(VaultCall::Deposit {
            amount: transfer_amount,
            authorized: old(ctx).accounts.constraints_hold(),
        }),
{
    match ctx.accounts.check_constraints() {
        Err(e) => Err(e),
        Ok(()) => {
            let cpi = ctx.accounts.into_deposit_to_vault_context();
            let total = ctx.accounts.vault.data.add_to_vault(transfer_amount);
            ctx.accounts.vault.data.vault_amount = total;
            Ok(Invocation { cpi, args: transfer_amount })
        },
    }
}

/// Pays `transfer_amount` tokens from the vault back to the depositor: the transfer to
/// make, which the vault signer signs, and the vault's amount lowered by as much.
pub fn withdraw_from_vault<A: Clone>(ctx: &mut Context<WithdrawFromVault<A>>, transfer_amount: u64) -> (transfer: Result<Invocation<A, Transfer<A>, u64>, VaultError>)
    ensures
        (transfer_amount <= old(ctx).accounts.vault.data.vault_amount
            && old(ctx).accounts.vault.data.depositor_token_account == old(ctx).accounts.depositor_token_acct.key
            && old(ctx).accounts.vault.data.vault_token_account == old(ctx).accounts.vault_token_acct.key
            && vault_signer(old(ctx).program_id) is Some) <==> transfer is Ok,
        !(transfer_amount <= old(ctx).accounts.vault.data.vault_amount
            && old(ctx).accounts.vault.data.depositor_token_account == old(ctx).accounts.depositor_token_acct.key
            && old(ctx).accounts.vault.data.vault_token_account == old(ctx).accounts.vault_token_acct.key)
            ==> (transfer matches Err(e) && e == VaultError::ConstraintRaw),
        transfer is Ok ==> final(ctx).accounts.vault.data.vault_amount
            == old(ctx).accounts.vault.data.vault_amount - transfer_amount,
        transfer is Err ==> final(ctx).accounts.vault.data == old(ctx).accounts.vault.data,
        final(ctx).program_id == old(ctx).program_id,
        !old(ctx).accounts.constraints_hold(transfer_amount) ==> (transfer matches Err(e)
            && e == VaultError::ConstraintRaw && final(ctx).accounts == old(ctx).accounts),
        old(ctx).accounts.constraints_hold(transfer_amount) ==> match vault_signer(old(ctx).program_id) {
            None => transfer matches Err(e) && e == VaultError::NoViableBump
                && final(ctx).accounts == old(ctx).accounts,
            Some((_, bump)) => transfer matches Ok(t)
                && old(ctx).accounts.transfer_call(t.cpi)
                && t.cpi.signer_seeds.deep_view() == signer_seeds(bump)
                && t.args == transfer_amount
                && final(ctx).accounts == old(ctx).accounts.with_vault_data(
                    old(ctx).accounts.vault.data.after_withdrawal(transfer_amount)),
        },
        final(ctx).accounts.vault.data == old(ctx).accounts.vault.data.after_call(VaultCall::Withdrawal {
            amount: transfer_amount,
            authorized: old(ctx).accounts.vault.data.depositor_token_account == old(ctx).accounts.depositor_token_acct.key
                && old(ctx).accounts.vault.data.vault_token_account == old(ctx).accounts.vault_token_acct.key
                && vault_signer(old(ctx).program_id) is Some,
        }),
{
    match ctx.accounts.check_constraints(transfer_amount) {
        Err(e) => Err(e),
        Ok(()) => {
            let cpi = ctx.accounts.into_withdraw_from_vault_context();
            match signed_by_vault_signer(&ctx.program_id, cpi) {
                Err(e) => Err(e),
                Ok(cpi) => {
                    let total = ctx.accounts.vault.data.sub_from_vault(transfer_amount);
                    ctx.accounts.vault.data.vault_amount = total;
                    Ok(Invocation { cpi, args: transfer_amount })
                },
            }
        },
    }
}

} // verus!
