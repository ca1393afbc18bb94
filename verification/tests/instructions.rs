use sol_vault_transfer::accounts::{
    CreateVault, DepositToVault, PlaceZoPerpOrder, WithdrawFromVault, ZoDeposit, ZoWithdrawal,
};
use sol_vault_transfer::cpi::{Account, AccountRef, TokenAccount};
use sol_vault_transfer::instructions::{
    create_vault, deposit_to_vault, place_zo_perp_order, withdraw_from_vault, zo_deposit,
    zo_withdrawal, Context,
};
use sol_vault_transfer::{Pubkey, Vault, VaultError, ZoOrderType};

type Label = &'static str;

const ZO_DEX_PID_BYTES: [u8; 32] = [
    8, 65, 60, 97, 172, 250, 65, 163, 74, 139, 122, 122, 2, 122, 105, 49, 168, 90, 52, 248, 89,
    160, 68, 195, 143, 61, 244, 19, 172, 208, 254, 175,
];

fn key(byte: u8) -> Pubkey {
    Pubkey::new_from_array([byte; 32])
}

fn program_id() -> Pubkey {
    key(200)
}

fn outside(k: &Pubkey) -> anchor_lang::prelude::Pubkey {
    anchor_lang::prelude::Pubkey::new_from_array(k.to_bytes())
}

fn signer_of(pid: &Pubkey) -> (Pubkey, u8) {
    let (address, bump) =
        anchor_lang::prelude::Pubkey::find_program_address(&[b"msvault"], &outside(pid));
    (Pubkey::new_from_array(address.to_bytes()), bump)
}

fn vault_address_of(depositor: &Pubkey, pid: &Pubkey) -> Pubkey {
    let (address, _) = anchor_lang::prelude::Pubkey::find_program_address(
        &[&depositor.to_bytes(), b"vault"],
        &outside(pid),
    );
    Pubkey::new_from_array(address.to_bytes())
}

fn usdc() -> Pubkey {
    Vault::zo_devnet_usdc_mint().unwrap()
}

fn plain(k: u8, label: Label) -> AccountRef<Label> {
    AccountRef { key: key(k), info: label }
}

fn token(k: u8, mint: Pubkey, owner: Pubkey, label: Label) -> Account<Label, TokenAccount> {
    Account { key: key(k), data: TokenAccount { mint, owner }, info: label }
}

fn vault_data(amount: u64) -> Vault {
    Vault {
        depositor: key(1),
        depositor_token_account: key(2),
        vault_token_account: key(3),
        pda_account: signer_of(&program_id()).0,
        vault_amount: amount,
    }
}

fn deposit_accounts(amount: u64) -> DepositToVault<Label> {
    DepositToVault {
        depositor: plain(1, "depositor"),
        depositor_token_acct: token(2, usdc(), key(1), "depositor_token_acct"),
        vault_token_acct: token(3, usdc(), key(4), "vault_token_acct"),
        vault: Account { key: key(5), data: vault_data(amount), info: "vault" },
        token_program: plain(6, "token_program"),
    }
}

fn withdraw_accounts(amount: u64) -> WithdrawFromVault<Label> {
    WithdrawFromVault {
        depositor: plain(1, "depositor"),
        depositor_token_acct: token(2, usdc(), key(1), "depositor_token_acct"),
        vault_token_acct: token(3, usdc(), key(4), "vault_token_acct"),
        pda_account: plain(4, "pda_account"),
        vault: Account { key: key(5), data: vault_data(amount), info: "vault" },
        token_program: plain(6, "token_program"),
    }
}

fn create_accounts() -> CreateVault<Label> {
    let zero = Vault {
        depositor: key(0),
        depositor_token_account: key(0),
        vault_token_account: key(0),
        pda_account: key(0),
        vault_amount: 0,
    };
    CreateVault {
        depositor: plain(1, "depositor"),
        vault: Account {
            key: vault_address_of(&key(1), &program_id()),
            data: zero,
            info: "vault",
        },
        vault_token_acct: token(3, usdc(), key(4), "vault_token_acct"),
        depositor_token_acct: token(2, usdc(), key(1), "depositor_token_acct"),
        system_program: plain(7, "system_program"),
    }
}

fn msvault_seeds(bump: u8) -> Vec<Vec<u8>> {
    vec![b"msvault".to_vec(), vec![bump]]
}

#[test]
fn create_vault_records_accounts_and_signer() {
    let mut ctx = Context { program_id: program_id(), accounts: create_accounts() };
    assert_eq!(create_vault(&mut ctx), Ok(()));
    let v = ctx.accounts.vault.data;
    assert!(v.depositor == key(1));
    assert!(v.depositor_token_account == key(2));
    assert!(v.vault_token_account == key(3));
    assert!(v.pda_account == signer_of(&program_id()).0);
    assert_eq!(v.vault_amount, 0);
}

#[test]
fn create_vault_refuses_vault_off_its_seeds() {
    let mut accounts = create_accounts();
    accounts.vault.key = key(5);
    let mut ctx = Context { program_id: program_id(), accounts };
    assert_eq!(create_vault(&mut ctx), Err(VaultError::ConstraintSeeds));
    assert!(ctx.accounts.vault.data.depositor == key(0));
}

#[test]
fn create_vault_refuses_other_mint() {
    let mut accounts = create_accounts();
    accounts.depositor_token_acct.data.mint = key(9);
    let mut ctx = Context { program_id: program_id(), accounts };
    assert_eq!(create_vault(&mut ctx), Err(VaultError::ConstraintRaw));
    let mut accounts = create_accounts();
    accounts.vault_token_acct.data.mint = key(9);
    let mut ctx = Context { program_id: program_id(), accounts };
    assert_eq!(create_vault(&mut ctx), Err(VaultError::ConstraintRaw));
}

#[test]
fn create_vault_checks_seeds_before_mints() {
    let mut accounts = create_accounts();
    accounts.vault.key = key(5);
    accounts.vault_token_acct.data.mint = key(9);
    let mut ctx = Context { program_id: program_id(), accounts };
    assert_eq!(create_vault(&mut ctx), Err(VaultError::ConstraintSeeds));
}

#[test]
fn deposit_raises_amount_and_transfers_from_depositor() {
    let mut ctx = Context { program_id: program_id(), accounts: deposit_accounts(10) };
    let t = deposit_to_vault(&mut ctx, 25).unwrap();
    assert_eq!(ctx.accounts.vault.data.vault_amount, 35);
    assert_eq!(t.args, 25);
    assert_eq!(t.cpi.program, "token_program");
    assert_eq!(t.cpi.accounts.from, "depositor_token_acct");
    assert_eq!(t.cpi.accounts.to, "vault_token_acct");
    assert_eq!(t.cpi.accounts.authority, "depositor");
    assert!(t.cpi.signer_seeds.is_empty());
}

#[test]
fn deposit_refuses_foreign_token_account() {
    let mut accounts = deposit_accounts(10);
    accounts.depositor_token_acct.key = key(9);
    let mut ctx = Context { program_id: program_id(), accounts };
    assert!(matches!(deposit_to_vault(&mut ctx, 25), Err(VaultError::ConstraintRaw)));
    assert_eq!(ctx.accounts.vault.data.vault_amount, 10);
    let mut accounts = deposit_accounts(10);
    accounts.vault_token_acct.key = key(9);
    let mut ctx = Context { program_id: program_id(), accounts };
    assert!(matches!(deposit_to_vault(&mut ctx, 25), Err(VaultError::ConstraintRaw)));
}

#[test]
fn withdrawal_lowers_amount_and_is_signed_by_vault_signer() {
    let mut ctx = Context { program_id: program_id(), accounts: withdraw_accounts(30) };
    let t = withdraw_from_vault(&mut ctx, 30).unwrap();
    assert_eq!(ctx.accounts.vault.data.vault_amount, 0);
    assert_eq!(t.args, 30);
    assert_eq!(t.cpi.program, "token_program");
    assert_eq!(t.cpi.accounts.from, "vault_token_acct");
    assert_eq!(t.cpi.accounts.to, "depositor_token_acct");
    assert_eq!(t.cpi.accounts.authority, "pda_account");
    assert_eq!(t.cpi.signer_seeds, msvault_seeds(signer_of(&program_id()).1));
}

#[test]
fn withdrawal_refuses_more_than_vault_holds() {
    let mut ctx = Context { program_id: program_id(), accounts: withdraw_accounts(30) };
    assert!(matches!(withdraw_from_vault(&mut ctx, 31), Err(VaultError::ConstraintRaw)));
    assert_eq!(ctx.accounts.vault.data.vault_amount, 30);
}

#[test]
fn withdrawal_refuses_foreign_token_account() {
    let mut accounts = withdraw_accounts(30);
    accounts.vault_token_acct.key = key(9);
    let mut ctx = Context { program_id: program_id(), accounts };
    assert!(matches!(withdraw_from_vault(&mut ctx, 1), Err(VaultError::ConstraintRaw)));
}

#[test]
fn vault_from_create_takes_deposit_then_withdrawal_back_to_zero() {
    let pid = program_id();
    let mut ctx = Context { program_id: pid, accounts: create_accounts() };
    create_vault(&mut ctx).unwrap();
    let created = ctx.accounts.vault.data;
    let mut d = deposit_accounts(0);
    d.vault.data = created;
    let mut dctx = Context { program_id: pid, accounts: d };
    deposit_to_vault(&mut dctx, 500).unwrap();
    let mut w = withdraw_accounts(0);
    w.vault.data = dctx.accounts.vault.data;
    let mut wctx = Context { program_id: pid, accounts: w };
    withdraw_from_vault(&mut wctx, 500).unwrap();
    assert_eq!(wctx.accounts.vault.data.vault_amount, 0);
    assert!(wctx.accounts.vault.data.pda_account == created.pda_account);
}

fn zo_deposit_accounts(owner: Pubkey) -> ZoDeposit<Label> {
    ZoDeposit {
        authority: plain(4, "authority"),
        zo_program_state: plain(10, "zo_program_state"),
        zo_program_margin: plain(11, "zo_program_margin"),
        zo_program: plain(12, "zo_program"),
        state_signer: plain(13, "state_signer"),
        cache: plain(14, "cache"),
        token_account: token(3, usdc(), owner, "token_account"),
        zo_program_vault: token(15, usdc(), key(16), "zo_program_vault"),
        token_program: plain(6, "token_program"),
    }
}

#[test]
fn zo_deposit_is_signed_and_maps_accounts() {
    let ctx = Context { program_id: program_id(), accounts: zo_deposit_accounts(key(4)) };
    let call = zo_deposit(&ctx, true, 77).unwrap();
    assert!(call.args.repay_only);
    assert_eq!(call.args.amount, 77);
    assert_eq!(call.cpi.program, "zo_program");
    let a = &call.cpi.accounts;
    assert_eq!(
        [a.state, a.state_signer, a.cache, a.authority, a.margin, a.token_account, a.vault, a.token_program],
        [
            "zo_program_state",
            "state_signer",
            "cache",
            "authority",
            "zo_program_margin",
            "token_account",
            "zo_program_vault",
            "token_program"
        ]
    );
    assert_eq!(call.cpi.signer_seeds, msvault_seeds(signer_of(&program_id()).1));
}

#[test]
fn zo_deposit_refuses_token_account_of_another_owner() {
    let ctx = Context { program_id: program_id(), accounts: zo_deposit_accounts(key(9)) };
    assert!(matches!(zo_deposit(&ctx, false, 1), Err(VaultError::ConstraintRaw)));
}

#[test]
fn zo_withdrawal_is_signed_and_checks_owner() {
    let accounts = |owner: Pubkey| ZoWithdrawal {
        authority: plain(4, "authority"),
        zo_program_state: plain(10, "zo_program_state"),
        zo_program_margin: plain(11, "zo_program_margin"),
        zo_program: plain(12, "zo_program"),
        state_signer: plain(13, "state_signer"),
        cache: plain(14, "cache"),
        control: plain(17, "control"),
        token_account: token(3, usdc(), owner, "token_account"),
        zo_program_vault: token(15, usdc(), key(16), "zo_program_vault"),
        token_program: plain(6, "token_program"),
    };
    let ctx = Context { program_id: program_id(), accounts: accounts(key(4)) };
    let call = zo_withdrawal(&ctx, false, 12).unwrap();
    assert!(!call.args.allow_borrow);
    assert_eq!(call.args.amount, 12);
    let a = &call.cpi.accounts;
    assert_eq!(
        [a.state, a.state_signer, a.cache, a.control, a.authority, a.margin, a.token_account, a.vault, a.token_program],
        [
            "zo_program_state",
            "state_signer",
            "cache",
            "control",
            "authority",
            "zo_program_margin",
            "token_account",
            "zo_program_vault",
            "token_program"
        ]
    );
    assert_eq!(call.cpi.signer_seeds, msvault_seeds(signer_of(&program_id()).1));
    let ctx = Context { program_id: program_id(), accounts: accounts(key(9)) };
    assert!(matches!(zo_withdrawal(&ctx, true, 12), Err(VaultError::ConstraintRaw)));
}

fn place_accounts(dex: Pubkey) -> PlaceZoPerpOrder<Label> {
    PlaceZoPerpOrder {
        state: plain(10, "state"),
        state_signer: plain(13, "state_signer"),
        cache: plain(14, "cache"),
        authority: plain(4, "authority"),
        margin: plain(11, "margin"),
        control: plain(17, "control"),
        open_orders: plain(18, "open_orders"),
        dex_market: plain(19, "dex_market"),
        req_q: plain(20, "req_q"),
        event_q: plain(21, "event_q"),
        market_bids: plain(22, "market_bids"),
        market_asks: plain(23, "market_asks"),
        dex_program: AccountRef { key: dex, info: "dex_program" },
        zo_program: plain(12, "zo_program"),
        rent: plain(24, "rent"),
    }
}

#[test]
fn place_order_needs_the_exchange_dex() {
    let ctx = Context {
        program_id: program_id(),
        accounts: place_accounts(Pubkey::new_from_array(ZO_DEX_PID_BYTES)),
    };
    let call = place_zo_perp_order(&ctx, true, 100, 5, 500, ZoOrderType::PostOnly, 10, 42).unwrap();
    assert!(call.args.is_long);
    assert_eq!(call.args.limit_price, 100);
    assert_eq!(call.args.max_base_quantity, 5);
    assert_eq!(call.args.max_quote_quantity, 500);
    assert_eq!(call.args.order_type, ZoOrderType::PostOnly);
    assert_eq!(call.args.limit, 10);
    assert_eq!(call.args.client_id, 42);
    assert!(call.cpi.signer_seeds.is_empty());
    let a = &call.cpi.accounts;
    assert_eq!(
        [
            a.state, a.state_signer, a.cache, a.authority, a.margin, a.control, a.open_orders,
            a.dex_market, a.req_q, a.event_q, a.market_bids, a.market_asks, a.dex_program, a.rent
        ],
        [
            "state", "state_signer", "cache", "authority", "margin", "control", "open_orders",
            "dex_market", "req_q", "event_q", "market_bids", "market_asks", "dex_program", "rent"
        ]
    );
    let ctx = Context { program_id: program_id(), accounts: place_accounts(key(9)) };
    assert!(matches!(
        place_zo_perp_order(&ctx, false, 1, 1, 1, ZoOrderType::Limit, 1, 1),
        Err(VaultError::ConstraintAddress)
    ));
}

#[test]
fn refused_calls_leave_the_balance_to_the_accepted_ones() {
    let pid = program_id();
    let mut ctx = Context { program_id: pid, accounts: create_accounts() };
    create_vault(&mut ctx).unwrap();
    let mut vault = ctx.accounts.vault.data;
    // deposit 100 (accepted), deposit 50 from a foreign account (refused),
    // withdraw 300 (refused: too much), withdraw 40 (accepted), deposit 7 (accepted)
    let mut d = deposit_accounts(0);
    d.vault.data = vault;
    let mut dctx = Context { program_id: pid, accounts: d };
    assert!(deposit_to_vault(&mut dctx, 100).is_ok());
    vault = dctx.accounts.vault.data;
    let mut d = deposit_accounts(0);
    d.vault.data = vault;
    d.depositor_token_acct.key = key(9);
    let mut dctx = Context { program_id: pid, accounts: d };
    assert!(deposit_to_vault(&mut dctx, 50).is_err());
    vault = dctx.accounts.vault.data;
    let mut w = withdraw_accounts(0);
    w.vault.data = vault;
    let mut wctx = Context { program_id: pid, accounts: w };
    assert!(withdraw_from_vault(&mut wctx, 300).is_err());
    vault = wctx.accounts.vault.data;
    let mut w = withdraw_accounts(0);
    w.vault.data = vault;
    let mut wctx = Context { program_id: pid, accounts: w };
    assert!(withdraw_from_vault(&mut wctx, 40).is_ok());
    vault = wctx.accounts.vault.data;
    let mut d = deposit_accounts(0);
    d.vault.data = vault;
    let mut dctx = Context { program_id: pid, accounts: d };
    assert!(deposit_to_vault(&mut dctx, 7).is_ok());
    vault = dctx.accounts.vault.data;
    assert_eq!(vault.vault_amount, 100 - 40 + 7);
    assert!(vault.depositor_token_account == key(2));
    assert!(vault.vault_token_account == key(3));
    assert!(vault.pda_account == signer_of(&pid).0);
}

#[test]
fn withdrawal_transfer_runs_opposite_to_deposit() {
    let mut dctx = Context { program_id: program_id(), accounts: deposit_accounts(10) };
    let d = deposit_to_vault(&mut dctx, 5).unwrap();
    let mut wctx = Context { program_id: program_id(), accounts: withdraw_accounts(10) };
    let w = withdraw_from_vault(&mut wctx, 5).unwrap();
    assert_eq!(w.cpi.accounts.from, d.cpi.accounts.to);
    assert_eq!(w.cpi.accounts.to, d.cpi.accounts.from);
    assert_eq!(w.cpi.program, d.cpi.program);
}
