use amms::curve::{LiquidityPair, LiquidityStep, SwapQuery, SwapResult, XYAmounts, XYQuery};
use amms::deposit::Deposit;
use amms::error::{AmmError, CurveError};
use amms::state::{u64_le_bytes, Config};
use amms::swap::Swap;
use amms::token::{Authority, MintKind, TokenHolder, TokenInstruction};
use amms::withdraw::Withdraw;

fn config(locked: bool) -> Config {
    Config { seed: 258, fee: 30, locked, config_bump: 254, lp_bump: 253 }
}

fn deposit_accounts(locked: bool, supply: u64, vx: u64, vy: u64) -> Deposit {
    Deposit {
        config: config(locked),
        mint_lp_supply: supply,
        vault_x_amount: vx,
        vault_y_amount: vy,
        mint_x_decimals: 6,
        mint_y_decimals: 9,
    }
}

fn withdraw_accounts(locked: bool, supply: u64, vx: u64, vy: u64) -> Withdraw {
    Withdraw {
        config: config(locked),
        mint_lp_supply: supply,
        vault_x_amount: vx,
        vault_y_amount: vy,
        mint_x_decimals: 6,
        mint_y_decimals: 9,
    }
}

fn swap_accounts(locked: bool) -> Swap {
    Swap {
        config: config(locked),
        mint_lp_supply: 1_000,
        vault_x_amount: 10_000,
        vault_y_amount: 20_000,
        mint_x_decimals: 6,
        mint_y_decimals: 9,
    }
}

fn user_pays(from: TokenHolder, to: TokenHolder, mint: MintKind, amount: u64, decimals: u8) -> TokenInstruction {
    TokenInstruction::TransferChecked {
        from,
        to,
        mint,
        authority: Authority::User,
        amount,
        decimals,
        config_signs: false,
    }
}

fn pool_pays(from: TokenHolder, to: TokenHolder, mint: MintKind, amount: u64, decimals: u8) -> TokenInstruction {
    TokenInstruction::TransferChecked {
        from,
        to,
        mint,
        authority: Authority::Config,
        amount,
        decimals,
        config_signs: true,
    }
}

fn deposit_plan(x: u64, y: u64, lp: u64) -> Vec<TokenInstruction> {
    vec![
        user_pays(TokenHolder::UserX, TokenHolder::VaultX, MintKind::X, x, 6),
        user_pays(TokenHolder::UserY, TokenHolder::VaultY, MintKind::Y, y, 9),
        TokenInstruction::MintTo {
            mint: MintKind::Lp,
            to: TokenHolder::UserLp,
            authority: Authority::Config,
            amount: lp,
            config_signs: true,
        },
    ]
}

fn withdraw_plan(x: u64, y: u64, lp: u64) -> Vec<TokenInstruction> {
    vec![
        TokenInstruction::Burn {
            mint: MintKind::Lp,
            from: TokenHolder::UserLp,
            authority: Authority::User,
            amount: lp,
            config_signs: true,
        },
        pool_pays(TokenHolder::VaultX, TokenHolder::UserX, MintKind::X, x, 6),
        pool_pays(TokenHolder::VaultY, TokenHolder::UserY, MintKind::Y, y, 9),
    ]
}

#[test]
fn deposit_refused_while_locked() {
    let d = deposit_accounts(true, 0, 0, 0);
    assert_eq!(d.deposit(10, 100, 100), Err(AmmError::PoolLocked));
    let q = XYAmounts { x: 1, y: 1 };
    assert_eq!(d.deposit_quoted(10, 100, 100, q), Err(AmmError::PoolLocked));
}

#[test]
fn deposit_refused_for_no_lp_tokens() {
    let d = deposit_accounts(false, 100, 1_000, 2_000);
    assert_eq!(d.deposit(0, 100, 100), Err(AmmError::InvalidAmount));
    let q = XYAmounts { x: 1, y: 1 };
    assert_eq!(d.deposit_quoted(0, 100, 100, q), Err(AmmError::InvalidAmount));
}

#[test]
fn first_deposit_pays_the_maxima() {
    let d = deposit_accounts(false, 0, 0, 0);
    assert_eq!(d.deposit(50, 1_000, 4_000), Ok(LiquidityStep::Execute(deposit_plan(1_000, 4_000, 50))));
    // the quote is not read on the first deposit
    let q = XYAmounts { x: u64::MAX, y: u64::MAX };
    assert_eq!(d.deposit_quoted(50, 1_000, 4_000, q), Ok(deposit_plan(1_000, 4_000, 50)));
}

#[test]
fn later_deposit_asks_the_curve() {
    let d = deposit_accounts(false, 100, 1_000, 2_000);
    let expected = XYQuery { x: 1_000, y: 2_000, l: 100, a: 10, precision: 6 };
    assert_eq!(d.deposit(10, 500, 500), Ok(LiquidityStep::Quote(expected)));
}

#[test]
fn vault_with_tokens_is_not_a_first_deposit() {
    let d = deposit_accounts(false, 0, 5, 0);
    let expected = XYQuery { x: 5, y: 0, l: 0, a: 10, precision: 6 };
    assert_eq!(d.deposit(10, 500, 500), Ok(LiquidityStep::Quote(expected)));
}

#[test]
fn later_deposit_pays_the_quoted_amounts() {
    let d = deposit_accounts(false, 100, 1_000, 2_000);
    let q = XYAmounts { x: 100, y: 200 };
    assert_eq!(d.deposit_quoted(10, 100, 200, q), Ok(deposit_plan(100, 200, 10)));
    assert_eq!(d.deposit_quoted(10, 150, 250, q), Ok(deposit_plan(100, 200, 10)));
}

#[test]
fn deposit_over_the_maxima_is_refused() {
    let d = deposit_accounts(false, 100, 1_000, 2_000);
    let q = XYAmounts { x: 100, y: 200 };
    assert_eq!(d.deposit_quoted(10, 99, 200, q), Err(AmmError::SlippageExceeded));
    assert_eq!(d.deposit_quoted(10, 100, 199, q), Err(AmmError::SlippageExceeded));
}

#[test]
fn deposit_instructions() {
    let d = deposit_accounts(false, 0, 0, 0);
    assert_eq!(d.deposit_tokens(true, 7), user_pays(TokenHolder::UserX, TokenHolder::VaultX, MintKind::X, 7, 6));
    assert_eq!(d.deposit_tokens(false, 8), user_pays(TokenHolder::UserY, TokenHolder::VaultY, MintKind::Y, 8, 9));
    assert_eq!(
        d.mint_lp_tokens(9),
        TokenInstruction::MintTo {
            mint: MintKind::Lp,
            to: TokenHolder::UserLp,
            authority: Authority::Config,
            amount: 9,
            config_signs: true,
        }
    );
}

#[test]
fn withdraw_refused_while_locked() {
    let w = withdraw_accounts(true, 100, 1_000, 2_000);
    assert_eq!(w.withdraw(10, 1, 1), Err(AmmError::PoolLocked));
    let q = XYAmounts { x: 100, y: 200 };
    assert_eq!(w.withdraw_quoted(10, 1, 1, q), Err(AmmError::PoolLocked));
}

#[test]
fn withdraw_refused_for_no_lp_tokens() {
    let w = withdraw_accounts(false, 100, 1_000, 2_000);
    assert_eq!(w.withdraw(0, 1, 1), Err(AmmError::InvalidAmount));
    let q = XYAmounts { x: 100, y: 200 };
    assert_eq!(w.withdraw_quoted(0, 1, 1, q), Err(AmmError::InvalidAmount));
}

#[test]
fn withdraw_from_empty_pool_pays_the_minima() {
    let w = withdraw_accounts(false, 0, 0, 0);
    assert_eq!(w.withdraw(10, 3, 4), Ok(LiquidityStep::Execute(withdraw_plan(3, 4, 10))));
    let q = XYAmounts { x: 0, y: 0 };
    assert_eq!(w.withdraw_quoted(10, 3, 4, q), Ok(withdraw_plan(3, 4, 10)));
}

#[test]
fn withdraw_asks_the_curve() {
    let w = withdraw_accounts(false, 100, 1_000, 2_000);
    let expected = XYQuery { x: 1_000, y: 2_000, l: 100, a: 10, precision: 6 };
    assert_eq!(w.withdraw(10, 1, 1), Ok(LiquidityStep::Quote(expected)));
}

#[test]
fn withdraw_pays_the_quoted_amounts() {
    let w = withdraw_accounts(false, 100, 1_000, 2_000);
    let q = XYAmounts { x: 100, y: 200 };
    assert_eq!(w.withdraw_quoted(10, 100, 200, q), Ok(withdraw_plan(100, 200, 10)));
    assert_eq!(w.withdraw_quoted(10, 0, 0, q), Ok(withdraw_plan(100, 200, 10)));
}

#[test]
fn withdraw_under_the_minima_is_refused() {
    let w = withdraw_accounts(false, 100, 1_000, 2_000);
    let q = XYAmounts { x: 100, y: 200 };
    assert_eq!(w.withdraw_quoted(10, 101, 200, q), Err(AmmError::SlippageExceeded));
    assert_eq!(w.withdraw_quoted(10, 100, 201, q), Err(AmmError::SlippageExceeded));
}

#[test]
fn withdraw_instructions() {
    let w = withdraw_accounts(false, 0, 0, 0);
    assert_eq!(
        w.burn_lp_tokens(5),
        TokenInstruction::Burn {
            mint: MintKind::Lp,
            from: TokenHolder::UserLp,
            authority: Authority::User,
            amount: 5,
            config_signs: true,
        }
    );
    assert_eq!(w.withdraw_tokens(6, true), pool_pays(TokenHolder::VaultX, TokenHolder::UserX, MintKind::X, 6, 6));
    assert_eq!(w.withdraw_tokens(7, false), pool_pays(TokenHolder::VaultY, TokenHolder::UserY, MintKind::Y, 7, 9));
}

#[test]
fn swap_refused_while_locked() {
    let s = swap_accounts(true);
    assert_eq!(s.swap(true, 10, 1), Err(AmmError::PoolLocked));
    let res = SwapResult { deposit: 10, withdraw: 19, fee: 0 };
    assert_eq!(s.swap_quoted(true, 10, Ok(res)), Err(AmmError::PoolLocked));
}

#[test]
fn swap_refused_for_no_input() {
    let s = swap_accounts(false);
    assert_eq!(s.swap(false, 0, 1), Err(AmmError::InvalidAmount));
    let res = SwapResult { deposit: 10, withdraw: 19, fee: 0 };
    assert_eq!(s.swap_quoted(false, 0, Ok(res)), Err(AmmError::InvalidAmount));
}

#[test]
fn swap_asks_the_curve() {
    let s = swap_accounts(false);
    let q = SwapQuery {
        x: 10_000,
        y: 20_000,
        l: 1_000,
        fee: 30,
        precision: None,
        pair: LiquidityPair::Y,
        amount: 500,
        min: 200,
    };
    assert_eq!(s.swap(false, 500, 200), Ok(q));
    assert_eq!(s.swap(true, 500, 200), Ok(SwapQuery { pair: LiquidityPair::X, ..q }));
}

#[test]
fn swap_x_for_y_pays_x_in_and_y_out() {
    let s = swap_accounts(false);
    let res = SwapResult { deposit: 500, withdraw: 950, fee: 2 };
    assert_eq!(
        s.swap_quoted(true, 500, Ok(res)),
        Ok(vec![
            user_pays(TokenHolder::UserX, TokenHolder::VaultX, MintKind::X, 500, 6),
            pool_pays(TokenHolder::VaultY, TokenHolder::UserY, MintKind::Y, 950, 9),
        ])
    );
}

#[test]
fn swap_y_for_x_pays_y_in_and_x_out() {
    let s = swap_accounts(false);
    let res = SwapResult { deposit: 500, withdraw: 240, fee: 2 };
    assert_eq!(
        s.swap_quoted(false, 500, Ok(res)),
        Ok(vec![
            user_pays(TokenHolder::UserY, TokenHolder::VaultY, MintKind::Y, 500, 9),
            pool_pays(TokenHolder::VaultX, TokenHolder::UserX, MintKind::X, 240, 6),
        ])
    );
}

#[test]
fn swap_with_nothing_moving_is_refused() {
    let s = swap_accounts(false);
    let no_in = SwapResult { deposit: 0, withdraw: 5, fee: 0 };
    let no_out = SwapResult { deposit: 5, withdraw: 0, fee: 0 };
    assert_eq!(s.swap_quoted(true, 5, Ok(no_in)), Err(AmmError::InvalidAmount));
    assert_eq!(s.swap_quoted(true, 5, Ok(no_out)), Err(AmmError::InvalidAmount));
}

#[test]
fn swap_curve_errors_become_pool_errors() {
    let s = swap_accounts(false);
    let cases = [
        (CurveError::InvalidPrecision, AmmError::InvalidPrecision),
        (CurveError::Overflow, AmmError::Overflow),
        (CurveError::Underflow, AmmError::Underflow),
        (CurveError::InvalidFeeAmount, AmmError::InvalidFee),
        (CurveError::InsufficientBalance, AmmError::InsufficientBalance),
        (CurveError::ZeroBalance, AmmError::ZeroBalance),
        (CurveError::SlippageLimitExceeded, AmmError::SlippageExceeded),
    ];
    for (curve, pool) in cases {
        assert_eq!(AmmError::from(curve), pool);
        assert_eq!(s.swap_quoted(true, 5, Err(curve)), Err(pool));
    }
}

#[test]
fn swap_instructions() {
    let s = swap_accounts(false);
    assert_eq!(s.deposit_token(true, 3), user_pays(TokenHolder::UserX, TokenHolder::VaultX, MintKind::X, 3, 6));
    assert_eq!(s.deposit_token(false, 3), user_pays(TokenHolder::UserY, TokenHolder::VaultY, MintKind::Y, 3, 9));
    assert_eq!(s.withdraw_token(true, 4), pool_pays(TokenHolder::VaultX, TokenHolder::UserX, MintKind::X, 4, 6));
    assert_eq!(s.withdraw_token(false, 4), pool_pays(TokenHolder::VaultY, TokenHolder::UserY, MintKind::Y, 4, 9));
}

#[test]
fn signer_seeds_of_the_config_pda() {
    let c = config(false);
    let seeds = c.signer_seeds();
    assert_eq!(seeds, vec![b"config".to_vec(), 258u64.to_le_bytes().to_vec(), vec![254u8]]);
}

#[test]
fn little_endian_bytes() {
    assert_eq!(u64_le_bytes(0), vec![0u8; 8]);
    assert_eq!(u64_le_bytes(0x0102_0304_0506_0708), vec![8, 7, 6, 5, 4, 3, 2, 1]);
    assert_eq!(u64_le_bytes(u64::MAX), vec![255u8; 8]);
}

#[test]
fn withdraw_of_deposited_amounts_mirrors_the_deposit() {
    let d = deposit_accounts(false, 100, 1_000, 2_000);
    let w = withdraw_accounts(false, 110, 1_100, 2_200);
    let q = XYAmounts { x: 100, y: 200 };
    let dep = d.deposit_quoted(10, 100, 200, q).unwrap();
    let wd = w.withdraw_quoted(10, 100, 200, q).unwrap();
    // the transfers run the other way with the same amounts, and the LP
    // tokens minted are the ones burnt
    for (a, b) in [(&dep[0], &wd[1]), (&dep[1], &wd[2])] {
        match (a, b) {
            (
                TokenInstruction::TransferChecked { from: f1, to: t1, amount: a1, .. },
                TokenInstruction::TransferChecked { from: f2, to: t2, amount: a2, .. },
            ) => {
                assert_eq!((f1, t1, a1), (t2, f2, a2));
            }
            _ => panic!("transfer expected"),
        }
    }
    match (&dep[2], &wd[0]) {
        (TokenInstruction::MintTo { amount: m, .. }, TokenInstruction::Burn { amount: b, .. }) => {
            assert_eq!(m, b)
        }
        _ => panic!("mint and burn expected"),
    }
}

#[test]
fn swapping_back_reverses_the_transfers() {
    let s = swap_accounts(false);
    let there = s.swap_quoted(true, 500, Ok(SwapResult { deposit: 500, withdraw: 950, fee: 2 })).unwrap();
    let back = s.swap_quoted(false, 950, Ok(SwapResult { deposit: 950, withdraw: 500, fee: 2 })).unwrap();
    assert_eq!(there[0], user_pays(TokenHolder::UserX, TokenHolder::VaultX, MintKind::X, 500, 6));
    assert_eq!(back[1], pool_pays(TokenHolder::VaultX, TokenHolder::UserX, MintKind::X, 500, 6));
    assert_eq!(there[1], pool_pays(TokenHolder::VaultY, TokenHolder::UserY, MintKind::Y, 950, 9));
    assert_eq!(back[0], user_pays(TokenHolder::UserY, TokenHolder::VaultY, MintKind::Y, 950, 9));
}

#[test]
fn locked_pool_refuses_every_operation() {
    let q = XYAmounts { x: 1, y: 1 };
    let res = SwapResult { deposit: 1, withdraw: 1, fee: 0 };
    assert_eq!(deposit_accounts(true, 0, 0, 0).deposit_quoted(1, 1, 1, q), Err(AmmError::PoolLocked));
    assert_eq!(withdraw_accounts(true, 1, 1, 1).withdraw_quoted(1, 1, 1, q), Err(AmmError::PoolLocked));
    assert_eq!(swap_accounts(true).swap_quoted(false, 1, Ok(res)), Err(AmmError::PoolLocked));
}
