//! Properties of the pool's operations as a whole: what their instructions do
//! to the balances, what one operation undoes of another, and which requests
//! are refused.
use vstd::prelude::*;

use crate::curve::{LiquidityPair, SwapQuery, SwapResult, XYAmounts};
use crate::deposit::Deposit;
use crate::error::{AmmError, CurveError};
use crate::state::Config;
use crate::swap::Swap;
use crate::token::{Authority, Ledger, MintKind, TokenHolder, TokenInstruction};
use crate::withdraw::Withdraw;

verus! {

/// A deposit plan paying `x` and `y` for `lp` LP tokens takes `x` and `y` from
/// the user into the vaults and gives the user `lp` new LP tokens; nothing
/// else changes, and no X or Y token is created or lost. The token program
/// accepts it exactly when the user holds `x` and `y` and no balance or the
/// supply passes the largest `u64`.
pub proof fn lemma_deposit_effect(d: Deposit, x: u64, y: u64, lp: u64, l: Ledger)
    ensures
        l.apply_all(d.deposit_plan(x, y, lp)) == (Ledger {
            user_x: l.user_x - x,
            user_y: l.user_y - y,
            user_lp: l.user_lp + lp,
            vault_x: l.vault_x + x,
            vault_y: l.vault_y + y,
            lp_supply: l.lp_supply + lp,
        }),
        l.apply_all(d.deposit_plan(x, y, lp)).user_x + l.apply_all(
            d.deposit_plan(x, y, lp),
        ).vault_x == l.user_x + l.vault_x,
        l.apply_all(d.deposit_plan(x, y, lp)).user_y + l.apply_all(
            d.deposit_plan(x, y, lp),
        ).vault_y == l.user_y + l.vault_y,
        l.admits_all(d.deposit_plan(x, y, lp)) <==> (l.user_x >= x && l.vault_x + x <= u64::MAX
            && l.user_y >= y && l.vault_y + y <= u64::MAX && l.lp_supply + lp <= u64::MAX
            && l.user_lp + lp <= u64::MAX),
{
    reveal_with_fuel(Ledger::apply_all, 4);
    reveal_with_fuel(Ledger::admits_all, 4);
    let p = d.deposit_plan(x, y, lp);
    assert(p.drop_first()[0] == p[1]);
    assert(p.drop_first().drop_first()[0] == p[2]);
    assert(p.drop_first().drop_first().drop_first() =~= Seq::<TokenInstruction>::empty());
}

/// A withdrawal plan paying out `x` and `y` for `lp` LP tokens burns `lp` of
/// the user's LP tokens and moves `x` and `y` from the vaults to the user;
/// nothing else changes, and no X or Y token is created or lost. The token
/// program accepts it exactly when the user holds `lp` LP tokens, the supply
/// covers them, the vaults hold `x` and `y`, and no user balance passes the
/// largest `u64`.
pub proof fn lemma_withdraw_effect(w: Withdraw, x: u64, y: u64, lp: u64, l: Ledger)
    ensures
        l.apply_all(w.withdraw_plan(x, y, lp)) == (Ledger {
            user_x: l.user_x + x,
            user_y: l.user_y + y,
            user_lp: l.user_lp - lp,
            vault_x: l.vault_x - x,
            vault_y: l.vault_y - y,
            lp_supply: l.lp_supply - lp,
        }),
        l.apply_all(w.withdraw_plan(x, y, lp)).user_x + l.apply_all(
            w.withdraw_plan(x, y, lp),
        ).vault_x == l.user_x + l.vault_x,
        l.apply_all(w.withdraw_plan(x, y, lp)).user_y + l.apply_all(
            w.withdraw_plan(x, y, lp),
        ).vault_y == l.user_y + l.vault_y,
        l.admits_all(w.withdraw_plan(x, y, lp)) <==> (l.user_lp >= lp && l.lp_supply >= lp
            && l.vault_x >= x && l.user_x + x <= u64::MAX && l.vault_y >= y && l.user_y + y
            <= u64::MAX),
{
    reveal_with_fuel(Ledger::apply_all, 4);
    reveal_with_fuel(Ledger::admits_all, 4);
    let p = w.withdraw_plan(x, y, lp);
    assert(p.drop_first()[0] == p[1]);
    assert(p.drop_first().drop_first()[0] == p[2]);
    assert(p.drop_first().drop_first().drop_first() =~= Seq::<TokenInstruction>::empty());
}

/// A swap plan paying in `paid` of the input token and paying out `received`
/// of the other moves exactly those amounts between the user and the two
/// vaults; LP balances and supply stay as they are, and no X or Y token is
/// created or lost. The token program accepts it exactly when the user holds
/// `paid`, the output vault holds `received`, and no balance passes the
/// largest `u64`.
pub proof fn lemma_swap_effect(s: Swap, is_x: bool, paid: u64, received: u64, l: Ledger)
    ensures
        is_x ==> l.apply_all(s.swap_plan(is_x, paid, received)) == (Ledger {
            user_x: l.user_x - paid,
            vault_x: l.vault_x + paid,
            user_y: l.user_y + received,
            vault_y: l.vault_y - received,
            ..l
        }),
        !is_x ==> l.apply_all(s.swap_plan(is_x, paid, received)) == (Ledger {
            user_y: l.user_y - paid,
            vault_y: l.vault_y + paid,
            user_x: l.user_x + received,
            vault_x: l.vault_x - received,
            ..l
        }),
        l.apply_all(s.swap_plan(is_x, paid, received)).user_x + l.apply_all(
            s.swap_plan(is_x, paid, received),
        ).vault_x == l.user_x + l.vault_x,
        l.apply_all(s.swap_plan(is_x, paid, received)).user_y + l.apply_all(
            s.swap_plan(is_x, paid, received),
        ).vault_y == l.user_y + l.vault_y,
        is_x ==> (l.admits_all(s.swap_plan(is_x, paid, received)) <==> (l.user_x >= paid
            && l.vault_x + paid <= u64::MAX && l.vault_y >= received && l.user_y + received
            <= u64::MAX)),
        !is_x ==> (l.admits_all(s.swap_plan(is_x, paid, received)) <==> (l.user_y >= paid
            && l.vault_y + paid <= u64::MAX && l.vault_x >= received && l.user_x + received
            <= u64::MAX)),
{
    reveal_with_fuel(Ledger::apply_all, 3);
    reveal_with_fuel(Ledger::admits_all, 3);
    let p = s.swap_plan(is_x, paid, received);
    assert(p.drop_first()[0] == p[1]);
    assert(p.drop_first().drop_first() =~= Seq::<TokenInstruction>::empty());
}

/// Instructions that the token program accepts keep every balance and the
/// supply a `u64`.
pub proof fn lemma_admitted_plan_keeps_ledger_valid(l: Ledger, plan: Seq<TokenInstruction>)
    requires
        l.is_valid(),
        l.admits_all(plan),
    ensures
        l.apply_all(plan).is_valid(),
    decreases plan.len(),
{
    if plan.len() > 0 {
        lemma_admitted_plan_keeps_ledger_valid(l.apply(plan[0]), plan.drop_first());
    }
}

/// Withdrawing the amounts a deposit paid in, for the LP tokens it minted,
/// restores every balance and the supply; and, on balances that are all
/// `u64`s, the token program accepts that withdrawal after any deposit it
/// accepted.
pub proof fn lemma_withdraw_undoes_deposit(
    d: Deposit,
    w: Withdraw,
    x: u64,
    y: u64,
    lp: u64,
    l: Ledger,
)
    requires
        l.is_valid(),
    ensures
        l.apply_all(d.deposit_plan(x, y, lp)).apply_all(w.withdraw_plan(x, y, lp)) == l,
        l.admits_all(d.deposit_plan(x, y, lp)) ==> l.apply_all(
            d.deposit_plan(x, y, lp),
        ).admits_all(w.withdraw_plan(x, y, lp)),
{
    lemma_deposit_effect(d, x, y, lp, l);
    lemma_withdraw_effect(w, x, y, lp, l.apply_all(d.deposit_plan(x, y, lp)));
}

/// Swapping back what a swap paid out, for what it paid in, restores every
/// balance.
pub proof fn lemma_swap_back_restores(s: Swap, is_x: bool, paid: u64, received: u64, l: Ledger)
    ensures
        l.apply_all(s.swap_plan(is_x, paid, received)).apply_all(
            s.swap_plan(!is_x, received, paid),
        ) == l,
{
    lemma_swap_effect(s, is_x, paid, received, l);
    lemma_swap_effect(s, !is_x, received, paid, l.apply_all(s.swap_plan(is_x, paid, received)));
}

/// The first deposit into an empty pool does not depend on the curve: it pays
/// in the user's maxima as they are, so the vaults then hold exactly those
/// amounts against exactly the LP tokens minted, which sets the pool's
/// initial price.
pub proof fn lemma_first_deposit_sets_reserves(
    d: Deposit,
    amount: u64,
    max_x: u64,
    max_y: u64,
    quote: XYAmounts,
    l: Ledger,
)
    requires
        !d.config.locked,
        amount != 0,
        d.mint_lp_supply == 0,
        d.vault_x_amount == 0,
        d.vault_y_amount == 0,
        l.vault_x == 0,
        l.vault_y == 0,
        l.lp_supply == 0,
    ensures
        d.deposit_outcome(amount, max_x, max_y, quote) == Ok::<Seq<TokenInstruction>, AmmError>(
            d.deposit_plan(max_x, max_y, amount),
        ),
        l.apply_all(d.deposit_plan(max_x, max_y, amount)).vault_x == max_x,
        l.apply_all(d.deposit_plan(max_x, max_y, amount)).vault_y == max_y,
        l.apply_all(d.deposit_plan(max_x, max_y, amount)).lp_supply == amount,
{
    lemma_deposit_effect(d, max_x, max_y, amount, l);
}

/// A deposit that goes through pays the user's X and Y into the vaults, never
/// more than the maxima the user set, and mints exactly the LP tokens asked for.
pub proof fn lemma_deposit_within_maxima(
    d: Deposit,
    amount: u64,
    max_x: u64,
    max_y: u64,
    quote: XYAmounts,
    l: Ledger,
)
    requires
        d.deposit_outcome(amount, max_x, max_y, quote) is Ok,
    ensures
        ({
            let after = l.apply_all(d.deposit_outcome(amount, max_x, max_y, quote)->Ok_0);
            &&& 0 <= after.vault_x - l.vault_x <= max_x
            &&& 0 <= after.vault_y - l.vault_y <= max_y
            &&& after.user_lp == l.user_lp + amount
            &&& after.lp_supply == l.lp_supply + amount
        }),
{
    let xy = d.deposit_amounts(max_x, max_y, quote);
    lemma_deposit_effect(d, xy.x, xy.y, amount, l);
}

/// A withdrawal that goes through burns exactly the LP tokens given and pays
/// the user at least the minima the user set.
pub proof fn lemma_withdraw_meets_minima(
    w: Withdraw,
    amount: u64,
    min_x: u64,
    min_y: u64,
    quote: XYAmounts,
    l: Ledger,
)
    requires
        w.withdraw_outcome(amount, min_x, min_y, quote) is Ok,
    ensures
        ({
            let after = l.apply_all(w.withdraw_outcome(amount, min_x, min_y, quote)->Ok_0);
            &&& after.user_x - l.user_x >= min_x
            &&& after.user_y - l.user_y >= min_y
            &&& after.user_lp == l.user_lp - amount
            &&& after.lp_supply == l.lp_supply - amount
        }),
{
    let xy = w.withdraw_amounts(min_x, min_y, quote);
    lemma_withdraw_effect(w, xy.x, xy.y, amount, l);
}

/// A swap that goes through takes a nonzero amount of the input token from
/// the user and pays out a nonzero amount of the other token, exactly as the
/// curve answered, and leaves LP tokens alone.
pub proof fn lemma_swap_pays_both_ways(
    s: Swap,
    is_x: bool,
    amount_in: u64,
    res: SwapResult,
    l: Ledger,
)
    requires
        s.swap_outcome(is_x, amount_in, Ok(res)) is Ok,
    ensures
        ({
            let after = l.apply_all(s.swap_outcome(is_x, amount_in, Ok(res))->Ok_0);
            &&& res.deposit > 0 && res.withdraw > 0
            &&& is_x ==> after.user_x == l.user_x - res.deposit && after.user_y == l.user_y
                + res.withdraw
            &&& !is_x ==> after.user_y == l.user_y - res.deposit && after.user_x == l.user_x
                + res.withdraw
            &&& after.user_lp == l.user_lp && after.lp_supply == l.lp_supply
        }),
{
    lemma_swap_effect(s, is_x, res.deposit, res.withdraw, l);
}

/// While a pool is locked, every deposit, withdrawal and swap on it is refused
/// with `PoolLocked`, whatever the amounts and whatever the curve answers.
pub proof fn lemma_locked_pool_refuses_all(
    c: Config,
    d: Deposit,
    w: Withdraw,
    s: Swap,
    amount: u64,
    bound_x: u64,
    bound_y: u64,
    quote: XYAmounts,
    is_x: bool,
    curve: Result<SwapResult, CurveError>,
)
    requires
        c.locked,
        d.config == c,
        w.config == c,
        s.config == c,
    ensures
        d.deposit_outcome(amount, bound_x, bound_y, quote) == Err::<Seq<TokenInstruction>, AmmError>(
            AmmError::PoolLocked,
        ),
        w.withdraw_outcome(amount, bound_x, bound_y, quote) == Err::<
            Seq<TokenInstruction>,
            AmmError,
        >(AmmError::PoolLocked),
        s.swap_outcome(is_x, amount, curve) == Err::<Seq<TokenInstruction>, AmmError>(
            AmmError::PoolLocked,
        ),
{
}

/// On an unlocked pool, a request for no LP tokens or of no input is refused
/// with `InvalidAmount`, whatever the bounds and whatever the curve answers.
pub proof fn lemma_zero_amount_refused(
    d: Deposit,
    w: Withdraw,
    s: Swap,
    bound_x: u64,
    bound_y: u64,
    quote: XYAmounts,
    is_x: bool,
    curve: Result<SwapResult, CurveError>,
)
    ensures
        !d.config.locked ==> d.deposit_outcome(0, bound_x, bound_y, quote) == Err::<
            Seq<TokenInstruction>,
            AmmError,
        >(AmmError::InvalidAmount),
        !w.config.locked ==> w.withdraw_outcome(0, bound_x, bound_y, quote) == Err::<
            Seq<TokenInstruction>,
            AmmError,
        >(AmmError::InvalidAmount),
        !s.config.locked ==> s.swap_outcome(is_x, 0, curve) == Err::<
            Seq<TokenInstruction>,
            AmmError,
        >(AmmError::InvalidAmount),
{
}

/// On a pool that already holds liquidity, a deposit of `amount` LP tokens
/// goes through exactly when the curve's quote is within the user's maxima,
/// and is otherwise refused with `SlippageExceeded`. When it goes through it
/// moves exactly `quote.x` of X and `quote.y` of Y from the user into the
/// matching vaults and mints exactly `amount` LP tokens to the user.
pub proof fn lemma_deposit_pays_the_quote(
    d: Deposit,
    amount: u64,
    max_x: u64,
    max_y: u64,
    quote: XYAmounts,
    l: Ledger,
)
    requires
        !d.config.locked,
        amount != 0,
        !(d.mint_lp_supply == 0 && d.vault_x_amount == 0 && d.vault_y_amount == 0),
    ensures
        d.deposit_outcome(amount, max_x, max_y, quote) is Ok <==> (quote.x <= max_x && quote.y
            <= max_y),
        d.deposit_outcome(amount, max_x, max_y, quote) is Err ==> d.deposit_outcome(
            amount,
            max_x,
            max_y,
            quote,
        ) == Err::<Seq<TokenInstruction>, AmmError>(AmmError::SlippageExceeded),
        d.deposit_outcome(amount, max_x, max_y, quote) is Ok ==> l.apply_all(
            d.deposit_outcome(amount, max_x, max_y, quote)->Ok_0,
        ) == (Ledger {
            user_x: l.user_x - quote.x,
            vault_x: l.vault_x + quote.x,
            user_y: l.user_y - quote.y,
            vault_y: l.vault_y + quote.y,
            user_lp: l.user_lp + amount,
            lp_supply: l.lp_supply + amount,
        }),
{
    lemma_deposit_effect(d, quote.x, quote.y, amount, l);
}

/// On a pool that holds liquidity, a withdrawal of `amount` LP tokens goes
/// through exactly when the curve's quote meets the user's minima, and is
/// otherwise refused with `SlippageExceeded`. When it goes through it burns
/// exactly `amount` of the user's LP tokens and moves exactly `quote.x` of X
/// and `quote.y` of Y from the matching vaults to the user.
pub proof fn lemma_withdraw_pays_the_quote(
    w: Withdraw,
    amount: u64,
    min_x: u64,
    min_y: u64,
    quote: XYAmounts,
    l: Ledger,
)
    requires
        !w.config.locked,
        amount != 0,
        !(w.mint_lp_supply == 0 && w.vault_x_amount == 0 && w.vault_y_amount == 0),
    ensures
        w.withdraw_outcome(amount, min_x, min_y, quote) is Ok <==> (quote.x >= min_x && quote.y
            >= min_y),
        w.withdraw_outcome(amount, min_x, min_y, quote) is Err ==> w.withdraw_outcome(
            amount,
            min_x,
            min_y,
            quote,
        ) == Err::<Seq<TokenInstruction>, AmmError>(AmmError::SlippageExceeded),
        w.withdraw_outcome(amount, min_x, min_y, quote) is Ok ==> l.apply_all(
            w.withdraw_outcome(amount, min_x, min_y, quote)->Ok_0,
        ) == (Ledger {
            user_x: l.user_x + quote.x,
            vault_x: l.vault_x - quote.x,
            user_y: l.user_y + quote.y,
            vault_y: l.vault_y - quote.y,
            user_lp: l.user_lp - amount,
            lp_supply: l.lp_supply - amount,
        }),
{
    lemma_withdraw_effect(w, quote.x, quote.y, amount, l);
}

/// A swap is refused only for a locked pool, a zero input, a curve failure, or
/// a curve answer that moves nothing one way; the fee the curve reports plays
/// no part. When it goes through it takes exactly the curve's deposit of the
/// input token from the user into that token's vault and pays exactly the
/// curve's withdrawal of the other token from its vault to the user.
pub proof fn lemma_swap_goes_through(
    s: Swap,
    is_x: bool,
    amount_in: u64,
    curve: Result<SwapResult, CurveError>,
    l: Ledger,
)
    ensures
        s.swap_outcome(is_x, amount_in, curve) is Err <==> (s.config.locked || amount_in == 0
            || match curve {
            Err(_) => true,
            Ok(res) => res.deposit == 0 || res.withdraw == 0,
        }),
        curve matches Ok(res) ==> (s.swap_outcome(is_x, amount_in, curve) is Ok ==> {
            let after = l.apply_all(s.swap_outcome(is_x, amount_in, curve)->Ok_0);
            &&& is_x ==> after == (Ledger {
                user_x: l.user_x - res.deposit,
                vault_x: l.vault_x + res.deposit,
                user_y: l.user_y + res.withdraw,
                vault_y: l.vault_y - res.withdraw,
                ..l
            })
            &&& !is_x ==> after == (Ledger {
                user_y: l.user_y - res.deposit,
                vault_y: l.vault_y + res.deposit,
                user_x: l.user_x + res.withdraw,
                vault_x: l.vault_x - res.withdraw,
                ..l
            })
        }),
{
    if let Ok(res) = curve {
        lemma_swap_effect(s, is_x, res.deposit, res.withdraw, l);
    }
}

/// A swap sets the curve up on the pool itself: its X reserve is the X
/// vault's balance and its Y reserve the Y vault's, against the LP supply and
/// the pool's fee, for the user's input and least output. The two directions
/// differ only in the side paid in.
pub proof fn lemma_swap_query_reads_the_pool(s: Swap, is_x: bool, amount_in: u64, min: u64)
    ensures
        s.swap_query(is_x, amount_in, min).x == s.vault_x_amount,
        s.swap_query(is_x, amount_in, min).y == s.vault_y_amount,
        s.swap_query(is_x, amount_in, min).l == s.mint_lp_supply,
        s.swap_query(is_x, amount_in, min).fee == s.config.fee,
        s.swap_query(is_x, amount_in, min).amount == amount_in,
        s.swap_query(is_x, amount_in, min).min == min,
        s.swap_query(is_x, amount_in, min).pair == LiquidityPair::X <==> is_x,
        s.swap_query(true, amount_in, min) == (SwapQuery {
            pair: LiquidityPair::X,
            ..s.swap_query(false, amount_in, min)
        }),
{
}

/// A deposit or a withdrawal of `amount` LP tokens asks the curve about the
/// pool itself: the X vault's balance as the X reserve, the Y vault's as the Y
/// reserve, the LP supply, and the LP tokens given.
pub proof fn lemma_liquidity_queries_read_the_pool(d: Deposit, w: Withdraw, amount: u64)
    ensures
        d.deposit_query(amount).x == d.vault_x_amount,
        d.deposit_query(amount).y == d.vault_y_amount,
        d.deposit_query(amount).l == d.mint_lp_supply,
        d.deposit_query(amount).a == amount,
        w.withdraw_query(amount).x == w.vault_x_amount,
        w.withdraw_query(amount).y == w.vault_y_amount,
        w.withdraw_query(amount).l == w.mint_lp_supply,
        w.withdraw_query(amount).a == amount,
{
}

/// Swapping X and the reversed swap of Y on the same pool read the same
/// reserves: the direction never exchanges which balance is which.
pub proof fn lemma_swap_directions_share_reserves(s: Swap, a: u64, b: u64, m: u64, n: u64)
    ensures
        s.swap_query(true, a, m).x == s.swap_query(false, b, n).x,
        s.swap_query(true, a, m).y == s.swap_query(false, b, n).y,
{
}

/// The token accounts that hold X.
pub open spec fn holds_x(h: TokenHolder) -> bool {
    h == TokenHolder::UserX || h == TokenHolder::VaultX
}

/// The token accounts that hold Y.
pub open spec fn holds_y(h: TokenHolder) -> bool {
    h == TokenHolder::UserY || h == TokenHolder::VaultY
}

/// The pool's vaults.
pub open spec fn is_vault(h: TokenHolder) -> bool {
    h == TokenHolder::VaultX || h == TokenHolder::VaultY
}

/// An instruction is sound for a pool whose mints have `dx` and `dy`
/// decimals: a transfer stays within the accounts of one of X and Y, is
/// checked against that mint's decimals, and is authorised by the
/// configuration PDA (with its seeds) exactly when it pays out of a vault and
/// by the user otherwise; LP tokens are minted only to the user under the
/// PDA's authority and burnt only from the user's account under the user's.
pub open spec fn is_sound_instruction(ins: TokenInstruction, dx: u8, dy: u8) -> bool {
    match ins {
        TokenInstruction::TransferChecked { from, to, mint, authority, decimals, config_signs, .. } => {
            &&& from != to
            &&& mint == MintKind::X ==> decimals == dx && holds_x(from) && holds_x(to)
            &&& mint == MintKind::Y ==> decimals == dy && holds_y(from) && holds_y(to)
            &&& mint != MintKind::Lp
            &&& (is_vault(from) <==> authority == Authority::Config)
            &&& config_signs <==> authority == Authority::Config
        },
        TokenInstruction::MintTo { mint, to, authority, config_signs, .. } => {
            &&& mint == MintKind::Lp
            &&& to == TokenHolder::UserLp
            &&& authority == Authority::Config
            &&& config_signs
        },
        TokenInstruction::Burn { mint, from, authority, .. } => {
            &&& mint == MintKind::Lp
            &&& from == TokenHolder::UserLp
            &&& authority == Authority::User
        },
    }
}

/// Every instruction of every deposit, withdrawal and swap plan is sound for
/// the pool's mints, whatever the amounts.
pub proof fn lemma_plans_are_sound(
    d: Deposit,
    w: Withdraw,
    s: Swap,
    x: u64,
    y: u64,
    lp: u64,
    is_x: bool,
    paid: u64,
    received: u64,
)
    ensures
        forall|i: int|
            0 <= i < 3 ==> is_sound_instruction(
                #[trigger] d.deposit_plan(x, y, lp)[i],
                d.mint_x_decimals,
                d.mint_y_decimals,
            ),
        forall|i: int|
            0 <= i < 3 ==> is_sound_instruction(
                #[trigger] w.withdraw_plan(x, y, lp)[i],
                w.mint_x_decimals,
                w.mint_y_decimals,
            ),
        forall|i: int|
            0 <= i < 2 ==> is_sound_instruction(
                #[trigger] s.swap_plan(is_x, paid, received)[i],
                s.mint_x_decimals,
                s.mint_y_decimals,
            ),
{
}

/// Withdrawing from an empty pool does not depend on the curve: it burns the
/// LP tokens given and pays out the user's minima as they are.
pub proof fn lemma_empty_pool_withdraw_pays_the_minima(
    w: Withdraw,
    amount: u64,
    min_x: u64,
    min_y: u64,
    quote: XYAmounts,
    l: Ledger,
)
    requires
        !w.config.locked,
        amount != 0,
        w.mint_lp_supply == 0,
        w.vault_x_amount == 0,
        w.vault_y_amount == 0,
    ensures
        w.withdraw_outcome(amount, min_x, min_y, quote) is Ok,
        l.apply_all(w.withdraw_outcome(amount, min_x, min_y, quote)->Ok_0) == (Ledger {
            user_x: l.user_x + min_x,
            vault_x: l.vault_x - min_x,
            user_y: l.user_y + min_y,
            vault_y: l.vault_y - min_y,
            user_lp: l.user_lp - amount,
            lp_supply: l.lp_supply - amount,
        }),
{
    lemma_withdraw_effect(w, min_x, min_y, amount, l);
}

/// A curve failure refuses the swap with the pool error of the same meaning.
pub proof fn lemma_swap_curve_failures(s: Swap, is_x: bool, amount_in: u64)
    requires
        !s.config.locked,
        amount_in != 0,
    ensures
        s.swap_outcome(is_x, amount_in, Err(CurveError::InvalidPrecision)) == Err::<
            Seq<TokenInstruction>,
            AmmError,
        >(AmmError::InvalidPrecision),
        s.swap_outcome(is_x, amount_in, Err(CurveError::Overflow)) == Err::<
            Seq<TokenInstruction>,
            AmmError,
        >(AmmError::Overflow),
        s.swap_outcome(is_x, amount_in, Err(CurveError::Underflow)) == Err::<
            Seq<TokenInstruction>,
            AmmError,
        >(AmmError::Underflow),
        s.swap_outcome(is_x, amount_in, Err(CurveError::InvalidFeeAmount)) == Err::<
            Seq<TokenInstruction>,
            AmmError,
        >(AmmError::InvalidFee),
        s.swap_outcome(is_x, amount_in, Err(CurveError::InsufficientBalance)) == Err::<
            Seq<TokenInstruction>,
            AmmError,
        >(AmmError::InsufficientBalance),
        s.swap_outcome(is_x, amount_in, Err(CurveError::ZeroBalance)) == Err::<
            Seq<TokenInstruction>,
            AmmError,
        >(AmmError::ZeroBalance),
        s.swap_outcome(is_x, amount_in, Err(CurveError::SlippageLimitExceeded)) == Err::<
            Seq<TokenInstruction>,
            AmmError,
        >(AmmError::SlippageExceeded),
{
}

} // verus!
