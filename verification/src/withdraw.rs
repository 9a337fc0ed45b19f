//! Removing liquidity: the user burns LP tokens and receives their share of
//! X and Y from the vaults.
use vstd::prelude::*;

use crate::curve::{LiquidityStep, XYAmounts, XYQuery, LIQUIDITY_PRECISION};
use crate::error::AmmError;
use crate::state::Config;
use crate::token::{Authority, MintKind, TokenHolder, TokenInstruction};

verus! {

/// What a withdrawal reads of the pool's accounts.
#[derive(Debug, Clone, Copy, PartialEq, Eq, Structural)]
pub struct Withdraw {
    pub config: Config,
    /// Supply of the LP mint.
    pub mint_lp_supply: u64,
    /// Balance of the X vault.
    pub vault_x_amount: u64,
    /// Balance of the Y vault.
    pub vault_y_amount: u64,
    pub mint_x_decimals: u8,
    pub mint_y_decimals: u8,
}

impl Withdraw {
    /// No LP token has been issued and both vaults are empty.
    pub open spec fn is_empty_pool(self) -> bool {
        self.mint_lp_supply == 0 && self.vault_x_amount == 0 && self.vault_y_amount == 0
    }

    /// Burning `amount` LP tokens from the user's account, authorised by the
    /// user and made with the configuration PDA's signer seeds.
    pub open spec fn spec_burn_lp_tokens(self, amount: u64) -> TokenInstruction {
        TokenInstruction::Burn {
            mint: MintKind::Lp,
            from: TokenHolder::UserLp,
            authority: Authority::User,
            amount,
            config_signs: true,
        }
    }

    /// The transfer of `amount` of X (or Y) from its vault to the user,
    /// authorised and signed by the configuration PDA.
    pub open spec fn spec_withdraw_tokens(self, amount: u64, is_x: bool) -> TokenInstruction {
        if is_x {
            TokenInstruction::TransferChecked {
                from: TokenHolder::VaultX,
                to: TokenHolder::UserX,
                mint: MintKind::X,
                authority: Authority::Config,
                amount,
                decimals: self.mint_x_decimals,
                config_signs: true,
            }
        } else {
            TokenInstruction::TransferChecked {
                from: TokenHolder::VaultY,
                to: TokenHolder::UserY,
                mint: MintKind::Y,
                authority: Authority::Config,
                amount,
                decimals: self.mint_y_decimals,
                config_signs: true,
            }
        }
    }

    /// Burn `lp` LP tokens, then pay `x` and `y` out of the vaults.
    pub open spec fn withdraw_plan(self, x: u64, y: u64, lp: u64) -> Seq<TokenInstruction> {
        seq![
            self.spec_burn_lp_tokens(lp),
            self.spec_withdraw_tokens(x, true),
            self.spec_withdraw_tokens(y, false),
        ]
    }

    /// The curve computation of the amounts that go with `amount` burnt LP tokens.
    pub open spec fn withdraw_query(self, amount: u64) -> XYQuery {
        XYQuery {
            x: self.vault_x_amount,
            y: self.vault_y_amount,
            l: self.mint_lp_supply,
            a: amount,
            precision: LIQUIDITY_PRECISION,
        }
    }

    /// The amounts a withdrawal pays out: the user's minima from an empty
    /// pool, the curve's answer otherwise.
    pub open spec fn withdraw_amounts(self, min_x: u64, min_y: u64, quote: XYAmounts) -> XYAmounts {
        if self.is_empty_pool() {
            XYAmounts { x: min_x, y: min_y }
        } else {
            quote
        }
    }

    /// The outcome of a withdrawal of `amount` LP tokens with the given
    /// minima, where `quote` is what the curve answers for
    /// `withdraw_query(amount)`.
    pub open spec fn withdraw_outcome(self, amount: u64, min_x: u64, min_y: u64, quote: XYAmounts)
        -> Result<Seq<TokenInstruction>, AmmError> {
        let xy = self.withdraw_amounts(min_x, min_y, quote);
        if self.config.locked {
            Err(AmmError::PoolLocked)
        } else if amount == 0 {
            Err(AmmError::InvalidAmount)
        } else if !(xy.x >= min_x && xy.y >= min_y) {
            Err(AmmError::SlippageExceeded)
        } else {
            Ok(self.withdraw_plan(xy.x, xy.y, amount))
        }
    }

    /// Starts a withdrawal of `amount` LP tokens for at least `min_x` of X and
    /// `min_y` of Y. Refused while the pool is locked or for no LP tokens.
    /// From an empty pool the minima are paid out as they are; otherwise the
    /// curve must first give the proportional amounts, with which
    /// `withdraw_quoted` finishes the withdrawal.
    pub fn withdraw(&self, amount: u64, min_x: u64, min_y: u64) -> (r: Result<LiquidityStep, AmmError>)
        ensures
            self.config.locked ==> r == Err::<LiquidityStep, AmmError>(AmmError::PoolLocked),
            !self.config.locked && amount == 0 ==> r == Err::<LiquidityStep, AmmError>(
                AmmError::InvalidAmount,
            ),
            !self.config.locked && amount != 0 && self.is_empty_pool() ==> (r matches Ok(
                LiquidityStep::Execute(plan),
            ) && plan@ == self.withdraw_plan(min_x, min_y, amount)),
            !self.config.locked && amount != 0 && !self.is_empty_pool() ==> r == Ok::<
                LiquidityStep,
                AmmError,
            >(LiquidityStep::Quote(self.withdraw_query(amount))),
            !self.config.locked && amount != 0 && !(self.mint_lp_supply == 0 && self.vault_x_amount
                == 0 && self.vault_y_amount == 0) ==> (r matches Ok(LiquidityStep::Quote(q))
                && q.x == self.vault_x_amount && q.y == self.vault_y_amount && q.l
                == self.mint_lp_supply && q.a == amount && q.precision == 6),
    {
        if self.config.locked {
            return Err(AmmError::PoolLocked);
        }
        if amount == 0 {
            return Err(AmmError::InvalidAmount);
        }
        if self.mint_lp_supply == 0 && self.vault_x_amount == 0 && self.vault_y_amount == 0 {
            Ok(LiquidityStep::Execute(self.plan(min_x, min_y, amount)))
        } else {
            Ok(
                LiquidityStep::Quote(
                    XYQuery {
                        x: self.vault_x_amount,
                        y: self.vault_y_amount,
                        l: self.mint_lp_supply,
                        a: amount,
                        precision: LIQUIDITY_PRECISION,
                    },
                ),
            )
        }
    }

    /// The whole withdrawal decision, given what the curve answers for
    /// `withdraw_query(amount)` (not read when the pool is empty): the
    /// instructions to carry out, or the error with which it is refused.
    pub fn withdraw_quoted(&self, amount: u64, min_x: u64, min_y: u64, quote: XYAmounts) -> (r:
        Result<Vec<TokenInstruction>, AmmError>)
        ensures
            match r {
                Ok(plan) => self.withdraw_outcome(amount, min_x, min_y, quote) == Ok::<
                    Seq<TokenInstruction>,
                    AmmError,
                >(plan@),
                Err(e) => self.withdraw_outcome(amount, min_x, min_y, quote) == Err::<
                    Seq<TokenInstruction>,
                    AmmError,
                >(e),
            },
            !self.config.locked && amount != 0 && !(self.mint_lp_supply == 0 && self.vault_x_amount
                == 0 && self.vault_y_amount == 0) ==> {
                &&& (r is Ok <==> (quote.x >= min_x && quote.y >= min_y))
                &&& (r is Err ==> r == Err::<Vec<TokenInstruction>, AmmError>(
                    AmmError::SlippageExceeded,
                ))
                &&& (r matches Ok(p) ==> {
                    &&& p@.len() == 3
                    &&& p@[0] matches TokenInstruction::Burn {
                        from: TokenHolder::UserLp,
                        amount: c,
                        ..
                    } && c == amount
                    &&& p@[1] matches TokenInstruction::TransferChecked {
                        from: TokenHolder::VaultX,
                        to: TokenHolder::UserX,
                        amount: a,
                        ..
                    } && a == quote.x
                    &&& p@[2] matches TokenInstruction::TransferChecked {
                        from: TokenHolder::VaultY,
                        to: TokenHolder::UserY,
                        amount: b,
                        ..
                    } && b == quote.y
                })
            },
    {
        if self.config.locked {
            return Err(AmmError::PoolLocked);
        }
        if amount == 0 {
            return Err(AmmError::InvalidAmount);
        }
        let (x, y) = if self.mint_lp_supply == 0 && self.vault_x_amount == 0
            && self.vault_y_amount == 0 {
            (min_x, min_y)
        } else {
            (quote.x, quote.y)
        };
        if !(x >= min_x && y >= min_y) {
            return Err(AmmError::SlippageExceeded);
        }
        Ok(self.plan(x, y, amount))
    }

    fn plan(&self, x: u64, y: u64, lp: u64) -> (r: Vec<TokenInstruction>)
        ensures
            r@ == self.withdraw_plan(x, y, lp),
    {
        let mut r: Vec<TokenInstruction> = Vec::new();
        r.push(self.burn_lp_tokens(lp));
        r.push(self.withdraw_tokens(x, true));
        r.push(self.withdraw_tokens(y, false));
        assert(r@ =~= self.withdraw_plan(x, y, lp));
        r
    }

    /// Burning `amount` LP tokens from the user's account, which gives up the
    /// user's claim on that share of the pool.
    pub fn burn_lp_tokens(&self, amount: u64) -> (r: TokenInstruction)
        ensures
            r == self.spec_burn_lp_tokens(amount),
    {
        TokenInstruction::Burn {
            mint: MintKind::Lp,
            from: TokenHolder::UserLp,
            authority: Authority::User,
            amount,
            config_signs: true,
        }
    }

    /// The transfer that moves `amount` of X (`is_x`) or Y from the pool's
    /// vault to the user's account, checked against the mint's decimals.
    pub fn withdraw_tokens(&self, amount: u64, is_x: bool) -> (r: TokenInstruction)
        ensures
            r == self.spec_withdraw_tokens(amount, is_x),
    {
        if is_x {
            TokenInstruction::TransferChecked {
                from: TokenHolder::VaultX,
                to: TokenHolder::UserX,
                mint: MintKind::X,
                authority: Authority::Config,
                amount,
                decimals: self.mint_x_decimals,
                config_signs: true,
            }
        } else {
            TokenInstruction::TransferChecked {
                from: TokenHolder::VaultY,
                to: TokenHolder::UserY,
                mint: MintKind::Y,
                authority: Authority::Config,
                amount,
                decimals: self.mint_y_decimals,
                config_signs: true,
            }
        }
    }
}

} // verus!
