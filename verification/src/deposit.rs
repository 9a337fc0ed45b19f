//! Providing liquidity: the user pays X and Y into the vaults and receives LP
//! tokens.
use vstd::prelude::*;

use crate::curve::{LiquidityStep, XYAmounts, XYQuery, LIQUIDITY_PRECISION};
use crate::error::AmmError;
use crate::state::Config;
use crate::token::{Authority, MintKind, TokenHolder, TokenInstruction};

verus! {

/// What a deposit reads of the pool's accounts.
#[derive(Debug, Clone, Copy, PartialEq, Eq, Structural)]
pub struct Deposit {
    pub config: Config,
    /// Supply of the LP mint.
    pub mint_lp_supply: u64,
    /// Balance of the X vault.
    pub vault_x_amount: u64,
    /// Balance of the Y vault.
    pub vault_y_amount: u64,
    pub mint_x_decimals: u8,
    pub mint_y_decimals: u8,
}

impl Deposit {
    /// No LP token has been issued and both vaults are empty: the deposit
    /// sets the pool's initial price.
    pub open spec fn is_first_deposit(self) -> bool {
        self.mint_lp_supply == 0 && self.vault_x_amount == 0 && self.vault_y_amount == 0
    }

    /// The transfer of `amount` of X (or Y) from the user into its vault,
    /// authorised by the user.
    pub open spec fn spec_deposit_tokens(self, is_x: bool, amount: u64) -> TokenInstruction {
        if is_x {
            TokenInstruction::TransferChecked {
                from: TokenHolder::UserX,
                to: TokenHolder::VaultX,
                mint: MintKind::X,
                authority: Authority::User,
                amount,
                decimals: self.mint_x_decimals,
                config_signs: false,
            }
        } else {
            TokenInstruction::TransferChecked {
                from: TokenHolder::UserY,
                to: TokenHolder::VaultY,
                mint: MintKind::Y,
                authority: Authority::User,
                amount,
                decimals: self.mint_y_decimals,
                config_signs: false,
            }
        }
    }

    /// Minting `amount` LP tokens to the user, authorised and signed by the
    /// configuration PDA.
    pub open spec fn spec_mint_lp_tokens(self, amount: u64) -> TokenInstruction {
        TokenInstruction::MintTo {
            mint: MintKind::Lp,
            to: TokenHolder::UserLp,
            authority: Authority::Config,
            amount,
            config_signs: true,
        }
    }

    /// Pay `x` and `y` into the vaults, then mint `lp` LP tokens to the user.
    pub open spec fn deposit_plan(self, x: u64, y: u64, lp: u64) -> Seq<TokenInstruction> {
        seq![
            self.spec_deposit_tokens(true, x),
            self.spec_deposit_tokens(false, y),
            self.spec_mint_lp_tokens(lp),
        ]
    }

    /// The curve computation of the amounts that go with `amount` new LP tokens.
    pub open spec fn deposit_query(self, amount: u64) -> XYQuery {
        XYQuery {
            x: self.vault_x_amount,
            y: self.vault_y_amount,
            l: self.mint_lp_supply,
            a: amount,
            precision: LIQUIDITY_PRECISION,
        }
    }

    /// The amounts a deposit pays in: the user's maxima on the first deposit,
    /// the curve's answer otherwise.
    pub open spec fn deposit_amounts(self, max_x: u64, max_y: u64, quote: XYAmounts) -> XYAmounts {
        if self.is_first_deposit() {
            XYAmounts { x: max_x, y: max_y }
        } else {
            quote
        }
    }

    /// The outcome of a deposit of `amount` LP tokens with the given maxima,
    /// where `quote` is what the curve answers for `deposit_query(amount)`.
    pub open spec fn deposit_outcome(self, amount: u64, max_x: u64, max_y: u64, quote: XYAmounts)
        -> Result<Seq<TokenInstruction>, AmmError> {
        let xy = self.deposit_amounts(max_x, max_y, quote);
        if self.config.locked {
            Err(AmmError::PoolLocked)
        } else if amount == 0 {
            Err(AmmError::InvalidAmount)
        } else if !(xy.x <= max_x && xy.y <= max_y) {
            Err(AmmError::SlippageExceeded)
        } else {
            Ok(self.deposit_plan(xy.x, xy.y, amount))
        }
    }

    /// Starts a deposit of `amount` LP tokens for at most `max_x` of X and
    /// `max_y` of Y. Refused while the pool is locked or for no LP tokens. On
    /// the first deposit the user's maxima are paid in as they are; otherwise
    /// the curve must first give the proportional amounts, with which
    /// `deposit_quoted` finishes the deposit.
    pub fn deposit(&self, amount: u64, max_x: u64, max_y: u64) -> (r: Result<LiquidityStep, AmmError>)
        ensures
            self.config.locked ==> r == Err::<LiquidityStep, AmmError>(AmmError::PoolLocked),
            !self.config.locked && amount == 0 ==> r == Err::<LiquidityStep, AmmError>(
                AmmError::InvalidAmount,
            ),
            !self.config.locked && amount != 0 && self.is_first_deposit() ==> (r matches Ok(
                LiquidityStep::Execute(plan),
            ) && plan@ == self.deposit_plan(max_x, max_y, amount)),
            !self.config.locked && amount != 0 && !self.is_first_deposit() ==> r == Ok::<
                LiquidityStep,
                AmmError,
            >(LiquidityStep::Quote(self.deposit_query(amount))),
            !self.config.locked && amount != 0 && !(self.mint_lp_supply == 0 && self.vault_x_amount
                == 0 && self.vault_y_amount == 0) ==> (r matches Ok(LiquidityStep::Quote(q))
                && q.x == self.vault_x_amount && q.y == self.vault_y_amount && q.l
                == self.mint_lp_supply && q.a == amount && q.precision == 6),
    {
        if self.config.locked {
            return Err(AmmError::PoolLocked);
        }
        if amount == 0 {
            return Err(AmmError::InvalidAmount);
        }
        if self.mint_lp_supply == 0 && self.vault_x_amount == 0 && self.vault_y_amount == 0 {
            Ok(LiquidityStep::Execute(self.plan(max_x, max_y, amount)))
        } else {
            Ok(
                LiquidityStep::Quote(
                    XYQuery {
                        x: self.vault_x_amount,
                        y: self.vault_y_amount,
                        l: self.mint_lp_supply,
                        a: amount,
                        precision: LIQUIDITY_PRECISION,
                    },
                ),
            )
        }
    }

    /// The whole deposit decision, given what the curve answers for
    /// `deposit_query(amount)` (not read on the first deposit): the
    /// instructions to carry out, or the error with which it is refused.
    pub fn deposit_quoted(&self, amount: u64, max_x: u64, max_y: u64, quote: XYAmounts) -> (r:
        Result<Vec<TokenInstruction>, AmmError>)
        ensures
            match r {
                Ok(plan) => self.deposit_outcome(amount, max_x, max_y, quote) == Ok::<
                    Seq<TokenInstruction>,
                    AmmError,
                >(plan@),
                Err(e) => self.deposit_outcome(amount, max_x, max_y, quote) == Err::<
                    Seq<TokenInstruction>,
                    AmmError,
                >(e),
            },
            !self.config.locked && amount != 0 && !(self.mint_lp_supply == 0 && self.vault_x_amount
                == 0 && self.vault_y_amount == 0) ==> {
                &&& (r is Ok <==> (quote.x <= max_x && quote.y <= max_y))
                &&& (r is Err ==> r == Err::<Vec<TokenInstruction>, AmmError>(
                    AmmError::SlippageExceeded,
                ))
                &&& (r matches Ok(p) ==> {
                    &&& p@.len() == 3
                    &&& p@[0] matches TokenInstruction::TransferChecked {
                        from: TokenHolder::UserX,
                        to: TokenHolder::VaultX,
                        amount: a,
                        ..
                    } && a == quote.x
                    &&& p@[1] matches TokenInstruction::TransferChecked {
                        from: TokenHolder::UserY,
                        to: TokenHolder::VaultY,
                        amount: b,
                        ..
                    } && b == quote.y
                    &&& p@[2] matches TokenInstruction::MintTo {
                        to: TokenHolder::UserLp,
                        amount: c,
                        ..
                    } && c == amount
                })
            },
    {
        if self.config.locked {
            return Err(AmmError::PoolLocked);
        }
        if amount == 0 {
            return Err(AmmError::InvalidAmount);
        }
        let (x, y) = if self.mint_lp_supply == 0 && self.vault_x_amount == 0
            && self.vault_y_amount == 0 {
            (max_x, max_y)
        } else {
            (quote.x, quote.y)
        };
        if !(x <= max_x && y <= max_y) {
            return Err(AmmError::SlippageExceeded);
        }
        Ok(self.plan(x, y, amount))
    }

    fn plan(&self, x: u64, y: u64, lp: u64) -> (r: Vec<TokenInstruction>)
        ensures
            r@ == self.deposit_plan(x, y, lp),
    {
        let mut r: Vec<TokenInstruction> = Vec::new();
        r.push(self.deposit_tokens(true, x));
        r.push(self.deposit_tokens(false, y));
        r.push(self.mint_lp_tokens(lp));
        assert(r@ =~= self.deposit_plan(x, y, lp));
        r
    }

    /// The transfer that moves `amount` of X (`is_x`) or Y from the user's
    /// account into the pool's vault, checked against the mint's decimals.
    pub fn deposit_tokens(&self, is_x: bool, amount: u64) -> (r: TokenInstruction)
        ensures
            r == self.spec_deposit_tokens(is_x, amount),
    {
        if is_x {
            TokenInstruction::TransferChecked {
                from: TokenHolder::UserX,
                to: TokenHolder::VaultX,
                mint: MintKind::X,
                authority: Authority::User,
                amount,
                decimals: self.mint_x_decimals,
                config_signs: false,
            }
        } else {
            TokenInstruction::TransferChecked {
                from: TokenHolder::UserY,
                to: TokenHolder::VaultY,
                mint: MintKind::Y,
                authority: Authority::User,
                amount,
                decimals: self.mint_y_decimals,
                config_signs: false,
            }
        }
    }

    /// Minting `amount` LP tokens to the user as the receipt for the
    /// liquidity, with the configuration PDA as mint authority.
    pub fn mint_lp_tokens(&self, amount: u64) -> (r: TokenInstruction)
        ensures
            r == self.spec_mint_lp_tokens(amount),
    {
        TokenInstruction::MintTo {
            mint: MintKind::Lp,
            to: TokenHolder::UserLp,
            authority: Authority::Config,
            amount,
            config_signs: true,
        }
    }
}

} // verus!
