//! Swapping one token of the pair for the other along the constant-product
//! curve.
use vstd::prelude::*;

use crate::curve::{LiquidityPair, SwapQuery, SwapResult};
use crate::error::{curve_error_to_amm, AmmError, CurveError};
use crate::state::Config;
use crate::token::{Authority, MintKind, TokenHolder, TokenInstruction};

verus! {

/// What a swap reads of the pool's accounts.
#[derive(Debug, Clone, Copy, PartialEq, Eq, Structural)]
pub struct Swap {
    pub config: Config,
    /// Supply of the LP mint.
    pub mint_lp_supply: u64,
    /// Balance of the X vault.
    pub vault_x_amount: u64,
    /// Balance of the Y vault.
    pub vault_y_amount: u64,
    pub mint_x_decimals: u8,
    pub mint_y_decimals: u8,
}

impl Swap {
    /// The transfer of `amount` of X (or Y) from the user into its vault,
    /// authorised by the user.
    pub open spec fn spec_deposit_token(self, is_x: bool, amount: u64) -> TokenInstruction {
        if is_x {
            TokenInstruction::TransferChecked {
                from: TokenHolder::UserX,
                to: TokenHolder::VaultX,
                mint: MintKind::X,
                authority: Authority::User,
                amount,
                decimals: self.mint_x_decimals,
                config_signs: false,
            }
        } else {
            TokenInstruction::TransferChecked {
                from: TokenHolder::UserY,
                to: TokenHolder::VaultY,
                mint: MintKind::Y,
                authority: Authority::User,
                amount,
                decimals: self.mint_y_decimals,
                config_signs: false,
            }
        }
    }

    /// The transfer of `amount` of X (or Y) from its vault to the user,
    /// authorised and signed by the configuration PDA.
    pub open spec fn spec_withdraw_token(self, is_x: bool, amount: u64) -> TokenInstruction {
        if is_x {
            TokenInstruction::TransferChecked {
                from: TokenHolder::VaultX,
                to: TokenHolder::UserX,
                mint: MintKind::X,
                authority: Authority::Config,
                amount,
                decimals: self.mint_x_decimals,
                config_signs: true,
            }
        } else {
            TokenInstruction::TransferChecked {
                from: TokenHolder::VaultY,
                to: TokenHolder::UserY,
                mint: MintKind::Y,
                authority: Authority::Config,
                amount,
                decimals: self.mint_y_decimals,
                config_signs: true,
            }
        }
    }

    /// Pay `paid` of the input token (X when `is_x`) into its vault, then pay
    /// `received` of the other token out to the user.
    pub open spec fn swap_plan(self, is_x: bool, paid: u64, received: u64) -> Seq<
        TokenInstruction,
    > {
        seq![self.spec_deposit_token(is_x, paid), self.spec_withdraw_token(!is_x, received)]
    }

    /// The curve set up on the pool's reserves, supply and fee, swapping
    /// `amount_in` of the input side with `min_amount_out` as the least output.
    pub open spec fn swap_query(self, is_x: bool, amount_in: u64, min_amount_out: u64) -> SwapQuery {
        SwapQuery {
            x: self.vault_x_amount,
            y: self.vault_y_amount,
            l: self.mint_lp_supply,
            fee: self.config.fee,
            precision: None,
            pair: if is_x {
                LiquidityPair::X
            } else {
                LiquidityPair::Y
            },
            amount: amount_in,
            min: min_amount_out,
        }
    }

    /// The outcome of a swap, where `curve` is what the curve answers for
    /// `swap_query(is_x, amount_in, min_amount_out)`.
    pub open spec fn swap_outcome(
        self,
        is_x: bool,
        amount_in: u64,
        curve: Result<SwapResult, CurveError>,
    ) -> Result<Seq<TokenInstruction>, AmmError> {
        if self.config.locked {
            Err(AmmError::PoolLocked)
        } else if amount_in == 0 {
            Err(AmmError::InvalidAmount)
        } else {
            match curve {
                Err(e) => Err(curve_error_to_amm(e)),
                Ok(res) => if res.deposit == 0 || res.withdraw == 0 {
                    Err(AmmError::InvalidAmount)
                } else {
                    Ok(self.swap_plan(is_x, res.deposit, res.withdraw))
                },
            }
        }
    }

    /// Starts a swap of `amount_in` of X (`is_x`) or Y for the other token,
    /// for at least `min_amount_out`. Refused while the pool is locked or for
    /// a zero input; otherwise the curve must compute the swap, with whose
    /// answer `swap_quoted` finishes it.
    pub fn swap(&self, is_x: bool, amount_in: u64, min_amount_out: u64) -> (r: Result<
        SwapQuery,
        AmmError,
    >)
        ensures
            self.config.locked ==> r == Err::<SwapQuery, AmmError>(AmmError::PoolLocked),
            !self.config.locked && amount_in == 0 ==> r == Err::<SwapQuery, AmmError>(
                AmmError::InvalidAmount,
            ),
            !self.config.locked && amount_in != 0 ==> r == Ok::<SwapQuery, AmmError>(
                self.swap_query(is_x, amount_in, min_amount_out),
            ),
            !self.config.locked && amount_in != 0 ==> (r matches Ok(q) && q.x
                == self.vault_x_amount && q.y == self.vault_y_amount && q.l == self.mint_lp_supply
                && q.fee == self.config.fee && q.precision == None::<u8> && q.amount == amount_in
                && q.min == min_amount_out && (q.pair == LiquidityPair::X <==> is_x)),
    {
        if self.config.locked {
            return Err(AmmError::PoolLocked);
        }
        if amount_in == 0 {
            return Err(AmmError::InvalidAmount);
        }
        let pair = if is_x {
            LiquidityPair::X
        } else {
            LiquidityPair::Y
        };
        Ok(
            SwapQuery {
                x: self.vault_x_amount,
                y: self.vault_y_amount,
                l: self.mint_lp_supply,
                fee: self.config.fee,
                precision: None,
                pair,
                amount: amount_in,
                min: min_amount_out,
            },
        )
    }

    /// The whole swap decision, given what the curve answers for
    /// `swap_query(is_x, amount_in, min_amount_out)`: the instructions to
    /// carry out, or the error with which the swap is refused.
    pub fn swap_quoted(&self, is_x: bool, amount_in: u64, curve: Result<SwapResult, CurveError>) -> (r:
        Result<Vec<TokenInstruction>, AmmError>)
        ensures
            match r {
                Ok(plan) => self.swap_outcome(is_x, amount_in, curve) == Ok::<
                    Seq<TokenInstruction>,
                    AmmError,
                >(plan@),
                Err(e) => self.swap_outcome(is_x, amount_in, curve) == Err::<
                    Seq<TokenInstruction>,
                    AmmError,
                >(e),
            },
            curve matches Ok(res) ==> (!self.config.locked && amount_in != 0 && res.deposit != 0
                && res.withdraw != 0 ==> (r matches Ok(p) && {
                &&& p@.len() == 2
                &&& p@[0] matches TokenInstruction::TransferChecked {
                    from: f,
                    to: t,
                    amount: a,
                    ..
                } && a == res.deposit && f == (if is_x {
                    TokenHolder::UserX
                } else {
                    TokenHolder::UserY
                }) && t == (if is_x {
                    TokenHolder::VaultX
                } else {
                    TokenHolder::VaultY
                })
                &&& p@[1] matches TokenInstruction::TransferChecked {
                    from: f2,
                    to: t2,
                    amount: b,
                    ..
                } && b == res.withdraw && f2 == (if is_x {
                    TokenHolder::VaultY
                } else {
                    TokenHolder::VaultX
                }) && t2 == (if is_x {
                    TokenHolder::UserY
                } else {
                    TokenHolder::UserX
                })
            })),
            !self.config.locked && amount_in != 0 && (curve matches Ok(res) ==> res.deposit == 0
                || res.withdraw == 0) ==> r is Err,
    {
        if self.config.locked {
            return Err(AmmError::PoolLocked);
        }
        if amount_in == 0 {
            return Err(AmmError::InvalidAmount);
        }
        let res = match curve {
            Ok(res) => res,
            Err(e) => {
                return Err(AmmError::from(e));
            },
        };
        if res.deposit == 0 {
            return Err(AmmError::InvalidAmount);
        }
        if res.withdraw == 0 {
            return Err(AmmError::InvalidAmount);
        }
        let mut plan: Vec<TokenInstruction> = Vec::new();
        plan.push(self.deposit_token(is_x, res.deposit));
        plan.push(self.withdraw_token(!is_x, res.withdraw));
        assert(plan@ =~= self.swap_plan(is_x, res.deposit, res.withdraw));
        Ok(plan)
    }

    /// The transfer that moves `amount` of X (`is_x`) or Y from the user's
    /// account into the pool's vault.
    pub fn deposit_token(&self, is_x: bool, amount: u64) -> (r: TokenInstruction)
        ensures
            r == self.spec_deposit_token(is_x, amount),
    {
        if is_x {
            TokenInstruction::TransferChecked {
                from: TokenHolder::UserX,
                to: TokenHolder::VaultX,
                mint: MintKind::X,
                authority: Authority::User,
                amount,
                decimals: self.mint_x_decimals,
                config_signs: false,
            }
        } else {
            TokenInstruction::TransferChecked {
                from: TokenHolder::UserY,
                to: TokenHolder::VaultY,
                mint: MintKind::Y,
                authority: Authority::User,
                amount,
                decimals: self.mint_y_decimals,
                config_signs: false,
            }
        }
    }

    /// The transfer that moves `amount` of X (`is_x`) or Y from the pool's
    /// vault to the user's account, signed by the configuration PDA.
    pub fn withdraw_token(&self, is_x: bool, amount: u64) -> (r: TokenInstruction)
        ensures
            r == self.spec_withdraw_token(is_x, amount),
    {
        if is_x {
            TokenInstruction::TransferChecked {
                from: TokenHolder::VaultX,
                to: TokenHolder::UserX,
                mint: MintKind::X,
                authority: Authority::Config,
                amount,
                decimals: self.mint_x_decimals,
                config_signs: true,
            }
        } else {
            TokenInstruction::TransferChecked {
                from: TokenHolder::VaultY,
                to: TokenHolder::UserY,
                mint: MintKind::Y,
                authority: Authority::Config,
                amount,
                decimals: self.mint_y_decimals,
                config_signs: true,
            }
        }
    }
}

} // verus!
