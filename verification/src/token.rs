//! Token-program instructions that carry out a pool operation, and what each
//! does to the balances involved.
use vstd::prelude::*;

verus! {

/// A token account taking part in a pool operation.
#[derive(Debug, Clone, Copy, PartialEq, Eq, Structural)]
pub enum TokenHolder {
    UserX,
    UserY,
    UserLp,
    VaultX,
    VaultY,
}

/// A mint taking part in a pool operation.
#[derive(Debug, Clone, Copy, PartialEq, Eq, Structural)]
pub enum MintKind {
    X,
    Y,
    Lp,
}

/// Who authorises a token-program call.
#[derive(Debug, Clone, Copy, PartialEq, Eq, Structural)]
pub enum Authority {
    /// The user who signs the transaction.
    User,
    /// The pool's configuration PDA.
    Config,
}

/// One call into the token program. `config_signs` says whether the call is
/// made with the configuration PDA's signer seeds.
#[derive(Debug, Clone, Copy, PartialEq, Eq, Structural)]
pub enum TokenInstruction {
    TransferChecked {
        from: TokenHolder,
        to: TokenHolder,
        mint: MintKind,
        authority: Authority,
        amount: u64,
        decimals: u8,
        config_signs: bool,
    },
    MintTo {
        mint: MintKind,
        to: TokenHolder,
        authority: Authority,
        amount: u64,
        config_signs: bool,
    },
    Burn {
        mint: MintKind,
        from: TokenHolder,
        authority: Authority,
        amount: u64,
        config_signs: bool,
    },
}

/// Balances of the accounts that pool operations touch, and the LP supply.
pub struct Ledger {
    pub user_x: int,
    pub user_y: int,
    pub user_lp: int,
    pub vault_x: int,
    pub vault_y: int,
    pub lp_supply: int,
}

impl Ledger {
    /// Every balance and the supply is a `u64`.
    pub open spec fn is_valid(self) -> bool {
        &&& 0 <= self.user_x <= u64::MAX
        &&& 0 <= self.user_y <= u64::MAX
        &&& 0 <= self.user_lp <= u64::MAX
        &&& 0 <= self.vault_x <= u64::MAX
        &&& 0 <= self.vault_y <= u64::MAX
        &&& 0 <= self.lp_supply <= u64::MAX
    }

    pub open spec fn balance(self, h: TokenHolder) -> int {
        match h {
            TokenHolder::UserX => self.user_x,
            TokenHolder::UserY => self.user_y,
            TokenHolder::UserLp => self.user_lp,
            TokenHolder::VaultX => self.vault_x,
            TokenHolder::VaultY => self.vault_y,
        }
    }

    /// The ledger with the balance of `h` moved by `delta`.
    pub open spec fn credit(self, h: TokenHolder, delta: int) -> Ledger {
        match h {
            TokenHolder::UserX => Ledger { user_x: self.user_x + delta, ..self },
            TokenHolder::UserY => Ledger { user_y: self.user_y + delta, ..self },
            TokenHolder::UserLp => Ledger { user_lp: self.user_lp + delta, ..self },
            TokenHolder::VaultX => Ledger { vault_x: self.vault_x + delta, ..self },
            TokenHolder::VaultY => Ledger { vault_y: self.vault_y + delta, ..self },
        }
    }

    /// What a successful token-program call does: a transfer moves the amount
    /// from one account to the other, a mint adds it to the account and to the
    /// supply, a burn takes it from the account and from the supply.
    pub open spec fn apply(self, ins: TokenInstruction) -> Ledger {
        match ins {
            TokenInstruction::TransferChecked { from, to, amount, .. } => self.credit(
                from,
                -amount,
            ).credit(to, amount as int),
            TokenInstruction::MintTo { to, amount, .. } => Ledger {
                lp_supply: self.lp_supply + amount,
                ..self.credit(to, amount as int)
            },
            TokenInstruction::Burn { from, amount, .. } => Ledger {
                lp_supply: self.lp_supply - amount,
                ..self.credit(from, -amount)
            },
        }
    }

    /// Whether the token program accepts `ins` on these balances: a transfer
    /// or a burn needs the amount in the source account, and no balance and
    /// no supply may pass the largest `u64`.
    pub open spec fn admits(self, ins: TokenInstruction) -> bool {
        match ins {
            TokenInstruction::TransferChecked { from, to, amount, .. } => self.balance(from)
                >= amount && self.balance(to) + amount <= u64::MAX,
            TokenInstruction::MintTo { to, amount, .. } => self.lp_supply + amount <= u64::MAX
                && self.balance(to) + amount <= u64::MAX,
            TokenInstruction::Burn { from, amount, .. } => self.balance(from) >= amount
                && self.lp_supply >= amount,
        }
    }

    /// Whether the token program accepts every instruction of `plan`, each on
    /// the balances the ones before it leave.
    pub open spec fn admits_all(self, plan: Seq<TokenInstruction>) -> bool
        decreases plan.len(),
    {
        if plan.len() == 0 {
            true
        } else {
            self.admits(plan[0]) && self.apply(plan[0]).admits_all(plan.drop_first())
        }
    }

    /// The ledger after all of `plan`, carried out in order.
    pub open spec fn apply_all(self, plan: Seq<TokenInstruction>) -> Ledger
        decreases plan.len(),
    {
        if plan.len() == 0 {
            self
        } else {
            self.apply(plan[0]).apply_all(plan.drop_first())
        }
    }
}

} // verus!
