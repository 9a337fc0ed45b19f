//! The pool's configuration and the seeds with which its PDA signs.
use vstd::prelude::*;

verus! {

/// Settings of one pool, as stored in its configuration account.
#[derive(Debug, Clone, Copy, PartialEq, Eq, Structural)]
pub struct Config {
    /// Seed from which the configuration PDA is derived.
    pub seed: u64,
    /// Trading fee in basis points.
    pub fee: u16,
    /// While set, deposits, withdrawals and swaps are refused.
    pub locked: bool,
    /// Bump of the configuration PDA.
    pub config_bump: u8,
    /// Bump of the LP mint PDA.
    pub lp_bump: u8,
}

/// The `n` low bytes of `v`, least significant first.
pub open spec fn le_bytes(v: nat, n: nat) -> Seq<u8>
    decreases n,
{
    if n == 0 {
        Seq::empty()
    } else {
        seq![(v % 256) as u8] + le_bytes(v / 256, (n - 1) as nat)
    }
}

/// The ASCII bytes of `config`, the first seed of the configuration PDA.
pub open spec fn config_seed_prefix() -> Seq<u8> {
    seq![99u8, 111u8, 110u8, 102u8, 105u8, 103u8]
}

/// The signer seeds of the configuration PDA: `config`, the seed in eight
/// little-endian bytes, and the bump.
pub open spec fn spec_signer_seeds(c: Config) -> Seq<Seq<u8>> {
    seq![config_seed_prefix(), le_bytes(c.seed as nat, 8), seq![c.config_bump]]
}

/// Eight little-endian bytes of `v`.
pub fn u64_le_bytes(v: u64) -> (r: Vec<u8>)
    ensures
        r@ == le_bytes(v as nat, 8),
{
    let mut out: Vec<u8> = Vec::new();
    let mut rest: u64 = v;
    let mut i: usize = 0;
    while i < 8
        invariant
            i <= 8,
            out@ + le_bytes(rest as nat, (8 - i) as nat) == le_bytes(v as nat, 8),
        decreases 8 - i,
    {
        let byte: u8 = (rest % 256) as u8;
        proof {
            let tail = le_bytes(rest as nat, (8 - i) as nat);
            assert(tail == seq![byte] + le_bytes((rest / 256) as nat, (8 - i - 1) as nat));
            assert(out@.push(byte) + le_bytes((rest / 256) as nat, (8 - i - 1) as nat)
                =~= out@ + tail);
        }
        out.push(byte);
        rest = rest / 256;
        i = i + 1;
    }
    proof {
        assert(out@ + le_bytes(rest as nat, 0) =~= out@);
    }
    out
}

impl Config {
    /// The seeds with which the configuration PDA signs token-program calls.
    pub fn signer_seeds(&self) -> (r: Vec<Vec<u8>>)
        ensures
            r@.len() == 3,
            forall|i: int| 0 <= i < 3 ==> #[trigger] r@[i]@ == spec_signer_seeds(*self)[i],
    {
        let prefix: Vec<u8> = vec![99u8, 111u8, 110u8, 102u8, 105u8, 103u8];
        let seed_bytes = u64_le_bytes(self.seed);
        let bump: Vec<u8> = vec![self.config_bump];
        assert(prefix@ =~= config_seed_prefix());
        assert(bump@ =~= seq![self.config_bump]);
        let mut r: Vec<Vec<u8>> = Vec::new();
        r.push(prefix);
        r.push(seed_bytes);
        r.push(bump);
        r
    }
}

} // verus!
