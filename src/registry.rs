//! The table of precompiles, the addresses they occupy, and the router that
//! resolves a called address to the precompile serving it.

use vstd::prelude::*;

use crate::address::{hash, lemma_view_injective, Address};

verus! {

/// The precompiled contracts that the router serves, one per address.
#[derive(Clone, Copy, Debug, PartialEq, Eq, Structural)]
pub enum Precompile {
    /// Signature recovery returning the signer's address.
    ECRecover,
    Sha256,
    Ripemd160,
    /// Returns its input unchanged.
    Identity,
    /// Modular exponentiation.
    Modexp,
    /// SHA3-256 as standardised in FIPS 202.
    Sha3Fips256,
    /// Signature recovery returning the signer's public key.
    ECRecoverPublicKey,
    /// The generic native-call dispatcher, guarded by the permission filter.
    Dispatch,
    Governance,
    Treasury,
    Preimage,
    Staking,
    Faucet,
    NominationPools,
    /// Validator rotation and block-production scheduling.
    Babe,
}

/// How many precompiles the table holds.
pub const PRECOMPILE_COUNT: usize = 15;

/// The precompile, if any, at the address numbered `n`.
pub open spec fn precompile_at(n: nat) -> Option<Precompile> {
    if n == 1 {
        Some(Precompile::ECRecover)
    } else if n == 2 {
        Some(Precompile::Sha256)
    } else if n == 3 {
        Some(Precompile::Ripemd160)
    } else if n == 4 {
        Some(Precompile::Identity)
    } else if n == 5 {
        Some(Precompile::Modexp)
    } else if n == 1024 {
        Some(Precompile::Sha3Fips256)
    } else if n == 1025 {
        Some(Precompile::ECRecoverPublicKey)
    } else if n == 1026 {
        Some(Precompile::Dispatch)
    } else if n == 2001 {
        Some(Precompile::Governance)
    } else if n == 2002 {
        Some(Precompile::Treasury)
    } else if n == 2003 {
        Some(Precompile::Preimage)
    } else if n == 2004 {
        Some(Precompile::Staking)
    } else if n == 2005 {
        Some(Precompile::Faucet)
    } else if n == 2006 {
        Some(Precompile::NominationPools)
    } else if n == 2007 {
        Some(Precompile::Babe)
    } else {
        None
    }
}

/// Every precompile, in the order of its address.
pub open spec fn table() -> Seq<Precompile> {
    seq![
        Precompile::ECRecover,
        Precompile::Sha256,
        Precompile::Ripemd160,
        Precompile::Identity,
        Precompile::Modexp,
        Precompile::Sha3Fips256,
        Precompile::ECRecoverPublicKey,
        Precompile::Dispatch,
        Precompile::Governance,
        Precompile::Treasury,
        Precompile::Preimage,
        Precompile::Staking,
        Precompile::Faucet,
        Precompile::NominationPools,
        Precompile::Babe,
    ]
}

/// The addresses occupied by precompiles, in table order.
pub open spec fn registered_addresses() -> Seq<Address> {
    table().map_values(|p: Precompile| Address { high: 0, middle: 0, low: p.spec_number() })
}

impl Precompile {
    /// The number of the address this precompile is bound to.
    pub open spec fn spec_number(self) -> u64 {
        match self {
            Precompile::ECRecover => 1,
            Precompile::Sha256 => 2,
            Precompile::Ripemd160 => 3,
            Precompile::Identity => 4,
            Precompile::Modexp => 5,
            Precompile::Sha3Fips256 => 1024,
            Precompile::ECRecoverPublicKey => 1025,
            Precompile::Dispatch => 1026,
            Precompile::Governance => 2001,
            Precompile::Treasury => 2002,
            Precompile::Preimage => 2003,
            Precompile::Staking => 2004,
            Precompile::Faucet => 2005,
            Precompile::NominationPools => 2006,
            Precompile::Babe => 2007,
        }
    }

    /// Where this precompile stands in `table()`.
    pub open spec fn position(self) -> int {
        match self {
            Precompile::ECRecover => 0,
            Precompile::Sha256 => 1,
            Precompile::Ripemd160 => 2,
            Precompile::Identity => 3,
            Precompile::Modexp => 4,
            Precompile::Sha3Fips256 => 5,
            Precompile::ECRecoverPublicKey => 6,
            Precompile::Dispatch => 7,
            Precompile::Governance => 8,
            Precompile::Treasury => 9,
            Precompile::Preimage => 10,
            Precompile::Staking => 11,
            Precompile::Faucet => 12,
            Precompile::NominationPools => 13,
            Precompile::Babe => 14,
        }
    }

    /// The number of the address this precompile is bound to.
    pub fn number(&self) -> (r: u64)
        ensures
            r == self.spec_number(),
    {
        match self {
            Precompile::ECRecover => 1,
            Precompile::Sha256 => 2,
            Precompile::Ripemd160 => 3,
            Precompile::Identity => 4,
            Precompile::Modexp => 5,
            Precompile::Sha3Fips256 => 1024,
            Precompile::ECRecoverPublicKey => 1025,
            Precompile::Dispatch => 1026,
            Precompile::Governance => 2001,
            Precompile::Treasury => 2002,
            Precompile::Preimage => 2003,
            Precompile::Staking => 2004,
            Precompile::Faucet => 2005,
            Precompile::NominationPools => 2006,
            Precompile::Babe => 2007,
        }
    }

    /// The address this precompile is bound to.
    pub fn address(&self) -> (r: Address)
        ensures
            r == (Address { high: 0, middle: 0, low: self.spec_number() }),
            r@ == self.spec_number() as nat,
    {
        hash(self.number())
    }
}

/// Each precompile sits at its own address and at its own place in the table.
pub proof fn lemma_binding(p: Precompile)
    ensures
        precompile_at(p.spec_number() as nat) == Some(p),
        0 <= p.position() < table().len(),
        table()[p.position()] == p,
{
    lemma_table_positions();
}

/// Each entry of the table is found again at its own position.
pub proof fn lemma_table_positions()
    ensures
        table().len() == PRECOMPILE_COUNT,
        forall|i: int| 0 <= i < table().len() ==> (#[trigger] table()[i]).position() == i,
{
    let t = table();
    assert(t[0].position() == 0);
    assert(t[1].position() == 1);
    assert(t[2].position() == 2);
    assert(t[3].position() == 3);
    assert(t[4].position() == 4);
    assert(t[5].position() == 5);
    assert(t[6].position() == 6);
    assert(t[7].position() == 7);
    assert(t[8].position() == 8);
    assert(t[9].position() == 9);
    assert(t[10].position() == 10);
    assert(t[11].position() == 11);
    assert(t[12].position() == 12);
    assert(t[13].position() == 13);
    assert(t[14].position() == 14);
}

/// The addresses occupied by precompiles hold no address twice.
proof fn lemma_registered_distinct()
    ensures
        registered_addresses().len() == PRECOMPILE_COUNT,
        registered_addresses().no_duplicates(),
{
    lemma_table_positions();
    let r = registered_addresses();
    assert forall|i: int, j: int| 0 <= i < r.len() && 0 <= j < r.len() && i != j implies r[i]
        != r[j] by {
        let (p, q) = (table()[i], table()[j]);
        lemma_binding(p);
        lemma_binding(q);
    }
}

/// An address is one of the occupied addresses exactly when a precompile sits
/// at it: the membership probe and the router never disagree.
pub proof fn lemma_membership_matches_routing(a: Address)
    ensures
        registered_addresses().contains(a) <==> precompile_at(a@) is Some,
{
    let r = registered_addresses();
    if r.contains(a) {
        let i = choose|i: int| 0 <= i < r.len() && r[i] == a;
        lemma_binding(table()[i]);
    }
    if let Some(p) = precompile_at(a@) {
        lemma_binding(p);
        let b = r[p.position()];
        assert(b@ == a@);
        lemma_view_injective(a, b);
        assert(r.contains(a));
    }
}

/// Every precompile, in table order.
pub fn precompiles() -> (r: Vec<Precompile>)
    ensures
        r@ == table(),
{
    let r = vec![
        Precompile::ECRecover,
        Precompile::Sha256,
        Precompile::Ripemd160,
        Precompile::Identity,
        Precompile::Modexp,
        Precompile::Sha3Fips256,
        Precompile::ECRecoverPublicKey,
        Precompile::Dispatch,
        Precompile::Governance,
        Precompile::Treasury,
        Precompile::Preimage,
        Precompile::Staking,
        Precompile::Faucet,
        Precompile::NominationPools,
        Precompile::Babe,
    ];
    assert(r@ =~= table());
    r
}

/// The answer of the membership probe.
#[derive(Clone, Copy, Debug, PartialEq, Eq, Structural)]
pub struct IsPrecompileResult {
    /// Whether a precompile sits at the probed address.
    pub is_precompile: bool,
    /// Gas charged for the probe on top of the call; always zero here.
    pub extra_cost: u64,
}

/// The router: each precompile paired with the address it is bound to, built
/// once from the table and never changed after.
pub struct FrontierPrecompiles {
    entries: Vec<(Address, Precompile)>,
}

impl FrontierPrecompiles {
    /// The router holds exactly the table, each entry beside its address.
    pub closed spec fn wf(&self) -> bool {
        &&& self.entries@.len() == table().len()
        &&& forall|i: int|
            0 <= i < self.entries@.len() ==> #[trigger] self.entries@[i] == (
            registered_addresses()[i],
            table()[i],
        )
    }

    pub fn new() -> (r: Self)
        ensures
            r.wf(),
    {
        let all = precompiles();
        let mut entries: Vec<(Address, Precompile)> = Vec::new();
        for i in 0..all.len()
            invariant
                all@ == table(),
                entries@.len() == i,
                forall|j: int|
                    0 <= j < i ==> #[trigger] entries@[j] == (registered_addresses()[j], table()[j]),
        {
            let p = all[i];
            entries.push((p.address(), p));
        }
        FrontierPrecompiles { entries }
    }

    /// The addresses occupied by precompiles, in table order and without
    /// repetition.
    pub fn used_addresses() -> (r: Vec<Address>)
        ensures
            r@ == registered_addresses(),
            r@.no_duplicates(),
            r@.len() == PRECOMPILE_COUNT,
    {
        proof {
            lemma_registered_distinct();
        }
        let all = precompiles();
        let mut r: Vec<Address> = Vec::new();
        for i in 0..all.len()
            invariant
                all@ == table(),
                r@ =~= registered_addresses().take(i as int),
        {
            r.push(all[i].address());
        }
        assert(r@ =~= registered_addresses());
        r
    }

    /// The precompile that serves calls to `code_address`, or `None` when no
    /// code sits there. Addresses are matched exactly, never by range. The
    /// host hands the whole call context to that precompile's handler and
    /// passes its result on unchanged.
    pub fn execute(&self, code_address: Address) -> (r: Option<Precompile>)
        requires
            self.wf(),
        ensures
            r == precompile_at(code_address@),
            r is Some <==> registered_addresses().contains(code_address),
    {
        proof {
            lemma_membership_matches_routing(code_address);
        }
        for i in 0..self.entries.len()
            invariant
                self.wf(),
                forall|j: int| 0 <= j < i ==> (#[trigger] self.entries@[j]).0 != code_address,
        {
            let (a, p) = self.entries[i];
            if a == code_address {
                proof {
                    lemma_table_positions();
                    assert(registered_addresses()[i as int] == code_address);
                }
                return Some(p);
            }
        }
        proof {
            if let Some(p) = precompile_at(code_address@) {
                let j = p.position();
                assert(self.entries@[j].0 != code_address);
            }
        }
        None
    }

    /// Whether a precompile sits at `address`. Membership is read from
    /// `used_addresses`, the same table that `execute` routes by.
    pub fn is_precompile(&self, address: Address, _gas: u64) -> (r: IsPrecompileResult)
        ensures
            r.is_precompile == registered_addresses().contains(address),
            r.extra_cost == 0,
    {
        let used = Self::used_addresses();
        let mut found = false;
        for i in 0..used.len()
            invariant
                used@ == registered_addresses(),
                found <==> exists|j: int| 0 <= j < i && #[trigger] used@[j] == address,
        {
            if used[i] == address {
                found = true;
            }
        }
        IsPrecompileResult { is_precompile: found, extra_cost: 0 }
    }
}

} // verus!
