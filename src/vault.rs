use vstd::prelude::*;

use crate::address::Address;
use crate::state::{Vault, VaultInitialized};

verus! {

/// The accounts a vault's creation reads, as plain values.
#[derive(Clone, Copy, Debug)]
pub struct InitializeVault {
    /// The owner-to-be, who signed the request.
    pub merchant: Address,
    /// The token mint the vault will hold.
    pub mint: Address,
    /// The address derived for the vault from the owner and the mint.
    pub vault_key: Address,
    /// The derivation proof found for `vault_key`.
    pub vault_bump: u8,
    /// The vault's new holding account.
    pub vault_ata: Address,
}

/// The record of a vault created from `ctx`.
pub open spec fn vault_record(ctx: InitializeVault) -> Vault {
    Vault { merchant: ctx.merchant, mint: ctx.mint, bump: ctx.vault_bump }
}

/// Builds the record of a new vault, bound to its owner and mint, and the
/// audit record of its creation.
pub fn initialize_vault(ctx: &InitializeVault) -> (r: (Vault, VaultInitialized))
    ensures
        r.0 == vault_record(*ctx),
        r.1 == (VaultInitialized {
            merchant: ctx.merchant,
            mint: ctx.mint,
            vault: ctx.vault_key,
            vault_ata: ctx.vault_ata,
        }),
{
    let vault = Vault { merchant: ctx.merchant, mint: ctx.mint, bump: ctx.vault_bump };
    let event = VaultInitialized {
        merchant: vault.merchant,
        mint: vault.mint,
        vault: ctx.vault_key,
        vault_ata: ctx.vault_ata,
    };
    (vault, event)
}

/// Whether the vault at index `i` belongs to the pair (`merchant`, `mint`).
pub open spec fn holds_pair(vaults: Seq<Vault>, i: int, merchant: Address, mint: Address) -> bool {
    0 <= i < vaults.len() && vaults[i].merchant == merchant && vaults[i].mint == mint
}

/// No two vaults share an (owner, mint) pair.
pub open spec fn pairs_unique(vaults: Seq<Vault>) -> bool {
    forall|i: int, j: int|
        #![trigger vaults[i], vaults[j]]
        0 <= i < vaults.len() && 0 <= j < vaults.len() && vaults[i].merchant == vaults[j].merchant
            && vaults[i].mint == vaults[j].mint ==> i == j
}

/// The vaults after a request to create one from `ctx`, and the id that the
/// request yields: the existing vault of the pair when there is one, else a
/// new vault appended at the end.
pub open spec fn open_result(vaults: Seq<Vault>, ctx: InitializeVault) -> (Seq<Vault>, int) {
    if exists|i: int| holds_pair(vaults, i, ctx.merchant, ctx.mint) {
        (vaults, choose|i: int| holds_pair(vaults, i, ctx.merchant, ctx.mint))
    } else {
        (vaults.push(vault_record(ctx)), vaults.len() as int)
    }
}

/// The vaults that exist, one per (owner, mint) pair; a vault's id is its
/// index.
#[derive(Clone, Debug)]
pub struct VaultRegistry {
    vaults: Vec<Vault>,
}

impl View for VaultRegistry {
    type V = Seq<Vault>;

    closed spec fn view(&self) -> Seq<Vault> {
        self.vaults@
    }
}

impl VaultRegistry {
    pub open spec fn wf(&self) -> bool {
        pairs_unique(self@)
    }

    pub fn new() -> (r: VaultRegistry)
        ensures
            r@ == Seq::<Vault>::empty(),
            r.wf(),
    {
        VaultRegistry { vaults: Vec::new() }
    }

    /// The number of vaults.
    pub fn len(&self) -> (r: usize)
        ensures
            r == self@.len(),
    {
        self.vaults.len()
    }

    /// The vault with id `id`, when there is one.
    pub fn get(&self, id: usize) -> (r: Option<Vault>)
        ensures
            id < self@.len() ==> r == Some(self@[id as int]),
            id >= self@.len() ==> r is None,
    {
        if id < self.vaults.len() {
            Some(self.vaults[id])
        } else {
            None
        }
    }

    /// The id of the vault of the pair (`merchant`, `mint`), when there is one.
    pub fn find(&self, merchant: &Address, mint: &Address) -> (r: Option<usize>)
        ensures
            r matches Some(i) ==> holds_pair(self@, i as int, *merchant, *mint),
            r is None ==> !exists|i: int| holds_pair(self@, i, *merchant, *mint),
    {
        let mut i: usize = 0;
        while i < self.vaults.len()
            invariant
                i <= self.vaults@.len(),
                forall|j: int| 0 <= j < i ==> !holds_pair(self.vaults@, j, *merchant, *mint),
            decreases self.vaults@.len() - i,
        {
            let v = &self.vaults[i];
            if v.merchant == *merchant && v.mint == *mint {
                return Some(i);
            }
            i = i + 1;
        }
        None
    }

    /// Creates the vault of the pair in `ctx` unless it exists already.
    /// Returns the vault's id, and the audit record when the vault is new.
    /// Asking twice for one pair yields one vault and one id.
    pub fn open(&mut self, ctx: &InitializeVault) -> (r: (usize, Option<VaultInitialized>))
        requires
            old(self).wf(),
            old(self)@.len() < usize::MAX,
        ensures
            final(self).wf(),
            (final(self)@, r.0 as int) == open_result(old(self)@, *ctx),
            r.1 is Some <==> !exists|i: int| holds_pair(old(self)@, i, ctx.merchant, ctx.mint),
            r.1 matches Some(e) ==> e == (VaultInitialized {
                merchant: ctx.merchant,
                mint: ctx.mint,
                vault: ctx.vault_key,
                vault_ata: ctx.vault_ata,
            }),
    {
        match self.find(&ctx.merchant, &ctx.mint) {
            Some(i) => {
                proof {
                    let c = choose|k: int| holds_pair(self@, k, ctx.merchant, ctx.mint);
                    assert(self@[c] == self@[i as int]);
                }
                (i, None)
            },
            None => {
                let (vault, event) = initialize_vault(ctx);
                let id = self.vaults.len();
                self.vaults.push(vault);
                proof {
                    assert forall|a: int, b: int|
                        #![trigger self@[a], self@[b]]
                        0 <= a < self@.len() && 0 <= b < self@.len() && self@[a].merchant
                            == self@[b].merchant && self@[a].mint == self@[b].mint implies a
                        == b by {
                        if a < id && b < id {
                            assert(old(self)@[a] == self@[a]);
                            assert(old(self)@[b] == self@[b]);
                        } else if a < id {
                            assert(holds_pair(old(self)@, a, ctx.merchant, ctx.mint));
                        } else if b < id {
                            assert(holds_pair(old(self)@, b, ctx.merchant, ctx.mint));
                        }
                    }
                }
                (id, Some(event))
            },
        }
    }
}

/// Vault derivation is idempotent: in a registry where each pair has at most
/// one vault, creating the vault of a pair and then asking again for the
/// same pair yields the same id and leaves the registry as it was after the
/// first request, with still at most one vault per pair.
pub proof fn lemma_open_idempotent(
    vaults: Seq<Vault>,
    first: InitializeVault,
    second: InitializeVault,
)
    requires
        pairs_unique(vaults),
        first.merchant == second.merchant,
        first.mint == second.mint,
    ensures
        ({
            let (after_first, id_first) = open_result(vaults, first);
            let (after_second, id_second) = open_result(after_first, second);
            &&& id_second == id_first
            &&& after_second == after_first
            &&& pairs_unique(after_first)
            &&& holds_pair(after_first, id_first, first.merchant, first.mint)
        }),
{
    let (s1, i1) = open_result(vaults, first);
    if exists|i: int| holds_pair(vaults, i, first.merchant, first.mint) {
        assert(holds_pair(s1, i1, first.merchant, first.mint));
    } else {
        assert(holds_pair(s1, i1, first.merchant, first.mint));
        assert forall|a: int, b: int|
            #![trigger s1[a], s1[b]]
            0 <= a < s1.len() && 0 <= b < s1.len() && s1[a].merchant == s1[b].merchant && s1[a].mint
                == s1[b].mint implies a == b by {
            if a < vaults.len() && b < vaults.len() {
                assert(vaults[a] == s1[a]);
                assert(vaults[b] == s1[b]);
            } else if a < vaults.len() {
                assert(holds_pair(vaults, a, first.merchant, first.mint));
            } else if b < vaults.len() {
                assert(holds_pair(vaults, b, first.merchant, first.mint));
            }
        }
    }
    assert(exists|i: int| holds_pair(s1, i, second.merchant, second.mint));
    let i2 = choose|i: int| holds_pair(s1, i, second.merchant, second.mint);
    assert(s1[i2] == s1[i1]);
}

} // verus!
