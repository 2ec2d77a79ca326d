//! The persisted records and the store that owns them. A deployment holds
//! one `Factory` and any number of `SmartWallet` records, each stored under
//! its derived address. The store is the only component that mutates them;
//! it keeps the addresses unique, each address equal to the derivation from
//! the wallet's own key and nonce, and the factory's `wallet_count` equal to
//! the number of wallets created.

use vstd::prelude::*;

use crate::addressing::{derive_wallet_address, derived_address};
use crate::errors::ErrorCode;

verus! {

/// The per-deployment singleton: who deployed it, and how many wallets it
/// has created. The count never decreases.
#[derive(Clone, Copy, Debug, PartialEq, Eq)]
pub struct Factory {
    pub authority: [u8; 32],
    pub wallet_count: u64,
}

/// One wallet, controlled by a foreign-chain keypair. `factory` points back
/// to the owning factory (identified by its authority), `owner` records the
/// host-chain account that created the wallet, and `is_active` gates
/// transaction execution. Key and nonce are immutable after creation.
#[derive(Clone, Copy, Debug, PartialEq, Eq)]
pub struct SmartWallet {
    pub factory: [u8; 32],
    pub foreign_public_key: [u8; 32],
    pub owner: [u8; 32],
    pub nonce: u64,
    pub is_active: bool,
}

/// Compare two 32-byte strings.
pub(crate) fn bytes32_eq(a: &[u8; 32], b: &[u8; 32]) -> (r: bool)
    ensures
        r == (a@ == b@),
{
    let mut i: usize = 0;
    while i < 32
        invariant
            i <= 32,
            forall|j: int| 0 <= j < i ==> a@[j] == b@[j],
        decreases 32 - i,
    {
        if a[i] != b[i] {
            return false;
        }
        i = i + 1;
    }
    proof {
        assert(a@ =~= b@);
    }
    true
}

/// The owner of every Factory and SmartWallet record of one deployment.
pub struct WalletStateStore {
    factory: Option<Factory>,
    wallets: Vec<([u8; 32], SmartWallet)>,
}

impl WalletStateStore {
    /// The factory record, if the deployment is initialized.
    pub closed spec fn spec_factory(&self) -> Option<Factory> {
        self.factory
    }

    /// The stored (address, wallet) pairs, in creation order.
    pub closed spec fn entries(&self) -> Seq<([u8; 32], SmartWallet)> {
        self.wallets@
    }

    pub open spec fn is_initialized(&self) -> bool {
        self.spec_factory() is Some
    }

    pub open spec fn spec_authority(&self) -> [u8; 32]
        recommends
            self.is_initialized(),
    {
        match self.spec_factory() {
            Some(f) => f.authority,
            None => arbitrary(),
        }
    }

    pub open spec fn spec_wallet_count(&self) -> u64 {
        match self.spec_factory() {
            Some(f) => f.wallet_count,
            None => 0u64,
        }
    }

    /// Whether a wallet lives at `addr`.
    pub open spec fn has_wallet(&self, addr: Seq<u8>) -> bool {
        exists|i: int| 0 <= i < self.entries().len() && self.entries()[i].0@ == addr
    }

    /// The wallet at `addr`.
    pub open spec fn wallet_of(&self, addr: Seq<u8>) -> SmartWallet
        recommends
            self.has_wallet(addr),
    {
        self.entries()[choose|i: int|
            0 <= i < self.entries().len() && self.entries()[i].0@ == addr].1
    }

    /// The store's invariants: addresses are unique and derived from each
    /// wallet's own key and nonce, every wallet points back to the factory,
    /// the count matches the number of wallets, and nothing is stored before
    /// initialization.
    pub open spec fn wf(&self) -> bool {
        &&& forall|i: int, j: int|
            0 <= i < j < self.entries().len() ==> (#[trigger] self.entries()[i].0@) != (
            #[trigger] self.entries()[j].0@)
        &&& forall|i: int|
            0 <= i < self.entries().len() ==> (#[trigger] self.entries()[i].0@)
                == derived_address(
                self.entries()[i].1.foreign_public_key@,
                self.entries()[i].1.nonce,
            )
        &&& forall|i: int|
            0 <= i < self.entries().len() ==> (#[trigger] self.entries()[i].1.factory)
                == self.spec_authority()
        &&& match self.spec_factory() {
            Some(f) => f.wallet_count as int == self.entries().len(),
            None => self.entries().len() == 0,
        }
    }

    /// A matching entry determines `wallet_of`: addresses are unique, so
    /// the chosen index is the given one.
    pub proof fn lemma_wallet_at_index(&self, addr: Seq<u8>, i: int)
        requires
            self.wf(),
            0 <= i < self.entries().len(),
            self.entries()[i].0@ == addr,
        ensures
            self.has_wallet(addr),
            self.wallet_of(addr) == self.entries()[i].1,
    {
        assert(self.has_wallet(addr));
        let j = choose|j: int| 0 <= j < self.entries().len() && self.entries()[j].0@ == addr;
        if i < j {
            assert(self.entries()[i].0@ != self.entries()[j].0@);
        } else if j < i {
            assert(self.entries()[j].0@ != self.entries()[i].0@);
        }
    }

    /// Two distinct wallets of a well-formed store never share a key and
    /// nonce: their addresses differ, and each address is derived from the
    /// wallet's own key and nonce.
    pub proof fn lemma_no_key_nonce_collision(&self, i: int, j: int)
        requires
            self.wf(),
            0 <= i < self.entries().len(),
            0 <= j < self.entries().len(),
            i != j,
        ensures
            self.entries()[i].1.foreign_public_key@ != self.entries()[j].1.foreign_public_key@
                || self.entries()[i].1.nonce != self.entries()[j].1.nonce,
    {
        assert(self.entries()[i].0@ != self.entries()[j].0@);
    }

    /// A fresh store: no factory, no wallets.
    pub fn new() -> (store: WalletStateStore)
        ensures
            store.wf(),
            !store.is_initialized(),
            store.entries().len() == 0,
    {
        WalletStateStore { factory: None, wallets: Vec::new() }
    }

    /// Find the index of the wallet stored at `address`.
    fn find_index(&self, address: &[u8; 32]) -> (r: Option<usize>)
        ensures
            match r {
                Some(i) => i < self.entries().len() && self.entries()[i as int].0@ == address@,
                None => !self.has_wallet(address@),
            },
    {
        let mut i: usize = 0;
        while i < self.wallets.len()
            invariant
                i <= self.entries().len(),
                forall|j: int| 0 <= j < i ==> (#[trigger] self.entries()[j].0@) != address@,
            decreases self.entries().len() - i,
        {
            if bytes32_eq(&self.wallets[i].0, address) {
                return Some(i);
            }
            i = i + 1;
        }
        None
    }

    /// Create the factory singleton. Fails with `AlreadyInitialized` if the
    /// deployment already has one, and changes nothing then; otherwise the
    /// factory starts with the given authority and a wallet count of zero.
    pub fn init_factory(&mut self, authority: &[u8; 32]) -> (r: Result<(), ErrorCode>)
        requires
            old(self).wf(),
        ensures
            final(self).wf(),
            old(self).is_initialized() ==> r == Err::<(), ErrorCode>(ErrorCode::AlreadyInitialized)
                && *final(self) == *old(self),
            !old(self).is_initialized() ==> {
                &&& r == Ok::<(), ErrorCode>(())
                &&& final(self).is_initialized()
                &&& final(self).spec_authority() == *authority
                &&& final(self).spec_wallet_count() == 0
                &&& final(self).entries() == old(self).entries()
            },
    {
        if self.factory.is_some() {
            return Err(ErrorCode::AlreadyInitialized);
        }
        self.factory = Some(Factory { authority: *authority, wallet_count: 0 });
        Ok(())
    }

    /// Create a wallet for `(foreign_public_key, nonce)` at its derived
    /// address. Exactly-once per address: if the address is already
    /// occupied, the call fails with `WalletAlreadyExists` and changes
    /// nothing, in particular the wallet count. Otherwise the wallet is
    /// stored active with all fields set, the count goes up by one, and
    /// every other address is untouched.
    pub fn create_wallet(
        &mut self,
        foreign_public_key: &[u8; 32],
        nonce: u64,
        owner: &[u8; 32],
    ) -> (r: Result<[u8; 32], ErrorCode>)
        requires
            old(self).wf(),
            old(self).is_initialized(),
            old(self).spec_wallet_count() < u64::MAX,
        ensures
            final(self).wf(),
            old(self).has_wallet(derived_address(foreign_public_key@, nonce)) ==> r == Err::<
                [u8; 32],
                ErrorCode,
            >(ErrorCode::WalletAlreadyExists) && *final(self) == *old(self),
            !old(self).has_wallet(derived_address(foreign_public_key@, nonce)) ==> {
                &&& r matches Ok(addr) && addr@ == derived_address(foreign_public_key@, nonce)
                &&& final(self).is_initialized()
                &&& final(self).spec_authority() == old(self).spec_authority()
                &&& final(self).spec_wallet_count() == old(self).spec_wallet_count() + 1
                &&& final(self).has_wallet(derived_address(foreign_public_key@, nonce))
                &&& final(self).wallet_of(derived_address(foreign_public_key@, nonce))
                    == (SmartWallet {
                    factory: old(self).spec_authority(),
                    foreign_public_key: *foreign_public_key,
                    owner: *owner,
                    nonce,
                    is_active: true,
                })
                &&& forall|a: Seq<u8>|
                    a != derived_address(foreign_public_key@, nonce)
                        ==> (#[trigger] final(self).has_wallet(a)) == old(self).has_wallet(a)
                &&& forall|a: Seq<u8>|
                    a != derived_address(foreign_public_key@, nonce) && old(self).has_wallet(a)
                        ==> #[trigger] final(self).wallet_of(a) == old(self).wallet_of(a)
            },
    {
        let address = derive_wallet_address(foreign_public_key, nonce);
        match self.find_index(&address) {
            Some(i) => {
                proof {
                    self.lemma_wallet_at_index(address@, i as int);
                }
                Err(ErrorCode::WalletAlreadyExists)
            },
            None => {
                let f = self.factory.unwrap();
                let wallet = SmartWallet {
                    factory: f.authority,
                    foreign_public_key: *foreign_public_key,
                    owner: *owner,
                    nonce,
                    is_active: true,
                };
                self.wallets.push((address, wallet));
                self.factory = Some(
                    Factory { authority: f.authority, wallet_count: f.wallet_count + 1 },
                );
                proof {
                    let n = old(self).entries().len() as int;
                    assert(self.entries() == old(self).entries().push((address, wallet)));
                    self.lemma_wallet_at_index(address@, n);
                    assert forall|a: Seq<u8>|
                        a != derived_address(foreign_public_key@, nonce) implies #[trigger] self
                        .has_wallet(a) == old(self).has_wallet(a) by {
                        if old(self).has_wallet(a) {
                            let j = choose|j: int|
                                0 <= j < old(self).entries().len() && old(self).entries()[j].0@
                                    == a;
                            assert(self.entries()[j].0@ == a);
                        }
                        if self.has_wallet(a) {
                            let j = choose|j: int|
                                0 <= j < self.entries().len() && self.entries()[j].0@ == a;
                            assert(j < n);
                            assert(old(self).entries()[j].0@ == a);
                        }
                    }
                    assert forall|a: Seq<u8>|
                        a != derived_address(foreign_public_key@, nonce) && old(self).has_wallet(
                            a,
                        ) implies #[trigger] self.wallet_of(a) == old(self).wallet_of(a) by {
                        let j = choose|j: int|
                            0 <= j < old(self).entries().len() && old(self).entries()[j].0@ == a;
                        old(self).lemma_wallet_at_index(a, j);
                        self.lemma_wallet_at_index(a, j);
                    }
                }
                Ok(address)
            },
        }
    }

    /// Flip a wallet's `is_active` gate. The store does not authenticate:
    /// callers must already have verified a foreign signature for the
    /// request. Every other field and every other wallet is untouched.
    pub fn set_active(&mut self, address: &[u8; 32], is_active: bool)
        requires
            old(self).wf(),
            old(self).has_wallet(address@),
        ensures
            final(self).wf(),
            final(self).spec_factory() == old(self).spec_factory(),
            final(self).has_wallet(address@),
            ({
                let w = final(self).wallet_of(address@);
                let v = old(self).wallet_of(address@);
                w.factory == v.factory && w.foreign_public_key == v.foreign_public_key && w.owner
                    == v.owner && w.nonce == v.nonce && w.is_active == is_active
            }),
            forall|a: Seq<u8>| #[trigger] final(self).has_wallet(a) == old(self).has_wallet(a),
            forall|a: Seq<u8>|
                a != address@ && old(self).has_wallet(a) ==> #[trigger] final(self).wallet_of(a)
                    == old(self).wallet_of(a),
    {
        let r = self.find_index(address);
        let i = r.unwrap();
        let entry = self.wallets[i];
        let updated = SmartWallet {
            factory: entry.1.factory,
            foreign_public_key: entry.1.foreign_public_key,
            owner: entry.1.owner,
            nonce: entry.1.nonce,
            is_active,
        };
        self.wallets[i] = (entry.0, updated);
        proof {
            let n = self.entries().len() as int;
            old(self).lemma_wallet_at_index(address@, i as int);
            self.lemma_wallet_at_index(address@, i as int);
            assert forall|a: Seq<u8>| #[trigger] self.has_wallet(a) == old(self).has_wallet(
                a,
            ) by {
                if old(self).has_wallet(a) {
                    let j = choose|j: int|
                        0 <= j < old(self).entries().len() && old(self).entries()[j].0@ == a;
                    assert(self.entries()[j].0@ == a);
                }
                if self.has_wallet(a) {
                    let j = choose|j: int|
                        0 <= j < self.entries().len() && self.entries()[j].0@ == a;
                    assert(old(self).entries()[j].0@ == a);
                }
            }
            assert forall|a: Seq<u8>|
                a != address@ && old(self).has_wallet(a) implies #[trigger] self.wallet_of(a)
                == old(self).wallet_of(a) by {
                let j = choose|j: int|
                    0 <= j < old(self).entries().len() && old(self).entries()[j].0@ == a;
                old(self).lemma_wallet_at_index(a, j);
                self.lemma_wallet_at_index(a, j);
            }
        }
    }

    /// Read the wallet at `address`, if one exists.
    pub fn load(&self, address: &[u8; 32]) -> (r: Option<SmartWallet>)
        requires
            self.wf(),
        ensures
            r is Some <==> self.has_wallet(address@),
            match r {
                Some(w) => w == self.wallet_of(address@),
                None => true,
            },
    {
        match self.find_index(address) {
            Some(i) => {
                proof {
                    self.lemma_wallet_at_index(address@, i as int);
                }
                Some(self.wallets[i].1)
            },
            None => None,
        }
    }

    /// How many wallets this deployment has created.
    pub fn wallet_count(&self) -> (r: u64)
        ensures
            r == self.spec_wallet_count(),
    {
        match &self.factory {
            Some(f) => f.wallet_count,
            None => 0,
        }
    }
}

} // verus!
