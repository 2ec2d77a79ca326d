//! The composition root. A `FactoryManager` owns the deployment's
//! `WalletStateStore` and exposes the four entry points: initialize the
//! factory, create a wallet, execute a transaction, and flip a wallet's
//! active gate. Every state-changing request against an existing wallet is
//! authenticated with the wallet's own foreign verification key before the
//! store is touched.

use vstd::prelude::*;

use crate::crypto::{verify, verify_result};
use crate::dispatch::{dispatch_result, dispatch_transaction, PendingTransfer, RoutedRequest};
use crate::errors::ErrorCode;
use crate::payload::decode_request;
use crate::state::{SmartWallet, WalletStateStore};
use crate::addressing::derived_address;

verus! {

/// The event that reports a freshly created wallet.
#[derive(Clone, Copy, Debug, PartialEq, Eq)]
pub struct WalletCreated {
    pub wallet_address: [u8; 32],
    pub foreign_public_key: [u8; 32],
    pub owner: [u8; 32],
}

/// What an execution request returns, as a function of the wallet it is
/// aimed at and the raw request: an inactive wallet rejects everything,
/// then the signature gate decides, then the payload is routed.
pub open spec fn execute_result(
    wallet: SmartWallet,
    wallet_address: Seq<u8>,
    message: Seq<u8>,
    signature: Seq<u8>,
    data: Seq<u8>,
) -> Result<RoutedRequest, ErrorCode> {
    if !wallet.is_active {
        Err(ErrorCode::WalletInactive)
    } else {
        match verify_result(wallet.foreign_public_key@, message, signature) {
            Err(e) => Err(e),
            Ok(_) => dispatch_result(wallet_address, message, data),
        }
    }
}

/// An inactive wallet rejects every execution request with
/// `WalletInactive`, whatever the signature or the payload.
pub proof fn lemma_inactive_wallet_rejects(
    wallet: SmartWallet,
    wallet_address: Seq<u8>,
    message: Seq<u8>,
    signature: Seq<u8>,
    data: Seq<u8>,
)
    requires
        !wallet.is_active,
    ensures
        execute_result(wallet, wallet_address, message, signature, data) == Err::<
            RoutedRequest,
            ErrorCode,
        >(ErrorCode::WalletInactive),
{
}

/// A payload that decodes to a swap is never executed: the request always
/// fails, and once it passes the activity, signature and message gates it
/// fails with `UnsupportedOperation` exactly. No transfer command comes out
/// of it, so no balance moves and no event is emitted.
pub proof fn lemma_swap_rejected(
    wallet: SmartWallet,
    wallet_address: Seq<u8>,
    message: Seq<u8>,
    signature: Seq<u8>,
    data: Seq<u8>,
)
    requires
        decode_request(data) matches Some(t) && t.0 is Swap,
    ensures
        execute_result(wallet, wallet_address, message, signature, data) is Err,
        wallet.is_active && verify_result(wallet.foreign_public_key@, message, signature) is Ok
            && message.len() > 0 ==> execute_result(wallet, wallet_address, message, signature, data)
            == Err::<RoutedRequest, ErrorCode>(ErrorCode::UnsupportedOperation),
{
}

/// The deployment's top-level entry point, owning its state store.
pub struct FactoryManager {
    store: WalletStateStore,
}

impl FactoryManager {
    /// The owned store.
    pub closed spec fn store_view(&self) -> WalletStateStore {
        self.store
    }

    pub open spec fn wf(&self) -> bool {
        self.store_view().wf()
    }

    pub open spec fn is_initialized(&self) -> bool {
        self.store_view().is_initialized()
    }

    pub open spec fn spec_authority(&self) -> [u8; 32] {
        self.store_view().spec_authority()
    }

    pub open spec fn spec_wallet_count(&self) -> u64 {
        self.store_view().spec_wallet_count()
    }

    pub open spec fn has_wallet(&self, addr: Seq<u8>) -> bool {
        self.store_view().has_wallet(addr)
    }

    pub open spec fn wallet_of(&self, addr: Seq<u8>) -> SmartWallet {
        self.store_view().wallet_of(addr)
    }

    /// A manager over a fresh, uninitialized deployment.
    pub fn new() -> (m: FactoryManager)
        ensures
            m.wf(),
            !m.is_initialized(),
            m.store_view().entries().len() == 0,
    {
        FactoryManager { store: WalletStateStore::new() }
    }

    /// Create the factory singleton with the given authority. Fails with
    /// `AlreadyInitialized`, changing nothing, if one exists.
    pub fn initialize_factory(&mut self, authority: &[u8; 32]) -> (r: Result<(), ErrorCode>)
        requires
            old(self).wf(),
        ensures
            final(self).wf(),
            old(self).is_initialized() ==> r == Err::<(), ErrorCode>(ErrorCode::AlreadyInitialized)
                && *final(self) == *old(self),
            !old(self).is_initialized() ==> {
                &&& r == Ok::<(), ErrorCode>(())
                &&& final(self).is_initialized()
                &&& final(self).spec_authority() == *authority
                &&& final(self).spec_wallet_count() == 0
                &&& final(self).store_view().entries() == old(self).store_view().entries()
            },
    {
        self.store.init_factory(authority)
    }

    /// Create the wallet of `(foreign_public_key, nonce)` and emit
    /// `WalletCreated`. Exactly-once per derived address: a second creation
    /// with the same pair fails with `WalletAlreadyExists` and does not
    /// move the wallet count.
    pub fn create_wallet(
        &mut self,
        foreign_public_key: &[u8; 32],
        nonce: u64,
        owner: &[u8; 32],
    ) -> (r: Result<WalletCreated, ErrorCode>)
        requires
            old(self).wf(),
            old(self).is_initialized(),
            old(self).spec_wallet_count() < u64::MAX,
        ensures
            final(self).wf(),
            old(self).has_wallet(derived_address(foreign_public_key@, nonce)) ==> r == Err::<
                WalletCreated,
                ErrorCode,
            >(ErrorCode::WalletAlreadyExists) && *final(self) == *old(self),
            !old(self).has_wallet(derived_address(foreign_public_key@, nonce)) ==> {
                &&& r matches Ok(event) && event.wallet_address@ == derived_address(
                    foreign_public_key@,
                    nonce,
                ) && event.foreign_public_key == *foreign_public_key && event.owner == *owner
                &&& final(self).is_initialized()
                &&& final(self).spec_authority() == old(self).spec_authority()
                &&& final(self).spec_wallet_count() == old(self).spec_wallet_count() + 1
                &&& final(self).has_wallet(derived_address(foreign_public_key@, nonce))
                &&& final(self).wallet_of(derived_address(foreign_public_key@, nonce))
                    == (SmartWallet {
                    factory: old(self).spec_authority(),
                    foreign_public_key: *foreign_public_key,
                    owner: *owner,
                    nonce,
                    is_active: true,
                })
                &&& forall|a: Seq<u8>|
                    a != derived_address(foreign_public_key@, nonce)
                        ==> (#[trigger] final(self).has_wallet(a)) == old(self).has_wallet(a)
                &&& forall|a: Seq<u8>|
                    a != derived_address(foreign_public_key@, nonce) && old(self).has_wallet(a)
                        ==> #[trigger] final(self).wallet_of(a) == old(self).wallet_of(a)
            },
    {
        match self.store.create_wallet(foreign_public_key, nonce, owner) {
            Ok(address) => Ok(
                WalletCreated {
                    wallet_address: address,
                    foreign_public_key: *foreign_public_key,
                    owner: *owner,
                },
            ),
            Err(e) => Err(e),
        }
    }

    /// Authenticate and route one execution request against the wallet at
    /// `wallet_address`. Read-only: the store is not touched, and the
    /// returned `PendingTransfer` is what the external value-transfer
    /// collaborator is asked to perform.
    pub fn execute_transaction(
        &self,
        wallet_address: &[u8; 32],
        message: &[u8],
        signature: &[u8; 64],
        instruction_data: &[u8],
    ) -> (r: Result<PendingTransfer, ErrorCode>)
        requires
            self.wf(),
            self.has_wallet(wallet_address@),
        ensures
            match r {
                Ok(p) => execute_result(
                    self.wallet_of(wallet_address@),
                    wallet_address@,
                    message@,
                    signature@,
                    instruction_data@,
                ) == Ok::<RoutedRequest, ErrorCode>(p@) && p.wallet == *wallet_address,
                Err(e) => execute_result(
                    self.wallet_of(wallet_address@),
                    wallet_address@,
                    message@,
                    signature@,
                    instruction_data@,
                ) == Err::<RoutedRequest, ErrorCode>(e),
            },
    {
        let wallet = self.store.load(wallet_address).unwrap();
        if !wallet.is_active {
            return Err(ErrorCode::WalletInactive);
        }
        match verify(&wallet.foreign_public_key, message, signature) {
            Err(e) => {
                return Err(e);
            },
            Ok(_) => {},
        }
        dispatch_transaction(wallet_address, message, instruction_data)
    }

    /// Pause or resume the wallet at `wallet_address`. The request must
    /// carry a valid foreign signature over `message` under the wallet's
    /// own key; on any authentication failure nothing changes.
    pub fn set_wallet_status(
        &mut self,
        wallet_address: &[u8; 32],
        is_active: bool,
        message: &[u8],
        signature: &[u8; 64],
    ) -> (r: Result<(), ErrorCode>)
        requires
            old(self).wf(),
            old(self).has_wallet(wallet_address@),
        ensures
            final(self).wf(),
            ({
                let w = old(self).wallet_of(wallet_address@);
                match verify_result(w.foreign_public_key@, message@, signature@) {
                    Err(e) => r == Err::<(), ErrorCode>(e) && *final(self) == *old(self),
                    Ok(_) => {
                        &&& r == Ok::<(), ErrorCode>(())
                        &&& final(self).has_wallet(wallet_address@)
                        &&& ({
                            let u = final(self).wallet_of(wallet_address@);
                            u.factory == w.factory && u.foreign_public_key == w.foreign_public_key
                                && u.owner == w.owner && u.nonce == w.nonce && u.is_active
                                == is_active
                        })
                        &&& final(self).store_view().spec_factory()
                            == old(self).store_view().spec_factory()
                        &&& forall|a: Seq<u8>|
                            (#[trigger] final(self).has_wallet(a)) == old(self).has_wallet(a)
                        &&& forall|a: Seq<u8>|
                            a != wallet_address@ && old(self).has_wallet(a)
                                ==> (#[trigger] final(self).wallet_of(a)) == old(self).wallet_of(a)
                    },
                }
            }),
    {
        let wallet = self.store.load(wallet_address).unwrap();
        match verify(&wallet.foreign_public_key, message, signature) {
            Err(e) => Err(e),
            Ok(_) => {
                self.store.set_active(wallet_address, is_active);
                Ok(())
            },
        }
    }

    /// Read the wallet at `address`, if one exists.
    pub fn load_wallet(&self, address: &[u8; 32]) -> (r: Option<SmartWallet>)
        requires
            self.wf(),
        ensures
            r is Some <==> self.has_wallet(address@),
            match r {
                Some(w) => w == self.wallet_of(address@),
                None => true,
            },
    {
        self.store.load(address)
    }

    /// How many wallets this deployment has created.
    pub fn wallet_count(&self) -> (r: u64)
        ensures
            r == self.spec_wallet_count(),
    {
        self.store.wallet_count()
    }
}

} // verus!
