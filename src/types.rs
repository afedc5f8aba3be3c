use vstd::prelude::*;

verus! {

/// An amount of the chain's native currency.
pub type Balance = u128;

/// The 32-byte identity of an account or a contract.
#[derive(Debug, Clone, Copy)]
pub struct AccountId {
    pub bytes: [u8; 32],
}

impl View for AccountId {
    type V = Seq<u8>;

    open spec fn view(&self) -> Seq<u8> {
        self.bytes@
    }
}

impl AccountId {
    pub fn from_bytes(bytes: [u8; 32]) -> (r: AccountId)
        ensures
            r@ == bytes@,
    {
        AccountId { bytes }
    }

    pub fn to_bytes(&self) -> (r: [u8; 32])
        ensures
            r@ == self@,
    {
        self.bytes
    }
}

impl PartialEq for AccountId {
    fn eq(&self, o: &AccountId) -> (r: bool) {
        let mut i: usize = 0;
        while i < 32
            invariant
                i <= 32,
                self.bytes@.len() == 32,
                o.bytes@.len() == 32,
                forall|j: int| 0 <= j < i ==> self.bytes@[j] == o.bytes@[j],
            decreases 32 - i,
        {
            if self.bytes[i] != o.bytes[i] {
                return false;
            }
            i = i + 1;
        }
        proof {
            assert(self.bytes@ =~= o.bytes@);
        }
        true
    }
}

impl vstd::std_specs::cmp::PartialEqSpecImpl for AccountId {
    open spec fn obeys_eq_spec() -> bool {
        true
    }

    open spec fn eq_spec(&self, o: &AccountId) -> bool {
        self@ == o@
    }
}

impl Eq for AccountId {
}

/// The proxy's configuration.
#[derive(Debug, Clone, Copy)]
pub struct Data {
    /// The issuing contract that mints tokens and holds their assets.
    pub rmrk_contract: Option<AccountId>,
    /// The catalog contract that defines the parts.
    pub catalog_contract: Option<AccountId>,
    /// The exact payment that a mint asks for.
    pub mint_price: Balance,
    /// A counter mixed into every random draw, one higher after each.
    pub salt: u64,
}

/// Why an administrator-only call was refused.
#[derive(Debug, Clone, Copy, PartialEq, Eq, Structural)]
pub enum OwnableError {
    CallerIsNotOwner,
    NewOwnerIsZero,
}

/// Why a guarded call was refused.
#[derive(Debug, Clone, Copy, PartialEq, Eq, Structural)]
pub enum ReentrancyGuardError {
    ReentrantCall,
}

#[derive(Debug, Clone, Copy, PartialEq, Eq, Structural)]
pub enum ProxyError {
    /// Adding the chosen asset to the minted token failed.
    AddTokenAssetError,
    /// The payment differs from the mint price.
    BadMintValue,
    /// The environment failed to run the mint call on the issuing contract.
    EnvironmentError,
    /// The language layer failed to run the mint call on the issuing contract.
    LanguageError,
    /// The mint call on the issuing contract failed.
    MintingError,
    /// The issuing contract has no assets.
    NoAssetsDefined,
    /// The caller is not the administrator.
    OwnableError(OwnableError),
    /// Handing the minted token to the caller failed.
    OwnershipTransferError,
    /// A mint was asked for while another one was still running.
    ReentrancyError(ReentrancyGuardError),
    /// The issuing contract has more assets than a draw can pick from.
    TooManyAssetsDefined,
}

impl From<OwnableError> for ProxyError {
    fn from(error: OwnableError) -> (r: ProxyError) {
        ProxyError::OwnableError(error)
    }
}

impl vstd::std_specs::convert::FromSpecImpl<OwnableError> for ProxyError {
    open spec fn obeys_from_spec() -> bool {
        true
    }

    open spec fn from_spec(error: OwnableError) -> ProxyError {
        ProxyError::OwnableError(error)
    }
}

impl From<ReentrancyGuardError> for ProxyError {
    fn from(error: ReentrancyGuardError) -> (r: ProxyError) {
        ProxyError::ReentrancyError(error)
    }
}

impl vstd::std_specs::convert::FromSpecImpl<ReentrancyGuardError> for ProxyError {
    open spec fn obeys_from_spec() -> bool {
        true
    }

    open spec fn from_spec(error: ReentrancyGuardError) -> ProxyError {
        ProxyError::ReentrancyError(error)
    }
}

} // verus!
