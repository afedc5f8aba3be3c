use vstd::prelude::*;
use crate::random::{draw, draw_bounded, lemma_draw_in_range};
use crate::types::{AccountId, Balance, Data, OwnableError, ProxyError, ReentrancyGuardError};

verus! {

/// The largest asset count that a draw can pick from.
pub const MAX_ASSETS: u32 = 255;

/// A reply from the issuing contract, handed in by the host after it made the
/// call that the previous `MintAction` asked for.
#[derive(Debug, Clone, Copy, PartialEq, Eq, Structural)]
pub enum RemoteEvent {
    /// The number of assets that the issuing contract defines.
    TotalAssets(u32),
    /// Whether the mint call ran and succeeded.
    Minted(bool),
    /// The issuing contract's total supply after the mint.
    TotalSupply(u64),
    /// Whether adding the asset to the token ran and succeeded.
    AssetAdded(bool),
    /// Whether handing the token to the caller ran and succeeded.
    Transferred(bool),
}

/// What the host is to do next for a running mint.
#[derive(Debug, Clone, Copy, PartialEq)]
pub enum MintAction {
    /// Ask `contract` for its asset count.
    QueryTotalAssets { contract: AccountId },
    /// Call mint on `contract`, forwarding `value`.
    Mint { contract: AccountId, value: Balance },
    /// Ask `contract` for its total supply.
    QueryTotalSupply { contract: AccountId },
    /// Add asset `asset_id` to token `token_id` on `contract`.
    AddAssetToToken { contract: AccountId, token_id: u64, asset_id: u32 },
    /// Transfer token `token_id` on `contract` to `to`.
    Transfer { contract: AccountId, to: AccountId, token_id: u64 },
    /// The mint is over, with this outcome.
    Done(Result<(), ProxyError>),
}

/// The reply that a running mint waits for.
#[derive(Debug, Clone, Copy, PartialEq, Eq, Structural)]
pub enum MintPhase {
    AwaitingTotalAssets,
    AwaitingMint { total_assets: u32 },
    AwaitingTotalSupply { total_assets: u32 },
    AwaitingAssetAdded { token_id: u64 },
    AwaitingTransfer { token_id: u64 },
}

/// A mint in flight: who asked, what was paid, when, and where it stands.
#[derive(Debug, Clone, Copy)]
pub struct MintSession {
    pub caller: AccountId,
    pub value: Balance,
    pub block_timestamp: u64,
    pub phase: MintPhase,
}

/// The minting proxy: its administrator, the mint in flight if any, and its
/// configuration.
#[derive(Debug, Clone, Copy)]
pub struct RmrkProxy {
    /// The administrator, the only caller who may change the configuration.
    pub owner: AccountId,
    /// The running mint. While it is set, a new mint is refused.
    pub in_flight: Option<MintSession>,
    pub proxy: Data,
}

/// Whether `event` is the reply that `phase` waits for.
pub open spec fn fits(phase: MintPhase, event: RemoteEvent) -> bool {
    match phase {
        MintPhase::AwaitingTotalAssets => event is TotalAssets,
        MintPhase::AwaitingMint { .. } => event is Minted,
        MintPhase::AwaitingTotalSupply { .. } => event is TotalSupply,
        MintPhase::AwaitingAssetAdded { .. } => event is AssetAdded,
        MintPhase::AwaitingTransfer { .. } => event is Transferred,
    }
}

impl RmrkProxy {
    /// Both contract addresses are set, and a running mint that knows the
    /// asset count knows one that a draw can pick from.
    pub open spec fn wf(&self) -> bool {
        &&& self.proxy.rmrk_contract is Some
        &&& self.proxy.catalog_contract is Some
        &&& self.in_flight matches Some(s) ==> match s.phase {
            MintPhase::AwaitingMint { total_assets } => 1 <= total_assets <= MAX_ASSETS,
            MintPhase::AwaitingTotalSupply { total_assets } => 1 <= total_assets <= MAX_ASSETS,
            _ => true,
        }
    }

    pub open spec fn rmrk_spec(&self) -> AccountId {
        self.proxy.rmrk_contract->Some_0
    }

    pub open spec fn with_rmrk_contract(self, a: AccountId) -> RmrkProxy {
        RmrkProxy { proxy: Data { rmrk_contract: Some(a), ..self.proxy }, ..self }
    }

    pub open spec fn with_catalog_contract(self, a: AccountId) -> RmrkProxy {
        RmrkProxy { proxy: Data { catalog_contract: Some(a), ..self.proxy }, ..self }
    }

    pub open spec fn with_mint_price(self, v: Balance) -> RmrkProxy {
        RmrkProxy { proxy: Data { mint_price: v, ..self.proxy }, ..self }
    }

    pub open spec fn with_session(self, s: Option<MintSession>) -> RmrkProxy {
        RmrkProxy { in_flight: s, ..self }
    }

    /// The state and first action after `caller` asks for a mint, paying
    /// `value`, in a block with timestamp `block_timestamp`.
    pub open spec fn start_spec(self, caller: AccountId, value: Balance, block_timestamp: u64) -> (
        RmrkProxy,
        MintAction,
    ) {
        if self.in_flight is Some {
            (self, MintAction::Done(Err(ProxyError::ReentrancyError(ReentrancyGuardError::ReentrantCall))))
        } else if value != self.proxy.mint_price {
            (self, MintAction::Done(Err(ProxyError::BadMintValue)))
        } else {
            (
                self.with_session(
                    Some(
                        MintSession {
                            caller,
                            value,
                            block_timestamp,
                            phase: MintPhase::AwaitingTotalAssets,
                        },
                    ),
                ),
                MintAction::QueryTotalAssets { contract: self.rmrk_spec() },
            )
        }
    }

    /// The mint ends with `outcome`: the guard is released.
    pub open spec fn finish_spec(self, outcome: Result<(), ProxyError>) -> (RmrkProxy, MintAction) {
        (self.with_session(None), MintAction::Done(outcome))
    }

    /// The running mint moves on to `phase`.
    pub open spec fn advance_spec(self, phase: MintPhase) -> RmrkProxy {
        self.with_session(Some(MintSession { phase, ..self.in_flight->Some_0 }))
    }

    /// The state and next action after the reply `event` to a running mint.
    pub open spec fn on_event_spec(self, event: RemoteEvent) -> (RmrkProxy, MintAction) {
        let s = self.in_flight->Some_0;
        let contract = self.rmrk_spec();
        match event {
            RemoteEvent::TotalAssets(n) => if n == 0 {
                self.finish_spec(Err(ProxyError::NoAssetsDefined))
            } else if n > MAX_ASSETS {
                self.finish_spec(Err(ProxyError::TooManyAssetsDefined))
            } else {
                (
                    self.advance_spec(MintPhase::AwaitingMint { total_assets: n }),
                    MintAction::Mint { contract, value: s.value },
                )
            },
            RemoteEvent::Minted(ok) => if !ok {
                self.finish_spec(Err(ProxyError::MintingError))
            } else {
                let n = s.phase->AwaitingMint_total_assets;
                (
                    self.advance_spec(MintPhase::AwaitingTotalSupply { total_assets: n }),
                    MintAction::QueryTotalSupply { contract },
                )
            },
            RemoteEvent::TotalSupply(token_id) => {
                let n = s.phase->AwaitingTotalSupply_total_assets;
                let asset_id = draw(s.block_timestamp, self.proxy.salt, (n - 1) as u8) + 1;
                let next = self.advance_spec(MintPhase::AwaitingAssetAdded { token_id });
                (
                    RmrkProxy {
                        proxy: Data { salt: (self.proxy.salt + 1) as u64, ..next.proxy },
                        ..next
                    },
                    MintAction::AddAssetToToken { contract, token_id, asset_id: asset_id as u32 },
                )
            },
            RemoteEvent::AssetAdded(ok) => if !ok {
                self.finish_spec(Err(ProxyError::AddTokenAssetError))
            } else {
                let token_id = s.phase->AwaitingAssetAdded_token_id;
                (
                    self.advance_spec(MintPhase::AwaitingTransfer { token_id }),
                    MintAction::Transfer { contract, to: s.caller, token_id },
                )
            },
            RemoteEvent::Transferred(ok) => if !ok {
                self.finish_spec(Err(ProxyError::OwnershipTransferError))
            } else {
                self.finish_spec(Ok(()))
            },
        }
    }
}

impl RmrkProxy {
    /// A proxy administered by `caller`, with no mint running and the salt at
    /// zero.
    pub fn new(caller: AccountId, rmrk_contract: AccountId, catalog_contract: AccountId, mint_price: Balance) -> (r: RmrkProxy)
        ensures
            r.wf(),
            r.owner == caller,
            r.in_flight is None,
            r.proxy == (Data {
                rmrk_contract: Some(rmrk_contract),
                catalog_contract: Some(catalog_contract),
                mint_price,
                salt: 0,
            }),
    {
        RmrkProxy {
            owner: caller,
            in_flight: None,
            proxy: Data {
                rmrk_contract: Some(rmrk_contract),
                catalog_contract: Some(catalog_contract),
                mint_price,
                salt: 0,
            },
        }
    }

    /// Starts a mint for `caller`, who paid `transferred_value`, in a block
    /// with timestamp `block_timestamp`. A mint already running, or a payment
    /// other than the price, ends it at once and changes nothing; otherwise
    /// the guard is taken and the host is asked for the asset count.
    pub fn mint(&mut self, caller: AccountId, transferred_value: Balance, block_timestamp: u64) -> (r: MintAction)
        requires
            old(self).wf(),
        ensures
            final(self).wf(),
            (*final(self), r) == old(self).start_spec(caller, transferred_value, block_timestamp),
    {
        if self.in_flight.is_some() {
            return MintAction::Done(Err(ProxyError::from(ReentrancyGuardError::ReentrantCall)));
        }
        if transferred_value != self.proxy.mint_price {
            return MintAction::Done(Err(ProxyError::BadMintValue));
        }
        let contract = self.rmrk_contract_address();
        self.in_flight = Some(MintSession {
            caller,
            value: transferred_value,
            block_timestamp,
            phase: MintPhase::AwaitingTotalAssets,
        });
        MintAction::QueryTotalAssets { contract }
    }

    /// Whether a mint is running and `event` is the reply that it waits for.
    pub fn accepts(&self, event: &RemoteEvent) -> (r: bool)
        ensures
            r == (self.in_flight matches Some(s) && fits(s.phase, *event)),
    {
        match &self.in_flight {
            None => false,
            Some(s) => match (s.phase, event) {
                (MintPhase::AwaitingTotalAssets, RemoteEvent::TotalAssets(_)) => true,
                (MintPhase::AwaitingMint { .. }, RemoteEvent::Minted(_)) => true,
                (MintPhase::AwaitingTotalSupply { .. }, RemoteEvent::TotalSupply(_)) => true,
                (MintPhase::AwaitingAssetAdded { .. }, RemoteEvent::AssetAdded(_)) => true,
                (MintPhase::AwaitingTransfer { .. }, RemoteEvent::Transferred(_)) => true,
                _ => false,
            },
        }
    }

    fn finish(&mut self, outcome: Result<(), ProxyError>) -> (r: MintAction)
        ensures
            (*final(self), r) == old(self).finish_spec(outcome),
    {
        self.in_flight = None;
        MintAction::Done(outcome)
    }

    fn advance(&mut self, session: MintSession, phase: MintPhase)
        requires
            old(self).in_flight == Some(session),
        ensures
            *final(self) == old(self).advance_spec(phase),
    {
        self.in_flight = Some(MintSession { phase, ..session });
    }

    /// Takes the reply to the call that the running mint asked for last, and
    /// says what to do next. Every failure ends the mint and releases the
    /// guard; nothing is retried or undone.
    pub fn on_remote_event(&mut self, event: RemoteEvent) -> (r: MintAction)
        requires
            old(self).wf(),
            old(self).in_flight matches Some(s) && fits(s.phase, event),
            old(self).proxy.salt < u64::MAX,
        ensures
            final(self).wf(),
            (*final(self), r) == old(self).on_event_spec(event),
    {
        let s = self.in_flight.unwrap();
        let contract = self.rmrk_contract_address();
        match event {
            RemoteEvent::TotalAssets(n) => {
                if n == 0 {
                    self.finish(Err(ProxyError::NoAssetsDefined))
                } else if n > MAX_ASSETS {
                    self.finish(Err(ProxyError::TooManyAssetsDefined))
                } else {
                    self.advance(s, MintPhase::AwaitingMint { total_assets: n });
                    MintAction::Mint { contract, value: s.value }
                }
            },
            RemoteEvent::Minted(ok) => {
                if !ok {
                    self.finish(Err(ProxyError::MintingError))
                } else {
                    let n = match s.phase {
                        MintPhase::AwaitingMint { total_assets } => total_assets,
                        _ => 0,
                    };
                    self.advance(s, MintPhase::AwaitingTotalSupply { total_assets: n });
                    MintAction::QueryTotalSupply { contract }
                }
            },
            RemoteEvent::TotalSupply(token_id) => {
                let n = match s.phase {
                    MintPhase::AwaitingTotalSupply { total_assets } => total_assets,
                    _ => 1,
                };
                let drawn = self.get_pseudo_random(s.block_timestamp, (n - 1) as u8);
                let asset_id = drawn as u32 + 1;
                self.advance(s, MintPhase::AwaitingAssetAdded { token_id });
                MintAction::AddAssetToToken { contract, token_id, asset_id }
            },
            RemoteEvent::AssetAdded(ok) => {
                if !ok {
                    self.finish(Err(ProxyError::AddTokenAssetError))
                } else {
                    let token_id = match s.phase {
                        MintPhase::AwaitingAssetAdded { token_id } => token_id,
                        _ => 0,
                    };
                    self.advance(s, MintPhase::AwaitingTransfer { token_id });
                    MintAction::Transfer { contract, to: s.caller, token_id }
                }
            },
            RemoteEvent::Transferred(ok) => {
                if !ok {
                    self.finish(Err(ProxyError::OwnershipTransferError))
                } else {
                    self.finish(Ok(()))
                }
            },
        }
    }

    pub fn rmrk_contract_address(&self) -> (r: AccountId)
        requires
            self.wf(),
        ensures
            r == self.rmrk_spec(),
    {
        self.proxy.rmrk_contract.unwrap()
    }

    pub fn catalog_contract_address(&self) -> (r: AccountId)
        requires
            self.wf(),
        ensures
            r == self.proxy.catalog_contract->Some_0,
    {
        self.proxy.catalog_contract.unwrap()
    }

    pub fn mint_price(&self) -> (r: Balance)
        ensures
            r == self.proxy.mint_price,
    {
        self.proxy.mint_price
    }

    /// The administrator.
    pub fn owner(&self) -> (r: AccountId)
        ensures
            r == self.owner,
    {
        self.owner
    }

    fn only_owner(&self, caller: &AccountId) -> (r: Result<(), ProxyError>)
        ensures
            caller@ == self.owner@ <==> r is Ok,
            r is Err ==> r == Err::<(), ProxyError>(ProxyError::OwnableError(OwnableError::CallerIsNotOwner)),
    {
        if *caller == self.owner {
            Ok(())
        } else {
            Err(ProxyError::from(OwnableError::CallerIsNotOwner))
        }
    }

    /// Points the proxy at another issuing contract; the administrator only.
    pub fn set_rmrk_contract_address(&mut self, caller: AccountId, new_contract_address: AccountId) -> (r: Result<(), ProxyError>)
        ensures
            caller@ == old(self).owner@ ==> r is Ok && *final(self) == old(self).with_rmrk_contract(new_contract_address),
            caller@ != old(self).owner@ ==> r == Err::<(), ProxyError>(ProxyError::OwnableError(OwnableError::CallerIsNotOwner))
                && *final(self) == *old(self),
    {
        self.only_owner(&caller)?;
        self.proxy.rmrk_contract = Some(new_contract_address);
        Ok(())
    }

    /// Points the proxy at another catalog contract; the administrator only.
    pub fn set_catalog_contract_address(&mut self, caller: AccountId, new_contract_address: AccountId) -> (r: Result<(), ProxyError>)
        ensures
            caller@ == old(self).owner@ ==> r is Ok && *final(self) == old(self).with_catalog_contract(new_contract_address),
            caller@ != old(self).owner@ ==> r == Err::<(), ProxyError>(ProxyError::OwnableError(OwnableError::CallerIsNotOwner))
                && *final(self) == *old(self),
    {
        self.only_owner(&caller)?;
        self.proxy.catalog_contract = Some(new_contract_address);
        Ok(())
    }

    /// Sets the price of a mint; the administrator only.
    pub fn set_mint_price(&mut self, caller: AccountId, new_mint_price: Balance) -> (r: Result<(), ProxyError>)
        ensures
            caller@ == old(self).owner@ ==> r is Ok && *final(self) == old(self).with_mint_price(new_mint_price),
            caller@ != old(self).owner@ ==> r == Err::<(), ProxyError>(ProxyError::OwnableError(OwnableError::CallerIsNotOwner))
                && *final(self) == *old(self),
    {
        self.only_owner(&caller)?;
        self.proxy.mint_price = new_mint_price;
        Ok(())
    }

    /// Draws a value in `[0, max_value]` from the digest of the block
    /// timestamp and the salt, and moves the salt on by one.
    pub fn get_pseudo_random(&mut self, block_timestamp: u64, max_value: u8) -> (r: u8)
        requires
            old(self).proxy.salt < u64::MAX,
        ensures
            r == draw(block_timestamp, old(self).proxy.salt, max_value),
            r <= max_value,
            *final(self) == (RmrkProxy {
                proxy: Data { salt: (old(self).proxy.salt + 1) as u64, ..old(self).proxy },
                ..*old(self)
            }),
    {
        let r = draw_bounded(block_timestamp, self.proxy.salt, max_value);
        self.proxy.salt = self.proxy.salt + 1;
        r
    }
}

/// A payment other than the mint price, with no mint running, is refused
/// with `BadMintValue`; no remote call is asked for and nothing changes.
pub proof fn lemma_bad_payment_refused(p: RmrkProxy, caller: AccountId, value: Balance, block_timestamp: u64)
    requires
        p.in_flight is None,
        value != p.proxy.mint_price,
    ensures
        p.start_spec(caller, value, block_timestamp) == (p, MintAction::Done(Err(ProxyError::BadMintValue))),
{
}

/// A mint asked for while another one runs is refused with `ReentrantCall`,
/// whatever was paid; nothing changes.
pub proof fn lemma_second_mint_refused(p: RmrkProxy, caller: AccountId, value: Balance, block_timestamp: u64)
    requires
        p.in_flight is Some,
    ensures
        p.start_spec(caller, value, block_timestamp) == (
            p,
            MintAction::Done(Err(ProxyError::ReentrancyError(ReentrancyGuardError::ReentrantCall))),
        ),
{
}

/// An issuing contract without assets ends the mint with `NoAssetsDefined`
/// before the mint call is asked for.
pub proof fn lemma_no_assets_refused(p: RmrkProxy)
    requires
        p.in_flight matches Some(s) && s.phase == MintPhase::AwaitingTotalAssets,
    ensures
        p.on_event_spec(RemoteEvent::TotalAssets(0)) == p.finish_spec(Err(ProxyError::NoAssetsDefined)),
{
}

/// More than `MAX_ASSETS` assets end the mint with `TooManyAssetsDefined`
/// before the mint call is asked for.
pub proof fn lemma_too_many_assets_refused(p: RmrkProxy, n: u32)
    requires
        p.in_flight matches Some(s) && s.phase == MintPhase::AwaitingTotalAssets,
        n > MAX_ASSETS,
    ensures
        p.on_event_spec(RemoteEvent::TotalAssets(n)) == p.finish_spec(Err(ProxyError::TooManyAssetsDefined)),
{
}

/// The guard is held exactly while the mint goes on: a reply that ends the
/// mint, with success or failure, releases it, and any other keeps it.
pub proof fn lemma_guard_released_on_done(p: RmrkProxy, event: RemoteEvent)
    requires
        p.wf(),
        p.in_flight matches Some(s) && fits(s.phase, event),
    ensures
        (p.on_event_spec(event).1 is Done) <==> (p.on_event_spec(event).0.in_flight is None),
{
}

/// Each draw uses the salt it finds and leaves it one higher, and nothing
/// else in a mint moves it, so no two draws of one proxy share a salt. The
/// asset chosen lies in `[1, total_assets]`.
pub proof fn lemma_draw_salt_and_range(p: RmrkProxy, token_id: u64)
    requires
        p.wf(),
        p.in_flight matches Some(s) && s.phase is AwaitingTotalSupply,
        p.proxy.salt < u64::MAX,
    ensures
        p.on_event_spec(RemoteEvent::TotalSupply(token_id)).0.proxy.salt == p.proxy.salt + 1,
        p.on_event_spec(RemoteEvent::TotalSupply(token_id)).1 matches MintAction::AddAssetToToken {
            asset_id,
            ..
        } && 1 <= asset_id <= p.in_flight->Some_0.phase->AwaitingTotalSupply_total_assets,
{
    let s = p.in_flight->Some_0;
    let n = s.phase->AwaitingTotalSupply_total_assets;
    lemma_draw_in_range(s.block_timestamp, p.proxy.salt, (n - 1) as u8);
}

/// Replies other than the total supply leave the salt as it was, and so does
/// starting a mint.
pub proof fn lemma_salt_moves_only_on_draw(p: RmrkProxy, event: RemoteEvent, caller: AccountId, value: Balance, block_timestamp: u64)
    requires
        p.wf(),
        p.in_flight matches Some(s) && fits(s.phase, event),
        !(event is TotalSupply),
    ensures
        p.on_event_spec(event).0.proxy.salt == p.proxy.salt,
        p.start_spec(caller, value, block_timestamp).0.proxy.salt == p.proxy.salt,
{
}

/// Setting the mint price to `v` and reading it back gives `v`, whatever the
/// price was.
pub proof fn lemma_mint_price_round_trip(p: RmrkProxy, v: Balance)
    ensures
        p.with_mint_price(v).proxy.mint_price == v,
{
}

/// A mint whose every remote step succeeds asks, in order, for the asset
/// count, the mint with the exact payment, the total supply, the addition of
/// one asset in `[1, total_assets]` to that token, and the transfer of that
/// token to the caller; it then ends with success and the guard released.
pub proof fn lemma_successful_mint_run(
    p: RmrkProxy,
    caller: AccountId,
    block_timestamp: u64,
    total_assets: u32,
    token_id: u64,
)
    requires
        p.wf(),
        p.in_flight is None,
        p.proxy.salt < u64::MAX,
        1 <= total_assets <= MAX_ASSETS,
    ensures
        ({
            let contract = p.rmrk_spec();
            let (p1, a1) = p.start_spec(caller, p.proxy.mint_price, block_timestamp);
            let (p2, a2) = p1.on_event_spec(RemoteEvent::TotalAssets(total_assets));
            let (p3, a3) = p2.on_event_spec(RemoteEvent::Minted(true));
            let (p4, a4) = p3.on_event_spec(RemoteEvent::TotalSupply(token_id));
            let (p5, a5) = p4.on_event_spec(RemoteEvent::AssetAdded(true));
            let (p6, a6) = p5.on_event_spec(RemoteEvent::Transferred(true));
            &&& a1 == MintAction::QueryTotalAssets { contract }
            &&& a2 == MintAction::Mint { contract, value: p.proxy.mint_price }
            &&& a3 == MintAction::QueryTotalSupply { contract }
            &&& a4 matches MintAction::AddAssetToToken { contract: c, token_id: t, asset_id }
                && c == contract && t == token_id && 1 <= asset_id <= total_assets
            &&& a5 == MintAction::Transfer { contract, to: caller, token_id }
            &&& a6 == MintAction::Done(Ok(()))
            &&& p6.in_flight is None
            &&& p6.proxy == (Data { salt: (p.proxy.salt + 1) as u64, ..p.proxy })
            &&& p6.owner == p.owner
        }),
{
    let p3 = p.start_spec(caller, p.proxy.mint_price, block_timestamp).0.on_event_spec(
        RemoteEvent::TotalAssets(total_assets),
    ).0.on_event_spec(RemoteEvent::Minted(true)).0;
    lemma_draw_salt_and_range(p3, token_id);
}

} // verus!
