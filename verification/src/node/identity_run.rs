//! Bringing up the node's identity, one step after another.
//!
//! Everything is derived from the wallet seed, so every boot takes the same steps: there is no
//! difference between a first boot and a restart.
use vstd::prelude::*;
use vstd::utf8::encode_utf8;

use crate::config::Config;
use crate::hexcode::{hex_bytes, hex_round_trip};
use crate::node::genesis::{
    announces, copied, derives, entropy_input, genesis_input, genesis_record, identity_state,
    publish_genesis_to_registry, records, reports, settle_genesis, settled, Genesis,
    GenesisCreated, GenesisIds, GenesisIdsModel, GenesisInput, GenesisModel, GenesisOutcome,
    GenesisRecord,
};
use crate::node::identity::IdentityState;
use crate::node::startup::{configures, failure, sdk_config, SdkConfig};
use crate::text::{both_ends_are_kept, joined};

verus! {

/// A step in bringing up the identity.
#[derive(Debug, Clone, Copy, PartialEq, Eq, Structural)]
pub enum IdentityStep {
    /// Obtain the wallet seed.
    CacheSeed,
    /// Derive the genesis from it.
    DeriveGenesis,
    /// Create the core for the device.
    CreateCore,
    /// Install the genesis as the root of the device's history.
    InstallGenesis,
    /// Put the genesis into the store's notation.
    EncodeIds,
    /// Store the public record of the genesis.
    StoreRecord,
    /// See to it that the wallet has a state.
    EnsureWalletState,
    /// Make the identity known to the SDK.
    SetIdentity,
    /// Initialise the SDK's context.
    InitContext,
    /// Create the full router.
    CreateRouter,
    /// Install it.
    InstallRouter,
    /// Let it resolve token policies.
    InstallPolicyResolver,
    /// Let it read the known tokens again.
    RehydrateTokens,
    /// Let it publish this node's own token policies again.
    RepublishPolicies,
    /// Publish the genesis to the registry.
    PublishGenesis,
    /// Bind the Kyber key to the device.
    BindKyber,
    /// The identity stands.
    Ready,
}

impl IdentityStep {
    /// The number of steps before this one.
    pub open spec fn rank(self) -> nat {
        match self {
            IdentityStep::CacheSeed => 0,
            IdentityStep::DeriveGenesis => 1,
            IdentityStep::CreateCore => 2,
            IdentityStep::InstallGenesis => 3,
            IdentityStep::EncodeIds => 4,
            IdentityStep::StoreRecord => 5,
            IdentityStep::EnsureWalletState => 6,
            IdentityStep::SetIdentity => 7,
            IdentityStep::InitContext => 8,
            IdentityStep::CreateRouter => 9,
            IdentityStep::InstallRouter => 10,
            IdentityStep::InstallPolicyResolver => 11,
            IdentityStep::RehydrateTokens => 12,
            IdentityStep::RepublishPolicies => 13,
            IdentityStep::PublishGenesis => 14,
            IdentityStep::BindKyber => 15,
            IdentityStep::Ready => 16,
        }
    }

    /// The words that go before the reason where this step's failure ends the start-up; absent
    /// where the start-up goes on in spite of it.
    pub open spec fn complaint(self) -> Option<Seq<char>> {
        match self {
            IdentityStep::CreateCore => Some("CoreSDK::new_with_device failed: "@),
            IdentityStep::InstallGenesis => Some("install_v2_genesis failed: "@),
            IdentityStep::StoreRecord => Some("store_genesis_record_with_verification failed: "@),
            IdentityStep::EnsureWalletState => Some("ensure_wallet_state_for_device failed: "@),
            IdentityStep::InitContext => Some("initialize_sdk_context failed: "@),
            IdentityStep::CreateRouter => Some("AppRouterImpl::new failed: "@),
            IdentityStep::InstallRouter => Some("install_app_router failed: "@),
            _ => None,
        }
    }
}

/// The step that comes after `step`.
pub open spec fn next_step(step: IdentityStep) -> IdentityStep {
    match step {
        IdentityStep::CacheSeed => IdentityStep::DeriveGenesis,
        IdentityStep::DeriveGenesis => IdentityStep::CreateCore,
        IdentityStep::CreateCore => IdentityStep::InstallGenesis,
        IdentityStep::InstallGenesis => IdentityStep::EncodeIds,
        IdentityStep::EncodeIds => IdentityStep::StoreRecord,
        IdentityStep::StoreRecord => IdentityStep::EnsureWalletState,
        IdentityStep::EnsureWalletState => IdentityStep::SetIdentity,
        IdentityStep::SetIdentity => IdentityStep::InitContext,
        IdentityStep::InitContext => IdentityStep::CreateRouter,
        IdentityStep::CreateRouter => IdentityStep::InstallRouter,
        IdentityStep::InstallRouter => IdentityStep::InstallPolicyResolver,
        IdentityStep::InstallPolicyResolver => IdentityStep::RehydrateTokens,
        IdentityStep::RehydrateTokens => IdentityStep::RepublishPolicies,
        IdentityStep::RepublishPolicies => IdentityStep::PublishGenesis,
        IdentityStep::PublishGenesis => IdentityStep::BindKyber,
        IdentityStep::BindKyber => IdentityStep::Ready,
        IdentityStep::Ready => IdentityStep::Ready,
    }
}

fn step_after(step: IdentityStep) -> (r: IdentityStep)
    ensures
        r == next_step(step),
{
    match step {
        IdentityStep::CacheSeed => IdentityStep::DeriveGenesis,
        IdentityStep::DeriveGenesis => IdentityStep::CreateCore,
        IdentityStep::CreateCore => IdentityStep::InstallGenesis,
        IdentityStep::InstallGenesis => IdentityStep::EncodeIds,
        IdentityStep::EncodeIds => IdentityStep::StoreRecord,
        IdentityStep::StoreRecord => IdentityStep::EnsureWalletState,
        IdentityStep::EnsureWalletState => IdentityStep::SetIdentity,
        IdentityStep::SetIdentity => IdentityStep::InitContext,
        IdentityStep::InitContext => IdentityStep::CreateRouter,
        IdentityStep::CreateRouter => IdentityStep::InstallRouter,
        IdentityStep::InstallRouter => IdentityStep::InstallPolicyResolver,
        IdentityStep::InstallPolicyResolver => IdentityStep::RehydrateTokens,
        IdentityStep::RehydrateTokens => IdentityStep::RepublishPolicies,
        IdentityStep::RepublishPolicies => IdentityStep::PublishGenesis,
        IdentityStep::PublishGenesis => IdentityStep::BindKyber,
        IdentityStep::BindKyber => IdentityStep::Ready,
        IdentityStep::Ready => IdentityStep::Ready,
    }
}

/// The report on a failure of `step`, where that ends the start-up.
fn report(step: IdentityStep, why: &String) -> (r: Option<String>)
    ensures
        match r {
            Some(text) => step.complaint() matches Some(what) && text@ == what + why@,
            None => step.complaint() is None,
        },
{
    let what = match step {
        IdentityStep::CreateCore => "CoreSDK::new_with_device failed: ",
        IdentityStep::InstallGenesis => "install_v2_genesis failed: ",
        IdentityStep::StoreRecord => "store_genesis_record_with_verification failed: ",
        IdentityStep::EnsureWalletState => "ensure_wallet_state_for_device failed: ",
        IdentityStep::InitContext => "initialize_sdk_context failed: ",
        IdentityStep::CreateRouter => "AppRouterImpl::new failed: ",
        IdentityStep::InstallRouter => "install_app_router failed: ",
        _ => return None,
    };
    Some(joined(what, why.as_str()))
}

/// What became of a step.
#[derive(Debug)]
pub enum IdentityEvent {
    /// The wallet seed, or why there is none.
    Seed(Result<Vec<u8>, String>),
    /// The derived genesis, or why there is none.
    Derived(Result<GenesisOutcome, String>),
    /// The genesis in the store's notation.
    Ids(GenesisIds),
    /// How any other step went.
    Taken(Result<(), String>),
    /// The Kyber key, if it could be bound to the device.
    Kyber(Option<Vec<u8>>),
}

/// The mathematical counterpart of [`IdentityEvent`].
pub enum IdentityEventModel {
    Seed(Result<Seq<u8>, Seq<char>>),
    Derived(Result<GenesisModel, Seq<char>>),
    Ids(GenesisIdsModel),
    Taken(Option<Seq<char>>),
    Kyber(Option<Seq<u8>>),
}

impl View for IdentityEvent {
    type V = IdentityEventModel;

    open spec fn view(&self) -> IdentityEventModel {
        match self {
            IdentityEvent::Seed(Ok(seed)) => IdentityEventModel::Seed(Ok(seed@)),
            IdentityEvent::Seed(Err(why)) => IdentityEventModel::Seed(Err(why@)),
            IdentityEvent::Derived(outcome) => IdentityEventModel::Derived(settled(*outcome)),
            IdentityEvent::Ids(ids) => IdentityEventModel::Ids(ids@),
            IdentityEvent::Taken(outcome) => IdentityEventModel::Taken(failure(*outcome)),
            IdentityEvent::Kyber(Some(key)) => IdentityEventModel::Kyber(Some(key@)),
            IdentityEvent::Kyber(None) => IdentityEventModel::Kyber(None),
        }
    }
}

/// What a step comes to.
#[derive(Debug)]
#[allow(inconsistent_fields)]
pub enum IdentityAction {
    /// Obtain the wallet seed.
    CacheSeed,
    /// Derive the genesis from the seed and this.
    DeriveGenesis { seed: Vec<u8>, input: GenesisInput },
    /// Create the core for this device.
    CreateCore { device_id: Vec<u8>, public_key: Vec<u8> },
    /// Install the derived genesis in the core.
    InstallGenesis,
    /// Put these into Crockford Base32.
    EncodeIds { device_id: Vec<u8>, hash: Vec<u8>, nonce: Vec<u8>, smt_root: Vec<u8> },
    /// Store this record.
    StoreRecord(GenesisRecord),
    /// See to it that the wallet of this device has a state.
    EnsureWalletState { device_id: String },
    /// Make this identity known to the SDK.
    SetIdentity {
        device_id: Vec<u8>,
        public_key: Vec<u8>,
        genesis_hash: Vec<u8>,
        smt_root: Vec<u8>,
    },
    /// Initialise the SDK's context, with the hash of the last for its entropy.
    InitContext { device_id: Vec<u8>, genesis_hash: Vec<u8>, entropy_input: Vec<u8> },
    /// Create the full router with this configuration.
    CreateRouter(SdkConfig),
    /// Install it.
    InstallRouter,
    /// Let it resolve token policies.
    InstallPolicyResolver,
    /// Let it read the known tokens again.
    RehydrateTokens,
    /// Let it publish this node's own token policies again.
    RepublishPolicies,
    /// Publish this announcement to the registry.
    PublishGenesis(GenesisCreated),
    /// Bind the Kyber key to the device.
    BindKyber,
    /// Report this identity.
    Ready(IdentityState),
    /// Stop, for this reason.
    Failed(String),
}

/// The identity while it is being brought up.
#[derive(Debug)]
pub struct IdentityRun<'a> {
    config: &'a Config,
    step: IdentityStep,
    seed: Vec<u8>,
    genesis: Option<Genesis>,
    ids: Option<GenesisIds>,
    kyber: Option<Vec<u8>>,
    failure: Option<String>,
}

/// The mathematical counterpart of [`IdentityRun`].
pub struct IdentityRunModel {
    /// What the node is configured with, from the first step to the last.
    pub config: Config,
    pub step: IdentityStep,
    pub seed: Seq<u8>,
    pub genesis: Option<GenesisModel>,
    pub ids: Option<GenesisIdsModel>,
    pub kyber: Option<Seq<u8>>,
    /// Why bringing up the identity ended, if it did.
    pub failure: Option<Seq<char>>,
}

impl<'a> View for IdentityRun<'a> {
    type V = IdentityRunModel;

    closed spec fn view(&self) -> IdentityRunModel {
        IdentityRunModel {
            config: *self.config,
            step: self.step,
            seed: self.seed@,
            genesis: match self.genesis {
                Some(genesis) => Some(genesis@),
                None => None,
            },
            ids: match self.ids {
                Some(ids) => Some(ids@),
                None => None,
            },
            kyber: match self.kyber {
                Some(key) => Some(key@),
                None => None,
            },
            failure: match self.failure {
                Some(why) => Some(why@),
                None => None,
            },
        }
    }
}

impl IdentityRunModel {
    /// What a step needs from earlier ones is there.
    pub open spec fn well_formed(self) -> bool {
        &&& self.step.rank() > IdentityStep::DeriveGenesis.rank() ==> self.genesis is Some
        &&& self.step.rank() > IdentityStep::EncodeIds.rank() ==> self.ids is Some
    }

    /// Whether there is nothing left to do.
    pub open spec fn finished(self) -> bool {
        self.failure is Some || self.step == IdentityStep::Ready
    }

    /// Whether `event` reports on the current step.
    pub open spec fn expects(self, event: IdentityEventModel) -> bool {
        !self.finished() && match self.step {
            IdentityStep::CacheSeed => event is Seed,
            IdentityStep::DeriveGenesis => event is Derived,
            IdentityStep::EncodeIds => event is Ids,
            IdentityStep::BindKyber => event is Kyber,
            _ => event is Taken,
        }
    }

    /// The run, ended for the reason `why`.
    pub open spec fn failed(self, why: Seq<char>) -> IdentityRunModel {
        IdentityRunModel { failure: Some(why), ..self }
    }

    /// Where `event` leads.
    pub open spec fn after(self, event: IdentityEventModel) -> IdentityRunModel {
        let on = IdentityRunModel { step: next_step(self.step), ..self };
        match event {
            IdentityEventModel::Seed(Ok(seed)) => IdentityRunModel { seed, ..on },
            IdentityEventModel::Seed(Err(why)) => self.failed(why),
            IdentityEventModel::Derived(Ok(genesis)) => IdentityRunModel {
                genesis: Some(genesis),
                ..on
            },
            IdentityEventModel::Derived(Err(why)) => self.failed(why),
            IdentityEventModel::Ids(ids) => IdentityRunModel { ids: Some(ids), ..on },
            IdentityEventModel::Kyber(kyber) => IdentityRunModel { kyber, ..on },
            IdentityEventModel::Taken(None) => on,
            IdentityEventModel::Taken(Some(why)) => match self.step.complaint() {
                Some(what) => self.failed(what + why),
                None => on,
            },
        }
    }

    /// Whether `action` is what the current step comes to.
    pub open spec fn comes_to(self, action: IdentityAction) -> bool {
        match self.failure {
            Some(why) => action matches IdentityAction::Failed(text) && text@ == why,
            None => {
                let genesis = self.genesis->0;
                let ids = self.ids->0;
                match self.step {
                    IdentityStep::CacheSeed => action is CacheSeed,
                    IdentityStep::DeriveGenesis => action matches IdentityAction::DeriveGenesis {
                        seed,
                        input,
                    } && seed@ == self.seed && derives(input, self.config),
                    IdentityStep::CreateCore => action matches IdentityAction::CreateCore {
                        device_id,
                        public_key,
                    } && device_id@ == genesis.device_id && public_key@ == genesis.public_key,
                    IdentityStep::InstallGenesis => action is InstallGenesis,
                    IdentityStep::EncodeIds => action matches IdentityAction::EncodeIds {
                        device_id,
                        hash,
                        nonce,
                        smt_root,
                    } && device_id@ == genesis.device_id && hash@ == genesis.hash && nonce@
                        == genesis.nonce && smt_root@ == genesis.smt_root,
                    IdentityStep::StoreRecord => action matches IdentityAction::StoreRecord(
                        record,
                    ) && records(record, self.config, ids),
                    IdentityStep::EnsureWalletState =>
                        action matches IdentityAction::EnsureWalletState { device_id } && device_id@
                        == ids.device_id,
                    IdentityStep::SetIdentity => action matches IdentityAction::SetIdentity {
                        device_id,
                        public_key,
                        genesis_hash,
                        smt_root,
                    } && device_id@ == genesis.device_id && public_key@ == genesis.public_key
                        && genesis_hash@ == genesis.hash && smt_root@ == genesis.smt_root,
                    IdentityStep::InitContext => action matches IdentityAction::InitContext {
                        device_id,
                        genesis_hash,
                        entropy_input,
                    } && device_id@ == genesis.device_id && genesis_hash@ == genesis.hash
                        && entropy_input@ == genesis.device_id + genesis.hash + self.seed,
                    IdentityStep::CreateRouter => action matches IdentityAction::CreateRouter(sdk)
                        && configures(sdk, self.config),
                    IdentityStep::InstallRouter => action is InstallRouter,
                    IdentityStep::InstallPolicyResolver => action is InstallPolicyResolver,
                    IdentityStep::RehydrateTokens => action is RehydrateTokens,
                    IdentityStep::RepublishPolicies => action is RepublishPolicies,
                    IdentityStep::PublishGenesis => action matches IdentityAction::PublishGenesis(
                        created,
                    ) && announces(created, self.config, genesis),
                    IdentityStep::BindKyber => action is BindKyber,
                    IdentityStep::Ready => action matches IdentityAction::Ready(state) && reports(
                        state,
                        genesis,
                        self.kyber,
                    ),
                }
            },
        }
    }
}

/// The run with `config` before its first step.
pub open spec fn at_rest(config: Config) -> IdentityRunModel {
    IdentityRunModel {
        config,
        step: IdentityStep::CacheSeed,
        seed: Seq::empty(),
        genesis: None,
        ids: None,
        kyber: None,
        failure: None,
    }
}

/// Starts to bring up (or re-derive) the identity of the node with this configuration and to
/// install it everywhere the SDK expects it.
pub fn load_or_create_identity(config: &Config) -> (r: IdentityRun<'_>)
    ensures
        r@ == at_rest(*config),
        r@.well_formed(),
{
    IdentityRun {
        config,
        step: IdentityStep::CacheSeed,
        seed: Vec::new(),
        genesis: None,
        ids: None,
        kyber: None,
        failure: None,
    }
}

impl<'a> IdentityRun<'a> {
    /// Says what is to be done next.
    pub fn action(&self) -> (r: IdentityAction)
        requires
            self@.well_formed(),
        ensures
            self@.comes_to(r),
    {
        if let Some(why) = &self.failure {
            return IdentityAction::Failed(why.clone());
        }
        match self.step {
            IdentityStep::CacheSeed => IdentityAction::CacheSeed,
            IdentityStep::DeriveGenesis => IdentityAction::DeriveGenesis {
                seed: copied(&self.seed),
                input: genesis_input(self.config),
            },
            IdentityStep::InstallGenesis => IdentityAction::InstallGenesis,
            IdentityStep::CreateRouter => IdentityAction::CreateRouter(sdk_config(self.config)),
            IdentityStep::InstallRouter => IdentityAction::InstallRouter,
            IdentityStep::InstallPolicyResolver => IdentityAction::InstallPolicyResolver,
            IdentityStep::RehydrateTokens => IdentityAction::RehydrateTokens,
            IdentityStep::RepublishPolicies => IdentityAction::RepublishPolicies,
            IdentityStep::BindKyber => IdentityAction::BindKyber,
            _ => {
                let genesis = self.genesis.as_ref().unwrap();
                self.genesis_action(genesis)
            },
        }
    }

    fn genesis_action(&self, genesis: &Genesis) -> (r: IdentityAction)
        requires
            self@.well_formed(),
            self@.failure is None,
            self@.genesis == Some(genesis@),
            ({
                ||| self@.step == IdentityStep::CreateCore
                ||| self@.step == IdentityStep::EncodeIds
                ||| self@.step == IdentityStep::StoreRecord
                ||| self@.step == IdentityStep::EnsureWalletState
                ||| self@.step == IdentityStep::SetIdentity
                ||| self@.step == IdentityStep::InitContext
                ||| self@.step == IdentityStep::PublishGenesis
                ||| self@.step == IdentityStep::Ready
            }),
        ensures
            self@.comes_to(r),
    {
        match self.step {
            IdentityStep::CreateCore => IdentityAction::CreateCore {
                device_id: copied(&genesis.device_id),
                public_key: copied(&genesis.public_key),
            },
            IdentityStep::EncodeIds => IdentityAction::EncodeIds {
                device_id: copied(&genesis.device_id),
                hash: copied(&genesis.hash),
                nonce: copied(&genesis.nonce),
                smt_root: copied(&genesis.smt_root),
            },
            IdentityStep::StoreRecord => IdentityAction::StoreRecord(
                genesis_record(self.config, self.ids.as_ref().unwrap()),
            ),
            IdentityStep::EnsureWalletState => IdentityAction::EnsureWalletState {
                device_id: self.ids.as_ref().unwrap().device_id.clone(),
            },
            IdentityStep::SetIdentity => IdentityAction::SetIdentity {
                device_id: copied(&genesis.device_id),
                public_key: copied(&genesis.public_key),
                genesis_hash: copied(&genesis.hash),
                smt_root: copied(&genesis.smt_root),
            },
            IdentityStep::InitContext => IdentityAction::InitContext {
                device_id: copied(&genesis.device_id),
                genesis_hash: copied(&genesis.hash),
                entropy_input: entropy_input(
                    genesis.device_id.as_slice(),
                    genesis.hash.as_slice(),
                    self.seed.as_slice(),
                ),
            },
            IdentityStep::PublishGenesis => IdentityAction::PublishGenesis(
                publish_genesis_to_registry(self.config, genesis),
            ),
            _ => IdentityAction::Ready(identity_state(genesis, &self.kyber)),
        }
    }

    /// Takes in what became of the current step.
    pub fn on_event(&mut self, event: IdentityEvent)
        requires
            old(self)@.well_formed(),
            old(self)@.expects(event@),
        ensures
            final(self)@ == old(self)@.after(event@),
            final(self)@.well_formed(),
    {
        match event {
            IdentityEvent::Seed(Ok(seed)) => {
                self.seed = seed;
                self.step = step_after(self.step);
            },
            IdentityEvent::Seed(Err(why)) => {
                self.failure = Some(why);
            },
            IdentityEvent::Derived(outcome) => match settle_genesis(outcome) {
                Ok(genesis) => {
                    self.genesis = Some(genesis);
                    self.step = step_after(self.step);
                },
                Err(why) => {
                    self.failure = Some(why);
                },
            },
            IdentityEvent::Ids(ids) => {
                self.ids = Some(ids);
                self.step = step_after(self.step);
            },
            IdentityEvent::Kyber(kyber) => {
                self.kyber = kyber;
                self.step = step_after(self.step);
            },
            IdentityEvent::Taken(Ok(_)) => {
                self.step = step_after(self.step);
            },
            IdentityEvent::Taken(Err(why)) => match report(self.step, &why) {
                Some(text) => {
                    self.failure = Some(text);
                },
                None => {
                    self.step = step_after(self.step);
                },
            },
        }
    }
}

/// The state that bringing up the identity with `config` has reached after `events`, if each of
/// them reports on the step that preceded it.
pub open spec fn identity_run(config: Config, events: Seq<IdentityEventModel>) -> Option<
    IdentityRunModel,
>
    decreases events.len(),
{
    if events.len() == 0 {
        Some(at_rest(config))
    } else {
        match identity_run(config, events.drop_last()) {
            Some(run) => if run.expects(events.last()) {
                Some(run.after(events.last()))
            } else {
                None
            },
            None => None,
        }
    }
}

/// Whether the step of `event`, taken at `step`, did not fail in a way that matters.
pub open spec fn went_well(step: IdentityStep, event: IdentityEventModel) -> bool {
    match event {
        IdentityEventModel::Seed(r) => r is Ok,
        IdentityEventModel::Derived(r) => r is Ok,
        IdentityEventModel::Taken(failure) => failure is None || step.complaint() is None,
        _ => true,
    }
}

/// What was reported of `step`.
pub open spec fn reported(
    events: Seq<IdentityEventModel>,
    step: IdentityStep,
) -> IdentityEventModel {
    events[step.rank() as int]
}

/// Whichever step is reached, every step before it has been taken, in order, and none of those
/// whose failure matters has failed; what the step works with is the seed, the genesis, the ids
/// and the Kyber key that came up on the way, and the configuration that the run started with.
pub proof fn steps_are_taken_in_order(config: Config, events: Seq<IdentityEventModel>)
    ensures
        identity_run(config, events) matches Some(run) ==> run.failure is None ==> {
            let past = |step: IdentityStep| run.step.rank() > step.rank();
            &&& run.well_formed()
            &&& run.config == config
            &&& run.step.rank() == events.len()
            &&& forall|earlier: IdentityStep|
                past(earlier) ==> went_well(earlier, #[trigger] reported(events, earlier))
            &&& past(IdentityStep::CacheSeed) ==> reported(events, IdentityStep::CacheSeed)
                == IdentityEventModel::Seed(Ok(run.seed))
            &&& past(IdentityStep::DeriveGenesis) ==> (run.genesis matches Some(genesis)
                && reported(events, IdentityStep::DeriveGenesis) == IdentityEventModel::Derived(
                Ok(genesis),
            ))
            &&& past(IdentityStep::EncodeIds) ==> (run.ids matches Some(ids) && reported(
                events,
                IdentityStep::EncodeIds,
            ) == IdentityEventModel::Ids(ids))
            &&& past(IdentityStep::BindKyber) ==> reported(events, IdentityStep::BindKyber)
                == IdentityEventModel::Kyber(run.kyber)
        },
    decreases events.len(),
{
    if events.len() > 0 {
        let before = events.drop_last();
        steps_are_taken_in_order(config, before);
        if let Some(prior) = identity_run(config, before) {
            if prior.expects(events.last()) {
                let run = prior.after(events.last());
                if run.failure is None {
                    assert forall|earlier: IdentityStep|
                        run.step.rank() > earlier.rank() implies went_well(
                        earlier,
                        #[trigger] reported(events, earlier),
                    ) by {
                        if earlier.rank() == prior.step.rank() {
                            assert(earlier == prior.step);
                        } else {
                            assert(reported(before, earlier) == reported(events, earlier));
                        }
                    }
                    assert forall|earlier: IdentityStep|
                        earlier.rank() < before.len() implies #[trigger] reported(events, earlier)
                        == reported(before, earlier) by {}
                }
            }
        }
    }
}

/// The full router is created only after the identity has been made known to the SDK, and that
/// only after the genesis has been derived, installed and recorded.
pub proof fn router_comes_after_the_identity(config: Config, events: Seq<IdentityEventModel>)
    requires
        identity_run(config, events) matches Some(run) && run.failure is None && (run.step
            == IdentityStep::CreateRouter || run.step == IdentityStep::InstallRouter),
    ensures
        events.len() > IdentityStep::InitContext.rank(),
        forall|earlier: IdentityStep|
            earlier.rank() <= IdentityStep::InitContext.rank() ==> went_well(
                earlier,
                #[trigger] reported(events, earlier),
            ),
{
    steps_are_taken_in_order(config, events);
}

/// Publishing the genesis is best effort, and so is binding the Kyber key: whatever becomes of
/// them, the run goes on.
pub proof fn best_effort_does_not_end_the_run(run: IdentityRunModel, event: IdentityEventModel)
    requires
        run.expects(event),
        run.step == IdentityStep::PublishGenesis || run.step == IdentityStep::BindKyber,
    ensures
        run.after(event).failure is None,
        run.after(event).step == next_step(run.step),
        run.after(event).genesis == run.genesis,
{
}

/// The identity that the node ends up with reports the genesis that was derived, whatever became of
/// publishing it and of the Kyber key.
pub proof fn identity_reports_the_derived_genesis(
    config: Config,
    events: Seq<IdentityEventModel>,
    state: IdentityState,
)
    requires
        identity_run(config, events) matches Some(run) && run.failure is None && run.step
            == IdentityStep::Ready && run.comes_to(IdentityAction::Ready(state)),
    ensures
        reported(events, IdentityStep::DeriveGenesis) matches IdentityEventModel::Derived(
            Ok(genesis),
        ) && reported(events, IdentityStep::BindKyber) matches IdentityEventModel::Kyber(kyber)
            && reports(state, genesis, kyber),
{
    steps_are_taken_in_order(config, events);
}

/// Whether bringing up the identity with `config` went well all the way and ended with `state`.
pub open spec fn ends_with(
    config: Config,
    events: Seq<IdentityEventModel>,
    state: IdentityState,
) -> bool {
    identity_run(config, events) matches Some(run) && run.failure is None && run.step
        == IdentityStep::Ready && run.comes_to(IdentityAction::Ready(state))
}

/// Whether the genesis came about by `derive`: what was reported of the derivation is what that
/// makes of the seed and the input that were handed out for it.
pub open spec fn derived_by(
    derive: spec_fn(Seq<u8>, Seq<u8>, u32, u32, u32) -> Result<GenesisModel, Seq<char>>,
    config: Config,
    events: Seq<IdentityEventModel>,
    seed: Vec<u8>,
    input: GenesisInput,
) -> bool {
    &&& identity_run(config, events.take(IdentityStep::DeriveGenesis.rank() as int)) matches Some(
        run,
    )
    &&& run.comes_to(IdentityAction::DeriveGenesis { seed, input })
    &&& reported(events, IdentityStep::DeriveGenesis) == IdentityEventModel::Derived(
        derive(
            seed@,
            input.network@,
            input.wallet_index,
            input.device_slot,
            input.genesis_version,
        ),
    )
}

proof fn run_is_recorded(config: Config, events: Seq<IdentityEventModel>, k: int)
    requires
        identity_run(config, events) is Some,
        0 <= k < events.len(),
    ensures
        identity_run(config, events.take(k)) matches Some(run) && run.expects(events[k])
            && identity_run(config, events.take(k + 1)) == Some(run.after(events[k])),
    decreases events.len(),
{
    assert(events.take(k + 1).drop_last() =~= events.take(k));
    if k + 1 == events.len() {
        assert(events.take(k + 1) =~= events);
    } else {
        let before = events.drop_last();
        run_is_recorded(config, before, k);
        assert(before.take(k) =~= events.take(k));
        assert(before.take(k + 1) =~= events.take(k + 1));
    }
}

/// The identity depends on the wallet seed and the network alone: whatever else is configured and
/// whatever else happens, two runs that end well with the same seed on the same network report the
/// same device id and the same genesis hash, as long as the derivation goes by its arguments.
pub proof fn same_seed_and_network_give_the_same_identity(
    derive: spec_fn(Seq<u8>, Seq<u8>, u32, u32, u32) -> Result<GenesisModel, Seq<char>>,
    config: Config,
    events: Seq<IdentityEventModel>,
    seed: Vec<u8>,
    input: GenesisInput,
    state: IdentityState,
    other_config: Config,
    other_events: Seq<IdentityEventModel>,
    other_seed: Vec<u8>,
    other_input: GenesisInput,
    other_state: IdentityState,
)
    requires
        ends_with(config, events, state),
        derived_by(derive, config, events, seed, input),
        ends_with(other_config, other_events, other_state),
        derived_by(derive, other_config, other_events, other_seed, other_input),
        config.node.network@ == other_config.node.network@,
        reported(events, IdentityStep::CacheSeed) == reported(
            other_events,
            IdentityStep::CacheSeed,
        ),
    ensures
        state.device_id_hex@ == other_state.device_id_hex@,
        state.genesis_hash_hex@ == other_state.genesis_hash_hex@,
{
    steps_are_taken_in_order(config, events);
    steps_are_taken_in_order(other_config, other_events);
    run_is_recorded(config, events, 1);
    run_is_recorded(other_config, other_events, 1);
    steps_are_taken_in_order(config, events.take(1));
    steps_are_taken_in_order(other_config, other_events.take(1));
    assert(reported(events.take(1), IdentityStep::CacheSeed) == reported(
        events,
        IdentityStep::CacheSeed,
    ));
    assert(reported(other_events.take(1), IdentityStep::CacheSeed) == reported(
        other_events,
        IdentityStep::CacheSeed,
    ));
}

/// Whatever is handed out on the way is made of the one seed, the one genesis and the one
/// configuration of the run: every step that names the device names that of the genesis, and so for
/// its hash, root and keys; every step that names the storage nodes names all that are configured.
pub proof fn steps_work_on_the_one_genesis(run: IdentityRunModel, action: IdentityAction)
    requires
        run.well_formed(),
        run.failure is None,
        run.comes_to(action),
    ensures
        match action {
            IdentityAction::DeriveGenesis { seed, input } => {
                &&& seed@ == run.seed
                &&& input.network@ == encode_utf8(run.config.node.network@)
                &&& input.wallet_index == 0 && input.device_slot == 0
                &&& input.genesis_version == 3
            },
            IdentityAction::CreateCore { device_id, public_key } => {
                &&& run.genesis matches Some(genesis)
                &&& device_id@ == genesis.device_id
                &&& public_key@ == genesis.public_key
            },
            IdentityAction::EncodeIds { device_id, hash, nonce, smt_root } => {
                &&& run.genesis matches Some(genesis)
                &&& device_id@ == genesis.device_id
                &&& hash@ == genesis.hash
                &&& nonce@ == genesis.nonce
                &&& smt_root@ == genesis.smt_root
            },
            IdentityAction::StoreRecord(record) => {
                &&& run.ids matches Some(ids)
                &&& record.device_id@ == ids.device_id
                &&& record.genesis_id@ == ids.hash
                &&& record.merkle_root@ == ids.smt_root
                &&& record.genesis_nonce@ == ids.nonce
                &&& record.network_id@ == run.config.node.network@
                &&& record.storage_nodes@ == run.config.storage.endpoints@
            },
            IdentityAction::EnsureWalletState { device_id } => {
                &&& run.ids matches Some(ids)
                &&& device_id@ == ids.device_id
            },
            IdentityAction::SetIdentity { device_id, public_key, genesis_hash, smt_root } => {
                &&& run.genesis matches Some(genesis)
                &&& device_id@ == genesis.device_id
                &&& public_key@ == genesis.public_key
                &&& genesis_hash@ == genesis.hash
                &&& smt_root@ == genesis.smt_root
            },
            IdentityAction::InitContext { device_id, genesis_hash, entropy_input } => {
                &&& run.genesis matches Some(genesis)
                &&& device_id@ == genesis.device_id
                &&& genesis_hash@ == genesis.hash
                &&& genesis.device_id.is_prefix_of(entropy_input@)
                &&& run.seed.is_suffix_of(entropy_input@)
                &&& entropy_input@.len() == genesis.device_id.len() + genesis.hash.len()
                    + run.seed.len()
                &&& entropy_input@ == device_id@ + genesis_hash@ + run.seed
            },
            IdentityAction::CreateRouter(sdk) => {
                &&& sdk.node_id@ == run.config.node.id@
                &&& sdk.storage_endpoints@.len() == run.config.storage.endpoints@.len()
                &&& forall|i: int|
                    0 <= i < sdk.storage_endpoints@.len() ==> (
                    #[trigger] sdk.storage_endpoints@[i])@ == run.config.storage.endpoints@[i]@
                &&& !sdk.enable_offline
            },
            IdentityAction::PublishGenesis(created) => {
                &&& run.genesis matches Some(genesis)
                &&& created.device_id@ == genesis.device_id
                &&& created.genesis_hash@ == genesis.hash
                &&& created.public_key@ == genesis.public_key
                &&& created.smt_root@ == genesis.smt_root
                &&& created.device_entropy@ == genesis.nonce
                &&& created.network_id@ == run.config.node.network@
                &&& created.storage_nodes@ == run.config.storage.endpoints@
            },
            IdentityAction::Ready(state) => {
                &&& run.genesis matches Some(genesis)
                &&& hex_bytes(state.device_id_hex@) == genesis.device_id
                &&& hex_bytes(state.genesis_hash_hex@) == genesis.hash
            },
            IdentityAction::Failed(_) => false,
            _ => true,
        },
{
    if let Some(genesis) = run.genesis {
        hex_round_trip(genesis.device_id);
        hex_round_trip(genesis.hash);
        let input = genesis.device_id + genesis.hash + run.seed;
        assert(input.subrange(0, genesis.device_id.len() as int) =~= genesis.device_id);
        assert(input.subrange(input.len() - run.seed.len(), input.len() as int) =~= run.seed);
    }
}

/// Each step has its own action, and a run that failed asks for nothing more: it reports why.
pub proof fn each_step_has_its_action(run: IdentityRunModel, action: IdentityAction)
    requires
        run.well_formed(),
        run.comes_to(action),
    ensures
        run.failure matches Some(why) ==> (action matches IdentityAction::Failed(text) && text@
            == why),
        run.failure is None ==> {
            &&& action is CacheSeed <==> run.step == IdentityStep::CacheSeed
            &&& action is DeriveGenesis <==> run.step == IdentityStep::DeriveGenesis
            &&& action is CreateCore <==> run.step == IdentityStep::CreateCore
            &&& action is InstallGenesis <==> run.step == IdentityStep::InstallGenesis
            &&& action is EncodeIds <==> run.step == IdentityStep::EncodeIds
            &&& action is StoreRecord <==> run.step == IdentityStep::StoreRecord
            &&& action is EnsureWalletState <==> run.step == IdentityStep::EnsureWalletState
            &&& action is SetIdentity <==> run.step == IdentityStep::SetIdentity
            &&& action is InitContext <==> run.step == IdentityStep::InitContext
            &&& action is CreateRouter <==> run.step == IdentityStep::CreateRouter
            &&& action is InstallRouter <==> run.step == IdentityStep::InstallRouter
            &&& action is InstallPolicyResolver <==> run.step
                == IdentityStep::InstallPolicyResolver
            &&& action is RehydrateTokens <==> run.step == IdentityStep::RehydrateTokens
            &&& action is RepublishPolicies <==> run.step == IdentityStep::RepublishPolicies
            &&& action is PublishGenesis <==> run.step == IdentityStep::PublishGenesis
            &&& action is BindKyber <==> run.step == IdentityStep::BindKyber
            &&& action is Ready <==> run.step == IdentityStep::Ready
        },
{
}

/// A step that the node cannot do without ends the run when it fails, and the report names the step
/// and passes on the reason; any other failure is passed over.
pub proof fn failing_step_is_reported(run: IdentityRunModel, why: Seq<char>)
    requires
        run.expects(IdentityEventModel::Taken(Some(why))),
    ensures
        ({
            let after = run.after(IdentityEventModel::Taken(Some(why)));
            match after.failure {
                Some(text) => why.is_suffix_of(text) && match run.step {
                    IdentityStep::CreateCore => "CoreSDK::new_with_device failed: "@.is_prefix_of(
                        text,
                    ),
                    IdentityStep::InstallGenesis => "install_v2_genesis failed: "@.is_prefix_of(
                        text,
                    ),
                    IdentityStep::StoreRecord =>
                        "store_genesis_record_with_verification failed: "@.is_prefix_of(text),
                    IdentityStep::EnsureWalletState =>
                        "ensure_wallet_state_for_device failed: "@.is_prefix_of(text),
                    IdentityStep::InitContext => "initialize_sdk_context failed: "@.is_prefix_of(
                        text,
                    ),
                    IdentityStep::CreateRouter => "AppRouterImpl::new failed: "@.is_prefix_of(text),
                    IdentityStep::InstallRouter => "install_app_router failed: "@.is_prefix_of(text),
                    _ => false,
                },
                None => after == (IdentityRunModel { step: next_step(run.step), ..run }) && (
                run.step == IdentityStep::SetIdentity || run.step
                    == IdentityStep::InstallPolicyResolver || run.step
                    == IdentityStep::RehydrateTokens || run.step == IdentityStep::RepublishPolicies
                    || run.step == IdentityStep::PublishGenesis),
            }
        }),
{
    if let Some(what) = run.step.complaint() {
        both_ends_are_kept(what, why);
    }
}

/// What a step brings up is kept, and nothing else changes: the seed, the genesis, the ids and the
/// Kyber key are those that were reported. Without a seed or a genesis the run ends, and says why.
pub proof fn what_comes_up_is_kept(
    run: IdentityRunModel,
    seed: Seq<u8>,
    genesis: GenesisModel,
    ids: GenesisIdsModel,
    kyber: Option<Seq<u8>>,
    why: Seq<char>,
)
    ensures
        run.after(IdentityEventModel::Seed(Ok(seed))) == (IdentityRunModel {
            step: next_step(run.step),
            seed,
            ..run
        }),
        run.after(IdentityEventModel::Derived(Ok(genesis))) == (IdentityRunModel {
            step: next_step(run.step),
            genesis: Some(genesis),
            ..run
        }),
        run.after(IdentityEventModel::Ids(ids)) == (IdentityRunModel {
            step: next_step(run.step),
            ids: Some(ids),
            ..run
        }),
        run.after(IdentityEventModel::Kyber(kyber)) == (IdentityRunModel {
            step: next_step(run.step),
            kyber,
            ..run
        }),
        run.after(IdentityEventModel::Taken(None)) == (IdentityRunModel {
            step: next_step(run.step),
            ..run
        }),
        run.after(IdentityEventModel::Seed(Err(why))).failure == Some(why),
        run.after(IdentityEventModel::Derived(Err(why))).failure == Some(why),
{
}

} // verus!
