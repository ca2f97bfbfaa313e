//! The order in which the node comes up.
use vstd::prelude::*;

use crate::config::Config;
use crate::node::registration::RegistrationModel;
use crate::text::{both_ends_are_kept, joined};

verus! {

/// The SDK's configuration.
#[derive(Debug)]
pub struct SdkConfig {
    pub node_id: String,
    pub storage_endpoints: Vec<String>,
    pub enable_offline: bool,
}

/// Whether `sdk` configures the SDK for this node, which is always online.
pub open spec fn configures(sdk: SdkConfig, config: Config) -> bool {
    &&& sdk.node_id@ == config.node.id@
    &&& sdk.storage_endpoints@ == config.storage.endpoints@
    &&& !sdk.enable_offline
}

/// Configures the SDK for this node.
pub fn sdk_config(config: &Config) -> (r: SdkConfig)
    ensures
        configures(r, *config),
        r.node_id@ == config.node.id@,
        r.storage_endpoints@.len() == config.storage.endpoints@.len(),
        forall|i: int|
            0 <= i < config.storage.endpoints@.len() ==> (#[trigger] r.storage_endpoints@[i])@
                == config.storage.endpoints@[i]@,
        !r.enable_offline,
{
    let storage_endpoints: Vec<String> = config.storage.endpoints.clone();
    assert(storage_endpoints@ =~= config.storage.endpoints@);
    SdkConfig { node_id: config.node.id.clone(), storage_endpoints, enable_offline: false }
}

/// A step of the start-up.
#[derive(Debug, Clone, Copy, PartialEq, Eq, Structural)]
pub enum BootStep {
    /// Tell the SDK where to store things; it must hear of nothing else before.
    SetStorageDir,
    /// Point the storage SDK at the configured environment file.
    SetEnvConfig,
    /// Initialise the SDK.
    InitSdk,
    /// Bring up the identity.
    LoadIdentity,
    /// Register the device with every storage node.
    RegisterDevice,
    /// Serve requests.
    Ready,
}

/// What a step of the start-up comes to.
#[derive(Debug)]
pub enum BootAction {
    /// Have the SDK store everything under this directory.
    SetStorageDir(String),
    /// Have the storage SDK read this environment file.
    SetEnvConfig(String),
    /// Initialise the SDK with this configuration.
    InitSdk(SdkConfig),
    /// Bring up the identity.
    LoadIdentity,
    /// Register the device with every storage node.
    RegisterDevice,
    /// Serve requests.
    Ready,
}

/// Says what `step` comes to with this configuration; the storage SDK is pointed at an environment
/// file only where one is configured.
pub fn boot_action(config: &Config, step: BootStep) -> (r: BootAction)
    requires
        step == BootStep::SetEnvConfig ==> config.storage.env_config_path is Some,
    ensures
        match step {
            BootStep::SetStorageDir => r matches BootAction::SetStorageDir(dir) && dir@
                == config.identity.data_dir@,
            BootStep::SetEnvConfig => r matches BootAction::SetEnvConfig(file)
                && config.storage.env_config_path matches Some(path) && file@ == path@,
            BootStep::InitSdk => r matches BootAction::InitSdk(sdk) && configures(sdk, *config),
            BootStep::LoadIdentity => r is LoadIdentity,
            BootStep::RegisterDevice => r is RegisterDevice,
            BootStep::Ready => r is Ready,
        },
{
    match step {
        BootStep::SetStorageDir => BootAction::SetStorageDir(config.identity.data_dir.clone()),
        BootStep::SetEnvConfig => BootAction::SetEnvConfig(
            config.storage.env_config_path.as_ref().unwrap().clone(),
        ),
        BootStep::InitSdk => BootAction::InitSdk(sdk_config(config)),
        BootStep::LoadIdentity => BootAction::LoadIdentity,
        BootStep::RegisterDevice => BootAction::RegisterDevice,
        BootStep::Ready => BootAction::Ready,
    }
}

/// The model of an outcome.
pub open spec fn failure(outcome: Result<(), String>) -> Option<Seq<char>> {
    match outcome {
        Ok(_) => None,
        Err(why) => Some(why@),
    }
}

/// The step after `step`, whose failure is absent where it succeeded; `env_config` says whether
/// an environment file is configured. An error ends the start-up.
pub open spec fn after_boot_step(
    step: BootStep,
    env_config: bool,
    failure: Option<Seq<char>>,
) -> Result<BootStep, Seq<char>> {
    match (step, failure) {
        (BootStep::SetStorageDir, None) => Ok(
            if env_config {
                BootStep::SetEnvConfig
            } else {
                BootStep::InitSdk
            },
        ),
        (BootStep::SetStorageDir, Some(why)) => Err("set_storage_base_dir failed: "@ + why),
        (BootStep::SetEnvConfig, _) => Ok(BootStep::InitSdk),
        (BootStep::InitSdk, None) => Ok(BootStep::LoadIdentity),
        (BootStep::InitSdk, Some(why)) => Err("init_dsm_sdk failed: "@ + why),
        (BootStep::LoadIdentity, None) => Ok(BootStep::RegisterDevice),
        (BootStep::LoadIdentity, Some(why)) => Err(why),
        (BootStep::RegisterDevice, _) => Ok(BootStep::Ready),
        (BootStep::Ready, _) => Ok(BootStep::Ready),
    }
}

/// Settles the step after `step`, given how that went.
pub fn bootstrap(config: &Config, step: BootStep, outcome: Result<(), String>) -> (r: Result<
    BootStep,
    String,
>)
    ensures
        match r {
            Ok(next) => after_boot_step(
                step,
                config.storage.env_config_path is Some,
                failure(outcome),
            ) == Ok::<BootStep, Seq<char>>(next),
            Err(why) => after_boot_step(
                step,
                config.storage.env_config_path is Some,
                failure(outcome),
            ) == Err::<BootStep, Seq<char>>(why@),
        },
{
    match (step, outcome) {
        (BootStep::SetStorageDir, Ok(_)) => match &config.storage.env_config_path {
            Some(_) => Ok(BootStep::SetEnvConfig),
            None => Ok(BootStep::InitSdk),
        },
        (BootStep::SetStorageDir, Err(why)) => Err(
            joined("set_storage_base_dir failed: ", why.as_str()),
        ),
        (BootStep::SetEnvConfig, _) => Ok(BootStep::InitSdk),
        (BootStep::InitSdk, Ok(_)) => Ok(BootStep::LoadIdentity),
        (BootStep::InitSdk, Err(why)) => Err(joined("init_dsm_sdk failed: ", why.as_str())),
        (BootStep::LoadIdentity, Ok(_)) => Ok(BootStep::RegisterDevice),
        (BootStep::LoadIdentity, Err(why)) => Err(why),
        (BootStep::RegisterDevice, _) => Ok(BootStep::Ready),
        (BootStep::Ready, _) => Ok(BootStep::Ready),
    }
}

/// The step that the start-up has reached after the given outcomes, or the error that ended it.
pub open spec fn boot(env_config: bool, failures: Seq<Option<Seq<char>>>) -> Result<
    BootStep,
    Seq<char>,
>
    decreases failures.len(),
{
    if failures.len() == 0 {
        Ok(BootStep::SetStorageDir)
    } else {
        match boot(env_config, failures.drop_last()) {
            Ok(step) => after_boot_step(step, env_config, failures.last()),
            Err(why) => Err(why),
        }
    }
}

/// The storage directory is set first of all: any other step comes after it succeeded.
pub proof fn storage_dir_is_set_first(env_config: bool, failures: Seq<Option<Seq<char>>>)
    ensures
        boot(env_config, failures) == Ok::<BootStep, Seq<char>>(BootStep::SetStorageDir) <==>
            failures.len() == 0,
        boot(env_config, failures) is Ok && failures.len() > 0 ==> failures[0] is None,
    decreases failures.len(),
{
    if failures.len() > 0 {
        storage_dir_is_set_first(env_config, failures.drop_last());
        if failures.len() == 1 {
            assert(failures.last() == failures[0]);
        } else {
            assert(failures.drop_last()[0] == failures[0]);
        }
    }
}

/// The storage SDK is pointed at an environment file only where one is configured.
pub proof fn env_config_is_set_only_if_configured(
    env_config: bool,
    failures: Seq<Option<Seq<char>>>,
)
    ensures
        boot(env_config, failures) == Ok::<BootStep, Seq<char>>(BootStep::SetEnvConfig)
            ==> env_config,
{
}

/// A node that serves requests has its storage directory, its SDK and its identity; a failing
/// registration does not keep it from serving.
pub proof fn serving_node_is_set_up(env_config: bool, failures: Seq<Option<Seq<char>>>)
    requires
        failures.len() == (if env_config {
            5int
        } else {
            4int
        }),
    ensures
        boot(env_config, failures) == Ok::<BootStep, Seq<char>>(BootStep::Ready) <==> failures[0]
            is None && failures[failures.len() - 3] is None && failures[failures.len() - 2] is None,
{
    reveal_with_fuel(boot, 6);
    let f4 = failures.drop_last();
    let f3 = f4.drop_last();
    let f2 = f3.drop_last();
    let f1 = f2.drop_last();
    assert(f1.len() >= 0);
    if env_config {
        assert(f1.drop_last() =~= Seq::<Option<Seq<char>>>::empty());
        assert(f1.last() == failures[0] && f2.last() == failures[1] && f3.last() == failures[2]);
        assert(f4.last() == failures[3]);
    } else {
        assert(f1 =~= Seq::<Option<Seq<char>>>::empty());
        assert(f2.last() == failures[0] && f3.last() == failures[1] && f4.last() == failures[2]);
    }
}

/// The SDK is given every storage node that is configured, in order, and the node's own name; it is
/// always online.
pub proof fn sdk_is_given_every_node(sdk: SdkConfig, config: Config)
    requires
        configures(sdk, config),
    ensures
        sdk.storage_endpoints@.len() == config.storage.endpoints@.len(),
        forall|i: int|
            0 <= i < config.storage.endpoints@.len() ==> (#[trigger] sdk.storage_endpoints@[i])@
                == config.storage.endpoints@[i]@,
        sdk.node_id@ == config.node.id@,
        !sdk.enable_offline,
{
}

/// The SDK is given the same storage nodes that the device is registered with.
pub proof fn sdk_knows_the_registered_nodes(
    sdk: SdkConfig,
    config: Config,
    registration: RegistrationModel,
)
    requires
        configures(sdk, config),
        registration.endpoints == config.storage.endpoints@.map_values(
            |endpoint: String| endpoint@,
        ),
    ensures
        registration.endpoints.len() == sdk.storage_endpoints@.len(),
        forall|i: int|
            0 <= i < registration.endpoints.len() ==> #[trigger] registration.endpoints[i]
                == sdk.storage_endpoints@[i]@,
{
    sdk_is_given_every_node(sdk, config);
}

/// A failure ends the start-up where the node cannot do without the step: without a storage
/// directory, an SDK or an identity it does not come up. The reason is passed on.
pub proof fn start_up_failure_is_passed_on(step: BootStep, env_config: bool, why: Seq<char>)
    ensures
        match after_boot_step(step, env_config, Some(why)) {
            Ok(_) => step == BootStep::SetEnvConfig || step == BootStep::RegisterDevice || step
                == BootStep::Ready,
            Err(text) => why.is_suffix_of(text) && match step {
                BootStep::SetStorageDir => "set_storage_base_dir failed: "@.is_prefix_of(text),
                BootStep::InitSdk => "init_dsm_sdk failed: "@.is_prefix_of(text),
                BootStep::LoadIdentity => text == why,
                _ => false,
            },
        },
{
    both_ends_are_kept("set_storage_base_dir failed: "@, why);
    both_ends_are_kept("init_dsm_sdk failed: "@, why);
    both_ends_are_kept(Seq::empty(), why);
    assert(Seq::<char>::empty() + why =~= why);
}

} // verus!
