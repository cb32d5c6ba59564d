//! Lazy backend bring-up.
//!
//! Given a capability requirement and the stored shape of an entity, the
//! planner lists exactly the interactive or fallible steps that must run,
//! in order; the caller performs each step's outside work (a prompt, a
//! device hand-shake, a connection) and feeds the outcome back into the
//! step machine, which decides the next state or the error.  An operation
//! that does not need a backend never gets a step for it: in particular,
//! no secret prompt is ever planned for an operation that does not sign.

use vstd::prelude::*;
use crate::capability::{
    heir_wallet_requirement, wallet_requirement, CapabilityRequirement,
};
use crate::errors::Error;
use crate::operations::{HeirWalletSubcmd, WalletSubcmd};

verus! {

/// The stored shape of an entity's key-management backend.
#[derive(Clone, Copy, PartialEq, Eq, Structural, Debug)]
pub enum StoredKeyProvider {
    /// No key backend: the entity cannot sign.
    NoKeyProvider,
    /// A locally stored seed, optionally gated behind a password.
    Local { password_gated: bool },
    /// A hardware signing device.
    Ledger,
}

/// The stored shape of an entity's chain-observation backend.
#[derive(Clone, Copy, PartialEq, Eq, Structural, Debug)]
pub enum StoredOnlineWallet {
    /// No chain observer.
    NoOnlineWallet,
    /// The remote heritage service.
    Service,
    /// A local observer with persisted descriptor state.
    Local,
}

/// What the database holds about an entity, as far as bring-up cares.
#[derive(Clone, Copy, PartialEq, Eq, Structural, Debug)]
pub struct StoredEntity {
    pub key_provider: StoredKeyProvider,
    pub online_wallet: StoredOnlineWallet,
}

/// One interactive or fallible bring-up step.
#[derive(Clone, Copy, PartialEq, Eq, Structural, Debug)]
pub enum BootstrapStep {
    /// Ask the user for the seed password; twice, to confirm, when
    /// `double_check` is set (creating or restoring an entity).
    PromptSecret { double_check: bool },
    /// Open a session with the hardware signing device.
    OpenDeviceSession,
    /// Attach whatever service session is stored; never log in.
    AttachServiceSession,
    /// Load the local observer's persisted descriptor state.
    LoadObserverState,
    /// Connect the raw chain provider from configuration.
    ConnectRawProvider,
}

/// The steps that bring up the key backend, if it is needed.
pub open spec fn spec_key_steps(
    req: CapabilityRequirement,
    entity: StoredEntity,
    creating: bool,
) -> Seq<BootstrapStep> {
    if req.needs_key_backend {
        match entity.key_provider {
            StoredKeyProvider::NoKeyProvider => Seq::empty(),
            StoredKeyProvider::Local { password_gated } => if password_gated {
                seq![BootstrapStep::PromptSecret { double_check: creating }]
            } else {
                Seq::empty()
            },
            StoredKeyProvider::Ledger => seq![BootstrapStep::OpenDeviceSession],
        }
    } else {
        Seq::empty()
    }
}

/// The steps that bring up the chain observer, if it is needed.
pub open spec fn spec_observer_steps(
    req: CapabilityRequirement,
    entity: StoredEntity,
) -> Seq<BootstrapStep> {
    if req.needs_chain_observer {
        match entity.online_wallet {
            StoredOnlineWallet::NoOnlineWallet => Seq::empty(),
            StoredOnlineWallet::Service => seq![BootstrapStep::AttachServiceSession],
            StoredOnlineWallet::Local => if req.needs_raw_chain_provider {
                seq![BootstrapStep::LoadObserverState, BootstrapStep::ConnectRawProvider]
            } else {
                seq![BootstrapStep::LoadObserverState]
            },
        }
    } else {
        Seq::empty()
    }
}

/// The whole bring-up plan: key backend first, then the observer.
pub open spec fn spec_bootstrap_plan(
    req: CapabilityRequirement,
    entity: StoredEntity,
    creating: bool,
) -> Seq<BootstrapStep> {
    spec_key_steps(req, entity, creating) + spec_observer_steps(req, entity)
}

/// Plans the bring-up steps for one operation on one stored entity.
/// `creating` marks the create/restore path, where a password-gated seed
/// is confirmed by a second prompt.
pub fn plan_bootstrap(
    req: CapabilityRequirement,
    entity: StoredEntity,
    creating: bool,
) -> (plan: Vec<BootstrapStep>)
    ensures
        plan@ == spec_bootstrap_plan(req, entity, creating),
{
    let mut plan: Vec<BootstrapStep> = Vec::new();
    if req.needs_key_backend {
        match entity.key_provider {
            StoredKeyProvider::NoKeyProvider => {},
            StoredKeyProvider::Local { password_gated } => {
                if password_gated {
                    plan.push(BootstrapStep::PromptSecret { double_check: creating });
                }
            },
            StoredKeyProvider::Ledger => {
                plan.push(BootstrapStep::OpenDeviceSession);
            },
        }
    }
    proof {
        assert(plan@ =~= spec_key_steps(req, entity, creating));
    }
    if req.needs_chain_observer {
        match entity.online_wallet {
            StoredOnlineWallet::NoOnlineWallet => {},
            StoredOnlineWallet::Service => {
                plan.push(BootstrapStep::AttachServiceSession);
            },
            StoredOnlineWallet::Local => {
                plan.push(BootstrapStep::LoadObserverState);
                if req.needs_raw_chain_provider {
                    plan.push(BootstrapStep::ConnectRawProvider);
                }
            },
        }
    }
    proof {
        assert(plan@ =~= spec_key_steps(req, entity, creating) + spec_observer_steps(req, entity));
    }
    plan
}

/// An operation that does not need the key backend is never planned a
/// secret prompt, whatever the entity looks like: whether the user is
/// asked for a secret depends only on the resolved capability set.
pub proof fn lemma_no_prompt_without_key_need(
    req: CapabilityRequirement,
    entity: StoredEntity,
    creating: bool,
)
    requires
        !req.needs_key_backend,
    ensures
        forall|i: int|
            0 <= i < spec_bootstrap_plan(req, entity, creating).len() ==> !(spec_bootstrap_plan(
                req,
                entity,
                creating,
            )[i] is PromptSecret),
{
    assert(spec_key_steps(req, entity, creating) =~= Seq::<BootstrapStep>::empty());
}

/// The same, stated over every wallet operation: one whose requirement
/// leaves the key backend out never prompts during bring-up.
pub proof fn lemma_wallet_op_no_prompt(op: WalletSubcmd, entity: StoredEntity, creating: bool)
    requires
        !wallet_requirement(op).needs_key_backend,
    ensures
        forall|i: int|
            0 <= i < spec_bootstrap_plan(wallet_requirement(op), entity, creating).len()
                ==> !(spec_bootstrap_plan(wallet_requirement(op), entity, creating)[i]
                is PromptSecret),
{
    lemma_no_prompt_without_key_need(wallet_requirement(op), entity, creating);
}

/// The same, stated over every heir-wallet operation.
pub proof fn lemma_heir_wallet_op_no_prompt(
    op: HeirWalletSubcmd,
    entity: StoredEntity,
    creating: bool,
)
    requires
        !heir_wallet_requirement(op).needs_key_backend,
    ensures
        forall|i: int|
            0 <= i < spec_bootstrap_plan(heir_wallet_requirement(op), entity, creating).len()
                ==> !(spec_bootstrap_plan(heir_wallet_requirement(op), entity, creating)[i]
                is PromptSecret),
{
    lemma_no_prompt_without_key_need(heir_wallet_requirement(op), entity, creating);
}

/// How the components stand while the plan runs.
#[derive(Clone, Debug)]
pub struct BootstrapState {
    /// The seed password, once prompted.
    pub secret: Option<String>,
    /// Whether a device session is open.
    pub device_session: bool,
    /// Whether a service session is attached.
    pub service_session: bool,
    /// Whether the attached session carries valid credentials.
    pub service_authenticated: bool,
    /// Whether the local observer's state is loaded.
    pub observer_loaded: bool,
    /// Whether the raw chain provider is connected.
    pub provider_connected: bool,
}

/// The state before any step has run.
pub fn initial_bootstrap_state() -> (r: BootstrapState)
    ensures
        r.secret is None,
        !r.device_session,
        !r.service_session,
        !r.service_authenticated,
        !r.observer_loaded,
        !r.provider_connected,
{
    BootstrapState {
        secret: None,
        device_session: false,
        service_session: false,
        service_authenticated: false,
        observer_loaded: false,
        provider_connected: false,
    }
}

/// What the outside world reported for one step.
#[derive(Clone, Debug)]
pub enum StepOutcome {
    /// The prompt returned; `second` is the confirmation entry, present
    /// exactly when the step double-checks.
    SecretEntered { first: String, second: Option<String> },
    /// The prompt itself failed.
    SecretPromptFailed,
    /// The device responded.
    DeviceOpened,
    /// No compatible device responded.
    DeviceMissing,
    /// A session was attached; it may or may not carry credentials.
    SessionAttached { authenticated: bool },
    /// The observer state was loaded.
    ObserverLoaded,
    /// The raw chain provider answered.
    ProviderConnected,
    /// The raw chain provider did not answer.
    ProviderUnreachable,
}

/// Whether an outcome is one that the given step can produce.
pub open spec fn outcome_fits(step: BootstrapStep, outcome: StepOutcome) -> bool {
    match step {
        BootstrapStep::PromptSecret { double_check } => match outcome {
            StepOutcome::SecretEntered { first: _, second } => double_check == (second is Some),
            StepOutcome::SecretPromptFailed => true,
            _ => false,
        },
        BootstrapStep::OpenDeviceSession => outcome is DeviceOpened || outcome is DeviceMissing,
        BootstrapStep::AttachServiceSession => outcome is SessionAttached,
        BootstrapStep::LoadObserverState => outcome is ObserverLoaded,
        BootstrapStep::ConnectRawProvider => outcome is ProviderConnected
            || outcome is ProviderUnreachable,
    }
}

/// The next state, or the error, after one step's outcome.
pub open spec fn spec_apply_step(
    state: BootstrapState,
    step: BootstrapStep,
    outcome: StepOutcome,
) -> Result<BootstrapState, Error> {
    match outcome {
        StepOutcome::SecretEntered { first, second } => match second {
            Option::Some(confirmation) => if confirmation@ == first@ {
                Result::Ok(BootstrapState { secret: Option::Some(first), ..state })
            } else {
                Result::Err(Error::PasswordMismatch)
            },
            Option::None => Result::Ok(BootstrapState { secret: Option::Some(first), ..state }),
        },
        StepOutcome::SecretPromptFailed => Result::Err(Error::PromptFailed),
        StepOutcome::DeviceOpened => Result::Ok(BootstrapState { device_session: true, ..state }),
        StepOutcome::DeviceMissing => Result::Err(Error::DeviceUnavailable),
        StepOutcome::SessionAttached { authenticated } => Result::Ok(
            BootstrapState {
                service_session: true,
                service_authenticated: authenticated,
                ..state
            },
        ),
        StepOutcome::ObserverLoaded => Result::Ok(
            BootstrapState { observer_loaded: true, ..state },
        ),
        StepOutcome::ProviderConnected => Result::Ok(
            BootstrapState { provider_connected: true, ..state },
        ),
        StepOutcome::ProviderUnreachable => Result::Err(Error::UnreachableProvider),
    }
}

/// Applies one step's outcome: a mismatched confirmation fails with
/// `PasswordMismatch`, a failed prompt with `PromptFailed`, a silent
/// device with `DeviceUnavailable`, an unreachable provider with
/// `UnreachableProvider`; otherwise the state advances by exactly that
/// component.
pub fn apply_step(state: BootstrapState, step: &BootstrapStep, outcome: StepOutcome) -> (r: Result<
    BootstrapState,
    Error,
>)
    requires
        outcome_fits(*step, outcome),
    ensures
        r == spec_apply_step(state, *step, outcome),
{
    match outcome {
        StepOutcome::SecretEntered { first, second } => match second {
            Option::Some(confirmation) => {
                if confirmation == first {
                    Ok(BootstrapState { secret: Some(first), ..state })
                } else {
                    Err(Error::PasswordMismatch)
                }
            },
            Option::None => Ok(BootstrapState { secret: Some(first), ..state }),
        },
        StepOutcome::SecretPromptFailed => Err(Error::PromptFailed),
        StepOutcome::DeviceOpened => Ok(BootstrapState { device_session: true, ..state }),
        StepOutcome::DeviceMissing => Err(Error::DeviceUnavailable),
        StepOutcome::SessionAttached { authenticated } => Ok(
            BootstrapState {
                service_session: true,
                service_authenticated: authenticated,
                ..state
            },
        ),
        StepOutcome::ObserverLoaded => Ok(BootstrapState { observer_loaded: true, ..state }),
        StepOutcome::ProviderConnected => Ok(BootstrapState { provider_connected: true, ..state }),
        StepOutcome::ProviderUnreachable => Err(Error::UnreachableProvider),
    }
}

/// Whether everything the requirement asks for is up, for this entity.
pub open spec fn spec_bootstrap_complete(
    req: CapabilityRequirement,
    entity: StoredEntity,
    state: BootstrapState,
) -> bool {
    &&& (req.needs_key_backend ==> match entity.key_provider {
        StoredKeyProvider::NoKeyProvider => true,
        StoredKeyProvider::Local { password_gated } => password_gated ==> state.secret is Some,
        StoredKeyProvider::Ledger => state.device_session,
    })
    &&& (req.needs_chain_observer ==> match entity.online_wallet {
        StoredOnlineWallet::NoOnlineWallet => true,
        StoredOnlineWallet::Service => state.service_session,
        StoredOnlineWallet::Local => state.observer_loaded && (req.needs_raw_chain_provider
            ==> state.provider_connected),
    })
}

/// Checks that everything the requirement asks for is up.
pub fn bootstrap_complete(
    req: CapabilityRequirement,
    entity: StoredEntity,
    state: &BootstrapState,
) -> (r: bool)
    ensures
        r == spec_bootstrap_complete(req, entity, *state),
{
    let key_ready = if req.needs_key_backend {
        match entity.key_provider {
            StoredKeyProvider::NoKeyProvider => true,
            StoredKeyProvider::Local { password_gated } => !password_gated
                || state.secret.is_some(),
            StoredKeyProvider::Ledger => state.device_session,
        }
    } else {
        true
    };
    let observer_ready = if req.needs_chain_observer {
        match entity.online_wallet {
            StoredOnlineWallet::NoOnlineWallet => true,
            StoredOnlineWallet::Service => state.service_session,
            StoredOnlineWallet::Local => state.observer_loaded && (!req.needs_raw_chain_provider
                || state.provider_connected),
        }
    } else {
        true
    };
    key_ready && observer_ready
}

/// Gates a remote-service call on the attached session actually carrying
/// credentials: bring-up never logs in on its own, so a downstream call
/// without a valid session fails with `Unauthenticated`.
pub fn require_authenticated(state: &BootstrapState) -> (r: Result<(), Error>)
    ensures
        state.service_authenticated ==> r == Ok::<(), Error>(()),
        !state.service_authenticated ==> r == Err::<(), Error>(Error::Unauthenticated),
{
    if state.service_authenticated {
        Ok(())
    } else {
        Err(Error::Unauthenticated)
    }
}

/// Requires the heritage provider to be the local wallet, as syncing an
/// heir-wallet against the chain does.
pub fn require_local_heritage_provider(p: &StoredOnlineWallet) -> (r: Result<(), Error>)
    ensures
        (*p is Local) ==> r == Ok::<(), Error>(()),
        !(*p is Local) ==> r == Err::<(), Error>(Error::IncorrectHeritageProvider),
{
    match p {
        StoredOnlineWallet::Local => Ok(()),
        _ => Err(Error::IncorrectHeritageProvider),
    }
}

/// Requires the entity's key backend to be the hardware device, as the
/// policy-registration operations do.
pub fn require_ledger(key: &StoredKeyProvider) -> (r: Result<(), Error>)
    ensures
        (*key is Ledger) ==> r == Ok::<(), Error>(()),
        !(*key is Ledger) ==> r == Err::<(), Error>(Error::IncorrectKeyProvider),
{
    match key {
        StoredKeyProvider::Ledger => Ok(()),
        _ => Err(Error::IncorrectKeyProvider),
    }
}

} // verus!
