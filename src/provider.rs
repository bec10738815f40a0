//! Decisions around the hardware-resident key.
//!
//! The key store itself (Secure Enclave, TPM) is reached by the caller; the
//! functions here decide which store operation comes next and what the
//! outcome of each means, so that creation and deletion stay idempotent and
//! every failure is classified.

use vstd::prelude::*;

use crate::error::KeyError;

verus! {

/// The hardware security module a build talks to.
#[derive(Clone, Copy, Debug, PartialEq, Eq, Structural)]
pub enum Platform {
    /// Apple's Secure Enclave, through the Security framework.
    SecureEnclave,
    /// A TPM, through the platform crypto provider.
    Tpm,
    /// No hardware module.
    Unsupported,
}

/// Whether hardware security is available: always on the Secure Enclave,
/// on a TPM where its key store opens, never elsewhere.
pub open spec fn hardware_available(platform: Platform, store_opens: bool) -> bool {
    match platform {
        Platform::SecureEnclave => true,
        Platform::Tpm => store_opens,
        Platform::Unsupported => false,
    }
}

/// Best-effort probe of the platform's hardware module. `store_opens` says
/// whether the module's key store could be opened; it never fails.
pub fn is_hardware_security_available(platform: Platform, store_opens: bool) -> (r: Result<
    bool,
    String,
>)
    ensures
        r == Ok::<bool, String>(hardware_available(platform, store_opens)),
{
    match platform {
        Platform::SecureEnclave => Ok(true),
        Platform::Tpm => Ok(store_opens),
        Platform::Unsupported => Ok(false),
    }
}

/// Whether the vault's key exists: it does where opening it by its label
/// succeeded (`opened`), and never without a hardware module.
pub fn has_hardware_key(platform: Platform, opened: bool) -> (r: Result<bool, String>)
    ensures
        r == Ok::<bool, String>(platform != Platform::Unsupported && opened),
{
    match platform {
        Platform::Unsupported => Ok(false),
        _ => Ok(opened),
    }
}

/// A key-store operation of key generation.
#[derive(Clone, Copy, Debug, PartialEq, Eq, Structural)]
pub enum GenerationStep {
    /// Open the key by its label; success means a key already exists.
    LookUpKey,
    /// Build the user-presence access control (Secure Enclave).
    PrepareAccessControl,
    /// Open the platform crypto provider (TPM).
    OpenKeyStore,
    /// Create the non-exportable P-256 key pair.
    CreateKey,
    /// Require user presence for the new key (TPM).
    ApplyPresencePolicy,
    /// Make the new key usable (TPM).
    FinalizeKey,
}

/// How a successful key generation ended.
#[derive(Clone, Copy, Debug, PartialEq, Eq, Structural)]
pub enum Generated {
    /// A key already existed; nothing was created.
    AlreadyPresent,
    /// A key was created behind the user-presence gate.
    Created,
    /// A key was created, but the user-presence policy was refused: the key
    /// is usable with no presence check.
    CreatedWithoutPresenceGate,
}

/// What key generation asks for next.
#[derive(Clone, Copy, Debug, PartialEq, Eq, Structural)]
pub enum GenerationAction {
    /// Run this operation and report whether it succeeded.
    Perform(GenerationStep),
    /// Generation is over and succeeded.
    Finish(Generated),
    /// Generation is over and failed.
    Fail(KeyError),
}

/// The operations of key generation on a platform, in order.
pub open spec fn generation_steps(platform: Platform) -> Seq<GenerationStep> {
    match platform {
        Platform::SecureEnclave => seq![
            GenerationStep::LookUpKey,
            GenerationStep::PrepareAccessControl,
            GenerationStep::CreateKey,
        ],
        Platform::Tpm => seq![
            GenerationStep::LookUpKey,
            GenerationStep::OpenKeyStore,
            GenerationStep::CreateKey,
            GenerationStep::ApplyPresencePolicy,
            GenerationStep::FinalizeKey,
        ],
        Platform::Unsupported => seq![],
    }
}

/// A key generation in progress.
#[derive(Clone, Copy, Debug, PartialEq, Eq, Structural)]
pub struct Generation {
    pub platform: Platform,
    /// Index of the operation last asked for.
    pub position: usize,
    /// Whether the user-presence policy has held so far.
    pub gated: bool,
}

impl Generation {
    /// The generation points at one of its platform's operations.
    pub open spec fn wf(self) -> bool {
        self.position < generation_steps(self.platform).len()
    }

    /// The operation last asked for.
    pub open spec fn current(self) -> GenerationStep {
        generation_steps(self.platform)[self.position as int]
    }
}

/// A fresh generation on a platform, before any operation ran.
pub open spec fn generation_start(platform: Platform) -> Generation {
    Generation { platform, position: 0, gated: true }
}

/// One transition: the operation last asked for reported `succeeded`.
///
/// A found key ends generation at once. A refused presence policy is
/// tolerated: the key is still created, marked as ungated. Any other failure
/// ends generation with `GenerationFailed`. Success of the last operation ends
/// it with a created key.
pub open spec fn generation_next(g: Generation, succeeded: bool) -> (Generation, GenerationAction) {
    let steps = generation_steps(g.platform);
    let step = g.current();
    if step == GenerationStep::LookUpKey && succeeded {
        (g, GenerationAction::Finish(Generated::AlreadyPresent))
    } else if !succeeded && step != GenerationStep::LookUpKey && step
        != GenerationStep::ApplyPresencePolicy {
        (g, GenerationAction::Fail(KeyError::GenerationFailed))
    } else {
        let gated = g.gated && (succeeded || step == GenerationStep::LookUpKey);
        if g.position + 1 == steps.len() {
            (
                Generation { gated, ..g },
                GenerationAction::Finish(
                    if gated {
                        Generated::Created
                    } else {
                        Generated::CreatedWithoutPresenceGate
                    },
                ),
            )
        } else {
            (
                Generation { position: (g.position + 1) as usize, gated, ..g },
                GenerationAction::Perform(steps[g.position + 1]),
            )
        }
    }
}

fn generation_step_at(platform: Platform, i: usize) -> (r: GenerationStep)
    requires
        i < generation_steps(platform).len(),
    ensures
        r == generation_steps(platform)[i as int],
{
    match platform {
        Platform::SecureEnclave => if i == 0 {
            GenerationStep::LookUpKey
        } else if i == 1 {
            GenerationStep::PrepareAccessControl
        } else {
            GenerationStep::CreateKey
        },
        _ => if i == 0 {
            GenerationStep::LookUpKey
        } else if i == 1 {
            GenerationStep::OpenKeyStore
        } else if i == 2 {
            GenerationStep::CreateKey
        } else if i == 3 {
            GenerationStep::ApplyPresencePolicy
        } else {
            GenerationStep::FinalizeKey
        },
    }
}

fn generation_len(platform: Platform) -> (r: usize)
    ensures
        r == generation_steps(platform).len(),
{
    match platform {
        Platform::SecureEnclave => 3,
        Platform::Tpm => 5,
        Platform::Unsupported => 0,
    }
}

/// Starts generating the vault's key. Without a hardware module it fails at
/// once with `Unavailable`; otherwise it first asks whether a key exists.
pub fn generate_hardware_key(platform: Platform) -> (r: (Generation, GenerationAction))
    ensures
        r.0 == generation_start(platform),
        platform == Platform::Unsupported ==> r.1 == GenerationAction::Fail(KeyError::Unavailable),
        platform != Platform::Unsupported ==> r.0.wf() && r.1 == GenerationAction::Perform(
            GenerationStep::LookUpKey,
        ),
{
    let g = Generation { platform, position: 0, gated: true };
    match platform {
        Platform::Unsupported => (g, GenerationAction::Fail(KeyError::Unavailable)),
        _ => (g, GenerationAction::Perform(GenerationStep::LookUpKey)),
    }
}

impl Generation {
    /// Takes the outcome of the operation last asked for, and says what
    /// comes next.
    pub fn advance(&mut self, succeeded: bool) -> (r: GenerationAction)
        requires
            old(self).wf(),
        ensures
            (*final(self), r) == generation_next(*old(self), succeeded),
            final(self).wf(),
    {
        let steps_len = generation_len(self.platform);
        let step = generation_step_at(self.platform, self.position);
        if step == GenerationStep::LookUpKey && succeeded {
            GenerationAction::Finish(Generated::AlreadyPresent)
        } else if !succeeded && step != GenerationStep::LookUpKey && step
            != GenerationStep::ApplyPresencePolicy {
            GenerationAction::Fail(KeyError::GenerationFailed)
        } else {
            let gated = self.gated && (succeeded || step == GenerationStep::LookUpKey);
            self.gated = gated;
            if self.position + 1 == steps_len {
                if gated {
                    GenerationAction::Finish(Generated::Created)
                } else {
                    GenerationAction::Finish(Generated::CreatedWithoutPresenceGate)
                }
            } else {
                self.position = self.position + 1;
                GenerationAction::Perform(generation_step_at(self.platform, self.position))
            }
        }
    }
}

} // verus!

verus! {

/// Feeds the outcomes, in turn, to a generation. Gives whether a key was
/// created (a `CreateKey` operation succeeded) and the action that ended the
/// generation, if the outcomes reach an end.
pub open spec fn generation_run(g: Generation, outcomes: Seq<bool>) -> (bool, Option<
    GenerationAction,
>)
    decreases outcomes.len(),
{
    if outcomes.len() == 0 {
        (false, None)
    } else {
        let created_now = g.current() == GenerationStep::CreateKey && outcomes[0];
        let (next, action) = generation_next(g, outcomes[0]);
        match action {
            GenerationAction::Perform(_) => {
                let rest = generation_run(next, outcomes.drop_first());
                (created_now || rest.0, rest.1)
            },
            _ => (created_now, Some(action)),
        }
    }
}

/// Index of `CreateKey` among the operations of either hardware platform.
pub open spec fn create_position() -> int {
    2
}

proof fn lemma_created_before_finish(g: Generation, outcomes: Seq<bool>)
    requires
        g.wf(),
        g.platform != Platform::Unsupported,
        1 <= g.position <= create_position(),
        generation_run(g, outcomes).1 matches Some(a) && a is Finish,
    ensures
        generation_run(g, outcomes).0,
    decreases outcomes.len(),
{
    let (next, action) = generation_next(g, outcomes[0]);
    if g.position < create_position() && action is Perform {
        lemma_created_before_finish(next, outcomes.drop_first());
    }
}

/// Generating the key twice in a row leaves exactly one key, and the second
/// generation succeeds without creating anything. `present` says whether a
/// key existed before; each lookup reports truthfully whether a key exists
/// (`first[0]`, `second[0]`), and the first generation succeeded.
pub proof fn lemma_generate_twice(
    platform: Platform,
    present: bool,
    first: Seq<bool>,
    second: Seq<bool>,
)
    requires
        platform != Platform::Unsupported,
        first.len() > 0,
        first[0] == present,
        generation_run(generation_start(platform), first).1 matches Some(a) && a is Finish,
        second.len() > 0,
        second[0] == (present || generation_run(generation_start(platform), first).0),
    ensures
        present || generation_run(generation_start(platform), first).0,
        !(present && generation_run(generation_start(platform), first).0),
        generation_run(generation_start(platform), second) == (
            false,
            Some(GenerationAction::Finish(Generated::AlreadyPresent)),
        ),
{
    let g = generation_start(platform);
    if !present {
        let (next, _) = generation_next(g, first[0]);
        lemma_created_before_finish(next, first.drop_first());
    }
}

} // verus!

verus! {

/// What key deletion does next.
#[derive(Clone, Copy, Debug, PartialEq, Eq, Structural)]
pub enum DeletionAction {
    /// A key exists: remove it and report whether that succeeded.
    RemoveKey,
    /// No key exists: deletion is over and succeeded.
    NothingToRemove,
}

/// Decides key deletion. `found` says whether opening the key by its label
/// succeeded. Deleting a key that does not exist succeeds; without a hardware
/// module no key can exist, so deletion there succeeds too.
pub fn delete_hardware_key(platform: Platform, found: bool) -> (r: DeletionAction)
    ensures
        platform != Platform::Unsupported && found ==> r == DeletionAction::RemoveKey,
        platform == Platform::Unsupported || !found ==> r == DeletionAction::NothingToRemove,
{
    match platform {
        Platform::Unsupported => DeletionAction::NothingToRemove,
        _ => if found {
            DeletionAction::RemoveKey
        } else {
            DeletionAction::NothingToRemove
        },
    }
}

/// The result of a deletion once `RemoveKey` reported `removed`.
pub fn deletion_result(removed: bool) -> (r: Result<(), KeyError>)
    ensures
        removed ==> r is Ok,
        !removed ==> r == Err::<(), KeyError>(KeyError::DeletionFailed),
{
    if removed {
        Ok(())
    } else {
        Err(KeyError::DeletionFailed)
    }
}

/// Status the TPM's key agreement reports when the user dismisses the
/// Windows Hello prompt (`SCARD_W_CANCELLED_BY_USER`, 0x8010002E).
pub const TPM_STATUS_CANCELLED_BY_USER: i32 = -2146435026;

/// Status the Security framework reports when the user cancels the
/// authentication prompt (`errSecUserCanceled`).
pub const SECURE_ENCLAVE_STATUS_USER_CANCELED: i32 = -128;

/// The status by which a platform reports a dismissed prompt.
pub open spec fn cancel_status(platform: Platform) -> Option<i32> {
    match platform {
        Platform::SecureEnclave => Some(SECURE_ENCLAVE_STATUS_USER_CANCELED),
        Platform::Tpm => Some(TPM_STATUS_CANCELLED_BY_USER),
        Platform::Unsupported => None,
    }
}

/// Classifies a failed key agreement by the platform's status code: a
/// dismissed prompt is `AuthenticationCancelled`, anything else
/// `AgreementFailed`; without a hardware module, `Unavailable`.
pub fn agreement_failure(platform: Platform, status: i32) -> (r: KeyError)
    ensures
        platform == Platform::Unsupported ==> r == KeyError::Unavailable,
        platform != Platform::Unsupported && cancel_status(platform) == Some(status) ==> r
            == KeyError::AuthenticationCancelled,
        platform != Platform::Unsupported && cancel_status(platform) != Some(status) ==> r
            == KeyError::AgreementFailed,
{
    let cancelled: i32 = match platform {
        Platform::SecureEnclave => SECURE_ENCLAVE_STATUS_USER_CANCELED,
        Platform::Tpm => TPM_STATUS_CANCELLED_BY_USER,
        Platform::Unsupported => {
            return KeyError::Unavailable;
        },
    };
    if status == cancelled {
        KeyError::AuthenticationCancelled
    } else {
        KeyError::AgreementFailed
    }
}

} // verus!
