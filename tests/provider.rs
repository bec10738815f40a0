use hardware_vault::error::KeyError;
use hardware_vault::provider::{
    agreement_failure, delete_hardware_key, deletion_result, generate_hardware_key,
    has_hardware_key, is_hardware_security_available, DeletionAction, Generated, GenerationAction,
    GenerationStep, Platform, SECURE_ENCLAVE_STATUS_USER_CANCELED, TPM_STATUS_CANCELLED_BY_USER,
};

/// Runs a generation, answering each operation from `outcomes`, and returns
/// the operations asked for and the final action.
fn run(platform: Platform, outcomes: &[bool]) -> (Vec<GenerationStep>, GenerationAction) {
    let (mut g, mut action) = generate_hardware_key(platform);
    let mut asked = Vec::new();
    let mut i = 0;
    while let GenerationAction::Perform(step) = action {
        asked.push(step);
        action = g.advance(outcomes[i]);
        i += 1;
    }
    (asked, action)
}

#[test]
fn availability_by_platform() {
    assert_eq!(is_hardware_security_available(Platform::SecureEnclave, false), Ok(true));
    assert_eq!(is_hardware_security_available(Platform::Tpm, true), Ok(true));
    assert_eq!(is_hardware_security_available(Platform::Tpm, false), Ok(false));
    assert_eq!(is_hardware_security_available(Platform::Unsupported, true), Ok(false));
}

#[test]
fn key_presence_follows_lookup() {
    assert_eq!(has_hardware_key(Platform::SecureEnclave, true), Ok(true));
    assert_eq!(has_hardware_key(Platform::Tpm, false), Ok(false));
    assert_eq!(has_hardware_key(Platform::Unsupported, true), Ok(false));
}

#[test]
fn secure_enclave_generation_creates_a_gated_key() {
    let (asked, end) = run(Platform::SecureEnclave, &[false, true, true]);
    assert_eq!(
        asked,
        vec![
            GenerationStep::LookUpKey,
            GenerationStep::PrepareAccessControl,
            GenerationStep::CreateKey
        ]
    );
    assert_eq!(end, GenerationAction::Finish(Generated::Created));
}

#[test]
fn tpm_generation_runs_all_operations() {
    let (asked, end) = run(Platform::Tpm, &[false, true, true, true, true]);
    assert_eq!(
        asked,
        vec![
            GenerationStep::LookUpKey,
            GenerationStep::OpenKeyStore,
            GenerationStep::CreateKey,
            GenerationStep::ApplyPresencePolicy,
            GenerationStep::FinalizeKey
        ]
    );
    assert_eq!(end, GenerationAction::Finish(Generated::Created));
}

#[test]
fn refused_presence_policy_degrades_but_creates() {
    let (asked, end) = run(Platform::Tpm, &[false, true, true, false, true]);
    assert_eq!(asked.len(), 5);
    assert_eq!(end, GenerationAction::Finish(Generated::CreatedWithoutPresenceGate));
}

#[test]
fn creation_failures_end_generation() {
    let (_, end) = run(Platform::SecureEnclave, &[false, false]);
    assert_eq!(end, GenerationAction::Fail(KeyError::GenerationFailed));
    let (asked, end) = run(Platform::SecureEnclave, &[false, true, false]);
    assert_eq!(asked.len(), 3);
    assert_eq!(end, GenerationAction::Fail(KeyError::GenerationFailed));
    let (_, end) = run(Platform::Tpm, &[false, false]);
    assert_eq!(end, GenerationAction::Fail(KeyError::GenerationFailed));
    let (_, end) = run(Platform::Tpm, &[false, true, true, true, false]);
    assert_eq!(end, GenerationAction::Fail(KeyError::GenerationFailed));
}

#[test]
fn generating_twice_creates_one_key() {
    for platform in [Platform::SecureEnclave, Platform::Tpm] {
        let mut key_exists = false;
        let mut created = 0;
        for _ in 0..2 {
            let (mut g, mut action) = generate_hardware_key(platform);
            while let GenerationAction::Perform(step) = action {
                let ok = match step {
                    GenerationStep::LookUpKey => key_exists,
                    GenerationStep::CreateKey => {
                        key_exists = true;
                        created += 1;
                        true
                    }
                    _ => true,
                };
                action = g.advance(ok);
            }
            assert!(matches!(action, GenerationAction::Finish(_)));
        }
        assert!(key_exists);
        assert_eq!(created, 1);
    }
}

#[test]
fn existing_key_is_kept() {
    let (asked, end) = run(Platform::Tpm, &[true]);
    assert_eq!(asked, vec![GenerationStep::LookUpKey]);
    assert_eq!(end, GenerationAction::Finish(Generated::AlreadyPresent));
}

#[test]
fn unsupported_platform_cannot_generate() {
    let (asked, end) = run(Platform::Unsupported, &[]);
    assert!(asked.is_empty());
    assert_eq!(end, GenerationAction::Fail(KeyError::Unavailable));
}

#[test]
fn deletion_is_idempotent() {
    assert_eq!(delete_hardware_key(Platform::SecureEnclave, true), DeletionAction::RemoveKey);
    assert_eq!(delete_hardware_key(Platform::Tpm, false), DeletionAction::NothingToRemove);
    assert_eq!(
        delete_hardware_key(Platform::Unsupported, false),
        DeletionAction::NothingToRemove
    );
    assert_eq!(
        delete_hardware_key(Platform::Unsupported, true),
        DeletionAction::NothingToRemove
    );
    assert_eq!(deletion_result(true), Ok(()));
    assert_eq!(deletion_result(false), Err(KeyError::DeletionFailed));
}

#[test]
fn agreement_failures_are_classified() {
    assert_eq!(
        agreement_failure(Platform::Tpm, TPM_STATUS_CANCELLED_BY_USER),
        KeyError::AuthenticationCancelled
    );
    assert_eq!(TPM_STATUS_CANCELLED_BY_USER, 0x8010002E_u32 as i32);
    assert_eq!(agreement_failure(Platform::Tpm, -1), KeyError::AgreementFailed);
    assert_eq!(
        agreement_failure(Platform::SecureEnclave, SECURE_ENCLAVE_STATUS_USER_CANCELED),
        KeyError::AuthenticationCancelled
    );
    assert_eq!(
        agreement_failure(Platform::SecureEnclave, TPM_STATUS_CANCELLED_BY_USER),
        KeyError::AgreementFailed
    );
    assert_eq!(agreement_failure(Platform::Unsupported, -128), KeyError::Unavailable);
}
