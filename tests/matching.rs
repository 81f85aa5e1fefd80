use arcium_anchor::matching::{args_match_params, const_match_computation, ComputationMatchingError};
use arcium_anchor::types::{arg_match_param, Argument, Parameter, SIGNATURE_SLOTS, SLOT_BYTES};

fn u8_params(n: usize) -> Vec<Parameter> {
    vec![Parameter::PlaintextU8; n]
}

#[test]
fn plaintext_and_ciphertext_match() {
    let params = vec![Parameter::PlaintextU8, Parameter::Ciphertext];
    let args = vec![Argument::PlaintextU8(5), Argument::EncryptedU8([7u8; 32])];
    assert_eq!(args_match_params(&args, &params), Ok(()));
}

#[test]
fn account_too_big_for_one_slot() {
    let params = vec![Parameter::PlaintextU8];
    let args = vec![Argument::Account([1u8; 32], 0, 64)];
    assert_eq!(
        args_match_params(&args, &params),
        Err(ComputationMatchingError::AccountLenTooBig(0))
    );
}

#[test]
fn signature_leaves_ciphertext_unconsumed() {
    let mut params = u8_params(64);
    params.push(Parameter::Ciphertext);
    let args = vec![Argument::ArcisSignature([3u8; 64])];
    assert_eq!(
        args_match_params(&args, &params),
        Err(ComputationMatchingError::NotEnoughArguments)
    );
}

#[test]
fn empty_matches_empty() {
    let params: Vec<Parameter> = vec![];
    let args: Vec<Argument> = vec![];
    assert_eq!(args_match_params(&args, &params), Ok(()));
    const_match_computation(&args, &params);
}

#[test]
fn repeated_checks_agree() {
    let params = vec![Parameter::PlaintextU16, Parameter::Ciphertext];
    let args = vec![Argument::PlaintextU16(9), Argument::PlaintextU8(1)];
    let first = args_match_params(&args, &params);
    let second = args_match_params(&args, &params);
    assert_eq!(first, second);
    assert_eq!(first, Err(ComputationMatchingError::ArgumentMismatch(1, Parameter::Ciphertext)));
}

#[test]
fn scalars_of_every_kind_match_one_to_one() {
    let params = vec![
        Parameter::PlaintextBool,
        Parameter::PlaintextU8,
        Parameter::PlaintextU16,
        Parameter::PlaintextU32,
        Parameter::PlaintextU64,
        Parameter::PlaintextU128,
        Parameter::PlaintextFloat,
        Parameter::Ciphertext,
        Parameter::Ciphertext,
        Parameter::Ciphertext,
        Parameter::Ciphertext,
        Parameter::Ciphertext,
        Parameter::Ciphertext,
        Parameter::Ciphertext,
        Parameter::ArcisPubkey,
        Parameter::ManticoreAlgo,
        Parameter::InputDataset,
    ];
    let args = vec![
        Argument::PlaintextBool(true),
        Argument::PlaintextU8(1),
        Argument::PlaintextU16(2),
        Argument::PlaintextU32(3),
        Argument::PlaintextU64(4),
        Argument::PlaintextU128(5),
        Argument::PlaintextFloat(1.5f64.to_bits()),
        Argument::EncryptedBool([0u8; 32]),
        Argument::EncryptedU8([0u8; 32]),
        Argument::EncryptedU16([0u8; 32]),
        Argument::EncryptedU32([0u8; 32]),
        Argument::EncryptedU64([0u8; 32]),
        Argument::EncryptedU128([0u8; 32]),
        Argument::EncryptedFloat([0u8; 32]),
        Argument::ArcisPubkey([0u8; 32]),
        Argument::ManticoreAlgo(String::from("algo")),
        Argument::InputDataset(String::from("data")),
    ];
    assert_eq!(args_match_params(&args, &params), Ok(()));
}

#[test]
fn no_widening_between_plaintext_kinds() {
    assert!(!arg_match_param(&Argument::PlaintextU8(1), &Parameter::PlaintextU16));
    assert!(!arg_match_param(&Argument::PlaintextU64(1), &Parameter::Ciphertext));
    assert!(!arg_match_param(&Argument::EncryptedU8([0u8; 32]), &Parameter::PlaintextU8));
    assert!(arg_match_param(&Argument::EncryptedU128([0u8; 32]), &Parameter::Ciphertext));
}

#[test]
fn unaligned_account_fails_whatever_remains() {
    let args = vec![Argument::PlaintextBool(false), Argument::Account([0u8; 32], 0, 33)];
    let mut params = vec![Parameter::PlaintextBool];
    params.extend(u8_params(10));
    assert_eq!(
        args_match_params(&args, &params),
        Err(ComputationMatchingError::AccountLenNotMultipleOf32(1))
    );
    let short = vec![Parameter::PlaintextBool];
    assert_eq!(
        args_match_params(&args, &short),
        Err(ComputationMatchingError::AccountLenNotMultipleOf32(1))
    );
}

#[test]
fn account_may_end_at_last_slot() {
    let args = vec![Argument::Account([0u8; 32], 8, 96), Argument::PlaintextU32(4)];
    let params = vec![
        Parameter::Ciphertext,
        Parameter::Ciphertext,
        Parameter::Ciphertext,
        Parameter::PlaintextU32,
    ];
    assert_eq!(args_match_params(&args, &params), Ok(()));
    let tail_params = vec![
        Parameter::PlaintextU32,
        Parameter::Ciphertext,
        Parameter::Ciphertext,
        Parameter::Ciphertext,
    ];
    let tail = vec![Argument::PlaintextU32(4), Argument::Account([0u8; 32], 0, 96)];
    assert_eq!(args_match_params(&tail, &tail_params), Ok(()));
    let over = vec![Argument::PlaintextU32(4), Argument::Account([0u8; 32], 0, 128)];
    assert_eq!(
        args_match_params(&over, &tail_params),
        Err(ComputationMatchingError::AccountLenTooBig(1))
    );
}

#[test]
fn zero_length_account_takes_no_slot() {
    let args = vec![Argument::Account([0u8; 32], 0, 0)];
    let params: Vec<Parameter> = vec![];
    assert_eq!(args_match_params(&args, &params), Ok(()));
}

#[test]
fn signature_with_too_few_slots() {
    let args = vec![Argument::ArcisSignature([0u8; 64])];
    let params = u8_params(63);
    assert_eq!(
        args_match_params(&args, &params),
        Err(ComputationMatchingError::NotEnoughParams(0))
    );
}

#[test]
fn signature_mismatch_names_the_slot() {
    let args = vec![Argument::PlaintextBool(true), Argument::ArcisSignature([0u8; 64])];
    let mut params = vec![Parameter::PlaintextBool];
    params.extend(u8_params(10));
    params.push(Parameter::PlaintextU16);
    params.extend(u8_params(60));
    assert_eq!(
        args_match_params(&args, &params),
        Err(ComputationMatchingError::ArgumentMismatch(11, Parameter::PlaintextU16))
    );
}

#[test]
fn signature_exactly_fills_its_slots() {
    let args = vec![Argument::ArcisSignature([0u8; 64]), Argument::EncryptedBool([0u8; 32])];
    let mut params = u8_params(SIGNATURE_SLOTS);
    params.push(Parameter::Ciphertext);
    assert_eq!(args_match_params(&args, &params), Ok(()));
}

#[test]
fn scalar_without_slot() {
    let args = vec![Argument::PlaintextU8(1), Argument::PlaintextU8(2)];
    let params = vec![Parameter::PlaintextU8];
    assert_eq!(
        args_match_params(&args, &params),
        Err(ComputationMatchingError::NotEnoughParams(1))
    );
}

#[test]
fn first_failure_wins() {
    let args = vec![
        Argument::PlaintextU8(1),
        Argument::PlaintextBool(true),
        Argument::Account([0u8; 32], 0, 5),
    ];
    let params = vec![Parameter::PlaintextU8, Parameter::PlaintextU8];
    assert_eq!(
        args_match_params(&args, &params),
        Err(ComputationMatchingError::ArgumentMismatch(1, Parameter::PlaintextU8))
    );
}

#[test]
fn fixed_messages() {
    assert_eq!(
        ComputationMatchingError::AccountLenNotMultipleOf32(3).static_message(),
        "Invalid argument : account len is not a multiple of 32"
    );
    assert_eq!(
        ComputationMatchingError::AccountLenTooBig(0).static_message(),
        "Invalid argument : account is bigger than the circuit size"
    );
    assert_eq!(
        ComputationMatchingError::ArgumentMismatch(1, Parameter::Ciphertext).static_message(),
        "Invalid argument, mismatch with parameter"
    );
    assert_eq!(
        ComputationMatchingError::NotEnoughParams(2).static_message(),
        "Invalid argument : not enough params"
    );
    assert_eq!(
        ComputationMatchingError::NotEnoughArguments.static_message(),
        "Invalid arguments : not enough arguments"
    );
}

#[test]
fn format_constants() {
    assert_eq!(SLOT_BYTES, 32);
    assert_eq!(SIGNATURE_SLOTS, 64);
}
