use solana_upgrade::error::UpgradeError;
use solana_upgrade::instruction::{InitArgsV1, InitArgsV2, UpgradeInstruction, V1ToV2UpgradeData};
use solana_upgrade::processor::Processor;
use solana_upgrade::state::{StateV1, StateV2, StateVersion};

const K: [u8; 32] = [11u8; 32];
const K2: [u8; 32] = [22u8; 32];

fn args_v1() -> InitArgsV1 {
    InitArgsV1 { num: 33, num_2: 666, key: K }
}

fn args_v2() -> InitArgsV2 {
    InitArgsV2 { num: 33, array: [0u8; 64], key: K, key_2: K2, num_2: 666 }
}

fn v1_buffer() -> Vec<u8> {
    let mut buf = vec![0u8; 39];
    Processor::initialize_v1(&mut buf, &args_v1(), true).unwrap();
    buf
}

fn expected_v1() -> StateV1 {
    StateV1 { state_version: StateVersion::V1, num: 33, num_2: 666, key: K }
}

#[test]
fn init_v1_then_decode() {
    let mut buf = vec![0u8; 39];
    assert_eq!(Processor::initialize_v1(&mut buf, &args_v1(), true), Ok(()));
    assert_eq!(StateV1::decode(&buf), Ok(expected_v1()));
}

#[test]
fn init_v1_twice_fails() {
    let mut buf = v1_buffer();
    let before = buf.clone();
    let other = InitArgsV1 { num: 1, num_2: 2, key: K2 };
    assert_eq!(
        Processor::initialize_v1(&mut buf, &other, true),
        Err(UpgradeError::AlreadyInitialized)
    );
    assert_eq!(buf, before);
    assert_eq!(StateV1::decode(&buf), Ok(expected_v1()));
}

#[test]
fn init_v2_twice_fails() {
    let mut buf = vec![0u8; 141];
    assert_eq!(Processor::initialize_v2(&mut buf, &args_v2(), true), Ok(()));
    let before = buf.clone();
    assert_eq!(
        Processor::initialize_v2(&mut buf, &args_v2(), false),
        Err(UpgradeError::AlreadyInitialized)
    );
    assert_eq!(buf, before);
}

#[test]
fn init_v1_too_small() {
    let mut buf = vec![0u8; 38];
    assert_eq!(Processor::initialize_v1(&mut buf, &args_v1(), true), Err(UpgradeError::TooSmall));
    assert_eq!(buf, vec![0u8; 38]);
}

#[test]
fn init_v2_too_small() {
    let mut buf = vec![0u8; 140];
    assert_eq!(Processor::initialize_v2(&mut buf, &args_v2(), true), Err(UpgradeError::TooSmall));
    assert_eq!(buf, vec![0u8; 140]);
}

#[test]
fn init_unauthorized() {
    let mut buf = vec![0u8; 39];
    assert_eq!(
        Processor::initialize_v1(&mut buf, &args_v1(), false),
        Err(UpgradeError::Unauthorized)
    );
    assert_eq!(buf, vec![0u8; 39]);
}

#[test]
fn init_keeps_tail() {
    let mut buf = vec![0u8; 45];
    buf[44] = 9;
    Processor::initialize_v1(&mut buf, &args_v1(), true).unwrap();
    assert_eq!(&buf[39..], &[0, 0, 0, 0, 0, 9]);
}

#[test]
fn use_checks_version() {
    let v1 = v1_buffer();
    let mut v2 = vec![0u8; 141];
    Processor::initialize_v2(&mut v2, &args_v2(), true).unwrap();
    assert_eq!(Processor::use_v1(&v1), Ok(expected_v1()));
    assert_eq!(Processor::use_v1(&v2), Err(UpgradeError::InvalidVersion));
    assert_eq!(Processor::use_v2(&v1), Err(UpgradeError::TooSmall));
    let mut big_v1 = vec![0u8; 141];
    Processor::initialize_v1(&mut big_v1, &args_v1(), true).unwrap();
    assert_eq!(Processor::use_v2(&big_v1), Err(UpgradeError::InvalidVersion));
    assert_eq!(Processor::use_v2(&v2).unwrap().key_2, K2);
    assert_eq!(Processor::use_v1(&[0u8; 39]), Err(UpgradeError::InvalidVersion));
    assert_eq!(Processor::use_v1(&[7u8; 39]), Err(UpgradeError::InvalidVersion));
}

#[test]
fn upgrade_v1_to_v2_flow() {
    let src = v1_buffer();
    let src_before = src.clone();
    let mut dst = vec![0u8; 141];
    let delta = V1ToV2UpgradeData { array: [42u8; 64], key_2: K2 };
    assert_eq!(Processor::upgrade_v1_to_v2(&src, &mut dst, &delta, true), Ok(()));
    assert_eq!(
        StateV2::decode(&dst),
        Ok(StateV2 {
            state_version: StateVersion::V2,
            num: 33,
            array: [42u8; 64],
            key: K,
            key_2: K2,
            num_2: 666,
        })
    );
    assert_eq!(src, src_before);
}

#[test]
fn upgrade_into_initialized_destination() {
    let src = v1_buffer();
    let mut dst = vec![0u8; 141];
    Processor::initialize_v2(&mut dst, &args_v2(), true).unwrap();
    let before = dst.clone();
    let delta = V1ToV2UpgradeData { array: [42u8; 64], key_2: K2 };
    assert_eq!(
        Processor::upgrade_v1_to_v2(&src, &mut dst, &delta, true),
        Err(UpgradeError::InvalidVersion)
    );
    assert_eq!(dst, before);
}

#[test]
fn upgrade_errors() {
    let delta = V1ToV2UpgradeData { array: [1u8; 64], key_2: K2 };
    let fresh = vec![0u8; 141];
    let mut dst = fresh.clone();
    assert_eq!(
        Processor::upgrade_v1_to_v2(&[0u8; 39], &mut dst, &delta, true),
        Err(UpgradeError::InvalidVersion)
    );
    assert_eq!(
        Processor::upgrade_v1_to_v2(&[1u8; 38], &mut dst, &delta, true),
        Err(UpgradeError::TooSmall)
    );
    assert_eq!(
        Processor::upgrade_v1_to_v2(&v1_buffer(), &mut dst, &delta, false),
        Err(UpgradeError::Unauthorized)
    );
    let mut short = vec![0u8; 140];
    assert_eq!(
        Processor::upgrade_v1_to_v2(&v1_buffer(), &mut short, &delta, true),
        Err(UpgradeError::TooSmall)
    );
    assert_eq!(dst, fresh);
    assert_eq!(short, vec![0u8; 140]);
}

#[test]
fn process_runs_commands() {
    let mut first = vec![0u8; 39];
    let mut second = vec![0u8; 141];
    let init = UpgradeInstruction::InitV1(args_v1()).pack();
    assert_eq!(Processor::process(&init, &mut first, &mut second, true), Ok(()));
    let use_v1 = UpgradeInstruction::UseV1.pack();
    assert_eq!(Processor::process(&use_v1, &mut first, &mut second, false), Ok(()));
    let delta = V1ToV2UpgradeData { array: [42u8; 64], key_2: K2 };
    let upgrade = UpgradeInstruction::UpgradeV1ToV2(delta).pack();
    assert_eq!(Processor::process(&upgrade, &mut first, &mut second, true), Ok(()));
    assert_eq!(first, v1_buffer());
    assert_eq!(Processor::use_v2(&second).unwrap().num_2, 666);
    let use_v2 = UpgradeInstruction::UseV2.pack();
    assert_eq!(Processor::process(&use_v2, &mut second, &mut first, true), Ok(()));
}

#[test]
fn process_rejects_bad_payload() {
    let mut first = vec![0u8; 39];
    let mut second = vec![0u8; 141];
    assert_eq!(
        Processor::process(&[9, 9], &mut first, &mut second, true),
        Err(UpgradeError::InvalidInstructionData)
    );
    assert_eq!(first, vec![0u8; 39]);
    assert_eq!(second, vec![0u8; 141]);
}
