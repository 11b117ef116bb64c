use solana_upgrade::error::UpgradeError;
use solana_upgrade::instruction::{
    InitArgsV1, InitArgsV2, UpgradeInstruction, V1ToV2UpgradeData, V2ToV1UpgradeData,
};

fn all_commands() -> Vec<UpgradeInstruction> {
    vec![
        UpgradeInstruction::InitV1(InitArgsV1 { num: 33, num_2: 666, key: [5u8; 32] }),
        UpgradeInstruction::UseV1,
        UpgradeInstruction::InitV2(InitArgsV2 {
            num: 33,
            array: [0u8; 64],
            key: [5u8; 32],
            key_2: [6u8; 32],
            num_2: 666,
        }),
        UpgradeInstruction::UseV2,
        UpgradeInstruction::UpgradeV1ToV2(V1ToV2UpgradeData { array: [42u8; 64], key_2: [6u8; 32] }),
    ]
}

#[test]
fn commands_round_trip() {
    for command in all_commands() {
        let payload = command.pack();
        assert_eq!(UpgradeInstruction::unpack(&payload), Ok(command));
    }
}

#[test]
fn payload_lengths_and_selectors() {
    let lens: Vec<usize> = all_commands().iter().map(|c| c.pack().len()).collect();
    assert_eq!(lens, vec![39, 1, 141, 1, 97]);
    let selectors: Vec<u8> = all_commands().iter().map(|c| c.pack()[0]).collect();
    assert_eq!(selectors, vec![0, 1, 2, 3, 4]);
}

#[test]
fn init_v1_payload_exact() {
    let payload =
        UpgradeInstruction::InitV1(InitArgsV1 { num: 33, num_2: 666, key: [5u8; 32] }).pack();
    let mut expected = vec![0u8, 33, 0, 0, 0, 0x9a, 0x02];
    expected.extend_from_slice(&[5u8; 32]);
    assert_eq!(payload, expected);
}

#[test]
fn payload_agrees_with_borsh() {
    let delta = V2ToV1UpgradeData { array: [42u8; 64], key_2: [6u8; 32] };
    let payload = UpgradeInstruction::UpgradeV1ToV2(delta).pack();
    assert_eq!(payload, borsh::to_vec(&(4u8, delta.array, delta.key_2)).unwrap());
}

#[test]
fn unpack_rejects_bad_payloads() {
    let bad = UpgradeError::InvalidInstructionData;
    assert_eq!(UpgradeInstruction::unpack(&[]), Err(bad));
    assert_eq!(UpgradeInstruction::unpack(&[5]), Err(bad));
    assert_eq!(UpgradeInstruction::unpack(&[1, 0]), Err(bad));
    assert_eq!(UpgradeInstruction::unpack(&[0; 38]), Err(bad));
    assert_eq!(UpgradeInstruction::unpack(&[2; 140]), Err(bad));
    let mut long = UpgradeInstruction::UseV2.pack();
    long.push(0);
    assert_eq!(UpgradeInstruction::unpack(&long), Err(bad));
    assert_eq!(UpgradeInstruction::unpack(&[3]), Ok(UpgradeInstruction::UseV2));
}

#[test]
fn error_codes() {
    assert_eq!(UpgradeError::InvalidVersion.code(), 0);
    assert_eq!(UpgradeError::InvalidInstructionData.code(), 4);
    for code in 0u32..5 {
        assert_eq!(UpgradeError::from_code(code).unwrap().code(), code);
    }
    assert_eq!(UpgradeError::from_code(5), None);
}
