use escrow_program::address::{Address, ED25519_PROGRAM_ID};
use escrow_program::ed25519::{
    parse_ed25519_instruction_offsets, verify_ed25519_signatures, Ed25519SignatureOffsets,
};
use escrow_program::error::EscrowError;
use escrow_program::message::{construct_message, create_signature_message};
use escrow_program::utils::{verify_ed25519_instructions, CompanionInstruction};

fn key(n: u8) -> Address {
    Address { bytes: [n; 32] }
}

/// A packet with one entry for each (public key, signature, message).
fn packet(entries: &[(Address, Vec<u8>, Vec<u8>)]) -> Vec<u8> {
    let mut data = vec![entries.len() as u8, 0];
    let mut payload: Vec<u8> = Vec::new();
    let base = 2 + 14 * entries.len();
    for (public_key, signature, message) in entries {
        let public_key_offset = base + payload.len();
        payload.extend_from_slice(&public_key.bytes);
        let signature_offset = base + payload.len();
        payload.extend_from_slice(signature);
        let message_offset = base + payload.len();
        payload.extend_from_slice(message);
        data.extend_from_slice(&(signature_offset as u16).to_le_bytes());
        data.extend_from_slice(&u16::MAX.to_le_bytes());
        data.extend_from_slice(&(public_key_offset as u16).to_le_bytes());
        data.extend_from_slice(&u16::MAX.to_le_bytes());
        data.extend_from_slice(&(message_offset as u16).to_le_bytes());
        data.extend_from_slice(&(message.len() as u16).to_le_bytes());
        data.extend_from_slice(&u16::MAX.to_le_bytes());
    }
    data.extend_from_slice(&payload);
    data
}

fn sig(n: u8) -> Vec<u8> {
    vec![n; 64]
}

#[test]
fn message_is_identifier_then_payments() {
    let id = [7u8; 20];
    let message = construct_message(&id, &[Some(key(1)), Some(key(2))], &[600, 400]);
    let mut expected = vec![7u8; 20];
    expected.extend_from_slice(&[1u8; 32]);
    expected.extend_from_slice(&[0x58, 0x02, 0, 0, 0, 0, 0, 0]);
    expected.extend_from_slice(&[2u8; 32]);
    expected.extend_from_slice(&[0x90, 0x01, 0, 0, 0, 0, 0, 0]);
    assert_eq!(message, expected);
    assert_eq!(message.len(), 100);
}

#[test]
fn message_stops_at_first_empty_slot() {
    let id = [0u8; 20];
    let message = construct_message(&id, &[Some(key(1)), None, Some(key(3))], &[1, 2, 3]);
    assert_eq!(message.len(), 60);
    assert_eq!(message, construct_message(&id, &[Some(key(1))], &[1]));
}

#[test]
fn message_stops_at_shorter_list() {
    let id = [0u8; 20];
    assert_eq!(construct_message(&id, &[Some(key(1)), Some(key(2))], &[1]).len(), 60);
    assert_eq!(construct_message(&id, &[Some(key(1))], &[1, 2, 3]).len(), 60);
    assert_eq!(construct_message(&id, &[], &[]), vec![0u8; 20]);
}

#[test]
fn message_amount_is_little_endian() {
    let message = construct_message(&[0u8; 20], &[Some(key(0))], &[0x0102030405060708]);
    assert_eq!(&message[52..60], &[8, 7, 6, 5, 4, 3, 2, 1]);
}

#[test]
fn different_identifiers_give_different_messages() {
    let recipients = [Some(key(1)), Some(key(2))];
    let amounts = [600u64, 400];
    let a = construct_message(&[1u8; 20], &recipients, &amounts);
    let mut id_b = [1u8; 20];
    id_b[19] = 2;
    let b = construct_message(&id_b, &recipients, &amounts);
    assert_ne!(a, b);
}

#[test]
fn filled_slots_message_equals_optional_slots_message() {
    let id = [9u8; 20];
    let a = create_signature_message(&id, &[key(1), key(2), key(3)], &[5, 6]);
    let b = construct_message(&id, &[Some(key(1)), Some(key(2))], &[5, 6]);
    assert_eq!(a, b);
}

#[test]
fn offsets_are_read_little_endian() {
    let mut data = vec![0u8; 20];
    data[3] = 0x34;
    data[4] = 0x12;
    data[7] = 0x01;
    data[11] = 0xff;
    data[12] = 0xff;
    data[13] = 0x10;
    data[14] = 0x00;
    let offsets = Ed25519SignatureOffsets::from_bytes(&data, 3);
    assert_eq!(
        offsets,
        Ed25519SignatureOffsets {
            signature_offset: 0x1234,
            public_key_offset: 1,
            message_offset: 0xffff,
            message_size: 0x10,
        }
    );
}

#[test]
fn getters_cut_the_named_ranges() {
    let message = vec![1u8, 2, 3];
    let data = packet(&[(key(4), sig(5), message.clone())]);
    let offsets = parse_ed25519_instruction_offsets(&data).unwrap();
    assert_eq!(offsets.len(), 1);
    assert_eq!(offsets[0].get_public_key(&data), &[4u8; 32][..]);
    assert_eq!(offsets[0].get_signature(&data), &[5u8; 64][..]);
    assert_eq!(offsets[0].get_message(&data), &message[..]);
}

#[test]
fn short_or_empty_packets_are_refused() {
    assert_eq!(parse_ed25519_instruction_offsets(&[]), Err(EscrowError::InvalidInstructionFormat));
    assert_eq!(parse_ed25519_instruction_offsets(&[1]), Err(EscrowError::InvalidInstructionFormat));
    assert_eq!(
        parse_ed25519_instruction_offsets(&[0, 0]),
        Err(EscrowError::InvalidInstructionFormat)
    );
}

#[test]
fn truncated_offset_table_is_refused() {
    let mut data = vec![2u8, 0];
    data.extend_from_slice(&[0u8; 14]);
    data.extend_from_slice(&[0u8; 13]);
    assert_eq!(parse_ed25519_instruction_offsets(&data), Err(EscrowError::InvalidInstructionFormat));
    data.push(0);
    assert_eq!(parse_ed25519_instruction_offsets(&data).unwrap().len(), 2);
}

#[test]
fn matching_entries_prove_their_public_keys() {
    let message = vec![42u8; 60];
    let data = packet(&[
        (key(1), sig(11), message.clone()),
        (key(2), sig(12), vec![0u8; 60]),
        (key(3), sig(13), message.clone()),
    ]);
    let signers = verify_ed25519_signatures(&data, &[sig(11), sig(12), sig(13)], &message);
    assert_eq!(signers, Ok(vec![key(1), key(3)]));
}

#[test]
fn entries_with_unexpected_signatures_prove_nothing() {
    let message = vec![42u8; 60];
    let data = packet(&[(key(1), sig(11), message.clone()), (key(2), sig(12), message.clone())]);
    assert_eq!(verify_ed25519_signatures(&data, &[sig(12)], &message), Ok(vec![key(2)]));
    assert_eq!(verify_ed25519_signatures(&data, &[], &message), Ok(vec![]));
}

#[test]
fn no_matching_message_is_no_error() {
    let data = packet(&[(key(1), sig(11), vec![1u8; 10])]);
    assert_eq!(verify_ed25519_signatures(&data, &[sig(11)], &[2u8; 10]), Ok(vec![]));
}

#[test]
fn message_out_of_range_is_refused() {
    let mut data = packet(&[(key(1), sig(11), vec![1u8; 10])]);
    // Claim a longer message than the packet holds.
    data[12] = 0xff;
    assert_eq!(
        verify_ed25519_signatures(&data, &[sig(11)], &[1u8; 10]),
        Err(EscrowError::InvalidInstructionFormat)
    );
}

#[test]
fn signature_out_of_range_matters_only_for_matching_entries() {
    let message = vec![1u8; 10];
    let mut data = packet(&[(key(1), sig(11), message.clone())]);
    // Point the signature almost to the end of the packet.
    let at = (data.len() - 10) as u16;
    data[2..4].copy_from_slice(&at.to_le_bytes());
    assert_eq!(
        verify_ed25519_signatures(&data, &[sig(11)], &message),
        Err(EscrowError::InvalidInstructionFormat)
    );
    assert_eq!(verify_ed25519_signatures(&data, &[sig(11)], &[9u8; 10]), Ok(vec![]));
}

#[test]
fn companion_must_come_right_before_and_from_the_verifier() {
    let message = vec![3u8; 60];
    let data = packet(&[(key(1), sig(1), message.clone())]);
    let good = Some(CompanionInstruction {
        program_id: Address { bytes: ED25519_PROGRAM_ID },
        data: data.clone(),
    });
    assert_eq!(verify_ed25519_instructions(1, &good, &[sig(1)], &message), Ok(vec![key(1)]));
    assert_eq!(
        verify_ed25519_instructions(0, &good, &[sig(1)], &message),
        Err(EscrowError::MalformedSignaturePacket)
    );
    assert_eq!(
        verify_ed25519_instructions(1, &None, &[sig(1)], &message),
        Err(EscrowError::MalformedSignaturePacket)
    );
    let other = Some(CompanionInstruction { program_id: key(0), data });
    assert_eq!(
        verify_ed25519_instructions(1, &other, &[sig(1)], &message),
        Err(EscrowError::MalformedSignaturePacket)
    );
}

#[test]
fn companion_with_truncated_packet_is_invalid_format() {
    let bad = Some(CompanionInstruction {
        program_id: Address { bytes: ED25519_PROGRAM_ID },
        data: vec![1, 0, 0],
    });
    assert_eq!(
        verify_ed25519_instructions(3, &bad, &[], &[]),
        Err(EscrowError::InvalidInstructionFormat)
    );
}

#[test]
fn ed25519_program_id_is_the_platforms() {
    assert_eq!(ED25519_PROGRAM_ID, solana_program::ed25519_program::ID.to_bytes());
}

#[test]
fn an_entry_held_twice_proves_its_key_once() {
    let message = vec![42u8; 60];
    let data = packet(&[
        (key(1), sig(11), message.clone()),
        (key(1), sig(11), message.clone()),
        (key(2), sig(12), message.clone()),
        (key(1), sig(13), message.clone()),
    ]);
    let signers = verify_ed25519_signatures(&data, &[sig(11), sig(12), sig(13)], &message);
    assert_eq!(signers, Ok(vec![key(1), key(2)]));
    let companion = Some(CompanionInstruction {
        program_id: Address { bytes: ED25519_PROGRAM_ID },
        data,
    });
    assert_eq!(
        verify_ed25519_instructions(1, &companion, &[sig(11), sig(12), sig(13)], &message),
        Ok(vec![key(1), key(2)])
    );
}
