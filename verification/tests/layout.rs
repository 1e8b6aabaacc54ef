use dgenerate::constants::GAME_STATE_SPACE;
use dgenerate::{GameState, Pubkey};

const TAG: [u8; 8] = [1, 2, 3, 4, 5, 6, 7, 8];

fn sample() -> GameState {
    GameState {
        token_mint: Pubkey::new_from_array([0xAA; 32]),
        total_minted: 0x0102_0304_0506_0708,
        current_reward: 10_000,
        halving_threshold: 10_000_000_000,
        authority: Pubkey::new_from_array([0xBB; 32]),
    }
}

fn sample_bytes() -> Vec<u8> {
    let mut bytes: Vec<u8> = Vec::new();
    bytes.extend_from_slice(&TAG);
    bytes.extend_from_slice(&[0xAA; 32]);
    bytes.extend_from_slice(&[0x08, 0x07, 0x06, 0x05, 0x04, 0x03, 0x02, 0x01]);
    bytes.extend_from_slice(&[0x10, 0x27, 0, 0, 0, 0, 0, 0]);
    bytes.extend_from_slice(&[0x00, 0xE4, 0x0B, 0x54, 0x02, 0, 0, 0]);
    bytes.extend_from_slice(&[0xBB; 32]);
    bytes
}

#[test]
fn encode_writes_the_fields_in_order() {
    let bytes = sample().encode(&TAG);
    assert_eq!(bytes.len(), GAME_STATE_SPACE);
    assert_eq!(bytes.len(), 96);
    assert_eq!(bytes, sample_bytes());
}

#[test]
fn decode_reads_what_encode_wrote() {
    let state = sample();
    assert_eq!(GameState::decode(&state.encode(&TAG), &TAG), Some(state));
    let fresh = GameState::new(Pubkey::new_from_array([3; 32]), Pubkey::new_from_array([4; 32]));
    assert_eq!(GameState::decode(&fresh.encode(&TAG), &TAG), Some(fresh));
}

#[test]
fn decode_reads_the_fields_from_their_places() {
    assert_eq!(GameState::decode(&sample_bytes(), &TAG), Some(sample()));
    let mut bytes = sample_bytes();
    bytes[48] = 0x11;
    bytes[95] = 0xBC;
    let state = GameState::decode(&bytes, &TAG).unwrap();
    assert_eq!(state.current_reward, 10_001);
    assert_eq!(state.authority.to_bytes()[31], 0xBC);
    assert_eq!(state.total_minted, 0x0102_0304_0506_0708);
}

#[test]
fn decode_refuses_another_length() {
    let mut bytes = sample_bytes();
    bytes.push(0);
    assert_eq!(GameState::decode(&bytes, &TAG), None);
    bytes.truncate(95);
    assert_eq!(GameState::decode(&bytes, &TAG), None);
    assert_eq!(GameState::decode(&[], &TAG), None);
}

#[test]
fn decode_refuses_another_tag() {
    let mut bytes = sample_bytes();
    bytes[7] = 9;
    assert_eq!(GameState::decode(&bytes, &TAG), None);
    assert_eq!(GameState::decode(&sample_bytes(), &[1, 2, 3, 4, 5, 6, 7, 0]), None);
}

#[test]
fn account_tag_is_the_hash_of_the_account_name() {
    let digest = <sha2::Sha256 as sha2::Digest>::digest(b"account:GameState");
    assert_eq!(dgenerate::constants::account_tag().to_vec(), digest[..8].to_vec());
    assert_eq!(dgenerate::constants::account_tag(), [144, 94, 208, 172, 248, 99, 134, 120]);
}
