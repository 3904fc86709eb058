use defai_core::swap::randomness::{
    calculate_random_bonus, commit_randomness, first_blockhash, generate_secure_random,
    generate_simple_randomness, generate_vrf_random, get_random_in_range, initialize_randomness,
    reveal_randomness, RandomnessError, RandomnessState,
};
use defai_core::swap::bonus::derive_bonus;
use defai_core::swap::state::{Config, ErrorCode};
use defai_core::swap::vrf::{
    consume_randomness, consume_vrf_randomness, initialize_vrf, initialize_vrf_state,
    request_randomness, request_vrf_randomness, switchboard_id, AccountMeta, RequestRandomness,
    VrfError, VrfFailure, VrfState, SWITCHBOARD_PROGRAM_ID,
};
use defai_core::types::{Clock, Pubkey};

fn vk(tag: u8) -> Pubkey {
    Pubkey::new([tag; 32])
}

fn vrf_config() -> Config {
    Config {
        admin: vk(100),
        old_mint: vk(101),
        new_mint: vk(102),
        collection: vk(103),
        treasury: vk(104),
        prices: [1, 2, 3, 4, 5],
        paused: false,
        pending_admin: None,
        admin_change_timestamp: 0,
        vrf_enabled: true,
    }
}

fn request() -> RequestRandomness {
    RequestRandomness {
        authority: vk(100),
        vrf_state: vk(40),
        vrf: vk(50),
        vrf_owner: switchboard_id(),
        oracle_queue: vk(51),
        queue_authority: vk(52),
        data_buffer: vk(53),
        permission: vk(54),
        escrow: vk(55),
        payer_wallet: vk(56),
        recent_blockhashes: vk(57),
        switchboard_program: switchboard_id(),
        program_state: vk(58),
        token_program: vk(59),
    }
}

#[test]
fn known_random_values() {
    assert_eq!(generate_vrf_random(&[7; 32], &vk(1), &vk(9)), 7_698_142_389_021_903_762);
    assert_eq!(generate_vrf_random(&[8; 32], &vk(1), &vk(9)), 4_273_719_268_263_463_085);
    let clock = Clock { slot: 55, epoch: 2, unix_timestamp: 1_000 };
    assert_eq!(generate_secure_random(&vk(1), &vk(9), &clock, &[3; 32]), 1_561_687_044_091_316_763);
}

#[test]
fn random_values_depend_on_every_input() {
    let base = generate_vrf_random(&[7; 32], &vk(1), &vk(9));
    assert_ne!(generate_vrf_random(&[7; 32], &vk(2), &vk(9)), base);
    assert_ne!(generate_vrf_random(&[7; 32], &vk(1), &vk(8)), base);
    let clock = Clock { slot: 55, epoch: 2, unix_timestamp: 1_000 };
    let fallback = generate_secure_random(&vk(1), &vk(9), &clock, &[3; 32]);
    assert_ne!(generate_secure_random(&vk(1), &vk(9), &Clock { slot: 56, ..clock }, &[3; 32]), fallback);
    assert_ne!(generate_secure_random(&vk(1), &vk(9), &Clock { epoch: 3, ..clock }, &[3; 32]), fallback);
    assert_ne!(generate_secure_random(&vk(1), &vk(9), &Clock { unix_timestamp: -1_000, ..clock }, &[3; 32]), fallback);
    assert_ne!(generate_secure_random(&vk(1), &vk(9), &clock, &[4; 32]), fallback);
}

#[test]
fn random_bonus_maps_into_the_range() {
    assert_eq!(calculate_random_bonus(123, 700, 700), 700);
    assert_eq!(calculate_random_bonus(0, 100, 200), 100);
    assert_eq!(calculate_random_bonus(100, 100, 200), 200);
    assert_eq!(calculate_random_bonus(101, 100, 200), 100);
    assert_eq!(calculate_random_bonus(u64::MAX, 0, 65_535), 65_535);
    assert_eq!(calculate_random_bonus(65_536, 0, 65_535), 0);
}

#[test]
fn random_in_range_reads_the_first_eight_bytes() {
    let mut bytes = [0u8; 32];
    for (i, b) in bytes.iter_mut().enumerate() {
        *b = i as u8;
    }
    assert_eq!(get_random_in_range(&bytes, 10, 20), 16);
    assert_eq!(get_random_in_range(&bytes, 5, 5), 5);
    assert_eq!(get_random_in_range(&[0; 32], 10, 20), 10);
    assert_eq!(get_random_in_range(&[255; 32], 0, u64::MAX - 1), 0);
}

#[test]
fn first_blockhash_is_read_at_offset_eight() {
    let mut record = vec![0u8; 48];
    for (i, b) in record.iter_mut().enumerate() {
        *b = i as u8;
    }
    let mut expected = [0u8; 32];
    for (i, b) in expected.iter_mut().enumerate() {
        *b = 8 + i as u8;
    }
    assert_eq!(first_blockhash(&record), Some(expected));
    assert_eq!(first_blockhash(&record[..40]), Some(expected));
    assert_eq!(first_blockhash(&record[..39]), None);
    assert_eq!(first_blockhash(&[]), None);
}

#[test]
fn commit_and_reveal() {
    let mut state = initialize_randomness(vk(4), 250, 10);
    assert_eq!(
        state,
        RandomnessState {
            bump: 250,
            authority: vk(4),
            randomness_account: Pubkey::zero(),
            committed_slot: 0,
            revealed_value: [0; 32],
            last_update: 10,
            is_pending: false,
        }
    );
    let clock = Clock { slot: 77, epoch: 1, unix_timestamp: 20 };
    let mut data = vec![0u8; 104];
    for (i, b) in data.iter_mut().enumerate() {
        *b = i as u8;
    }
    assert_eq!(reveal_randomness(&mut state, vk(4), vk(30), &data, &clock), Err(RandomnessError::NoCommitment));
    assert_eq!(commit_randomness(&mut state, vk(5), vk(30), &clock), Err(RandomnessError::Unauthorized));
    assert_eq!(commit_randomness(&mut state, vk(4), vk(30), &clock), Ok(()));
    assert_eq!(state.randomness_account, vk(30));
    assert_eq!(state.committed_slot, 77);
    assert!(state.is_pending);
    let later = Clock { slot: 80, epoch: 1, unix_timestamp: 25 };
    assert_eq!(reveal_randomness(&mut state, vk(5), vk(30), &data, &later), Err(RandomnessError::Unauthorized));
    assert_eq!(
        reveal_randomness(&mut state, vk(4), vk(31), &data, &later),
        Err(RandomnessError::InvalidRandomnessAccount)
    );
    assert_eq!(
        reveal_randomness(&mut state, vk(4), vk(30), &data[..103], &later),
        Err(RandomnessError::InvalidAccountData)
    );
    assert!(state.is_pending);
    assert_eq!(reveal_randomness(&mut state, vk(4), vk(30), &data, &later), Ok(()));
    let mut expected = [0u8; 32];
    for (i, b) in expected.iter_mut().enumerate() {
        *b = 40 + i as u8;
    }
    assert_eq!(state.revealed_value, expected);
    assert_eq!(state.last_update, 25);
    assert!(!state.is_pending);
    assert_eq!(reveal_randomness(&mut state, vk(4), vk(30), &data, &later), Err(RandomnessError::NoCommitment));
}

#[test]
fn simple_randomness_is_a_known_digest() {
    let mut state = initialize_randomness(vk(4), 250, 10);
    state.is_pending = true;
    let clock = Clock { slot: 55, epoch: 2, unix_timestamp: 1_000 };
    generate_simple_randomness(&mut state, vk(4), &[3; 32], &clock);
    assert_eq!(
        state.revealed_value,
        [
            110, 114, 220, 109, 162, 180, 117, 223, 98, 107, 81, 134, 151, 119, 241, 165, 41, 161,
            53, 106, 238, 96, 5, 28, 189, 247, 74, 50, 123, 167, 100, 222
        ]
    );
    assert_eq!(state.last_update, 1_000);
    assert!(!state.is_pending);
    assert_eq!(state.authority, vk(4));
}

#[test]
fn oracle_record_starts_unbound_and_empty() {
    let state = initialize_vrf(9, vk(50));
    assert_eq!(
        state,
        VrfState {
            bump: 9,
            result_buffer: [0; 32],
            last_timestamp: 0,
            vrf_account: vk(50),
            oracle_queue: Pubkey::zero(),
            queue_authority: Pubkey::zero(),
            data_buffer: Pubkey::zero(),
            permission: Pubkey::zero(),
            escrow: Pubkey::zero(),
            payer_wallet: Pubkey::zero(),
            request_pending: false,
            last_result: [0; 32],
        }
    );
    assert_eq!(initialize_vrf_state(9, vk(50)), state);
    assert_eq!(switchboard_id().bytes, SWITCHBOARD_PROGRAM_ID);
}

#[test]
fn first_request_binds_the_record_and_builds_the_instruction() {
    let mut state = initialize_vrf(9, vk(50));
    let ix = request_randomness(&vrf_config(), &mut state, &request(), 123).unwrap();
    assert_eq!(ix.program_id, switchboard_id());
    assert_eq!(ix.data, vec![221, 11, 167, 47, 80, 107, 18, 71, 0]);
    assert_eq!(
        ix.accounts,
        vec![
            AccountMeta { pubkey: vk(40), is_signer: true, is_writable: true },
            AccountMeta { pubkey: vk(50), is_signer: true, is_writable: true },
            AccountMeta { pubkey: vk(51), is_signer: true, is_writable: true },
            AccountMeta { pubkey: vk(52), is_signer: false, is_writable: false },
            AccountMeta { pubkey: vk(53), is_signer: false, is_writable: false },
            AccountMeta { pubkey: vk(54), is_signer: false, is_writable: false },
            AccountMeta { pubkey: vk(55), is_signer: false, is_writable: true },
            AccountMeta { pubkey: vk(57), is_signer: false, is_writable: false },
            AccountMeta { pubkey: vk(58), is_signer: false, is_writable: false },
            AccountMeta { pubkey: vk(59), is_signer: false, is_writable: false },
        ]
    );
    assert_eq!(
        state,
        VrfState {
            bump: 9,
            result_buffer: [0; 32],
            last_timestamp: 123,
            vrf_account: vk(50),
            oracle_queue: vk(51),
            queue_authority: vk(52),
            data_buffer: vk(53),
            permission: vk(54),
            escrow: vk(55),
            payer_wallet: vk(56),
            request_pending: true,
            last_result: [0; 32],
        }
    );
}

#[test]
fn later_requests_must_name_the_bound_accounts() {
    let mut state = initialize_vrf(9, vk(50));
    request_vrf_randomness(&vrf_config(), &mut state, &request(), 123).unwrap();
    let bound = state;
    for field in 0..6 {
        let mut other = request();
        match field {
            0 => other.oracle_queue = vk(70),
            1 => other.queue_authority = vk(70),
            2 => other.data_buffer = vk(70),
            3 => other.permission = vk(70),
            4 => other.escrow = vk(70),
            _ => other.payer_wallet = vk(70),
        }
        assert_eq!(
            request_randomness(&vrf_config(), &mut state, &other, 200),
            Err(VrfFailure::Vrf(VrfError::InvalidVrfAccount))
        );
        assert_eq!(state, bound);
    }
    assert!(request_randomness(&vrf_config(), &mut state, &request(), 200).is_ok());
    assert_eq!(state, VrfState { last_timestamp: 200, ..bound });
}

#[test]
fn request_is_refused_in_order_of_its_checks() {
    let mut state = initialize_vrf(9, vk(50));
    let mut bad = request();
    bad.vrf = vk(49);
    bad.authority = vk(1);
    assert_eq!(
        request_randomness(&vrf_config(), &mut state, &bad, 1),
        Err(VrfFailure::Vrf(VrfError::InvalidVrfAccount))
    );
    let mut bad = request();
    bad.authority = vk(1);
    bad.switchboard_program = vk(2);
    assert_eq!(
        request_randomness(&vrf_config(), &mut state, &bad, 1),
        Err(VrfFailure::Program(ErrorCode::Unauthorized))
    );
    let mut bad = request();
    bad.switchboard_program = vk(2);
    assert_eq!(
        request_randomness(&vrf_config(), &mut state, &bad, 1),
        Err(VrfFailure::Vrf(VrfError::InvalidVrfAccount))
    );
    let mut bad = request();
    bad.vrf_owner = vk(2);
    assert_eq!(
        request_randomness(&vrf_config(), &mut state, &bad, 1),
        Err(VrfFailure::Vrf(VrfError::InvalidVrfAccount))
    );
    assert_eq!(state, initialize_vrf(9, vk(50)));
}

fn oracle_data(first: u8) -> Vec<u8> {
    let mut data = vec![0u8; 75];
    for i in 0..32 {
        data[43 + i] = first + i as u8;
    }
    data
}

#[test]
fn consume_takes_the_result_at_its_offset() {
    let mut state = initialize_vrf(9, vk(50));
    request_randomness(&vrf_config(), &mut state, &request(), 1).unwrap();
    let requested = state;
    let data = oracle_data(100);
    assert_eq!(consume_randomness(&mut state, vk(49), switchboard_id(), &data, 5), Err(VrfError::InvalidVrfAccount));
    assert_eq!(consume_randomness(&mut state, vk(50), vk(1), &data, 5), Err(VrfError::InvalidVrfAccount));
    assert_eq!(consume_randomness(&mut state, vk(50), switchboard_id(), &data[..39], 5), Err(VrfError::ResultNotReady));
    assert_eq!(consume_randomness(&mut state, vk(50), switchboard_id(), &data[..74], 5), Err(VrfError::ResultNotReady));
    assert_eq!(consume_randomness(&mut state, vk(50), switchboard_id(), &vec![0u8; 200], 5), Err(VrfError::ResultNotReady));
    assert_eq!(state, requested);
    assert_eq!(consume_vrf_randomness(&mut state, vk(50), switchboard_id(), &data, 5), Ok(()));
    let mut expected = [0u8; 32];
    for (i, b) in expected.iter_mut().enumerate() {
        *b = 100 + i as u8;
    }
    assert_eq!(
        state,
        VrfState { result_buffer: expected, last_result: expected, last_timestamp: 5, request_pending: false, ..requested }
    );
    request_randomness(&vrf_config(), &mut state, &request(), 6).unwrap();
    let mut one = vec![0u8; 80];
    one[74] = 1;
    assert_eq!(consume_randomness(&mut state, vk(50), switchboard_id(), &one, 7), Ok(()));
    assert_eq!(state.result_buffer[31], 1);
    assert_eq!(state.result_buffer[0], 0);
    assert_eq!(state.last_result, state.result_buffer);
}

#[test]
fn result_is_taken_only_in_answer_to_a_request() {
    let mut state = initialize_vrf(9, vk(50));
    let fresh = state;
    assert_eq!(
        consume_randomness(&mut state, vk(50), switchboard_id(), &oracle_data(100), 5),
        Err(VrfError::ResultNotReady)
    );
    assert_eq!(state, fresh);
    request_randomness(&vrf_config(), &mut state, &request(), 6).unwrap();
    assert!(state.request_pending);
    assert_eq!(consume_randomness(&mut state, vk(50), switchboard_id(), &oracle_data(100), 7), Ok(()));
    assert!(!state.request_pending);
    let taken = state;
    assert_eq!(
        consume_randomness(&mut state, vk(50), switchboard_id(), &oracle_data(150), 8),
        Err(VrfError::ResultNotReady)
    );
    assert_eq!(state, taken);
}

#[test]
fn used_result_cannot_be_taken_again() {
    let config = vrf_config();
    let mut state = initialize_vrf(9, vk(50));
    request_randomness(&config, &mut state, &request(), 1).unwrap();
    consume_randomness(&mut state, vk(50), switchboard_id(), &oracle_data(100), 2).unwrap();
    let clock = Clock { slot: 55, epoch: 2, unix_timestamp: 3 };
    assert!(derive_bonus(&config, &mut state, &vk(1), &vk(9), 2, &clock, &[3; 32]).is_ok());
    assert_eq!(state.result_buffer, [0; 32]);
    assert_eq!(
        derive_bonus(&config, &mut state, &vk(1), &vk(9), 2, &clock, &[3; 32]),
        Err(ErrorCode::VrfNotReady)
    );
    // The oracle account still holds what it held: no request, no result.
    assert_eq!(
        consume_randomness(&mut state, vk(50), switchboard_id(), &oracle_data(100), 4),
        Err(VrfError::ResultNotReady)
    );
    // A request is made, but the oracle has not answered yet.
    request_randomness(&config, &mut state, &request(), 5).unwrap();
    let waiting = state;
    assert_eq!(
        consume_randomness(&mut state, vk(50), switchboard_id(), &oracle_data(100), 6),
        Err(VrfError::ResultNotReady)
    );
    assert_eq!(state, waiting);
    assert_eq!(
        derive_bonus(&config, &mut state, &vk(1), &vk(9), 2, &clock, &[3; 32]),
        Err(ErrorCode::VrfNotReady)
    );
    // The oracle answers with a new result.
    assert_eq!(consume_randomness(&mut state, vk(50), switchboard_id(), &oracle_data(101), 7), Ok(()));
    assert!(derive_bonus(&config, &mut state, &vk(1), &vk(9), 2, &clock, &[3; 32]).is_ok());
}
