use helloworld::account::AccountView;
use helloworld::account::Pubkey;
use helloworld::error::ProgramError;
use helloworld::processor::process_instruction;
use helloworld::state::GreetingAccount;

#[test]
fn test_sanity() {
    let program_id = Pubkey::default();
    let owner = Pubkey::default();
    let data = vec![0; 4 + 4];
    let account = AccountView { owner, data, is_writable: true };
    let instruction_data: Vec<u8> = vec![1, 2, 3, 4];

    let mut accounts = vec![account];

    let ga = GreetingAccount::try_from_slice(&accounts[0].data).unwrap();
    assert_eq!(ga.counter, 0);
    assert_eq!(ga.check, 0);

    process_instruction(&program_id, &mut accounts, &instruction_data).unwrap();
    let ga = GreetingAccount::try_from_slice(&accounts[0].data).unwrap();
    assert_eq!(
        ga.counter,
        1 + 2 * 256 + 3 * 256 * 256 + 4 * 256 * 256 * 256
    );
    assert_eq!(ga.check, 1); // ^ that number is odd

    process_instruction(&program_id, &mut accounts, &instruction_data).unwrap();
    let ga = GreetingAccount::try_from_slice(&accounts[0].data).unwrap();
    assert_eq!(
        ga.counter,
        1 + 2 * 256 + 3 * 256 * 256 + 4 * 256 * 256 * 256
    );
    assert_eq!(ga.check, 1); // ^ that number is odd
}

#[test]
fn test_end_to_end_even_counter() {
    // Zero-initialized buffer, payload [4, 3, 2, 1]:
    // counter = 4 + 3*256 + 2*256^2 + 1*256^3 = 16_909_060, even, so check = 0.
    let program_id = Pubkey::default();
    let account = AccountView {
        owner: Pubkey::default(),
        data: vec![0u8; 8],
        is_writable: true,
    };
    let mut accounts = vec![account];

    let r = process_instruction(&program_id, &mut accounts, &[4, 3, 2, 1]);
    assert_eq!(r, Ok(()));
    let ga = GreetingAccount::try_from_slice(&accounts[0].data).unwrap();
    assert_eq!(ga.counter, 16_909_060);
    assert_eq!(ga.check, 0);
    assert_eq!(accounts[0].data, vec![4, 3, 2, 1, 0, 0, 0, 0]);
}

#[test]
fn test_wrong_owner_leaves_buffer_unchanged() {
    let program_id = Pubkey([1u8; 32]);
    let account = AccountView {
        owner: Pubkey([2u8; 32]),
        data: vec![9, 0, 0, 0, 1, 0, 0, 0],
        is_writable: true,
    };
    let mut accounts = vec![account];

    let r = process_instruction(&program_id, &mut accounts, &[1, 2, 3, 4]);
    assert_eq!(r, Err(ProgramError::IncorrectOwner));
    assert_eq!(accounts[0].data, vec![9, 0, 0, 0, 1, 0, 0, 0]);
}

#[test]
fn test_owner_check_comes_first() {
    // A foreign owner aborts the call even when the buffer and the payload
    // are malformed too.
    let program_id = Pubkey([1u8; 32]);
    let account = AccountView {
        owner: Pubkey([2u8; 32]),
        data: vec![0u8; 3],
        is_writable: true,
    };
    let mut accounts = vec![account];

    let r = process_instruction(&program_id, &mut accounts, &[1, 2]);
    assert_eq!(r, Err(ProgramError::IncorrectOwner));
    assert_eq!(accounts[0].data, vec![0u8; 3]);
}

#[test]
fn test_payload_length_rejected() {
    for payload in [&[][..], &[1u8][..], &[1, 2, 3][..], &[1, 2, 3, 4, 5][..]] {
        let program_id = Pubkey::default();
        let account = AccountView {
            owner: Pubkey::default(),
            data: vec![7, 0, 0, 0, 1, 0, 0, 0],
            is_writable: true,
        };
        let mut accounts = vec![account];

        let r = process_instruction(&program_id, &mut accounts, payload);
        assert_eq!(r, Err(ProgramError::PayloadError));
        assert_eq!(accounts[0].data, vec![7, 0, 0, 0, 1, 0, 0, 0]);
    }
}

#[test]
fn test_malformed_buffer_rejected() {
    // Undersized buffers, and an oversized one with trailing bytes.
    for len in [0usize, 1, 7, 9, 16] {
        let program_id = Pubkey::default();
        let account = AccountView {
            owner: Pubkey::default(),
            data: vec![0u8; len],
            is_writable: true,
        };
        let mut accounts = vec![account];

        let r = process_instruction(&program_id, &mut accounts, &[1, 2, 3, 4]);
        assert_eq!(r, Err(ProgramError::DecodeError));
        assert_eq!(accounts[0].data, vec![0u8; len]);
    }
}

#[test]
fn test_other_accounts_untouched() {
    let program_id = Pubkey::default();
    let target = AccountView {
        owner: Pubkey::default(),
        data: vec![0u8; 8],
        is_writable: true,
    };
    let bystander = AccountView {
        owner: Pubkey([5u8; 32]),
        data: vec![1, 2, 3],
        is_writable: false,
    };
    let mut accounts = vec![target, bystander];

    let r = process_instruction(&program_id, &mut accounts, &[2, 0, 0, 0]);
    assert_eq!(r, Ok(()));
    assert_eq!(accounts.len(), 2);
    assert_eq!(accounts[0].data, vec![2, 0, 0, 0, 0, 0, 0, 0]);
    assert_eq!(accounts[1].data, vec![1, 2, 3]);
    assert!(!accounts[1].is_writable);
}

#[test]
fn test_overwrite_not_increment() {
    // Applying the same payload twice gives the same state as applying it
    // once: the counter is replaced, never accumulated.
    let program_id = Pubkey::default();
    let account = AccountView {
        owner: Pubkey::default(),
        data: vec![0u8; 8],
        is_writable: true,
    };
    let mut accounts = vec![account];

    process_instruction(&program_id, &mut accounts, &[1, 2, 3, 4]).unwrap();
    let once = accounts[0].data.clone();
    process_instruction(&program_id, &mut accounts, &[1, 2, 3, 4]).unwrap();
    assert_eq!(accounts[0].data, once);
    let ga = GreetingAccount::try_from_slice(&accounts[0].data).unwrap();
    assert_eq!(ga.counter, 67_305_985);
    assert_eq!(ga.check, 1);
}

#[test]
fn test_round_trip_of_written_buffer() {
    // encode(decode(buffer)) == buffer for a buffer a successful call wrote.
    let program_id = Pubkey::default();
    let account = AccountView {
        owner: Pubkey::default(),
        data: vec![0u8; 8],
        is_writable: true,
    };
    let mut accounts = vec![account];

    process_instruction(&program_id, &mut accounts, &[255, 255, 255, 255]).unwrap();
    let written = accounts[0].data.clone();
    let ga = GreetingAccount::try_from_slice(&written).unwrap();
    assert_eq!(ga.counter, u32::MAX);
    assert_eq!(ga.check, 1);
    assert_eq!(ga.serialize(), written);
}
