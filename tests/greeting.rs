use hello_counter::{process_instruction, Account, ExecutionError, GreetingAccount, Identity};

fn key(b: u8) -> Identity {
    Identity { bytes: [b; 32] }
}

fn account(owner: Identity, data: Vec<u8>) -> Account {
    Account { owner, data }
}

#[test]
fn greetings_accumulate_from_zero() {
    let program = key(7);
    let mut accounts = vec![account(program, vec![0; 4])];
    assert_eq!(GreetingAccount::load(&accounts[0].data), Some(GreetingAccount { counter: 0 }));
    assert_eq!(process_instruction(&program, &mut accounts, &[]), Ok(1));
    assert_eq!(GreetingAccount::load(&accounts[0].data), Some(GreetingAccount { counter: 1 }));
    assert_eq!(process_instruction(&program, &mut accounts, &[]), Ok(2));
    assert_eq!(GreetingAccount::load(&accounts[0].data), Some(GreetingAccount { counter: 2 }));
    assert_eq!(accounts[0].data, vec![2, 0, 0, 0]);
}

#[test]
fn instruction_bytes_do_not_change_the_transition() {
    let program = key(7);
    let mut accounts = vec![account(program, vec![10, 0, 0, 0])];
    assert_eq!(process_instruction(&program, &mut accounts, &[2, 5, 0, 0, 0]), Ok(11));
    assert_eq!(process_instruction(&program, &mut accounts, &[1]), Ok(12));
    assert_eq!(accounts[0].data, vec![12, 0, 0, 0]);
}

#[test]
fn foreign_owner_is_refused_and_untouched() {
    let program = key(7);
    let mut other = [7u8; 32];
    other[31] = 8;
    let mut accounts = vec![account(Identity { bytes: other }, vec![3, 0, 0, 0, 1])];
    assert_eq!(
        process_instruction(&program, &mut accounts, &[]),
        Err(ExecutionError::IncorrectOwner)
    );
    assert_eq!(accounts[0].data, vec![3, 0, 0, 0, 1]);
}

#[test]
fn no_account_is_missing_account() {
    let mut accounts: Vec<Account> = Vec::new();
    assert_eq!(
        process_instruction(&key(1), &mut accounts, &[]),
        Err(ExecutionError::MissingAccount)
    );
    assert!(accounts.is_empty());
}

#[test]
fn short_data_is_corrupt_and_untouched() {
    let program = key(7);
    for len in 0..4usize {
        let mut accounts = vec![account(program, vec![5; len])];
        assert_eq!(
            process_instruction(&program, &mut accounts, &[]),
            Err(ExecutionError::Corrupt)
        );
        assert_eq!(accounts[0].data, vec![5; len]);
    }
}

#[test]
fn trailing_bytes_and_length_are_kept() {
    let program = key(0);
    let mut accounts = vec![account(program, vec![0xff, 0x00, 0x00, 0x00, 9, 8, 7])];
    assert_eq!(process_instruction(&program, &mut accounts, &[]), Ok(256));
    assert_eq!(accounts[0].data, vec![0x00, 0x01, 0x00, 0x00, 9, 8, 7]);
    assert_eq!(accounts[0].data.len(), 7);
}

#[test]
fn counter_wraps_at_the_top() {
    let program = key(3);
    let mut accounts = vec![account(program, vec![0xff; 4])];
    assert_eq!(process_instruction(&program, &mut accounts, &[]), Ok(0));
    assert_eq!(accounts[0].data, vec![0, 0, 0, 0]);
}

#[test]
fn only_the_first_account_changes() {
    let program = key(4);
    let mut accounts = vec![
        account(program, vec![1, 0, 0, 0]),
        account(program, vec![1, 0, 0, 0]),
    ];
    assert_eq!(process_instruction(&program, &mut accounts, &[]), Ok(2));
    assert_eq!(accounts[0].data, vec![2, 0, 0, 0]);
    assert_eq!(accounts[1].data, vec![1, 0, 0, 0]);
    assert_eq!(accounts.len(), 2);
}

#[test]
fn record_loads_little_endian_from_the_front() {
    assert_eq!(
        GreetingAccount::load(&[0x01, 0x02, 0x00, 0x00, 0xaa]),
        Some(GreetingAccount { counter: 0x0201 })
    );
    assert_eq!(GreetingAccount::load(&[1, 2, 3]), None);
}

#[test]
fn record_stores_over_the_front() {
    let mut data = vec![9u8; 6];
    GreetingAccount { counter: 0x0a0b_0c0d }.store(&mut data);
    assert_eq!(data, vec![0x0d, 0x0c, 0x0b, 0x0a, 9, 9]);
}

#[test]
fn identities_compare_by_bytes() {
    let mut b = [1u8; 32];
    assert!(key(1).same_as(&Identity { bytes: b }));
    b[0] = 2;
    assert!(!key(1).same_as(&Identity { bytes: b }));
}
