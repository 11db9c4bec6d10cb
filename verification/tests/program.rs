use solana_twitter::Account;
use solana_twitter::Initialize;
use solana_twitter::InvocationContext;
use solana_twitter::initialize;
use solana_twitter::program_id;

fn account(seed: u8) -> Account {
    Account {
        key: vec![seed; 32],
        owner: vec![seed.wrapping_add(1); 32],
        lamports: 1_000_000 + seed as u64,
        data: vec![seed, seed, seed],
        is_signer: seed % 2 == 0,
        is_writable: seed % 3 == 0,
        executable: false,
    }
}

#[test]
fn initialize_empty_context_succeeds_without_changes() {
    let mut ctx = InvocationContext { accounts: Vec::new(), instruction_data: Vec::new() };
    let before = ctx.clone();
    let result = initialize(&mut ctx);
    assert_eq!(result, Ok(()));
    assert_eq!(ctx, before);
}

#[test]
fn initialize_accepts_extra_accounts() {
    let mut ctx = InvocationContext {
        accounts: vec![account(1), account(2), account(3)],
        instruction_data: vec![7, 8, 9],
    };
    let before = ctx.clone();
    let result = initialize(&mut ctx);
    assert_eq!(result, Ok(()));
    assert_eq!(ctx, before);
}

#[test]
fn initialize_preserves_every_account_bit_for_bit() {
    let mut ctx = InvocationContext {
        accounts: vec![account(10), account(20)],
        instruction_data: Vec::new(),
    };
    let data_before: Vec<Vec<u8>> = ctx.accounts.iter().map(|a| a.data.clone()).collect();
    let lamports_before: Vec<u64> = ctx.accounts.iter().map(|a| a.lamports).collect();
    let result = initialize(&mut ctx);
    assert!(result.is_ok());
    let data_after: Vec<Vec<u8>> = ctx.accounts.iter().map(|a| a.data.clone()).collect();
    let lamports_after: Vec<u64> = ctx.accounts.iter().map(|a| a.lamports).collect();
    assert_eq!(data_before, data_after);
    assert_eq!(lamports_before, lamports_after);
}

#[test]
fn descriptor_validates_zero_accounts() {
    let ctx = InvocationContext { accounts: Vec::new(), instruction_data: Vec::new() };
    assert!(Initialize::try_accounts(&ctx).is_ok());
}

#[test]
fn descriptor_does_not_reject_extra_accounts() {
    let ctx = InvocationContext {
        accounts: vec![account(4), account(5)],
        instruction_data: vec![1],
    };
    assert!(Initialize::try_accounts(&ctx).is_ok());
}

#[test]
fn descriptor_requires_no_accounts() {
    assert_eq!(Initialize::required_account_count(), 0);
}

#[test]
fn program_id_is_the_declared_identifier() {
    assert_eq!(program_id(), "6DAtUVDGwUrV5xEtRxyYXGG6kvskeFQuhDNyt7E38yhx");
}
