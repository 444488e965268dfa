use precompile_attest::account::{AccountAddress, AccountMeta, WellKnownAccount};
use precompile_attest::system_test::{
    Allocate, CreateAccount, SystemTestInstruction, TransferLamports,
};
use precompile_attest::sysvar_instruction::{SysvarInstruction, TEST_AMOUNT};

const PROGRAM: [u8; 32] = [1; 32];
const FIRST: [u8; 32] = [2; 32];
const SECOND: [u8; 32] = [3; 32];

fn key(meta: &AccountMeta) -> Option<[u8; 32]> {
    match meta.pubkey {
        AccountAddress::Key(k) => Some(k),
        AccountAddress::WellKnown(_) => None,
    }
}

fn well_known(meta: &AccountMeta) -> Option<WellKnownAccount> {
    match meta.pubkey {
        AccountAddress::Key(_) => None,
        AccountAddress::WellKnown(w) => Some(w),
    }
}

fn flags(meta: &AccountMeta) -> (bool, bool) {
    (meta.is_signer, meta.is_writable)
}

#[test]
fn account_meta_constructors() {
    let w = AccountMeta::new(AccountAddress::Key(FIRST), true);
    assert_eq!((key(&w), flags(&w)), (Some(FIRST), (true, true)));
    let w = AccountMeta::new(AccountAddress::Key(FIRST), false);
    assert_eq!(flags(&w), (false, true));
    let r = AccountMeta::new_readonly(AccountAddress::WellKnown(WellKnownAccount::Rent), false);
    assert_eq!((well_known(&r), flags(&r)), (Some(WellKnownAccount::Rent), (false, false)));
    let r = AccountMeta::new_readonly(AccountAddress::Key(SECOND), true);
    assert_eq!((key(&r), flags(&r)), (Some(SECOND), (true, false)));
}

#[test]
fn create_account_request() {
    let r = CreateAccount::build_instruction(&PROGRAM, &FIRST, &SECOND, 77);
    assert_eq!(r.program_id, PROGRAM);
    assert_eq!(r.instruction, SystemTestInstruction::CreateAccount(CreateAccount { space: 77 }));
    assert_eq!(r.accounts.len(), 3);
    assert_eq!((key(&r.accounts[0]), flags(&r.accounts[0])), (Some(FIRST), (true, true)));
    assert_eq!((key(&r.accounts[1]), flags(&r.accounts[1])), (Some(SECOND), (true, true)));
    assert_eq!(well_known(&r.accounts[2]), Some(WellKnownAccount::SystemProgram));
    assert_eq!(flags(&r.accounts[2]), (false, false));
}

#[test]
fn transfer_request() {
    let r = TransferLamports::build_instruction(&PROGRAM, &FIRST, &SECOND, u64::MAX);
    assert_eq!(r.program_id, PROGRAM);
    assert_eq!(
        r.instruction,
        SystemTestInstruction::TransferLamports(TransferLamports { amount: u64::MAX })
    );
    assert_eq!(r.accounts.len(), 3);
    assert_eq!((key(&r.accounts[0]), flags(&r.accounts[0])), (Some(FIRST), (true, true)));
    assert_eq!((key(&r.accounts[1]), flags(&r.accounts[1])), (Some(SECOND), (false, true)));
    assert_eq!(well_known(&r.accounts[2]), Some(WellKnownAccount::SystemProgram));
    assert_eq!(flags(&r.accounts[2]), (false, false));
}

#[test]
fn allocate_request() {
    let r = Allocate::build_instruction(&PROGRAM, &FIRST, &SECOND, 0);
    assert_eq!(r.program_id, PROGRAM);
    assert_eq!(r.instruction, SystemTestInstruction::Allocate(Allocate { space: 0 }));
    assert_eq!(r.accounts.len(), 3);
    assert_eq!((key(&r.accounts[0]), flags(&r.accounts[0])), (Some(FIRST), (true, true)));
    assert_eq!((key(&r.accounts[1]), flags(&r.accounts[1])), (Some(SECOND), (true, true)));
    assert_eq!(well_known(&r.accounts[2]), Some(WellKnownAccount::SystemProgram));
    assert_eq!(flags(&r.accounts[2]), (false, false));
}

#[test]
fn sysvar_request() {
    let r = SysvarInstruction::build_instruction(&FIRST, &PROGRAM);
    assert_eq!(r.program_id, PROGRAM);
    assert_eq!(TEST_AMOUNT, 1000);
    assert_eq!(r.instruction, SysvarInstruction { test_amount: 1000 });
    assert_eq!(r.accounts.len(), 9);
    assert_eq!((key(&r.accounts[0]), flags(&r.accounts[0])), (Some(FIRST), (true, true)));
    let fixed = [
        WellKnownAccount::SystemProgram,
        WellKnownAccount::Clock,
        WellKnownAccount::EpochSchedule,
        WellKnownAccount::Instructions,
        WellKnownAccount::Rent,
        WellKnownAccount::SlotHashes,
        WellKnownAccount::SlotHistory,
        WellKnownAccount::StakeHistory,
    ];
    for (i, w) in fixed.iter().enumerate() {
        assert_eq!(well_known(&r.accounts[i + 1]), Some(*w));
        assert_eq!(flags(&r.accounts[i + 1]), (false, false));
    }
}
