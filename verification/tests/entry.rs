use precompile_attest::checker::{check, PrecompileIdentity};
use precompile_attest::error::VerificationError;
use precompile_attest::payload::{
    build_payload, SignatureMaterial, TransactionInstruction, WireVariant,
};
use precompile_attest::secp256k1::{
    conclude, demo_secp256k1, AccountRecord, DemoSecp256k1Instruction, LoadFailure,
    ProgramFailure,
};
use solana_program::pubkey::Pubkey;
use solana_program::sysvar::instructions::{construct_instructions_data, BorrowedInstruction};
use solana_sdk::feature_set::FeatureSet;

const MESSAGE: &[u8] = b"This is a demo message.";

struct Signed {
    signature: [u8; 65],
    address: [u8; 20],
    secret: libsecp256k1::SecretKey,
}

fn sign(message: &[u8]) -> Signed {
    let secret = libsecp256k1::SecretKey::parse(&[0x17; 32]).unwrap();
    let public = libsecp256k1::PublicKey::from_secret_key(&secret);
    let address = solana_sdk::secp256k1_instruction::construct_eth_pubkey(&public);
    let digest = solana_sdk::keccak::hash(message).to_bytes();
    let (sig, recovery) = libsecp256k1::sign(&libsecp256k1::Message::parse(&digest), &secret);
    let mut signature = [0u8; 65];
    signature[..64].copy_from_slice(&sig.serialize());
    signature[64] = recovery.serialize();
    Signed { signature, address, secret }
}

fn material(signed: &Signed) -> SignatureMaterial {
    SignatureMaterial::HashedAddress { signature: signed.signature, address: signed.address }
}

fn sysvar(instructions: &[(Pubkey, Vec<u8>)]) -> AccountRecord {
    let borrowed: Vec<BorrowedInstruction> = instructions
        .iter()
        .map(|(program_id, data)| BorrowedInstruction { program_id, accounts: vec![], data })
        .collect();
    AccountRecord {
        key: solana_program::sysvar::instructions::id().to_bytes(),
        data: construct_instructions_data(&borrowed),
    }
}

fn request(signed: &Signed, message: &[u8]) -> DemoSecp256k1Instruction {
    DemoSecp256k1Instruction { message: message.to_vec(), signer_pubkey: signed.address }
}

#[test]
fn built_payload_passes_the_platform_verifier() {
    let signed = sign(MESSAGE);
    let payload = build_payload(&material(&signed), MESSAGE).unwrap();
    let datas: [&[u8]; 1] = [&payload.data];
    assert_eq!(
        solana_sdk::secp256k1_instruction::verify(&payload.data, &datas, &FeatureSet::all_enabled()),
        Ok(())
    );
    let mut tampered = payload.data.clone();
    let last = tampered.len() - 1;
    tampered[last] ^= 1;
    let datas: [&[u8]; 1] = [&tampered];
    assert!(
        solana_sdk::secp256k1_instruction::verify(&tampered, &datas, &FeatureSet::all_enabled())
            .is_err()
    );
}

#[test]
fn platform_built_instruction_passes_the_checker() {
    let signed = sign(MESSAGE);
    let theirs = solana_sdk::secp256k1_instruction::new_secp256k1_instruction(&signed.secret, MESSAGE);
    let list = vec![TransactionInstruction {
        program_id: theirs.program_id.to_bytes(),
        data: theirs.data.clone(),
    }];
    let trusted = PrecompileIdentity {
        program_id: solana_sdk::secp256k1_program::id().to_bytes(),
        variant: WireVariant::HashedAddress,
    };
    assert_eq!(check(&list, &trusted, 0, &signed.address, MESSAGE), Ok(()));
    assert_eq!(
        check(&list, &trusted, 0, &signed.address, b"This is another message"),
        Err(VerificationError::AttestationMismatch)
    );
    let ed25519 = PrecompileIdentity {
        program_id: solana_sdk::ed25519_program::id().to_bytes(),
        variant: WireVariant::RawPublicKey,
    };
    assert_eq!(
        check(&list, &ed25519, 0, &signed.address, MESSAGE),
        Err(VerificationError::WrongProgram)
    );
}

#[test]
fn entry_accepts_an_attested_request() {
    let signed = sign(MESSAGE);
    let payload = build_payload(&material(&signed), MESSAGE).unwrap();
    let account = sysvar(&[
        (solana_program::secp256k1_program::id(), payload.data),
        (Pubkey::new_from_array([5; 32]), vec![1, 2, 3]),
    ]);
    assert_eq!(demo_secp256k1(&request(&signed, MESSAGE), &[account]), Ok(()));
}

#[test]
fn entry_accepts_a_platform_built_instruction() {
    let signed = sign(MESSAGE);
    let theirs = solana_sdk::secp256k1_instruction::new_secp256k1_instruction(&signed.secret, MESSAGE);
    let account = sysvar(&[(theirs.program_id, theirs.data)]);
    assert_eq!(demo_secp256k1(&request(&signed, MESSAGE), &[account.clone()]), Ok(()));
    let mut other = request(&signed, MESSAGE);
    other.signer_pubkey[0] ^= 1;
    assert_eq!(
        demo_secp256k1(&other, &[account]),
        Err(ProgramFailure::Verification(VerificationError::AttestationMismatch))
    );
}

#[test]
fn entry_reads_only_the_first_account() {
    let signed = sign(MESSAGE);
    let payload = build_payload(&material(&signed), MESSAGE).unwrap();
    let account = sysvar(&[(solana_program::secp256k1_program::id(), payload.data)]);
    let noise = AccountRecord { key: [9; 32], data: vec![0xff; 7] };
    assert_eq!(demo_secp256k1(&request(&signed, MESSAGE), &[account.clone(), noise.clone()]), Ok(()));
    assert_eq!(
        demo_secp256k1(&request(&signed, MESSAGE), &[noise, account]),
        Err(ProgramFailure::UnsupportedSysvar)
    );
}

#[test]
fn entry_without_accounts() {
    let signed = sign(MESSAGE);
    assert_eq!(
        demo_secp256k1(&request(&signed, MESSAGE), &[]),
        Err(ProgramFailure::NotEnoughAccountKeys)
    );
}

#[test]
fn entry_with_an_account_that_is_not_the_sysvar() {
    let signed = sign(MESSAGE);
    let payload = build_payload(&material(&signed), MESSAGE).unwrap();
    let mut account = sysvar(&[(solana_program::secp256k1_program::id(), payload.data)]);
    account.key = solana_program::sysvar::clock::id().to_bytes();
    assert_eq!(
        demo_secp256k1(&request(&signed, MESSAGE), &[account]),
        Err(ProgramFailure::UnsupportedSysvar)
    );
}

#[test]
fn entry_with_an_empty_transaction() {
    let signed = sign(MESSAGE);
    assert_eq!(
        demo_secp256k1(&request(&signed, MESSAGE), &[sysvar(&[])]),
        Err(ProgramFailure::Verification(VerificationError::IndexOutOfRange))
    );
}

#[test]
fn entry_with_sysvar_contents_that_end_early() {
    let signed = sign(MESSAGE);
    let payload = build_payload(&material(&signed), MESSAGE).unwrap();
    let mut account = sysvar(&[(solana_program::secp256k1_program::id(), payload.data)]);
    account.data.truncate(40);
    assert_eq!(
        demo_secp256k1(&request(&signed, MESSAGE), &[account.clone()]),
        Err(ProgramFailure::Verification(VerificationError::IndexOutOfRange))
    );
    account.data.clear();
    assert_eq!(
        demo_secp256k1(&request(&signed, MESSAGE), &[account]),
        Err(ProgramFailure::Verification(VerificationError::IndexOutOfRange))
    );
}

#[test]
fn entry_with_a_first_instruction_of_another_program() {
    let signed = sign(MESSAGE);
    let payload = build_payload(&material(&signed), MESSAGE).unwrap();
    let account = sysvar(&[
        (solana_program::ed25519_program::id(), payload.data.clone()),
        (solana_program::secp256k1_program::id(), payload.data),
    ]);
    assert_eq!(
        demo_secp256k1(&request(&signed, MESSAGE), &[account]),
        Err(ProgramFailure::Verification(VerificationError::WrongProgram))
    );
}

#[test]
fn entry_with_another_message_than_attested() {
    let signed = sign(MESSAGE);
    let payload = build_payload(&material(&signed), MESSAGE).unwrap();
    let account = sysvar(&[(solana_program::secp256k1_program::id(), payload.data)]);
    assert_eq!(
        demo_secp256k1(&request(&signed, b"This is a demo message?"), &[account]),
        Err(ProgramFailure::Verification(VerificationError::AttestationMismatch))
    );
}

#[test]
fn entry_passes_payload_errors_on() {
    let signed = sign(MESSAGE);
    let id = solana_program::secp256k1_program::id();
    let of = |data: Vec<u8>| demo_secp256k1(&request(&signed, MESSAGE), &[sysvar(&[(id, data)])]);
    assert_eq!(of(vec![]), Err(ProgramFailure::Verification(VerificationError::TruncatedPayload)));
    assert_eq!(
        of(vec![2, 0]),
        Err(ProgramFailure::Verification(VerificationError::UnexpectedDescriptorCount))
    );
    assert_eq!(
        of(vec![1, 0]),
        Err(ProgramFailure::Verification(VerificationError::MalformedOffsets))
    );
    let mut data = build_payload(&material(&signed), MESSAGE).unwrap().data;
    data[3] = 1;
    assert_eq!(
        of(data.clone()),
        Err(ProgramFailure::Verification(VerificationError::UnexpectedIndirection))
    );
    data[3] = 0;
    data.pop();
    assert_eq!(
        of(data),
        Err(ProgramFailure::Verification(VerificationError::OffsetOutOfBounds))
    );
}

#[test]
fn conclude_on_given_values() {
    let signed = sign(MESSAGE);
    let wanted = request(&signed, MESSAGE);
    let data = build_payload(&material(&signed), MESSAGE).unwrap().data;
    let loaded = Ok(TransactionInstruction { program_id: [3; 32], data });
    assert_eq!(conclude(&wanted, &loaded, true), Ok(()));
    assert_eq!(
        conclude(&wanted, &loaded, false),
        Err(ProgramFailure::Verification(VerificationError::WrongProgram))
    );
    assert_eq!(
        conclude(&request(&signed, b"x"), &loaded, true),
        Err(ProgramFailure::Verification(VerificationError::AttestationMismatch))
    );
    assert_eq!(
        conclude(&wanted, &Err(LoadFailure::UnsupportedSysvar), true),
        Err(ProgramFailure::UnsupportedSysvar)
    );
    assert_eq!(
        conclude(&wanted, &Err(LoadFailure::InvalidArgument), true),
        Err(ProgramFailure::Verification(VerificationError::IndexOutOfRange))
    );
    assert_eq!(
        conclude(&wanted, &Err(LoadFailure::InvalidInstructionData), false),
        Err(ProgramFailure::InvalidInstructionData)
    );
}
