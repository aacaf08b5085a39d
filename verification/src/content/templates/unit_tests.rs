//! Templates of the test file of a new project.
//!
//! The project name and the addresses are written into the text where the
//! file refers to them; the text around them is fixed.

use vstd::prelude::*;
use vstd::string::StringExecFns;

use crate::text::lemma_spliced_once_injective;

verus! {

/// The mollusk test file, up to its first import from the crate of the project.
pub const MOLLUSK_TEST_0: &'static str = r#"use mollusk_svm::result::{Check, ProgramResult};
use mollusk_svm::{program, Mollusk};
use solana_sdk::account::Account;
use solana_sdk::instruction::{AccountMeta, Instruction};
use solana_sdk::native_token::LAMPORTS_PER_SOL;
use solana_sdk::pubkey;
use solana_sdk::pubkey::Pubkey;
extern crate alloc;
use alloc::vec;

use "#;

/// The mollusk test file, from its first import from the crate of the project to the second.
pub const MOLLUSK_TEST_1: &'static str = r#"::instructions::Initialize;
use "#;

/// The mollusk test file, from its second import from the crate of the project to the
/// program address.
pub const MOLLUSK_TEST_2: &'static str = r#"::states::{to_bytes, MyState};
use solana_sdk::rent::Rent;

pub const PROGRAM: Pubkey = pubkey!(""#;

/// The mollusk test file, from the program address to the address of the payer.
pub const MOLLUSK_TEST_3: &'static str = r#"");

pub const RENT: Pubkey = pubkey!("SysvarRent111111111111111111111111111111111");

pub const PAYER: Pubkey = pubkey!(""#;

/// The mollusk test file, from the address of the payer to the name of the program file.
pub const MOLLUSK_TEST_4: &'static str = r#"");

pub fn mollusk() -> Mollusk {
    let mollusk = Mollusk::new(&PROGRAM, "target/deploy/"#;

/// The mollusk test file, from the name of the program file to the end.
pub const MOLLUSK_TEST_5: &'static str = r#"");
    mollusk
}

pub fn get_rent_data() -> Vec<u8> {
    let rent = Rent::default();
    unsafe {
        core::slice::from_raw_parts(&rent as *const Rent as *const u8, core::mem::size_of::<Rent>()).to_vec()
    }
}

#[test]
fn test_initialize_mystate() {
    let mollusk = mollusk();

    //system program and system account
    let (system_program, system_account) = program::keyed_account_for_system_program();

    // Create the PDA
    let (mystate_pda, bump) =
        Pubkey::find_program_address(&[MyState::SEED.as_bytes(), &PAYER.to_bytes()], &PROGRAM);

    //Initialize the accounts
    let payer_account = Account::new(1 * LAMPORTS_PER_SOL, 0, &system_program);
    let mystate_account = Account::new(0, 0, &system_program);
    let rent_size = core::mem::size_of::<Rent>();
    let min_balance = mollusk.sysvars.rent.minimum_balance(rent_size);
    let mut rent_account = Account::new(min_balance, rent_size, &RENT);
    rent_account.data = get_rent_data();

    //Push the accounts in to the instruction_accounts vec!
    let ix_accounts = vec![
        AccountMeta::new(PAYER, true),
        AccountMeta::new(mystate_pda, false),
        AccountMeta::new_readonly(RENT, false),
        AccountMeta::new_readonly(system_program, false),
    ];

    // Create the instruction data
    let ix_data = Initialize {
        owner: *PAYER.as_array(),
        bump,
    };

    // Ix discriminator = 0
    let mut ser_ix_data = vec![0];

    // Serialize the instruction data
    ser_ix_data.extend_from_slice(unsafe { to_bytes(&ix_data) });

    // Create instruction
    let instruction = Instruction::new_with_bytes(PROGRAM, &ser_ix_data, ix_accounts);

    // Create tx_accounts vec
    let tx_accounts = &vec![
        (PAYER, payer_account.clone()),
        (mystate_pda, mystate_account.clone()),
        (RENT, rent_account.clone()),
        (system_program, system_account.clone()),
    ];

    let init_res =
        mollusk.process_and_validate_instruction(&instruction, tx_accounts, &[Check::success()]);

    assert!(init_res.program_result == ProgramResult::Success);
}
        "#;

/// The mollusk test file of the project `project_name`, whose program lives
/// at `program_address` and whose payer is `address`.
pub open spec fn unit_test_text(
    address: Seq<char>,
    program_address: Seq<char>,
    project_name: Seq<char>,
) -> Seq<char> {
    MOLLUSK_TEST_0@ + project_name + MOLLUSK_TEST_1@ + project_name + MOLLUSK_TEST_2@
        + program_address + MOLLUSK_TEST_3@ + address + MOLLUSK_TEST_4@ + project_name
        + MOLLUSK_TEST_5@
}

/// `tests/tests.rs` for the mollusk harness: imports the instruction and state
/// types from the crate `project_name`, names `program_address` as the program
/// and `address` as the payer, and loads the program from
/// `target/deploy/<project_name>`.
pub fn unit_test_rs(address: &str, program_address: &str, project_name: &str) -> (out: String)
    ensures
        out@ == unit_test_text(address@, program_address@, project_name@),
{
    let mut out = String::from_str(MOLLUSK_TEST_0);
    out.append(project_name);
    out.append(MOLLUSK_TEST_1);
    out.append(project_name);
    out.append(MOLLUSK_TEST_2);
    out.append(program_address);
    out.append(MOLLUSK_TEST_3);
    out.append(address);
    out.append(MOLLUSK_TEST_4);
    out.append(project_name);
    out.append(MOLLUSK_TEST_5);
    out
}

/// Two payer addresses give the same mollusk test file exactly when they
/// are the same address.
pub proof fn lemma_unit_test_injective_in_address(
    a: Seq<char>,
    b: Seq<char>,
    program_address: Seq<char>,
    project_name: Seq<char>,
)
    ensures
        unit_test_text(a, program_address, project_name) == unit_test_text(
            b,
            program_address,
            project_name,
        ) <==> a == b,
{
    let head = MOLLUSK_TEST_0@ + project_name + MOLLUSK_TEST_1@ + project_name + MOLLUSK_TEST_2@
        + program_address + MOLLUSK_TEST_3@;
    let tail = MOLLUSK_TEST_4@ + project_name + MOLLUSK_TEST_5@;
    assert(unit_test_text(a, program_address, project_name) =~= head + a + tail);
    assert(unit_test_text(b, program_address, project_name) =~= head + b + tail);
    if head + a + tail == head + b + tail {
        lemma_spliced_once_injective(head, a, b, tail);
    }
}

/// Two program addresses give the same mollusk test file exactly when they
/// are the same address.
pub proof fn lemma_unit_test_injective_in_program_address(
    address: Seq<char>,
    a: Seq<char>,
    b: Seq<char>,
    project_name: Seq<char>,
)
    ensures
        unit_test_text(address, a, project_name) == unit_test_text(address, b, project_name) <==> a
            == b,
{
    let head = MOLLUSK_TEST_0@ + project_name + MOLLUSK_TEST_1@ + project_name + MOLLUSK_TEST_2@;
    let tail = MOLLUSK_TEST_3@ + address + MOLLUSK_TEST_4@ + project_name + MOLLUSK_TEST_5@;
    assert(unit_test_text(address, a, project_name) =~= head + a + tail);
    assert(unit_test_text(address, b, project_name) =~= head + b + tail);
    if head + a + tail == head + b + tail {
        lemma_spliced_once_injective(head, a, b, tail);
    }
}

/// The mollusk test file without the places that name the project: what is
/// left of it when the name is empty.
pub open spec fn unit_test_frame(address: Seq<char>, program_address: Seq<char>) -> Seq<char> {
    unit_test_text(address, program_address, Seq::empty())
}

/// The mollusk test file names the project three times.
proof fn lemma_unit_test_len(address: Seq<char>, program_address: Seq<char>, name: Seq<char>)
    ensures
        unit_test_text(address, program_address, name).len() == unit_test_frame(
            address,
            program_address,
        ).len() + 3 * name.len(),
{
    let none = Seq::<char>::empty();
    let middle = MOLLUSK_TEST_2@ + program_address + MOLLUSK_TEST_3@ + address + MOLLUSK_TEST_4@;
    assert(unit_test_text(address, program_address, name) =~= MOLLUSK_TEST_0@ + name
        + MOLLUSK_TEST_1@ + name + middle + name + MOLLUSK_TEST_5@);
    assert(unit_test_text(address, program_address, none) =~= MOLLUSK_TEST_0@ + none
        + MOLLUSK_TEST_1@ + none + middle + none + MOLLUSK_TEST_5@);
}

/// Two project names give the same mollusk test file exactly when they are
/// the same name.
pub proof fn lemma_unit_test_injective_in_project_name(
    address: Seq<char>,
    program_address: Seq<char>,
    a: Seq<char>,
    b: Seq<char>,
)
    ensures
        unit_test_text(address, program_address, a) == unit_test_text(address, program_address, b)
            <==> a == b,
{
    let text_a = unit_test_text(address, program_address, a);
    let text_b = unit_test_text(address, program_address, b);
    if text_a == text_b {
        lemma_unit_test_len(address, program_address, a);
        lemma_unit_test_len(address, program_address, b);
        assert(a.len() == b.len());
        assert forall|i: int| 0 <= i < a.len() implies a[i] == b[i] by {
            assert(text_a[MOLLUSK_TEST_0@.len() + i] == a[i]);
            assert(text_b[MOLLUSK_TEST_0@.len() + i] == b[i]);
        }
        assert(a =~= b);
    }
}

/// The litesvm test file, up to its first import from the crate of the project.
pub const LITESVM_TEST_0: &'static str = r#"// use this to run the tests -
// cargo test --features std  -- --no-capture

use std::path::PathBuf;

use litesvm::{types::TransactionResult, LiteSVM};
use solana_sdk::{
    instruction::{AccountMeta, Instruction},
    native_token::LAMPORTS_PER_SOL,
    pubkey::Pubkey,
    signature::Keypair,
    signer::Signer,
    sysvar,
    transaction::Transaction,
};

use "#;

/// The litesvm test file, from its first import from the crate of the project to the second.
pub const LITESVM_TEST_1: &'static str = r#"::instructions::Initialize;
use "#;

/// The litesvm test file, from its second import from the crate of the project to the third.
pub const LITESVM_TEST_2: &'static str = r#"::states::{self, MyState};
use "#;

/// The litesvm test file, from its third import from the crate of the project to the
/// program id.
pub const LITESVM_TEST_3: &'static str = r#"::states::utils::DataLen;

pub fn program_id() -> Pubkey {
    // Convert Pinocchio program ID to solana-sdk Pubkey
    Pubkey::new_from_array("#;

/// The litesvm test file, from the program id to the name of the program file.
pub const LITESVM_TEST_4: &'static str = r#"::ID)
}

pub fn setup() -> (LiteSVM, Keypair) {
    let mut svm = LiteSVM::new();

    let so_path = PathBuf::from("target/deploy").join(""#;

/// The litesvm test file, from the name of the program file to the end.
pub const LITESVM_TEST_5: &'static str = r#".so");

    let program_data = std::fs::read(so_path).expect("Failed to read program .so file");
    svm.add_program(program_id(), &program_data).expect("add_program failed");

    let payer = Keypair::new();
    svm.airdrop(&payer.pubkey(), 10 * LAMPORTS_PER_SOL).expect("airdrop failed");

    (svm, payer)
}

pub struct InitializeData {
    pub payer: Pubkey,
    pub state_pda: (Pubkey, u8),
}

impl InitializeData {
    pub fn new(payer: &Keypair) -> Self {
        let (state_pda, bump) =
            Pubkey::find_program_address(&[MyState::SEED.as_bytes(), &payer.pubkey().to_bytes()], &program_id());
        Self {
            payer: payer.pubkey(),
            state_pda: (state_pda, bump),
        }
    }
}

pub fn initialize(
    svm: &mut LiteSVM,
    payer: &Keypair,
    data: &InitializeData,
) -> TransactionResult {
    // Discriminator 0 for Initialize, followed by Initialize{ owner, bump }
    let ix = Initialize { owner: data.payer.to_bytes(), bump: data.state_pda.1 };

    let mut ix_data = vec![0u8];
    // Serialize instruction payload using the program's utility
    let ix_bytes = unsafe { states::utils::to_bytes(&ix) };
    ix_data.extend_from_slice(ix_bytes);

    let system_program = Pubkey::from(pinocchio_system::id());
    let accounts = vec![
        AccountMeta::new(data.payer, true),
        AccountMeta::new(data.state_pda.0, false),
        AccountMeta::new_readonly(sysvar::rent::id(), false),
        AccountMeta::new_readonly(system_program, false),
    ];

    let ix = Instruction { program_id: program_id(), accounts, data: ix_data };

    let tx = Transaction::new_signed_with_payer(
        &[ix],
        Some(&payer.pubkey()),
        &[payer],
        svm.latest_blockhash(),
    );

    svm.send_transaction(tx)
}

#[test]
pub fn test_initialize() {
    let (mut svm, payer) = setup();
    let init_data = InitializeData::new(&payer);

    let _res = initialize(&mut svm, &payer, &init_data).expect("transaction failed");

    // Fetch PDA account and verify it was created with expected size
    let state_account = svm.get_account(&init_data.state_pda.0).expect("missing state account");
    assert_eq!(state_account.data.len(), MyState::LEN, "state size mismatch");
}
"#;

/// The litesvm test file of the project `project_name`.
pub open spec fn litesvm_initialize_text(project_name: Seq<char>) -> Seq<char> {
    LITESVM_TEST_0@ + project_name + LITESVM_TEST_1@ + project_name + LITESVM_TEST_2@
        + project_name + LITESVM_TEST_3@ + project_name + LITESVM_TEST_4@ + project_name
        + LITESVM_TEST_5@
}

/// A test file for the litesvm harness: imports the instruction and state
/// types from the crate `project_name`, takes the program id from it and loads
/// the program from `target/deploy/<project_name>.so`.
pub fn litesvm_initialize_rs(project_name: &str) -> (out: String)
    ensures
        out@ == litesvm_initialize_text(project_name@),
{
    let mut out = String::from_str(LITESVM_TEST_0);
    out.append(project_name);
    out.append(LITESVM_TEST_1);
    out.append(project_name);
    out.append(LITESVM_TEST_2);
    out.append(project_name);
    out.append(LITESVM_TEST_3);
    out.append(project_name);
    out.append(LITESVM_TEST_4);
    out.append(project_name);
    out.append(LITESVM_TEST_5);
    out
}

/// The litesvm test file names the project five times.
proof fn lemma_litesvm_initialize_len(name: Seq<char>)
    ensures
        litesvm_initialize_text(name).len() == litesvm_initialize_text(Seq::empty()).len() + 5
            * name.len(),
{
    let none = Seq::<char>::empty();
    let text = litesvm_initialize_text(name);
    let frame = litesvm_initialize_text(none);
    let front = LITESVM_TEST_0@ + name + LITESVM_TEST_1@ + name + LITESVM_TEST_2@ + name;
    let back = LITESVM_TEST_3@ + name + LITESVM_TEST_4@ + name + LITESVM_TEST_5@;
    let front_frame = LITESVM_TEST_0@ + none + LITESVM_TEST_1@ + none + LITESVM_TEST_2@ + none;
    let back_frame = LITESVM_TEST_3@ + none + LITESVM_TEST_4@ + none + LITESVM_TEST_5@;
    assert(text =~= front + back);
    assert(frame =~= front_frame + back_frame);
}

/// Two project names give the same litesvm test file exactly when they are
/// the same name.
pub proof fn lemma_litesvm_initialize_injective(a: Seq<char>, b: Seq<char>)
    ensures
        litesvm_initialize_text(a) == litesvm_initialize_text(b) <==> a == b,
{
    let text_a = litesvm_initialize_text(a);
    let text_b = litesvm_initialize_text(b);
    if text_a == text_b {
        lemma_litesvm_initialize_len(a);
        lemma_litesvm_initialize_len(b);
        assert(a.len() == b.len());
        assert forall|i: int| 0 <= i < a.len() implies a[i] == b[i] by {
            assert(text_a[LITESVM_TEST_0@.len() + i] == a[i]);
            assert(text_b[LITESVM_TEST_0@.len() + i] == b[i]);
        }
        assert(a =~= b);
    }
}

} // verus!
