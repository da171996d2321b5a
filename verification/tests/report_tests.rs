use swap_tester::error::format_test_error;
use swap_tester::error::format_test_success;
use swap_tester::error::to_case_error;
use swap_tester::error::to_case_error_from_context;
use swap_tester::error::to_case_error_from_load;
use swap_tester::error::CaseError;
use swap_tester::error::ProgramLoadError;
use swap_tester::error::TestContextError;
use swap_tester::introspection::has_guard_field;
use swap_tester::introspection::name_mentions;
use swap_tester::introspection::test_anchor_try;
use swap_tester::introspection::test_cpi_concept;
use swap_tester::introspection::test_error_messages;
use swap_tester::introspection::test_offer_practice;
use swap_tester::introspection::test_vault_intro;
use swap_tester::introspection::test_vault_security;
use swap_tester::introspection::AccountInfo;
use swap_tester::introspection::ArgumentInfo;
use swap_tester::introspection::ErrorInfo;
use swap_tester::introspection::FieldInfo;
use swap_tester::introspection::InstructionInfo;
use swap_tester::introspection::ProgramInfo;
use swap_tester::introspection::StructInfo;

fn field(name: &str, ty: &str) -> FieldInfo {
    FieldInfo { name: name.to_string(), declared_type: ty.to_string() }
}

fn empty_info() -> ProgramInfo {
    ProgramInfo {
        program_id: "x".to_string(),
        instructions: Vec::new(),
        accounts: Vec::new(),
        errors: Vec::new(),
        structs: Vec::new(),
    }
}

fn other_text(r: Result<(), CaseError>) -> String {
    match r {
        Err(CaseError::Other(text)) => text,
        other => panic!("unexpected {:?}", other),
    }
}

#[test]
fn context_errors_have_their_sentences() {
    assert_eq!(
        TestContextError::ExecutionError("boom".to_string()).message(),
        "Instruction execution failed: boom"
    );
    assert_eq!(
        TestContextError::ValidationError("short".to_string()).message(),
        "Validation failed: short"
    );
    assert_eq!(
        TestContextError::AccountNotFound("abc".to_string()).message(),
        "Account not found: abc"
    );
    assert_eq!(TestContextError::validation("v").message(), "Validation failed: v");
}

#[test]
fn loader_errors_have_their_sentences() {
    let cases = [
        (ProgramLoadError::RepoNotFound("/r".to_string()), "Repository directory not found: /r"),
        (ProgramLoadError::AnchorTomlNotFound("/r/Anchor.toml".to_string()), "Anchor.toml not found: /r/Anchor.toml"),
        (ProgramLoadError::ProgramIdNotFound, "Program ID not found in Anchor.toml"),
        (ProgramLoadError::InvalidProgramId("zz".to_string()), "Invalid program ID in Anchor.toml: zz"),
        (ProgramLoadError::ProgramDirNotFound("/p".to_string()), "Program directory not found: /p"),
        (ProgramLoadError::ProgramNotFound, "Program SO file not found in any of the expected locations"),
        (ProgramLoadError::IoError("denied".to_string()), "Failed to read program file: denied"),
        (ProgramLoadError::ElfLoadError("bad".to_string()), "Failed to load program ELF: bad"),
    ];
    for (error, text) in cases {
        assert_eq!(error.message(), text);
    }
}

#[test]
fn a_loader_error_stays_a_loader_error() {
    match TestContextError::from_load(ProgramLoadError::ProgramNotFound) {
        TestContextError::ProgramLoad(ProgramLoadError::ProgramNotFound) => {}
        other => panic!("unexpected {:?}", other),
    }
    let error = TestContextError::from_load(ProgramLoadError::RepoNotFound("/r".to_string()));
    assert!(!matches!(error, TestContextError::ExecutionError(_)));
    assert_eq!(error.message(), "Repository directory not found: /r");
    assert_eq!(to_case_error(error).message(), "Repository directory not found: /r");
}

#[test]
fn a_failed_derivation_has_its_own_kind() {
    let error = swap_tester::fixture::derivation_failed();
    assert!(matches!(error, TestContextError::DerivationExhausted));
    assert_eq!(error.message(), "Unable to find a viable program address bump seed");
}

#[test]
fn case_errors_carry_their_cause() {
    assert_eq!(
        to_case_error(TestContextError::ValidationError("short".to_string())).message(),
        "Validation failed: short"
    );
    assert_eq!(
        to_case_error_from_context(TestContextError::ExecutionError("e".to_string())).message(),
        "Instruction execution failed: e"
    );
    assert_eq!(
        to_case_error_from_load(ProgramLoadError::ProgramIdNotFound).message(),
        "Program ID not found in Anchor.toml"
    );
    assert_eq!(CaseError::invalid_data("mismatch").message(), "mismatch");
    assert_eq!(CaseError::other("lack").message(), "lack");
    assert_eq!(CaseError::NotFound("gone".to_string()).message(), "gone");
}

#[test]
fn report_lines_name_the_stage() {
    assert_eq!(format_test_success("be1"), "Test 'be1' passed successfully");
    assert_eq!(
        format_test_error("mo2", &TestContextError::ExecutionError("Err(Custom(1))".to_string())),
        "Test 'mo2' failed: Instruction execution failed: Err(Custom(1))"
    );
}

#[test]
fn names_are_matched_whatever_their_case() {
    assert!(name_mentions("TokenVAULT", "vault"));
    assert!(name_mentions("vault", "vault"));
    assert!(!name_mentions("vaul", "vault"));
    assert!(!name_mentions("", "vault"));
    assert!(name_mentions("anything", ""));
    assert!(has_guard_field(&vec![field("amount", "u64"), field("Close_Authority", "Pubkey")]));
    assert!(has_guard_field(&vec![field("OWNER", "Pubkey")]));
    assert!(!has_guard_field(&vec![field("amount", "u64"), field("bump", "u8")]));
    assert!(!has_guard_field(&Vec::new()));
}

#[test]
fn framework_needs_instructions_and_accounts() {
    let mut info = empty_info();
    assert_eq!(other_text(test_anchor_try(&info)), "Anchor framework not detected");
    info.instructions.push(InstructionInfo {
        name: "make_offer".to_string(),
        arguments: vec![ArgumentInfo { name: "id".to_string(), declared_type: "u64".to_string() }],
    });
    assert_eq!(other_text(test_anchor_try(&info)), "Anchor framework not detected");
    assert_eq!(other_text(test_cpi_concept(&info)), "CPI code not found");
    info.accounts.push(AccountInfo { name: "Offer".to_string(), fields: Vec::new() });
    assert!(test_anchor_try(&info).is_ok());
    assert!(test_cpi_concept(&info).is_ok());
}

#[test]
fn error_messages_need_one_message() {
    let mut info = empty_info();
    assert_eq!(other_text(test_error_messages(&info)), "Error messages not found");
    info.errors.push(ErrorInfo { name: "A".to_string(), code: 6000, message: String::new() });
    assert_eq!(other_text(test_error_messages(&info)), "Error messages not found");
    info.errors.push(ErrorInfo { name: "B".to_string(), code: 6001, message: "é".to_string() });
    assert!(test_error_messages(&info).is_ok());
}

#[test]
fn offer_structure_needs_three_fields() {
    let mut info = empty_info();
    assert_eq!(other_text(test_offer_practice(&info)), "Offer structure incomplete");
    info.structs.push(StructInfo {
        name: "MakeOffer".to_string(),
        fields: vec![field("a", "u8"), field("b", "u8")],
    });
    info.structs.push(StructInfo {
        name: "Other".to_string(),
        fields: vec![field("a", "u8"), field("b", "u8"), field("c", "u8")],
    });
    assert_eq!(other_text(test_offer_practice(&info)), "Offer structure incomplete");
    info.structs.push(StructInfo {
        name: "OFFER".to_string(),
        fields: vec![field("a", "u8"), field("b", "u8"), field("c", "u8")],
    });
    assert!(test_offer_practice(&info).is_ok());
}

#[test]
fn vault_is_found_among_structs_or_accounts() {
    let mut info = empty_info();
    assert_eq!(other_text(test_vault_intro(&info)), "Vault code not found");
    info.structs.push(StructInfo { name: "Offer".to_string(), fields: Vec::new() });
    info.accounts.push(AccountInfo { name: "Maker".to_string(), fields: Vec::new() });
    assert_eq!(other_text(test_vault_intro(&info)), "Vault code not found");
    let mut by_account = info.clone();
    by_account.accounts.push(AccountInfo { name: "TokenVault".to_string(), fields: Vec::new() });
    assert!(test_vault_intro(&by_account).is_ok());
    let mut by_struct = info.clone();
    by_struct.structs.push(StructInfo { name: "VAULT_STATE".to_string(), fields: Vec::new() });
    assert!(test_vault_intro(&by_struct).is_ok());
}

#[test]
fn vault_security_needs_an_authority_or_an_owner() {
    let mut info = empty_info();
    assert_eq!(other_text(test_vault_security(&info)), "Vault security controls not found");
    info.structs.push(StructInfo { name: "Offer".to_string(), fields: vec![field("id", "u64")] });
    info.accounts.push(AccountInfo { name: "Vault".to_string(), fields: vec![field("bump", "u8")] });
    assert_eq!(other_text(test_vault_security(&info)), "Vault security controls not found");
    let mut by_account = info.clone();
    by_account.accounts.push(AccountInfo {
        name: "X".to_string(),
        fields: vec![field("n", "u8"), field("mintAuthority", "Pubkey")],
    });
    assert!(test_vault_security(&by_account).is_ok());
    let mut by_struct = info.clone();
    by_struct.structs.push(StructInfo { name: "Y".to_string(), fields: vec![field("Owner", "Pubkey")] });
    assert!(test_vault_security(&by_struct).is_ok());
}
