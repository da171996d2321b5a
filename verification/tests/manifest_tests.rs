use swap_tester::address::Address;
use swap_tester::error::CaseError;
use swap_tester::error::ProgramLoadError;
use swap_tester::manifest::chars_of;
use swap_tester::manifest::find_program_id;
use swap_tester::program_loader::check_program_available;
use swap_tester::program_loader::check_program_id_set;
use swap_tester::program_loader::load_swap_program;
use swap_tester::program_loader::load_swap_program_id;
use swap_tester::program_loader::parse_program_id;
use swap_tester::program_loader::run_anchor_try_check;
use swap_tester::program_loader::run_deployment_checks;
use swap_tester::program_loader::run_env_setup_check;
use swap_tester::program_loader::ManifestProbe;
use swap_tester::program_loader::ProgramLocation;
use swap_tester::program_loader::ProgramProbe;

fn probe(repo: bool, deploy: bool, sbf: bool, artifacts: bool, found: Option<&str>) -> ProgramProbe {
    ProgramProbe {
        repo_exists: repo,
        deploy_exists: deploy,
        sbf_exists: sbf,
        artifacts_exists: artifacts,
        found_in_target: found.map(|s| s.to_string()),
    }
}

#[test]
fn chars_of_a_text() {
    assert_eq!(chars_of("aé\u{3000}b"), vec!['a', 'é', '\u{3000}', 'b']);
    assert!(chars_of("").is_empty());
}

#[test]
fn identity_is_found_in_a_programs_subsection() {
    let toml = "[features]\nseeds = false\n\n[programs.localnet]\nswap = \"Fg6PaFpoGXkYsidMpWTK6W2BeZ7FEfcYkg476zPFsLnS\"\n\n[provider]\ncluster = \"localnet\"\n";
    assert_eq!(
        find_program_id(toml, "swap"),
        Some("Fg6PaFpoGXkYsidMpWTK6W2BeZ7FEfcYkg476zPFsLnS".to_string())
    );
}

#[test]
fn identity_is_found_in_the_programs_section_itself() {
    assert_eq!(find_program_id("[programs]\nswap=abc", "swap"), Some("abc".to_string()));
    assert_eq!(find_program_id("  [programs]  \r\n  swap  =  \"abc\"  \r\n", "swap"), Some("abc".to_string()));
}

#[test]
fn entries_outside_the_programs_section_do_not_count() {
    assert_eq!(find_program_id("swap = \"abc\"\n", "swap"), None);
    assert_eq!(find_program_id("[provider]\nswap = \"abc\"\n", "swap"), None);
    assert_eq!(find_program_id("[programsx]\nswap = \"abc\"\n", "swap"), None);
    assert_eq!(find_program_id("[program]\nswap = \"abc\"\n", "swap"), None);
    assert_eq!(find_program_id("[programs.localnet]\n[other]\nswap = \"abc\"\n", "swap"), None);
    assert_eq!(find_program_id("", "swap"), None);
}

#[test]
fn the_key_must_match_exactly() {
    assert_eq!(find_program_id("[programs.a]\nswapper = \"abc\"\n", "swap"), None);
    assert_eq!(find_program_id("[programs.a]\nSwap = \"abc\"\n", "swap"), None);
    assert_eq!(find_program_id("[programs.a]\nother = \"x\"\nswap = \"abc\"\n", "swap"), Some("abc".to_string()));
    assert_eq!(find_program_id("[programs.a]\nswap\n", "swap"), None);
}

#[test]
fn comments_and_empty_values_are_passed_over() {
    assert_eq!(find_program_id("[programs.a]\n# swap = \"no\"\n\nswap = \"yes\"\n", "swap"), Some("yes".to_string()));
    assert_eq!(find_program_id("[programs.a]\nswap = \"\"\n[programs.b]\nswap = \"later\"\n", "swap"), Some("later".to_string()));
    assert_eq!(find_program_id("[programs.a]\nswap = \n", "swap"), None);
}

#[test]
fn the_value_is_what_follows_the_first_equals_sign() {
    assert_eq!(find_program_id("[programs.a]\nswap = a=b\n", "swap"), Some("a=b".to_string()));
    assert_eq!(find_program_id("[programs.a]\nswap = \"\"a\"b\"\"\n", "swap"), Some("a\"b".to_string()));
    assert_eq!(find_program_id("[programs.a]\nswap = \" a \"\n", "swap"), Some(" a ".to_string()));
    assert_eq!(find_program_id("[programs.a]\n\u{a0}swap\u{2003}=\u{3000}é\u{85}", "swap"), Some("é".to_string()));
}

#[test]
fn the_program_is_taken_from_the_first_place_that_has_it() {
    assert!(matches!(load_swap_program("/r", probe(true, true, true, true, Some("x.so"))), Ok(ProgramLocation::Deploy)));
    assert!(matches!(load_swap_program("/r", probe(true, false, true, true, Some("x.so"))), Ok(ProgramLocation::SbfRelease)));
    assert!(matches!(load_swap_program("/r", probe(true, false, false, true, Some("x.so"))), Ok(ProgramLocation::Artifacts)));
    match load_swap_program("/r", probe(true, false, false, false, Some("/r/target/x.so"))) {
        Ok(ProgramLocation::Found(path)) => assert_eq!(path, "/r/target/x.so"),
        other => panic!("unexpected {:?}", other),
    }
    assert!(matches!(load_swap_program("/r", probe(true, false, false, false, None)), Err(ProgramLoadError::ProgramNotFound)));
    match load_swap_program("/r", probe(false, true, true, true, Some("x.so"))) {
        Err(ProgramLoadError::RepoNotFound(path)) => assert_eq!(path, "/r"),
        other => panic!("unexpected {:?}", other),
    }
}

#[test]
fn conventional_locations_have_their_paths() {
    assert_eq!(ProgramLocation::Deploy.relative_path(), Some("target/deploy/swap.so"));
    assert_eq!(ProgramLocation::SbfRelease.relative_path(), Some("target/sbf-solana-solana/release/swap.so"));
    assert_eq!(ProgramLocation::Artifacts.relative_path(), Some("artifacts/swap.so"));
    assert_eq!(ProgramLocation::Found("x".to_string()).relative_path(), None);
}

#[test]
fn program_availability_follows_the_search() {
    assert!(check_program_available("/r", probe(true, false, false, true, None)).is_ok());
    assert!(matches!(
        check_program_available("/r", probe(true, false, false, false, None)),
        Err(CaseError::Load(ProgramLoadError::ProgramNotFound))
    ));
    assert!(matches!(
        check_program_available("/r", probe(false, true, false, false, None)),
        Err(CaseError::Load(ProgramLoadError::RepoNotFound(_)))
    ));
}

#[test]
fn identity_is_decoded_from_base_58() {
    let toml = "[programs.localnet]\nswap = \"TokenkegQfeZyiNwAJbNbGKPFXCWuBvf9Ss623VQ5DA\"\n";
    let address = parse_program_id(toml).unwrap();
    assert_eq!(address.bytes, swap_tester::token::token_program_id().bytes);
    assert!(matches!(parse_program_id("[programs.localnet]\n"), Err(ProgramLoadError::ProgramIdNotFound)));
    match parse_program_id("[programs.localnet]\nswap = \"not-base58!\"\n") {
        Err(ProgramLoadError::InvalidProgramId(text)) => assert_eq!(text, "not-base58!"),
        other => panic!("unexpected {:?}", other),
    }
    match parse_program_id("[programs.localnet]\nswap = \"abc\"\n") {
        Err(ProgramLoadError::InvalidProgramId(text)) => assert_eq!(text, "abc"),
        other => panic!("unexpected {:?}", other),
    }
}

#[test]
fn identity_loading_reports_what_is_missing() {
    match load_swap_program_id("/r", "/r/Anchor.toml", ManifestProbe::RepoMissing) {
        Err(ProgramLoadError::RepoNotFound(path)) => assert_eq!(path, "/r"),
        other => panic!("unexpected {:?}", other),
    }
    match load_swap_program_id("/r", "/r/Anchor.toml", ManifestProbe::ManifestMissing) {
        Err(ProgramLoadError::AnchorTomlNotFound(path)) => assert_eq!(path, "/r/Anchor.toml"),
        other => panic!("unexpected {:?}", other),
    }
    match load_swap_program_id("/r", "/r/Anchor.toml", ManifestProbe::Unreadable("denied".to_string())) {
        Err(ProgramLoadError::IoError(reason)) => assert_eq!(reason, "denied"),
        other => panic!("unexpected {:?}", other),
    }
    let content = "[programs.localnet]\nswap = \"11111111111111111111111111111111\"\n".to_string();
    let address = load_swap_program_id("/r", "/r/Anchor.toml", ManifestProbe::Content(content)).unwrap();
    assert!(address.is_zero());
}

#[test]
fn environment_check_reports_in_order() {
    match run_env_setup_check(Err(ProgramLoadError::RepoNotFound("Not set".to_string())), probe(true, true, false, false, None)) {
        Err(CaseError::Load(ProgramLoadError::RepoNotFound(path))) => assert_eq!(path, "Not set"),
        other => panic!("unexpected {:?}", other),
    }
    match run_env_setup_check(Ok("/r".to_string()), probe(false, true, false, false, None)) {
        Err(CaseError::NotFound(text)) => assert_eq!(text, "Repository directory not found: /r"),
        other => panic!("unexpected {:?}", other),
    }
    assert!(matches!(
        run_env_setup_check(Ok("/r".to_string()), probe(true, false, false, false, None)),
        Err(CaseError::Load(ProgramLoadError::ProgramNotFound))
    ));
    assert!(run_env_setup_check(Ok("/r".to_string()), probe(true, false, true, false, None)).is_ok());
}

#[test]
fn a_default_identity_is_refused() {
    match check_program_id_set(&Address::zero()) {
        Err(CaseError::InvalidData(text)) => assert_eq!(text, "Program ID is still default"),
        other => panic!("unexpected {:?}", other),
    }
    assert!(check_program_id_set(&Address::new_from_array([1; 32])).is_ok());
    assert!(matches!(run_anchor_try_check(Ok(Address::zero())), Err(CaseError::InvalidData(_))));
    assert!(run_anchor_try_check(Ok(Address::new_from_array([1; 32]))).is_ok());
    assert!(matches!(
        run_deployment_checks(Err(ProgramLoadError::ProgramIdNotFound)),
        Err(CaseError::Load(ProgramLoadError::ProgramIdNotFound))
    ));
    assert!(run_deployment_checks(Ok(Address::new_from_array([2; 32]))).is_ok());
}
