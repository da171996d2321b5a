//! Locating the compiled program and its declared identity: the decisions,
//! given what was found on disk.

use crate::address::address_from_text;
use crate::address::base58_address;
use crate::address::Address;
use crate::error::to_case_error_from_load;
use crate::error::verdict;
use crate::error::CaseError;
use crate::error::Failure;
use crate::error::ProgramLoadError;
use crate::manifest::find_program_id;
use crate::manifest::find_program_id_spec;
use vstd::prelude::*;
use vstd::string::StringExecFns;

verus! {

/// What a look at the repository found of the compiled program.
#[derive(Debug)]
pub struct ProgramProbe {
    /// Does the repository directory exist?
    pub repo_exists: bool,
    /// Does `target/deploy/swap.so` exist in it?
    pub deploy_exists: bool,
    /// Does `target/sbf-solana-solana/release/swap.so` exist in it?
    pub sbf_exists: bool,
    /// Does `artifacts/swap.so` exist in it?
    pub artifacts_exists: bool,
    /// The first program file found anywhere under `target`, if any.
    pub found_in_target: Option<String>,
}

/// Where the compiled program lies.
#[derive(Debug)]
pub enum ProgramLocation {
    /// At `target/deploy/swap.so` in the repository.
    Deploy,
    /// At `target/sbf-solana-solana/release/swap.so` in the repository.
    SbfRelease,
    /// At `artifacts/swap.so` in the repository.
    Artifacts,
    /// At this path, found by searching `target`.
    Found(String),
}

/// What a look at the repository found of the manifest.
#[derive(Debug)]
pub enum ManifestProbe {
    /// The repository directory does not exist.
    RepoMissing,
    /// The repository holds no manifest.
    ManifestMissing,
    /// The manifest could not be read; holds the reason.
    Unreadable(String),
    /// The manifest's text.
    Content(String),
}

/// The short name of the program under test.
pub open spec fn program_name() -> Seq<char> {
    "swap"@
}

/// The place that the search order picks, if the probe found the program.
pub open spec fn chosen_location(probe: ProgramProbe) -> Option<ProgramLocation> {
    if probe.deploy_exists {
        Some(ProgramLocation::Deploy)
    } else if probe.sbf_exists {
        Some(ProgramLocation::SbfRelease)
    } else if probe.artifacts_exists {
        Some(ProgramLocation::Artifacts)
    } else {
        match probe.found_in_target {
            Some(path) => Some(ProgramLocation::Found(path)),
            None => None,
        }
    }
}

impl ProgramLocation {
    /// The path of a conventional location, relative to the repository.
    pub fn relative_path(&self) -> (r: Option<&'static str>)
        ensures
            match *self {
                ProgramLocation::Deploy => r matches Some(p) && p@ == "target/deploy/swap.so"@,
                ProgramLocation::SbfRelease => r matches Some(p) && p@
                    == "target/sbf-solana-solana/release/swap.so"@,
                ProgramLocation::Artifacts => r matches Some(p) && p@ == "artifacts/swap.so"@,
                ProgramLocation::Found(_) => r is None,
            },
    {
        match self {
            ProgramLocation::Deploy => Some("target/deploy/swap.so"),
            ProgramLocation::SbfRelease => Some("target/sbf-solana-solana/release/swap.so"),
            ProgramLocation::Artifacts => Some("artifacts/swap.so"),
            ProgramLocation::Found(_) => None,
        }
    }
}

/// Picks the compiled program: the deploy directory first, then the release
/// directory, then the artifacts, then whatever the search of `target`
/// found. A missing repository is reported before anything else.
pub fn load_swap_program(repo_dir: &str, probe: ProgramProbe) -> (r: Result<
    ProgramLocation,
    ProgramLoadError,
>)
    ensures
        match r {
            Ok(location) => probe.repo_exists && chosen_location(probe) == Some(location),
            Err(ProgramLoadError::RepoNotFound(path)) => !probe.repo_exists && path@ == repo_dir@,
            Err(ProgramLoadError::ProgramNotFound) => probe.repo_exists && chosen_location(probe)
                is None,
            Err(_) => false,
        },
{
    if !probe.repo_exists {
        return Err(ProgramLoadError::RepoNotFound(String::from_str(repo_dir)));
    }
    if probe.deploy_exists {
        return Ok(ProgramLocation::Deploy);
    }
    if probe.sbf_exists {
        return Ok(ProgramLocation::SbfRelease);
    }
    if probe.artifacts_exists {
        return Ok(ProgramLocation::Artifacts);
    }
    match probe.found_in_target {
        Some(path) => Ok(ProgramLocation::Found(path)),
        None => Err(ProgramLoadError::ProgramNotFound),
    }
}

/// Is `r` what reading the identity out of a manifest's text must give:
/// the decoded address where the declared text decodes, `ProgramIdNotFound`
/// where nothing is declared, and `InvalidProgramId` with the declared text
/// where it does not decode?
pub open spec fn identity_read(r: Result<Address, ProgramLoadError>, content: Seq<char>) -> bool {
    let declared = find_program_id_spec(content, program_name());
    match r {
        Ok(address) => declared matches Some(text) && base58_address(text) == Some(address@),
        Err(ProgramLoadError::ProgramIdNotFound) => declared is None,
        Err(ProgramLoadError::InvalidProgramId(text)) => declared == Some(text@) && base58_address(
            text@,
        ) is None,
        Err(_) => false,
    }
}

/// Reads the program's identity out of the manifest's text: the value
/// declared for `swap`, decoded from base-58.
pub fn parse_program_id(content: &str) -> (r: Result<Address, ProgramLoadError>)
    ensures
        identity_read(r, content@),
{
    let text = match find_program_id(content, "swap") {
        Some(text) => text,
        None => { return Err(ProgramLoadError::ProgramIdNotFound); },
    };
    match address_from_text(text.as_str()) {
        Some(address) => Ok(address),
        None => Err(ProgramLoadError::InvalidProgramId(text)),
    }
}

/// The program's identity, given what was found of the manifest at
/// `anchor_path` in the repository `repo_dir`.
pub fn load_swap_program_id(repo_dir: &str, anchor_path: &str, manifest: ManifestProbe) -> (r:
    Result<Address, ProgramLoadError>)
    ensures
        match manifest {
            ManifestProbe::RepoMissing => r matches Err(ProgramLoadError::RepoNotFound(path))
                && path@ == repo_dir@,
            ManifestProbe::ManifestMissing => r matches Err(
                ProgramLoadError::AnchorTomlNotFound(path),
            ) && path@ == anchor_path@,
            ManifestProbe::Unreadable(reason) => r matches Err(ProgramLoadError::IoError(text))
                && text@ == reason@,
            ManifestProbe::Content(content) => identity_read(r, content@),
        },
{
    match manifest {
        ManifestProbe::RepoMissing => Err(
            ProgramLoadError::RepoNotFound(String::from_str(repo_dir)),
        ),
        ManifestProbe::ManifestMissing => Err(
            ProgramLoadError::AnchorTomlNotFound(String::from_str(anchor_path)),
        ),
        ManifestProbe::Unreadable(reason) => Err(ProgramLoadError::IoError(reason)),
        ManifestProbe::Content(content) => parse_program_id(content.as_str()),
    }
}

/// Is the compiled program there to be tested?
pub fn check_program_available(repo_dir: &str, probe: ProgramProbe) -> (r: Result<(), CaseError>)
    ensures
        match r {
            Ok(_) => probe.repo_exists && chosen_location(probe) is Some,
            Err(CaseError::Load(ProgramLoadError::RepoNotFound(path))) => !probe.repo_exists
                && path@ == repo_dir@,
            Err(CaseError::Load(ProgramLoadError::ProgramNotFound)) => probe.repo_exists
                && chosen_location(probe) is None,
            Err(_) => false,
        },
{
    match load_swap_program(repo_dir, probe) {
        Ok(_) => Ok(()),
        Err(e) => Err(to_case_error_from_load(e)),
    }
}

/// Environment: the repository must exist and hold the compiled program.
/// `repo_dir` is the configured repository, or the loader's error where
/// none is configured. The smoke run follows where this passes.
pub fn run_env_setup_check(repo_dir: Result<String, ProgramLoadError>, probe: ProgramProbe) -> (r:
    Result<(), CaseError>)
    ensures
        match repo_dir {
            Err(e) => r == Err::<(), CaseError>(CaseError::Load(e)),
            Ok(path) => if !probe.repo_exists {
                verdict(r) == Err::<(), Failure>(
                    Failure::NotFound("Repository directory not found: "@ + path@),
                )
            } else if chosen_location(probe) is None {
                r matches Err(CaseError::Load(ProgramLoadError::ProgramNotFound))
            } else {
                r is Ok
            },
        },
{
    let path = match repo_dir {
        Ok(path) => path,
        Err(e) => { return Err(to_case_error_from_load(e)); },
    };
    if !probe.repo_exists {
        return Err(
            CaseError::NotFound(
                String::from_str("Repository directory not found: ").concat(path.as_str()),
            ),
        );
    }
    check_program_available(path.as_str(), probe)
}

/// The declared identity must not be the all-zero default.
pub fn check_program_id_set(program_id: &Address) -> (r: Result<(), CaseError>)
    ensures
        verdict(r) == (if program_id@ == Seq::new(32, |i: int| 0u8) {
            Err::<(), Failure>(Failure::InvalidData("Program ID is still default"@))
        } else {
            Ok::<(), Failure>(())
        }),
{
    if program_id.is_zero() {
        return Err(CaseError::invalid_data("Program ID is still default"));
    }
    Ok(())
}

/// Framework: the program's identity must be loaded and set. The smoke run
/// follows where this passes.
pub fn run_anchor_try_check(program_id: Result<Address, ProgramLoadError>) -> (r: Result<
    (),
    CaseError,
>)
    ensures
        match program_id {
            Err(e) => r == Err::<(), CaseError>(CaseError::Load(e)),
            Ok(address) => verdict(r) == (if address@ == Seq::new(32, |i: int| 0u8) {
                Err::<(), Failure>(Failure::InvalidData("Program ID is still default"@))
            } else {
                Ok::<(), Failure>(())
            }),
        },
{
    match program_id {
        Ok(address) => check_program_id_set(&address),
        Err(e) => Err(to_case_error_from_load(e)),
    }
}

/// Deployment: the program's identity must be loaded and set. The smoke run
/// follows where this passes.
pub fn run_deployment_checks(program_id: Result<Address, ProgramLoadError>) -> (r: Result<
    (),
    CaseError,
>)
    ensures
        match program_id {
            Err(e) => r == Err::<(), CaseError>(CaseError::Load(e)),
            Ok(address) => verdict(r) == (if address@ == Seq::new(32, |i: int| 0u8) {
                Err::<(), Failure>(Failure::InvalidData("Program ID is still default"@))
            } else {
                Ok::<(), Failure>(())
            }),
        },
{
    run_anchor_try_check(program_id)
}

} // verus!
