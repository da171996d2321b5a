//! Errors reported by the ledger, the codec and the scenario.

use vstd::prelude::*;
use vstd::string::StringExecFns;

verus! {

/// Why an operation on the test context failed.
#[derive(Debug, Clone)]
pub enum TestContextError {
    /// The execution oracle rejected the instruction; holds its diagnostic.
    ExecutionError(String),
    /// Account data was too short, or a decoded field was malformed.
    ValidationError(String),
    /// No account is stored under the address, given in text.
    AccountNotFound(String),
    /// The program under test could not be located or identified.
    ProgramLoad(ProgramLoadError),
    /// No address could be derived for the scenario: the seeds were
    /// inadmissible, or every bump seed gave an address on the curve.
    DerivationExhausted,
}

/// The text of a failed derivation.
pub open spec fn no_bump_seed() -> Seq<char> {
    "Unable to find a viable program address bump seed"@
}

impl TestContextError {
    /// The full message: the sentence of the error's kind, then what the
    /// error carries. A loader error speaks for itself.
    pub open spec fn message_spec(self) -> Seq<char> {
        match self {
            TestContextError::ExecutionError(m) => "Instruction execution failed: "@ + m@,
            TestContextError::ValidationError(m) => "Validation failed: "@ + m@,
            TestContextError::AccountNotFound(m) => "Account not found: "@ + m@,
            TestContextError::ProgramLoad(e) => e.message_spec(),
            TestContextError::DerivationExhausted => no_bump_seed(),
        }
    }

    /// Is this an execution error with the given diagnostic?
    pub open spec fn is_execution(self, diagnostic: Seq<char>) -> bool {
        self matches TestContextError::ExecutionError(m) && m@ == diagnostic
    }

    /// Is this a validation error with the given text?
    pub open spec fn is_validation(self, text: Seq<char>) -> bool {
        self matches TestContextError::ValidationError(m) && m@ == text
    }

    /// Is this a missing-account error for the given address text?
    pub open spec fn is_not_found(self, text: Seq<char>) -> bool {
        self matches TestContextError::AccountNotFound(m) && m@ == text
    }

    /// A validation error with the given text.
    pub fn validation(text: &str) -> (r: TestContextError)
        ensures
            r.is_validation(text@),
    {
        TestContextError::ValidationError(String::from_str(text))
    }

    /// Renders the error for a report.
    pub fn message(&self) -> (r: String)
        ensures
            r@ == self.message_spec(),
    {
        match self {
            TestContextError::ExecutionError(m) => String::from_str(
                "Instruction execution failed: ",
            ).concat(m.as_str()),
            TestContextError::ValidationError(m) => String::from_str("Validation failed: ").concat(
                m.as_str(),
            ),
            TestContextError::AccountNotFound(m) => String::from_str("Account not found: ").concat(
                m.as_str(),
            ),
            TestContextError::ProgramLoad(e) => e.message(),
            TestContextError::DerivationExhausted => String::from_str(
                "Unable to find a viable program address bump seed",
            ),
        }
    }
}

/// Why the program under test could not be located or identified.
#[derive(Debug, Clone)]
pub enum ProgramLoadError {
    /// The repository directory, given by its path, does not exist.
    RepoNotFound(String),
    /// The manifest file, given by its path, does not exist.
    AnchorTomlNotFound(String),
    /// The manifest declares no identity for the program.
    ProgramIdNotFound,
    /// The declared identity, given here, is no address.
    InvalidProgramId(String),
    /// The program file, given by its path, lies in no directory.
    ProgramDirNotFound(String),
    /// No compiled program was found in any expected place.
    ProgramNotFound,
    /// Reading failed; holds the reason.
    IoError(String),
    /// The program file could not be loaded; holds the reason.
    ElfLoadError(String),
}

impl ProgramLoadError {
    /// The full message of the error.
    pub open spec fn message_spec(self) -> Seq<char> {
        match self {
            ProgramLoadError::RepoNotFound(path) => "Repository directory not found: "@ + path@,
            ProgramLoadError::AnchorTomlNotFound(path) => "Anchor.toml not found: "@ + path@,
            ProgramLoadError::ProgramIdNotFound => "Program ID not found in Anchor.toml"@,
            ProgramLoadError::InvalidProgramId(value) => "Invalid program ID in Anchor.toml: "@
                + value@,
            ProgramLoadError::ProgramDirNotFound(path) => "Program directory not found: "@ + path@,
            ProgramLoadError::ProgramNotFound =>
                "Program SO file not found in any of the expected locations"@,
            ProgramLoadError::IoError(reason) => "Failed to read program file: "@ + reason@,
            ProgramLoadError::ElfLoadError(reason) => "Failed to load program ELF: "@ + reason@,
        }
    }

    /// Renders the error for a report.
    pub fn message(&self) -> (r: String)
        ensures
            r@ == self.message_spec(),
    {
        match self {
            ProgramLoadError::RepoNotFound(path) => String::from_str(
                "Repository directory not found: ",
            ).concat(path.as_str()),
            ProgramLoadError::AnchorTomlNotFound(path) => String::from_str(
                "Anchor.toml not found: ",
            ).concat(path.as_str()),
            ProgramLoadError::ProgramIdNotFound => String::from_str(
                "Program ID not found in Anchor.toml",
            ),
            ProgramLoadError::InvalidProgramId(value) => String::from_str(
                "Invalid program ID in Anchor.toml: ",
            ).concat(value.as_str()),
            ProgramLoadError::ProgramDirNotFound(path) => String::from_str(
                "Program directory not found: ",
            ).concat(path.as_str()),
            ProgramLoadError::ProgramNotFound => String::from_str(
                "Program SO file not found in any of the expected locations",
            ),
            ProgramLoadError::IoError(reason) => String::from_str(
                "Failed to read program file: ",
            ).concat(reason.as_str()),
            ProgramLoadError::ElfLoadError(reason) => String::from_str(
                "Failed to load program ELF: ",
            ).concat(reason.as_str()),
        }
    }
}

impl TestContextError {
    /// A failure to load the program, seen from the test context: it stays
    /// the loader's error, apart from every execution error.
    pub fn from_load(error: ProgramLoadError) -> (r: TestContextError)
        ensures
            r == TestContextError::ProgramLoad(error),
    {
        TestContextError::ProgramLoad(error)
    }
}

/// Why a checkpoint failed.
#[derive(Debug, Clone)]
pub enum CaseError {
    /// The test context reported an error.
    Context(TestContextError),
    /// The program could not be located or identified.
    Load(ProgramLoadError),
    /// The program ran, and left the ledger in a state that the checkpoint
    /// does not accept; holds the mismatch.
    InvalidData(String),
    /// Something that the checkpoint needs is missing; holds what.
    NotFound(String),
    /// The program's description lacks what the checkpoint looks for.
    Other(String),
}

/// The mathematical value of a checkpoint failure.
pub enum Failure {
    Execution(Seq<char>),
    Validation(Seq<char>),
    AccountNotFound(Seq<char>),
    Derivation,
    Load(Seq<char>),
    InvalidData(Seq<char>),
    NotFound(Seq<char>),
    Other(Seq<char>),
}

impl View for TestContextError {
    type V = Failure;

    open spec fn view(&self) -> Failure {
        match *self {
            TestContextError::ExecutionError(m) => Failure::Execution(m@),
            TestContextError::ValidationError(m) => Failure::Validation(m@),
            TestContextError::AccountNotFound(m) => Failure::AccountNotFound(m@),
            TestContextError::ProgramLoad(e) => Failure::Load(e.message_spec()),
            TestContextError::DerivationExhausted => Failure::Derivation,
        }
    }
}

impl View for CaseError {
    type V = Failure;

    open spec fn view(&self) -> Failure {
        match *self {
            CaseError::Context(e) => e@,
            CaseError::Load(e) => Failure::Load(e.message_spec()),
            CaseError::InvalidData(m) => Failure::InvalidData(m@),
            CaseError::NotFound(m) => Failure::NotFound(m@),
            CaseError::Other(m) => Failure::Other(m@),
        }
    }
}

/// The value of a checkpoint's result.
pub open spec fn verdict(r: Result<(), CaseError>) -> Result<(), Failure> {
    match r {
        Ok(_) => Ok(()),
        Err(e) => Err(e@),
    }
}

impl CaseError {
    /// The message of the failure.
    pub open spec fn message_spec(self) -> Seq<char> {
        match self {
            CaseError::Context(e) => e.message_spec(),
            CaseError::Load(e) => e.message_spec(),
            CaseError::InvalidData(m) => m@,
            CaseError::NotFound(m) => m@,
            CaseError::Other(m) => m@,
        }
    }

    /// Renders the failure for a report.
    pub fn message(&self) -> (r: String)
        ensures
            r@ == self.message_spec(),
    {
        match self {
            CaseError::Context(e) => e.message(),
            CaseError::Load(e) => e.message(),
            CaseError::InvalidData(m) => m.clone(),
            CaseError::NotFound(m) => m.clone(),
            CaseError::Other(m) => m.clone(),
        }
    }

    /// A mismatch between the ledger and what the checkpoint expects.
    pub fn invalid_data(text: &str) -> (r: CaseError)
        ensures
            r@ == Failure::InvalidData(text@),
    {
        CaseError::InvalidData(String::from_str(text))
    }

    /// A lack in the program's description.
    pub fn other(text: &str) -> (r: CaseError)
        ensures
            r@ == Failure::Other(text@),
    {
        CaseError::Other(String::from_str(text))
    }
}

/// A context error as a checkpoint failure.
pub fn to_case_error(error: TestContextError) -> (r: CaseError)
    ensures
        r == CaseError::Context(error),
        r@ == error@,
{
    CaseError::Context(error)
}

/// A loader error as a checkpoint failure.
pub fn to_case_error_from_load(error: ProgramLoadError) -> (r: CaseError)
    ensures
        r == CaseError::Load(error),
        r@ == Failure::Load(error.message_spec()),
{
    CaseError::Load(error)
}

/// A context error as a checkpoint failure, for use where results are
/// mapped.
pub fn to_case_error_from_context(error: TestContextError) -> (r: CaseError)
    ensures
        r == CaseError::Context(error),
        r@ == error@,
{
    CaseError::Context(error)
}

/// The line reported when a stage fails.
pub fn format_test_error(stage_name: &str, error: &TestContextError) -> (r: String)
    ensures
        r@ == "Test '"@ + stage_name@ + "' failed: "@ + error.message_spec(),
{
    let message = error.message();
    String::from_str("Test '").concat(stage_name).concat("' failed: ").concat(message.as_str())
}

/// The line reported when a stage passes.
pub fn format_test_success(stage_name: &str) -> (r: String)
    ensures
        r@ == "Test '"@ + stage_name@ + "' passed successfully"@,
{
    String::from_str("Test '").concat(stage_name).concat("' passed successfully")
}

} // verus!
