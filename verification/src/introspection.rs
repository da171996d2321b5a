//! The description of a program's source, and what the source-level
//! checkpoints look for in it.

use crate::error::verdict;
use crate::error::CaseError;
use crate::error::Failure;
use vstd::prelude::*;
use vstd::string::StrSliceExecFns;

verus! {

/// What introspection found in a program's source.
#[derive(Debug, Clone)]
pub struct ProgramInfo {
    pub program_id: String,
    pub instructions: Vec<InstructionInfo>,
    pub accounts: Vec<AccountInfo>,
    pub errors: Vec<ErrorInfo>,
    pub structs: Vec<StructInfo>,
}

/// A declared instruction.
#[derive(Debug, Clone)]
pub struct InstructionInfo {
    pub name: String,
    pub arguments: Vec<ArgumentInfo>,
}

/// An argument of a declared instruction.
#[derive(Debug, Clone)]
pub struct ArgumentInfo {
    pub name: String,
    pub declared_type: String,
}

/// A declared account layout.
#[derive(Debug, Clone)]
pub struct AccountInfo {
    pub name: String,
    pub fields: Vec<FieldInfo>,
}

/// A field of an account layout or of a data structure.
#[derive(Debug, Clone)]
pub struct FieldInfo {
    pub name: String,
    pub declared_type: String,
}

/// A declared error code.
#[derive(Debug, Clone)]
pub struct ErrorInfo {
    pub name: String,
    pub code: u32,
    pub message: String,
}

/// A declared data structure.
#[derive(Debug, Clone)]
pub struct StructInfo {
    pub name: String,
    pub fields: Vec<FieldInfo>,
}

/// The lower-case form of a text.
pub uninterp spec fn lowercase(text: Seq<char>) -> Seq<char>;

/// Does `word` occur in `text` as a run of characters?
pub open spec fn has_substring(text: Seq<char>, word: Seq<char>) -> bool {
    exists|i: int|
        0 <= i && i + word.len() <= text.len() && #[trigger] text.subrange(
            i,
            i + word.len() as int,
        ) == word
}

/// Does `name` hold `word`, whatever the case of the name's letters?
pub open spec fn mentions(name: Seq<char>, word: Seq<char>) -> bool {
    has_substring(lowercase(name), word)
}

/// Does a field's name speak of an authority or an owner?
pub open spec fn guards(field: FieldInfo) -> bool {
    mentions(field.name@, "authority"@) || mentions(field.name@, "owner"@)
}

/// Does any of the fields speak of an authority or an owner?
pub open spec fn any_guard(fields: Seq<FieldInfo>) -> bool {
    exists|i: int| 0 <= i < fields.len() && guards(#[trigger] fields[i])
}

/// Is this a data structure of an offer, with at least three fields?
pub open spec fn is_offer_struct(s: StructInfo) -> bool {
    mentions(s.name@, "offer"@) && s.fields@.len() >= 3
}

/// Calls `str::to_lowercase`. Trusted: the result depends on the text
/// alone.
#[verifier::external_body]
pub(crate) fn to_lowercase(text: &str) -> (r: String)
    ensures
        r@ == lowercase(text@),
{
    text.to_lowercase()
}

/// Calls `str::contains` with a text pattern. Trusted: it answers whether the
/// pattern occurs in the text as a run of characters.
#[verifier::external_body]
pub(crate) fn str_contains(text: &str, word: &str) -> (r: bool)
    ensures
        r == has_substring(text@, word@),
{
    text.contains(word)
}

/// Does `name` hold `word`, whatever the case of the name's letters?
pub fn name_mentions(name: &str, word: &str) -> (r: bool)
    ensures
        r == mentions(name@, word@),
{
    let lower = to_lowercase(name);
    str_contains(lower.as_str(), word)
}

/// Does any of the fields speak of an authority or an owner?
pub fn has_guard_field(fields: &Vec<FieldInfo>) -> (r: bool)
    ensures
        r == any_guard(fields@),
{
    let mut i: usize = 0;
    while i < fields.len()
        invariant
            i <= fields@.len(),
            forall|j: int| 0 <= j < i ==> !guards(#[trigger] fields@[j]),
        decreases fields@.len() - i,
    {
        if name_mentions(fields[i].name.as_str(), "authority") || name_mentions(
            fields[i].name.as_str(),
            "owner",
        ) {
            assert(guards(fields@[i as int]));
            return true;
        }
        i += 1;
    }
    false
}

/// The result of a source-level checkpoint: success where `found`, and
/// otherwise the failure with the given text.
pub fn found_or(found: bool, missing: &str) -> (r: Result<(), CaseError>)
    ensures
        verdict(r) == (if found {
            Ok::<(), Failure>(())
        } else {
            Err::<(), Failure>(Failure::Other(missing@))
        }),
{
    if found {
        Ok(())
    } else {
        Err(CaseError::other(missing))
    }
}

/// Framework: the program declares at least one instruction and one
/// account layout.
pub fn test_anchor_try(info: &ProgramInfo) -> (r: Result<(), CaseError>)
    ensures
        verdict(r) == (if info.instructions@.len() > 0 && info.accounts@.len() > 0 {
            Ok::<(), Failure>(())
        } else {
            Err::<(), Failure>(Failure::Other("Anchor framework not detected"@))
        }),
{
    found_or(
        !info.instructions.is_empty() && !info.accounts.is_empty(),
        "Anchor framework not detected",
    )
}

/// Cross-program calls: the program declares at least one account layout.
pub fn test_cpi_concept(info: &ProgramInfo) -> (r: Result<(), CaseError>)
    ensures
        verdict(r) == (if info.accounts@.len() > 0 {
            Ok::<(), Failure>(())
        } else {
            Err::<(), Failure>(Failure::Other("CPI code not found"@))
        }),
{
    found_or(!info.accounts.is_empty(), "CPI code not found")
}

/// Error messages: at least one declared error has a message.
pub fn test_error_messages(info: &ProgramInfo) -> (r: Result<(), CaseError>)
    ensures
        verdict(r) == (if exists|i: int|
            0 <= i < info.errors@.len() && (#[trigger] info.errors@[i]).message@.len() > 0 {
            Ok::<(), Failure>(())
        } else {
            Err::<(), Failure>(Failure::Other("Error messages not found"@))
        }),
{
    let mut found = false;
    let mut i: usize = 0;
    while i < info.errors.len() && !found
        invariant
            i <= info.errors@.len(),
            found == exists|j: int|
                0 <= j < i && (#[trigger] info.errors@[j]).message@.len() > 0,
        decreases info.errors@.len() - i,
    {
        if info.errors[i].message.as_str().unicode_len() > 0 {
            found = true;
        }
        i += 1;
    }
    found_or(found, "Error messages not found")
}

/// Offer structure: a data structure named after an offer has at least
/// three fields.
pub fn test_offer_practice(info: &ProgramInfo) -> (r: Result<(), CaseError>)
    ensures
        verdict(r) == (if exists|i: int|
            0 <= i < info.structs@.len() && is_offer_struct(#[trigger] info.structs@[i]) {
            Ok::<(), Failure>(())
        } else {
            Err::<(), Failure>(Failure::Other("Offer structure incomplete"@))
        }),
{
    let mut found = false;
    let mut i: usize = 0;
    while i < info.structs.len() && !found
        invariant
            i <= info.structs@.len(),
            found == exists|j: int| 0 <= j < i && is_offer_struct(#[trigger] info.structs@[j]),
        decreases info.structs@.len() - i,
    {
        if name_mentions(info.structs[i].name.as_str(), "offer") && info.structs[i].fields.len()
            >= 3 {
            found = true;
        }
        i += 1;
    }
    found_or(found, "Offer structure incomplete")
}

/// Is a data structure or an account layout named after a vault?
pub open spec fn names_vault(info: ProgramInfo) -> bool {
    (exists|i: int|
        0 <= i < info.structs@.len() && mentions((#[trigger] info.structs@[i]).name@, "vault"@))
        || (exists|i: int|
        0 <= i < info.accounts@.len() && mentions((#[trigger] info.accounts@[i]).name@, "vault"@))
}

/// Does a field of a data structure or of an account layout speak of an
/// authority or an owner?
pub open spec fn guards_vault(info: ProgramInfo) -> bool {
    (exists|i: int|
        0 <= i < info.structs@.len() && any_guard((#[trigger] info.structs@[i]).fields@))
        || (exists|i: int|
        0 <= i < info.accounts@.len() && any_guard((#[trigger] info.accounts@[i]).fields@))
}

/// Vault: a data structure or an account layout is named after a vault.
pub fn test_vault_intro(info: &ProgramInfo) -> (r: Result<(), CaseError>)
    ensures
        verdict(r) == (if names_vault(*info) {
            Ok::<(), Failure>(())
        } else {
            Err::<(), Failure>(Failure::Other("Vault code not found"@))
        }),
{
    let mut found = false;
    let mut i: usize = 0;
    while i < info.structs.len() && !found
        invariant
            i <= info.structs@.len(),
            found == exists|j: int|
                0 <= j < i && mentions((#[trigger] info.structs@[j]).name@, "vault"@),
        decreases info.structs@.len() - i,
    {
        if name_mentions(info.structs[i].name.as_str(), "vault") {
            found = true;
        }
        i += 1;
    }
    if found {
        return found_or(true, "Vault code not found");
    }
    let mut k: usize = 0;
    while k < info.accounts.len() && !found
        invariant
            k <= info.accounts@.len(),
            found == exists|j: int|
                0 <= j < k && mentions((#[trigger] info.accounts@[j]).name@, "vault"@),
        decreases info.accounts@.len() - k,
    {
        if name_mentions(info.accounts[k].name.as_str(), "vault") {
            found = true;
        }
        k += 1;
    }
    found_or(found, "Vault code not found")
}

/// Vault security: some field of a data structure or of an account layout
/// speaks of an authority or an owner.
pub fn test_vault_security(info: &ProgramInfo) -> (r: Result<(), CaseError>)
    ensures
        verdict(r) == (if guards_vault(*info) {
            Ok::<(), Failure>(())
        } else {
            Err::<(), Failure>(Failure::Other("Vault security controls not found"@))
        }),
{
    let mut found = false;
    let mut i: usize = 0;
    while i < info.structs.len() && !found
        invariant
            i <= info.structs@.len(),
            found == exists|j: int|
                0 <= j < i && any_guard((#[trigger] info.structs@[j]).fields@),
        decreases info.structs@.len() - i,
    {
        if has_guard_field(&info.structs[i].fields) {
            found = true;
        }
        i += 1;
    }
    if found {
        return found_or(true, "Vault security controls not found");
    }
    let mut k: usize = 0;
    while k < info.accounts.len() && !found
        invariant
            k <= info.accounts@.len(),
            found == exists|j: int|
                0 <= j < k && any_guard((#[trigger] info.accounts@[j]).fields@),
        decreases info.accounts@.len() - k,
    {
        if has_guard_field(&info.accounts[k].fields) {
            found = true;
        }
        k += 1;
    }
    found_or(found, "Vault security controls not found")
}

} // verus!
