//! Finding the base address of a module of the game process among the
//! entries of a module snapshot.
use vstd::prelude::*;
use crate::text::{c_string, c_string_text};

verus! {

/// One module of a process snapshot: its name as the raw, NUL-terminated
/// name buffer, and the address it is loaded at.
pub struct ModuleEntry {
    pub name: Vec<u8>,
    pub base_address: usize,
}

/// Why no base address could be given.
#[derive(Clone, Copy, PartialEq, Eq, Debug)]
pub enum LookupError {
    /// No module of the snapshot has the wanted name.
    ModuleNotFound,
}

/// Whether a raw name buffer names the module `wanted`: its text up to the
/// first NUL, decoded leniently, is `wanted`.
pub open spec fn names_module(raw: Seq<u8>, wanted: Seq<char>) -> bool {
    c_string_text(raw) == wanted
}

/// Whether the raw name buffer `raw` names the module `wanted`.
pub fn module_name_matches(raw: &[u8], wanted: &str) -> (matches: bool)
    ensures
        matches == names_module(raw@, wanted@),
{
    let name = c_string(raw);
    let wanted_owned = wanted.to_owned();
    name == wanted_owned
}

/// The base address of the first module in `modules` named `wanted`, or
/// `ModuleNotFound` when none is.
pub fn find_module_base(modules: &Vec<ModuleEntry>, wanted: &str) -> (found: Result<usize, LookupError>)
    ensures
        match found {
            Ok(base) => exists|i: int|
                0 <= i < modules@.len()
                && names_module(#[trigger] modules@[i].name@, wanted@)
                && modules@[i].base_address == base
                && forall|j: int| 0 <= j < i ==> !names_module(#[trigger] modules@[j].name@, wanted@),
            Err(e) => e == LookupError::ModuleNotFound
                && forall|j: int| 0 <= j < modules@.len() ==> !names_module(#[trigger] modules@[j].name@, wanted@),
        },
{
    let n = modules.len();
    let mut k: usize = 0;
    while k < n
        invariant
            n == modules@.len(),
            k <= n,
            forall|j: int| 0 <= j < k ==> !names_module(#[trigger] modules@[j].name@, wanted@),
        decreases n - k,
    {
        if module_name_matches(modules[k].name.as_slice(), wanted) {
            return Ok(modules[k].base_address);
        }
        k = k + 1;
    }
    Err(LookupError::ModuleNotFound)
}

} // verus!
