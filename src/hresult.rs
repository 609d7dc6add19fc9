//! Result codes (`HRESULT`) returned by the graphics API.
use vstd::prelude::*;

verus! {

/// The success code.
pub const S_OK: i32 = 0;

/// The alternate success code, handed back as the failure of a lookup that
/// found nothing.
pub const S_FALSE: i32 = 1;

/// The shader compiler's code for a source file that does not exist.
pub const ERROR_FILE_NOT_FOUND: i32 = 2;

/// The shader compiler's code for a directory that does not exist.
pub const ERROR_PATH_NOT_FOUND: i32 = 3;

/// A code reports success exactly when it is not negative.
pub open spec fn spec_succeeded(hr: i32) -> bool {
    hr >= 0
}

/// Whether a result code reports success (the `SUCCEEDED` test).
pub fn succeeded(hr: i32) -> (r: bool)
    ensures
        r == spec_succeeded(hr),
{
    hr >= 0
}

/// Turns a creation call's result code and the object it produced into a
/// `Result`: the object when the code is `S_OK`, the code itself otherwise.
pub fn hresult_to_result<T>(hr: i32, object: T) -> (r: Result<T, i32>)
    ensures
        hr == S_OK ==> r == Ok::<T, i32>(object),
        hr != S_OK ==> r == Err::<T, i32>(hr),
{
    if hr == S_OK {
        Ok(object)
    } else {
        Err(hr)
    }
}

/// What a shader compilation's result code means to the caller.
#[derive(Clone, Copy, Debug, PartialEq, Eq, Structural)]
pub enum CompileStatus {
    /// The shader compiled.
    Compiled,
    /// The source could not be found; the code is handed on unchanged.
    Missing(i32),
    /// The compiler rejected the source; its messages are in the error blob.
    Failed,
}

/// Sorts a shader compiler result code: `S_OK` compiled, a missing file or
/// path is reported with its own code, every other code is a compile error.
pub fn classify_compile(hr: i32) -> (r: CompileStatus)
    ensures
        hr == S_OK ==> r == CompileStatus::Compiled,
        (hr == ERROR_FILE_NOT_FOUND || hr == ERROR_PATH_NOT_FOUND) ==> r == CompileStatus::Missing(hr),
        (hr != S_OK && hr != ERROR_FILE_NOT_FOUND && hr != ERROR_PATH_NOT_FOUND) ==> r == CompileStatus::Failed,
{
    if hr == ERROR_FILE_NOT_FOUND || hr == ERROR_PATH_NOT_FOUND {
        CompileStatus::Missing(hr)
    } else if hr == S_OK {
        CompileStatus::Compiled
    } else {
        CompileStatus::Failed
    }
}

} // verus!
