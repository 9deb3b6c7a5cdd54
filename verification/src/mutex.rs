//! What the return code of a platform mutex operation means.

use vstd::prelude::*;
use crate::error_handling::{ErrorType, PartialError, PartialErrorModel};
use crate::error_handling::result_view;

verus! {

/// Whether `code` is a value that `nix::libc` gives `EDEADLK` on a Linux
/// target: 35 on most, 45 on MIPS, 78 on SPARC.
pub open spec fn is_linux_deadlock_errno(code: i32) -> bool {
    code == 35 || code == 45 || code == 78
}

/// The error number `EDEADLK` of the target, as `nix::libc` defines it for
/// Linux: 35, or 45 on MIPS, or 78 on SPARC.
#[verifier::external_body]
fn deadlock_errno() -> (r: i32)
    ensures
        is_linux_deadlock_errno(r),
{
    nix::libc::EDEADLK
}

/// The error number `EPERM`, as `nix::libc` defines it for every Linux target.
#[verifier::external_body]
fn not_owner_errno() -> (r: i32)
    ensures
        r == 1,
{
    nix::libc::EPERM
}

/// The error number `EBUSY`, as `nix::libc` defines it for every Linux target.
#[verifier::external_body]
fn busy_errno() -> (r: i32)
    ensures
        r == 16,
{
    nix::libc::EBUSY
}

/// What a return code `rc` of a mutex operation means: zero is success, the
/// code `expected_code` is the error `expected`, and any other code is a
/// `MutexError` whose details are the system's description `os_error`.
pub open spec fn spec_mutex_outcome(
    rc: i32,
    expected_code: i32,
    expected: ErrorType,
    os_error: Seq<char>,
) -> Result<(), PartialErrorModel> {
    if rc == 0 {
        Ok(())
    } else if rc == expected_code {
        Err(PartialErrorModel { error_type: expected, details: None })
    } else {
        Err(PartialErrorModel { error_type: ErrorType::MutexError, details: Some(os_error) })
    }
}

/// Decides what the return code `rc` of a mutex operation means, where
/// `expected_code` is the one failure that the operation names itself.
pub fn classify_mutex_code(rc: i32, expected_code: i32, expected: ErrorType, os_error: String) -> (r:
    Result<(), PartialError>)
    ensures
        result_view(r) == spec_mutex_outcome(rc, expected_code, expected, os_error@),
{
    if rc == 0 {
        Ok(())
    } else if rc == expected_code {
        Err(PartialError::new(expected))
    } else {
        Err(PartialError::with_details(ErrorType::MutexError, os_error))
    }
}

/// What `pthread_mutex_lock` returning `rc` means: zero is success, the
/// target's `EDEADLK` (one of 35, 45, 78, by target) is `MutexNestedLock`,
/// and every other code is a `MutexError` with the system's description.
pub fn lock_outcome(rc: i32, os_error: String) -> (r: Result<(), PartialError>)
    ensures
        exists|code: i32|
            is_linux_deadlock_errno(code) && result_view(r) == #[trigger] spec_mutex_outcome(
                rc,
                code,
                ErrorType::MutexNestedLock,
                os_error@,
            ),
        rc != 0 && !is_linux_deadlock_errno(rc) ==> result_view(r) == Err::<(), PartialErrorModel>(
            PartialErrorModel { error_type: ErrorType::MutexError, details: Some(os_error@) },
        ),
{
    let code = deadlock_errno();
    let r = classify_mutex_code(rc, code, ErrorType::MutexNestedLock, os_error);
    assert(result_view(r) == spec_mutex_outcome(rc, code, ErrorType::MutexNestedLock, os_error@));
    r
}

/// What `pthread_mutex_unlock` returning `rc` means: zero is success,
/// `EPERM` (1) is `MutexUnauthorizedUnlock`, and every other code is a
/// `MutexError` with the system's description.
pub fn unlock_outcome(rc: i32, os_error: String) -> (r: Result<(), PartialError>)
    ensures
        result_view(r) == spec_mutex_outcome(rc, 1, ErrorType::MutexUnauthorizedUnlock, os_error@),
{
    let code = not_owner_errno();
    classify_mutex_code(rc, code, ErrorType::MutexUnauthorizedUnlock, os_error)
}

/// What `pthread_mutex_trylock` returning `rc` means: zero is success,
/// `EBUSY` (16, the mutex is held elsewhere) is `MutexTrylockFailed`, and
/// every other code is a `MutexError` with the system's description.
pub fn try_lock_outcome(rc: i32, os_error: String) -> (r: Result<(), PartialError>)
    ensures
        result_view(r) == spec_mutex_outcome(rc, 16, ErrorType::MutexTrylockFailed, os_error@),
{
    let code = busy_errno();
    classify_mutex_code(rc, code, ErrorType::MutexTrylockFailed, os_error)
}

/// A mutex operation succeeds exactly when the platform returns zero, and a
/// code other than zero and the operation's own code is a `MutexError`
/// carrying the system's description.
pub proof fn lemma_mutex_success_iff_zero(
    rc: i32,
    expected_code: i32,
    expected: ErrorType,
    os_error: Seq<char>,
)
    requires
        expected_code != 0,
    ensures
        spec_mutex_outcome(rc, expected_code, expected, os_error) is Ok <==> rc == 0,
        rc != 0 && rc != expected_code ==> spec_mutex_outcome(rc, expected_code, expected, os_error)
            == Err::<(), PartialErrorModel>(
            PartialErrorModel { error_type: ErrorType::MutexError, details: Some(os_error) },
        ),
{
}

/// A `pthread_mutex_trylock` that reports the mutex held by someone else
/// (`EBUSY`) gives `MutexTrylockFailed` without details.
pub proof fn lemma_busy_try_lock_fails(os_error: Seq<char>)
    ensures
        spec_mutex_outcome(16, 16, ErrorType::MutexTrylockFailed, os_error) == Err::<
            (),
            PartialErrorModel,
        >(PartialErrorModel { error_type: ErrorType::MutexTrylockFailed, details: None }),
{
}

} // verus!
