//! The checks that the functions of the C interface make on their arguments
//! before they act, and the errors that those checks report.
//!
//! A pointer argument comes in here as whether it is present (not null); a
//! string argument as a [`CStrArg`].

use vstd::prelude::*;
use crate::error_handling::{Error, ErrorModel, ErrorType};

verus! {

/// A C string argument: null, not valid UTF-8, or a text.
pub enum CStrArg {
    Null,
    NotUtf8,
    Text(String),
}

/// The operations of the C interface on a mutex.
#[derive(Clone, Copy, PartialEq, Eq, Debug, Structural)]
pub enum MutexCall {
    Lock,
    Unlock,
    TryLock,
}

/// The name of the interface function that performs a mutex operation.
pub open spec fn spec_mutex_call_name(call: MutexCall) -> Seq<char> {
    match call {
        MutexCall::Lock => "garn_mutex_lock"@,
        MutexCall::Unlock => "garn_mutex_unlock"@,
        MutexCall::TryLock => "garn_mutex_try_lock"@,
    }
}

/// The error that `fn_name` reports, blaming `arg_name`.
pub open spec fn arg_error(error_type: ErrorType, fn_name: Seq<char>, arg_name: Seq<char>) -> ErrorModel {
    ErrorModel { error_type, fn_name, arg_name: Some(arg_name), details: None }
}

/// The view of a result whose error is an [`Error`].
pub open spec fn error_result_view<T>(r: Result<T, Error>) -> Result<T, ErrorModel> {
    match r {
        Ok(v) => Ok(v),
        Err(e) => Err(e@),
    }
}

/// The view of a result whose value is a string and whose error is an [`Error`].
pub open spec fn text_result_view(r: Result<String, Error>) -> Result<Seq<char>, ErrorModel> {
    match r {
        Ok(v) => Ok(v@),
        Err(e) => Err(e@),
    }
}

/// What a string argument `arg_name` of `fn_name` gives: its text, or the error for it.
pub open spec fn spec_text_arg(arg: CStrArg, fn_name: Seq<char>, arg_name: Seq<char>) -> Result<
    Seq<char>,
    ErrorModel,
> {
    match arg {
        CStrArg::Null => Err(arg_error(ErrorType::NonNullReferenceViolation, fn_name, arg_name)),
        CStrArg::NotUtf8 => Err(arg_error(ErrorType::InvalidString, fn_name, arg_name)),
        CStrArg::Text(s) => Ok(s@),
    }
}

fn text_arg(arg: CStrArg, fn_name: &str, arg_name: &str) -> (r: Result<String, Error>)
    ensures
        text_result_view(r) == spec_text_arg(arg, fn_name@, arg_name@),
{
    match arg {
        CStrArg::Null => Err(Error::with_arg(ErrorType::NonNullReferenceViolation, fn_name, arg_name)),
        CStrArg::NotUtf8 => Err(Error::with_arg(ErrorType::InvalidString, fn_name, arg_name)),
        CStrArg::Text(s) => Ok(s),
    }
}

/// The checks of `garn_environment_init`: the environment slot must be
/// present, and the name must be a present UTF-8 string, which is returned.
pub open spec fn spec_check_environment_init(env_present: bool, name: CStrArg) -> Result<
    Seq<char>,
    ErrorModel,
> {
    if !env_present {
        Err(arg_error(ErrorType::NonNullReferenceViolation, "garn_environment_init"@, "env"@))
    } else {
        spec_text_arg(name, "garn_environment_init"@, "name"@)
    }
}

/// Checks the arguments of `garn_environment_init`.
pub fn check_environment_init(env_present: bool, name: CStrArg) -> (r: Result<String, Error>)
    ensures
        text_result_view(r) == spec_check_environment_init(env_present, name),
{
    if !env_present {
        return Err(
            Error::with_arg(
                ErrorType::NonNullReferenceViolation,
                "garn_environment_init",
                "env",
            ),
        );
    }
    text_arg(name, "garn_environment_init", "name")
}

/// The checks that an interface function `fn_name` makes on an existing
/// environment: it must be present, and the calling thread must own it.
pub open spec fn spec_check_environment_access(
    fn_name: Seq<char>,
    env_present: bool,
    caller_is_owner: bool,
) -> Result<(), ErrorModel> {
    if !env_present {
        Err(arg_error(ErrorType::NonNullReferenceViolation, fn_name, "env"@))
    } else if !caller_is_owner {
        Err(arg_error(ErrorType::ThreadOwnershipViolation, fn_name, "env"@))
    } else {
        Ok(())
    }
}

fn check_environment_access(fn_name: &str, env_present: bool, caller_is_owner: bool) -> (r: Result<
    (),
    Error,
>)
    ensures
        error_result_view(r) == spec_check_environment_access(
            fn_name@,
            env_present,
            caller_is_owner,
        ),
{
    if !env_present {
        return Err(Error::with_arg(ErrorType::NonNullReferenceViolation, fn_name, "env"));
    }
    if !caller_is_owner {
        return Err(Error::with_arg(ErrorType::ThreadOwnershipViolation, fn_name, "env"));
    }
    Ok(())
}

/// Checks the arguments of `garn_environment_destroy`; `caller_is_owner`
/// tells whether the calling thread created the environment, and counts only
/// where the environment is present.
pub fn check_environment_destroy(env_present: bool, caller_is_owner: bool) -> (r: Result<
    (),
    Error,
>)
    ensures
        error_result_view(r) == spec_check_environment_access(
            "garn_environment_destroy"@,
            env_present,
            caller_is_owner,
        ),
{
    check_environment_access("garn_environment_destroy", env_present, caller_is_owner)
}

/// The checks of `garn_environment_open_mutex`: the environment as for any
/// access, then the mutex slot must be present, then the name must be a
/// present UTF-8 string, which is returned.
pub open spec fn spec_check_environment_open_mutex(
    env_present: bool,
    caller_is_owner: bool,
    mutex_present: bool,
    name: CStrArg,
) -> Result<Seq<char>, ErrorModel> {
    match spec_check_environment_access(
        "garn_environment_open_mutex"@,
        env_present,
        caller_is_owner,
    ) {
        Err(e) => Err(e),
        Ok(_) => if !mutex_present {
            Err(
                arg_error(
                    ErrorType::NonNullReferenceViolation,
                    "garn_environment_open_mutex"@,
                    "mutex"@,
                ),
            )
        } else {
            spec_text_arg(name, "garn_environment_open_mutex"@, "name"@)
        },
    }
}

/// Checks the arguments of `garn_environment_open_mutex`.
pub fn check_environment_open_mutex(
    env_present: bool,
    caller_is_owner: bool,
    mutex_present: bool,
    name: CStrArg,
) -> (r: Result<String, Error>)
    ensures
        text_result_view(r) == spec_check_environment_open_mutex(
            env_present,
            caller_is_owner,
            mutex_present,
            name,
        ),
{
    match check_environment_access("garn_environment_open_mutex", env_present, caller_is_owner) {
        Err(e) => return Err(e),
        Ok(()) => {},
    }
    if !mutex_present {
        return Err(
            Error::with_arg(
                ErrorType::NonNullReferenceViolation,
                "garn_environment_open_mutex",
                "mutex",
            ),
        );
    }
    text_arg(name, "garn_environment_open_mutex", "name")
}

/// The name of the interface function that performs a mutex operation.
pub fn mutex_call_name(call: MutexCall) -> (r: &'static str)
    ensures
        r@ == spec_mutex_call_name(call),
{
    match call {
        MutexCall::Lock => "garn_mutex_lock",
        MutexCall::Unlock => "garn_mutex_unlock",
        MutexCall::TryLock => "garn_mutex_try_lock",
    }
}

/// Checks the argument of a mutex operation of the interface: the mutex must be present.
pub fn check_mutex_call(call: MutexCall, mutex_present: bool) -> (r: Result<(), Error>)
    ensures
        error_result_view(r) == if mutex_present {
            Ok(())
        } else {
            Err(
                arg_error(
                    ErrorType::NonNullReferenceViolation,
                    spec_mutex_call_name(call),
                    "mutex"@,
                ),
            )
        },
{
    if !mutex_present {
        return Err(
            Error::with_arg(ErrorType::NonNullReferenceViolation, mutex_call_name(call), "mutex"),
        );
    }
    Ok(())
}

/// The checks of the environment functions report an absent environment
/// first, whatever the other arguments are; a foreign thread is reported only
/// for a present environment; and once every check passes, the name's text
/// is what the opening of a mutex or an environment gets.
pub proof fn lemma_environment_checks(
    env_present: bool,
    caller_is_owner: bool,
    mutex_present: bool,
    name: CStrArg,
)
    ensures
        !env_present ==> spec_check_environment_open_mutex(
            env_present,
            caller_is_owner,
            mutex_present,
            name,
        ) == Err::<Seq<char>, ErrorModel>(
            ErrorModel {
                error_type: ErrorType::NonNullReferenceViolation,
                fn_name: "garn_environment_open_mutex"@,
                arg_name: Some("env"@),
                details: None,
            },
        ),
        !env_present ==> spec_check_environment_access(
            "garn_environment_destroy"@,
            env_present,
            caller_is_owner,
        ) == Err::<(), ErrorModel>(
            ErrorModel {
                error_type: ErrorType::NonNullReferenceViolation,
                fn_name: "garn_environment_destroy"@,
                arg_name: Some("env"@),
                details: None,
            },
        ),
        !env_present ==> spec_check_environment_init(env_present, name) == Err::<
            Seq<char>,
            ErrorModel,
        >(
            ErrorModel {
                error_type: ErrorType::NonNullReferenceViolation,
                fn_name: "garn_environment_init"@,
                arg_name: Some("env"@),
                details: None,
            },
        ),
        spec_check_environment_open_mutex(env_present, caller_is_owner, mutex_present, name) matches Err(
            e,
        ) && e.error_type == ErrorType::ThreadOwnershipViolation ==> env_present && !caller_is_owner,
        spec_check_environment_access("garn_environment_destroy"@, env_present, caller_is_owner) matches Err(
            e,
        ) && e.error_type == ErrorType::ThreadOwnershipViolation ==> env_present && !caller_is_owner,
        env_present && caller_is_owner && mutex_present ==> match name {
            CStrArg::Text(s) => spec_check_environment_open_mutex(
                env_present,
                caller_is_owner,
                mutex_present,
                name,
            ) == Ok::<Seq<char>, ErrorModel>(s@),
            _ => spec_check_environment_open_mutex(
                env_present,
                caller_is_owner,
                mutex_present,
                name,
            ) is Err,
        },
        env_present && caller_is_owner ==> spec_check_environment_access(
            "garn_environment_destroy"@,
            env_present,
            caller_is_owner,
        ) is Ok,
{
}

} // verus!
