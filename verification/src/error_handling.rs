//! Error values that cross the C interface of the library.

use vstd::prelude::*;

verus! {

/// The kinds of failure that the library reports; each has a stable numeric
/// code (see [`ErrorType::code`]) and a fixed message.
///
/// The first eight kinds carry the codes 1 to 8 of the C interface. The kinds
/// from `UseAfterDestroy` on are raised by the environment, the mutexes and
/// the shared-memory pages; this library numbers them 9 to 16 in the order
/// listed and gives them their messages.
#[derive(Clone, Copy, PartialEq, Eq, Debug, Structural)]
pub enum ErrorType {
    NonNullReferenceViolation,
    InvalidString,
    MutexAlreadyOpened,
    ThreadOwnershipViolation,
    ServiceCommunicationFailed,
    NameTooLong,
    SharedMemoryError,
    GetPageSizeFailed,
    UseAfterDestroy,
    MutexNestedLock,
    MutexUnauthorizedUnlock,
    MutexTrylockFailed,
    MutexError,
    SerializationError,
    ShmAccessOutOfBounds,
    ShmMisalignedAccess,
}

impl ErrorType {
    /// The numeric code that the C interface reports for this kind.
    pub open spec fn spec_code(self) -> usize {
        match self {
            ErrorType::NonNullReferenceViolation => 1,
            ErrorType::InvalidString => 2,
            ErrorType::MutexAlreadyOpened => 3,
            ErrorType::ThreadOwnershipViolation => 4,
            ErrorType::ServiceCommunicationFailed => 5,
            ErrorType::NameTooLong => 6,
            ErrorType::SharedMemoryError => 7,
            ErrorType::GetPageSizeFailed => 8,
            ErrorType::UseAfterDestroy => 9,
            ErrorType::MutexNestedLock => 10,
            ErrorType::MutexUnauthorizedUnlock => 11,
            ErrorType::MutexTrylockFailed => 12,
            ErrorType::MutexError => 13,
            ErrorType::SerializationError => 14,
            ErrorType::ShmAccessOutOfBounds => 15,
            ErrorType::ShmMisalignedAccess => 16,
        }
    }

    /// The human-readable message of this kind.
    pub open spec fn spec_message(self) -> Seq<char> {
        match self {
            ErrorType::NonNullReferenceViolation =>
                "A null-reference was provided to a garn-function expecting a non-null-reference."@,
            ErrorType::InvalidString =>
                "An invalid UTF8-string was provided to a garn-function."@,
            ErrorType::MutexAlreadyOpened => "Tried to open the same mutex twice."@,
            ErrorType::ThreadOwnershipViolation =>
                "A thread different from that which created the resource tried to modify or destroy it."@,
            ErrorType::ServiceCommunicationFailed =>
                "Communication with the garnd service failed."@,
            ErrorType::NameTooLong => "The provided name was too long."@,
            ErrorType::SharedMemoryError =>
                "Failed to map the service's shared memory into the local address space."@,
            ErrorType::GetPageSizeFailed => "Could not determine the system's page size."@,
            ErrorType::UseAfterDestroy => "A resource was used after it had been destroyed."@,
            ErrorType::MutexNestedLock =>
                "The calling thread tried to lock a mutex that it already holds."@,
            ErrorType::MutexUnauthorizedUnlock =>
                "The calling thread tried to unlock a mutex that it does not hold."@,
            ErrorType::MutexTrylockFailed =>
                "The mutex could not be locked because it is held by another thread."@,
            ErrorType::MutexError => "An operation on a mutex failed."@,
            ErrorType::SerializationError =>
                "A message to the garnd service could not be serialized."@,
            ErrorType::ShmAccessOutOfBounds =>
                "A shared-memory resource does not lie within its page."@,
            ErrorType::ShmMisalignedAccess => "A shared-memory resource is misaligned."@,
        }
    }

    /// Returns the numeric code of this kind.
    pub fn code(self) -> (r: usize)
        ensures
            r == self.spec_code(),
    {
        match self {
            ErrorType::NonNullReferenceViolation => 1,
            ErrorType::InvalidString => 2,
            ErrorType::MutexAlreadyOpened => 3,
            ErrorType::ThreadOwnershipViolation => 4,
            ErrorType::ServiceCommunicationFailed => 5,
            ErrorType::NameTooLong => 6,
            ErrorType::SharedMemoryError => 7,
            ErrorType::GetPageSizeFailed => 8,
            ErrorType::UseAfterDestroy => 9,
            ErrorType::MutexNestedLock => 10,
            ErrorType::MutexUnauthorizedUnlock => 11,
            ErrorType::MutexTrylockFailed => 12,
            ErrorType::MutexError => 13,
            ErrorType::SerializationError => 14,
            ErrorType::ShmAccessOutOfBounds => 15,
            ErrorType::ShmMisalignedAccess => 16,
        }
    }

    /// Returns the message of this kind.
    pub fn get_c_error_message(self) -> (r: &'static str)
        ensures
            r@ == self.spec_message(),
    {
        match self {
            ErrorType::NonNullReferenceViolation =>
                "A null-reference was provided to a garn-function expecting a non-null-reference.",
            ErrorType::InvalidString => "An invalid UTF8-string was provided to a garn-function.",
            ErrorType::MutexAlreadyOpened => "Tried to open the same mutex twice.",
            ErrorType::ThreadOwnershipViolation =>
                "A thread different from that which created the resource tried to modify or destroy it.",
            ErrorType::ServiceCommunicationFailed => "Communication with the garnd service failed.",
            ErrorType::NameTooLong => "The provided name was too long.",
            ErrorType::SharedMemoryError =>
                "Failed to map the service's shared memory into the local address space.",
            ErrorType::GetPageSizeFailed => "Could not determine the system's page size.",
            ErrorType::UseAfterDestroy => "A resource was used after it had been destroyed.",
            ErrorType::MutexNestedLock =>
                "The calling thread tried to lock a mutex that it already holds.",
            ErrorType::MutexUnauthorizedUnlock =>
                "The calling thread tried to unlock a mutex that it does not hold.",
            ErrorType::MutexTrylockFailed =>
                "The mutex could not be locked because it is held by another thread.",
            ErrorType::MutexError => "An operation on a mutex failed.",
            ErrorType::SerializationError =>
                "A message to the garnd service could not be serialized.",
            ErrorType::ShmAccessOutOfBounds =>
                "A shared-memory resource does not lie within its page.",
            ErrorType::ShmMisalignedAccess => "A shared-memory resource is misaligned.",
        }
    }
}

/// Distinct kinds of error have distinct codes, and every code lies in `1..=16`.
pub proof fn lemma_code_injective(a: ErrorType, b: ErrorType)
    ensures
        a.spec_code() == b.spec_code() <==> a == b,
        1 <= a.spec_code() <= 16,
{
}


/// What a [`PartialError`] holds, as plain values.
pub struct PartialErrorModel {
    pub error_type: ErrorType,
    pub details: Option<Seq<char>>,
}

/// An error raised inside the library, before it is known which function of
/// the C interface reports it.
pub struct PartialError {
    error_type: ErrorType,
    details: Option<String>,
}

/// The view of an optional string.
pub open spec fn opt_view(s: Option<String>) -> Option<Seq<char>> {
    match s {
        Some(t) => Some(t@),
        None => None,
    }
}

impl View for PartialError {
    type V = PartialErrorModel;

    closed spec fn view(&self) -> PartialErrorModel {
        PartialErrorModel { error_type: self.error_type, details: opt_view(self.details) }
    }
}

impl PartialError {
    /// An error of the given kind without details.
    pub fn new(error_type: ErrorType) -> (r: Self)
        ensures
            r@ == (PartialErrorModel { error_type, details: None }),
    {
        Self { error_type, details: None }
    }

    /// An error of the given kind with details.
    pub fn with_details(error_type: ErrorType, details: String) -> (r: Self)
        ensures
            r@ == (PartialErrorModel { error_type, details: Some(details@) }),
    {
        Self { error_type, details: Some(details) }
    }

    /// The kind of this error.
    pub fn error_type(&self) -> (r: ErrorType)
        ensures
            r == self@.error_type,
    {
        self.error_type
    }

    /// The details of this error, if it has any.
    pub fn details(&self) -> (r: Option<&str>)
        ensures
            match r {
                Some(d) => self@.details == Some(d@),
                None => self@.details is None,
            },
    {
        match &self.details {
            Some(d) => Some(d.as_str()),
            None => None,
        }
    }
}

/// The view of a result whose error is a [`PartialError`].
pub open spec fn result_view<T>(r: Result<T, PartialError>) -> Result<T, PartialErrorModel> {
    match r {
        Ok(v) => Ok(v),
        Err(e) => Err(e@),
    }
}

/// Whether a string may become a C string: it holds no NUL character.
pub open spec fn is_c_compatible(s: Seq<char>) -> bool {
    !s.contains('\0')
}

/// Whether the details of an error, if any, may become a C string.
pub open spec fn details_c_compatible(details: Option<Seq<char>>) -> bool {
    match details {
        Some(d) => is_c_compatible(d),
        None => true,
    }
}

/// Tells whether `s` holds a NUL character, which a C string cannot carry.
pub fn contains_nul(s: &str) -> (r: bool)
    ensures
        r == !is_c_compatible(s@),
{
    let n = s.unicode_len();
    let mut i: usize = 0;
    while i < n
        invariant
            n == s@.len(),
            i <= n,
            forall|j: int| 0 <= j < i ==> s@[j] != '\0',
        decreases n - i,
    {
        if s.get_char(i) == '\0' {
            assert(s@[i as int] == '\0');
            return true;
        }
        i = i + 1;
    }
    assert(!s@.contains('\0')) by {
        if s@.contains('\0') {
            let k = choose|k: int| 0 <= k < s@.len() && s@[k] == '\0';
            assert(s@[k] != '\0');
        }
    }
    false
}

/// What an [`Error`] holds, as plain values.
pub struct ErrorModel {
    pub error_type: ErrorType,
    pub fn_name: Seq<char>,
    pub arg_name: Option<Seq<char>>,
    pub details: Option<Seq<char>>,
}

/// An error as the C interface reports it: its kind, the interface function
/// that reports it, the argument responsible for it, if any, and details, if any.
/// Its message is the message of its kind.
pub struct Error {
    error_type: ErrorType,
    fn_name: String,
    arg_name: Option<String>,
    details: Option<String>,
}

impl View for Error {
    type V = ErrorModel;

    closed spec fn view(&self) -> ErrorModel {
        ErrorModel {
            error_type: self.error_type,
            fn_name: self.fn_name@,
            arg_name: opt_view(self.arg_name),
            details: opt_view(self.details),
        }
    }
}

/// The lines that report an error, each ended by a newline: its message,
/// the function that reported it, the responsible argument and the details.
pub open spec fn spec_report(e: ErrorModel) -> Seq<char> {
    "garn: "@ + e.error_type.spec_message() + "\n"@ + "      In function: "@ + e.fn_name
        + "\n"@ + match e.arg_name {
        Some(a) => "      Responsible argument: "@ + a + "\n"@,
        None => Seq::<char>::empty(),
    } + match e.details {
        Some(d) => "      Additional details: "@ + d + "\n"@,
        None => Seq::<char>::empty(),
    }
}

/// The line that announces an unrecoverable error.
pub open spec fn spec_fatal_report(message: Seq<char>) -> Seq<char> {
    "garn: FATAL! "@ + message + "\n"@
}

/// Builds the line that announces an unrecoverable error before the process aborts.
pub fn fatal_report(message: &str) -> (r: String)
    ensures
        r@ == spec_fatal_report(message@),
{
    let mut r = String::from_str("garn: FATAL! ");
    r.append(message);
    r.append("\n");
    r
}

fn copy_opt(s: Option<&str>) -> (r: Option<String>)
    ensures
        opt_view(r) == match s {
            Some(t) => Some(t@),
            None => None::<Seq<char>>,
        },
{
    match s {
        Some(t) => Some(String::from_str(t)),
        None => None,
    }
}

impl Error {
    /// An error of the given kind reported by `fn_name`, without argument or details.
    pub fn new(error_type: ErrorType, fn_name: &str) -> (r: Self)
        ensures
            r@ == (ErrorModel { error_type, fn_name: fn_name@, arg_name: None, details: None }),
    {
        Self { error_type, fn_name: String::from_str(fn_name), arg_name: None, details: None }
    }

    /// An error of the given kind reported by `fn_name` and caused by the argument `arg_name`.
    pub fn with_arg(error_type: ErrorType, fn_name: &str, arg_name: &str) -> (r: Self)
        ensures
            r@ == (ErrorModel {
                error_type,
                fn_name: fn_name@,
                arg_name: Some(arg_name@),
                details: None,
            }),
    {
        Self {
            error_type,
            fn_name: String::from_str(fn_name),
            arg_name: Some(String::from_str(arg_name)),
            details: None,
        }
    }

    /// The error that `fn_name` reports for an error raised inside the library.
    /// Its details must be able to become a C string.
    pub fn from_partial(partial_error: PartialError, fn_name: &str) -> (r: Self)
        requires
            details_c_compatible(partial_error@.details),
        ensures
            r@ == (ErrorModel {
                error_type: partial_error@.error_type,
                fn_name: fn_name@,
                arg_name: None,
                details: partial_error@.details,
            }),
    {
        let details = copy_opt(partial_error.details());
        Self {
            error_type: partial_error.error_type(),
            fn_name: String::from_str(fn_name),
            arg_name: None,
            details,
        }
    }

    /// The error that `fn_name` reports, blaming `arg_name`, for an error raised
    /// inside the library. Its details must be able to become a C string.
    pub fn from_partial_with_arg(partial_error: PartialError, fn_name: &str, arg_name: &str) -> (r:
        Self)
        requires
            details_c_compatible(partial_error@.details),
        ensures
            r@ == (ErrorModel {
                error_type: partial_error@.error_type,
                fn_name: fn_name@,
                arg_name: Some(arg_name@),
                details: partial_error@.details,
            }),
    {
        let details = copy_opt(partial_error.details());
        Self {
            error_type: partial_error.error_type(),
            fn_name: String::from_str(fn_name),
            arg_name: Some(String::from_str(arg_name)),
            details,
        }
    }

    /// The kind of this error.
    pub fn error_type(&self) -> (r: ErrorType)
        ensures
            r == self@.error_type,
    {
        self.error_type
    }

    /// The numeric code of this error's kind.
    pub fn code(&self) -> (r: usize)
        ensures
            r == self@.error_type.spec_code(),
    {
        self.error_type.code()
    }

    /// The message of this error, which is that of its kind.
    pub fn get_message(&self) -> (r: &'static str)
        ensures
            r@ == self@.error_type.spec_message(),
    {
        self.error_type.get_c_error_message()
    }

    /// The interface function that reported this error.
    pub fn get_fn_name(&self) -> (r: &str)
        ensures
            r@ == self@.fn_name,
    {
        self.fn_name.as_str()
    }

    /// The argument responsible for this error, if one is.
    pub fn get_arg_name(&self) -> (r: Option<&str>)
        ensures
            match r {
                Some(a) => self@.arg_name == Some(a@),
                None => self@.arg_name is None,
            },
    {
        match &self.arg_name {
            Some(a) => Some(a.as_str()),
            None => None,
        }
    }

    /// The details of this error, if it has any.
    pub fn get_details(&self) -> (r: Option<&str>)
        ensures
            match r {
                Some(d) => self@.details == Some(d@),
                None => self@.details is None,
            },
    {
        match &self.details {
            Some(d) => Some(d.as_str()),
            None => None,
        }
    }

    /// The text that reports this error, one line per item.
    pub fn report(&self) -> (r: String)
        ensures
            r@ == spec_report(self@),
    {
        let mut r = String::from_str("garn: ");
        r.append(self.get_message());
        r.append("\n");
        r.append("      In function: ");
        r.append(self.fn_name.as_str());
        r.append("\n");
        match &self.arg_name {
            Some(a) => {
                r.append("      Responsible argument: ");
                r.append(a.as_str());
                r.append("\n");
            },
            None => {},
        }
        match &self.details {
            Some(d) => {
                r.append("      Additional details: ");
                r.append(d.as_str());
                r.append("\n");
            },
            None => {},
        }
        r
    }
}

} // verus!
