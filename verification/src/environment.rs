//! An environment: the connection of this process to the service, with the
//! mutexes opened through it and the shared-memory pages that hold them.
//!
//! The exchange of messages with the service happens outside this module;
//! what the service answers comes in here as plain values, and the decisions
//! on it are made here.

use vstd::prelude::*;
use crate::alive_marker::{AliveMarker, ALIVE_MARKER};
use crate::decimal::{decimal, spec_decimal};
use crate::error_handling::{ErrorType, PartialError, PartialErrorModel};
use crate::registry::MutexRegistry;
use crate::shm_consumer::{
    ShmConsumer, spec_access, spec_is_multiple_of, spec_page_size_mismatch, spec_pages_valid,
};
use crate::error_handling::result_view;

verus! {

/// What kind of object a name belongs to.
#[derive(Clone, Copy, PartialEq, Eq, Debug, Structural)]
pub enum NameKind {
    Environment,
    Mutex,
}

/// Why a request could not be written: its name argument was too long, or
/// something else went wrong, described by a text.
pub enum RequestFailure {
    ArgumentTooLong,
    Other(String),
}

/// The service's answer to a request to open an environment.
#[derive(Clone, Copy, PartialEq, Eq, Debug, Structural)]
pub enum WelcomeReply {
    MalformedRequest,
    InternalError,
    OpenEnvironmentOk,
}

/// The service's answer to a request to open a mutex; on success it names the
/// shared-memory page and the offset in it where the mutex lies.
#[derive(Clone, Copy, PartialEq, Eq, Debug, Structural)]
pub enum EnvironmentReply {
    MalformedRequest,
    InternalError,
    OpenMutexOk(usize, usize),
}

/// The details given when a name is longer than the service accepts.
pub open spec fn spec_name_too_long_details(kind: NameKind, max_len: usize) -> Seq<char> {
    let head = match kind {
        NameKind::Environment => "The maximum length of an environment name is "@,
        NameKind::Mutex => "The maximum length of a mutex name is "@,
    };
    head + spec_decimal(max_len as nat) + " bytes."@
}

/// The error for a request that could not be written.
pub open spec fn spec_request_failure(
    kind: NameKind,
    failure: RequestFailure,
    max_len: usize,
) -> PartialErrorModel {
    match failure {
        RequestFailure::ArgumentTooLong => PartialErrorModel {
            error_type: ErrorType::NameTooLong,
            details: Some(spec_name_too_long_details(kind, max_len)),
        },
        RequestFailure::Other(text) => PartialErrorModel {
            error_type: ErrorType::SerializationError,
            details: Some(text@),
        },
    }
}

/// The details given when the service reports a malformed request.
pub open spec fn spec_malformed_details() -> Seq<char> {
    "garnd service reported a malformed request."@
}

/// The details given when the service reports an internal error.
pub open spec fn spec_internal_details() -> Seq<char> {
    "garnd service reported an internal error."@
}

/// The details given when the service sends no shared-memory file.
pub open spec fn spec_missing_fd_details() -> Seq<char> {
    "The garnd service did not provide a shared memory file descriptor."@
}

/// A failure to communicate with the service, with details.
pub open spec fn spec_communication_error(details: Seq<char>) -> PartialErrorModel {
    PartialErrorModel { error_type: ErrorType::ServiceCommunicationFailed, details: Some(details) }
}

/// What an answer to a request to open an environment means.
pub open spec fn spec_welcome_outcome(reply: WelcomeReply) -> Result<(), PartialErrorModel> {
    match reply {
        WelcomeReply::MalformedRequest => Err(spec_communication_error(spec_malformed_details())),
        WelcomeReply::InternalError => Err(spec_communication_error(spec_internal_details())),
        WelcomeReply::OpenEnvironmentOk => Ok(()),
    }
}

/// What an answer to a request to open a mutex means, given whether a
/// shared-memory file came with it: the page and offset of the mutex, or why
/// the mutex cannot be opened.
pub open spec fn spec_open_mutex_outcome(reply: EnvironmentReply, fd_received: bool) -> Result<
    (usize, usize),
    PartialErrorModel,
> {
    match reply {
        EnvironmentReply::MalformedRequest => Err(
            spec_communication_error(spec_malformed_details()),
        ),
        EnvironmentReply::InternalError => Err(spec_communication_error(spec_internal_details())),
        EnvironmentReply::OpenMutexOk(page, offset) => if fd_received {
            Ok((page, offset))
        } else {
            Err(spec_communication_error(spec_missing_fd_details()))
        },
    }
}

/// The error for a failed exchange with the service, described by `details`.
pub fn communication_error(details: String) -> (r: PartialError)
    ensures
        r@ == spec_communication_error(details@),
{
    PartialError::with_details(ErrorType::ServiceCommunicationFailed, details)
}

/// The error for a request about a name of `kind` that could not be written;
/// `max_len` is the longest name that the service accepts.
pub fn request_failure(kind: NameKind, failure: RequestFailure, max_len: usize) -> (r:
    PartialError)
    ensures
        r@ == spec_request_failure(kind, failure, max_len),
{
    match failure {
        RequestFailure::ArgumentTooLong => {
            let mut d = match kind {
                NameKind::Environment => String::from_str(
                    "The maximum length of an environment name is ",
                ),
                NameKind::Mutex => String::from_str("The maximum length of a mutex name is "),
            };
            let n = decimal(max_len);
            d.append(n.as_str());
            d.append(" bytes.");
            PartialError::with_details(ErrorType::NameTooLong, d)
        },
        RequestFailure::Other(text) => PartialError::with_details(
            ErrorType::SerializationError,
            text,
        ),
    }
}

/// Decides on the service's answer to a request to open an environment.
pub fn welcome_outcome(reply: WelcomeReply) -> (r: Result<(), PartialError>)
    ensures
        result_view(r) == spec_welcome_outcome(reply),
{
    match reply {
        WelcomeReply::MalformedRequest => Err(
            communication_error(String::from_str("garnd service reported a malformed request.")),
        ),
        WelcomeReply::InternalError => Err(
            communication_error(String::from_str("garnd service reported an internal error.")),
        ),
        WelcomeReply::OpenEnvironmentOk => Ok(()),
    }
}

/// Decides on the service's answer to a request to open a mutex.
pub fn open_mutex_outcome(reply: EnvironmentReply, fd_received: bool) -> (r: Result<
    (usize, usize),
    PartialError,
>)
    ensures
        result_view(r) == spec_open_mutex_outcome(reply, fd_received),
{
    match reply {
        EnvironmentReply::MalformedRequest => Err(
            communication_error(String::from_str("garnd service reported a malformed request.")),
        ),
        EnvironmentReply::InternalError => Err(
            communication_error(String::from_str("garnd service reported an internal error.")),
        ),
        EnvironmentReply::OpenMutexOk(page, offset) => {
            if !fd_received {
                return Err(
                    communication_error(
                        String::from_str(
                            "The garnd service did not provide a shared memory file descriptor.",
                        ),
                    ),
                );
            }
            Ok((page, offset))
        },
    }
}

/// What an [`Environment`] holds, as plain values.
pub struct EnvironmentModel {
    pub open_mutexes: Map<Seq<char>, usize>,
    pub page_size: usize,
    pub pages: Map<usize, usize>,
    pub alive: bool,
    pub mutex_size: usize,
    pub mutex_align: usize,
}

/// Whether `handle` is the address of a mutex placed in a mapped page: at an
/// offset in some page that is a multiple of the mutex alignment, with the
/// whole mutex inside the page.
pub open spec fn spec_mutex_placed(m: EnvironmentModel, handle: usize) -> bool {
    exists|page: usize, offset: usize|
        #![trigger m.pages[page], spec_is_multiple_of(offset, m.mutex_align)]
        m.pages.contains_key(page) && handle == m.pages[page] + offset && offset + m.mutex_size
            <= m.page_size && spec_is_multiple_of(offset, m.mutex_align)
}

/// What holds of every environment: its pages are valid, and every mutex
/// that it has opened lies, aligned, inside one of its mapped pages.
pub open spec fn spec_env_invariant(m: EnvironmentModel) -> bool {
    &&& spec_pages_valid(m.page_size, m.pages)
    &&& forall|name: Seq<char>| #[trigger]
        m.open_mutexes.contains_key(name) ==> spec_mutex_placed(m, m.open_mutexes[name])
}

/// The state of an open environment: the mutexes opened so far, the mapped
/// shared-memory pages, whether the environment is still alive, and the size
/// and alignment of the service's mutexes.
pub struct Environment {
    open_mutexes: MutexRegistry,
    shm_consumer: ShmConsumer,
    alive_marker: AliveMarker,
    mutex_size: usize,
    mutex_align: usize,
}

impl View for Environment {
    type V = EnvironmentModel;

    closed spec fn view(&self) -> EnvironmentModel {
        EnvironmentModel {
            open_mutexes: self.open_mutexes@,
            page_size: self.shm_consumer@.page_size,
            pages: self.shm_consumer@.pages,
            alive: self.alive_marker@ == ALIVE_MARKER,
            mutex_size: self.mutex_size,
            mutex_align: self.mutex_align,
        }
    }
}

impl Environment {
    /// The parts agree with their own invariants, and the environment's
    /// invariant holds.
    pub closed spec fn wf(&self) -> bool {
        &&& self.open_mutexes.wf()
        &&& self.shm_consumer.wf()
        &&& spec_env_invariant(self@)
    }

    /// A well-formed environment keeps the environment's invariant: every
    /// mutex that it opened lies, aligned, inside one of its mapped pages.
    pub proof fn lemma_wf_keeps_invariant(&self)
        requires
            self.wf(),
        ensures
            spec_env_invariant(self@),
    {
    }

    /// The environment that the service's answer `reply` opens, with the
    /// pages of `shm_consumer` and no mutex yet, for mutexes of `mutex_size`
    /// bytes aligned to `mutex_align`; an answer other than success gives
    /// its error.
    pub fn new(
        shm_consumer: ShmConsumer,
        reply: WelcomeReply,
        mutex_size: usize,
        mutex_align: usize,
    ) -> (r: Result<Self, PartialError>)
        requires
            shm_consumer.wf(),
        ensures
            match spec_welcome_outcome(reply) {
                Ok(_) => r matches Ok(env) && env.wf() && spec_env_invariant(env@) && env@ == (
                EnvironmentModel {
                    open_mutexes: Map::empty(),
                    page_size: shm_consumer@.page_size,
                    pages: shm_consumer@.pages,
                    alive: true,
                    mutex_size,
                    mutex_align,
                }),
                Err(e) => r matches Err(err) && err@ == e,
            },
    {
        match welcome_outcome(reply) {
            Ok(()) => Ok(
                Environment {
                    open_mutexes: MutexRegistry::new(),
                    shm_consumer,
                    alive_marker: AliveMarker::new(),
                    mutex_size,
                    mutex_align,
                },
            ),
            Err(e) => Err(e),
        }
    }

    /// Succeeds while the environment has not been destroyed; afterwards the
    /// error is `UseAfterDestroy`.
    pub fn check_alive(&self) -> (r: Result<(), PartialError>)
        ensures
            self@.alive ==> r is Ok,
            !self@.alive ==> (r matches Err(e) && e@ == (PartialErrorModel {
                error_type: ErrorType::UseAfterDestroy,
                details: None,
            })),
    {
        self.alive_marker.check()
    }

    /// Marks the environment as destroyed.
    pub fn destroy(&mut self)
        requires
            old(self).wf(),
        ensures
            final(self).wf(),
            spec_env_invariant(final(self)@),
            final(self)@ == (EnvironmentModel { alive: false, ..old(self)@ }),
    {
        let ghost old_m = self@;
        self.alive_marker.invalidate();
        proof {
            let m = self@;
            assert forall|k: Seq<char>| #[trigger] m.open_mutexes.contains_key(
                k,
            ) implies spec_mutex_placed(m, m.open_mutexes[k]) by {
                lemma_placed_kept(old_m, m, old_m.open_mutexes[k]);
            }
        }
    }

    /// The address of the mutex opened under `name` before, if there is one:
    /// opening it again gives that address without asking the service.
    pub fn cached_mutex(&self, name: &str) -> (r: Option<usize>)
        requires
            self.wf(),
        ensures
            r == (if self@.open_mutexes.contains_key(name@) {
                Some(self@.open_mutexes[name@])
            } else {
                None::<usize>
            }),
    {
        self.open_mutexes.get(name)
    }

    /// The system's page size, which every mapped page has.
    pub fn page_size(&self) -> (r: usize)
        ensures
            r == self@.page_size,
    {
        self.shm_consumer.page_size()
    }

    /// Whether the shared-memory page `page` still has to be mapped.
    pub fn needs_page(&self, page: usize) -> (r: bool)
        ensures
            r == !self@.pages.contains_key(page),
    {
        !self.shm_consumer.is_loaded(page)
    }

    /// Checks the size that the file of a page to be mapped reports.
    pub fn check_page_file(&self, file_size: i64) -> (r: Result<(), PartialError>)
        ensures
            (file_size as usize) == self@.page_size ==> r is Ok,
            (file_size as usize) != self@.page_size ==> (r matches Err(e) && e@ == (
            PartialErrorModel {
                error_type: ErrorType::SharedMemoryError,
                details: Some(spec_page_size_mismatch()),
            })),
    {
        self.shm_consumer.check_page_file(file_size)
    }

    /// Ends the opening of the mutex `name` that the service placed at
    /// `offset` in page `page` (mapped now at `new_base` if it was not
    /// mapped before): the mutex's address, which is recorded under `name`,
    /// or why it cannot be accessed, in which case no mutex is recorded.
    pub fn finish_open_mutex(
        &mut self,
        name: &str,
        page: usize,
        offset: usize,
        new_base: Option<usize>,
    ) -> (r: Result<usize, PartialError>)
        requires
            old(self).wf(),
            offset + old(self)@.mutex_size <= usize::MAX,
            !old(self)@.pages.contains_key(page) ==> (new_base matches Some(b) && 0 < b && b
                + old(self)@.page_size <= usize::MAX),
        ensures
            final(self).wf(),
            spec_env_invariant(final(self)@),
            final(self)@.page_size == old(self)@.page_size,
            final(self)@.alive == old(self)@.alive,
            final(self)@.mutex_size == old(self)@.mutex_size,
            final(self)@.mutex_align == old(self)@.mutex_align,
            final(self)@.pages == if old(self)@.pages.contains_key(page) {
                old(self)@.pages
            } else {
                old(self)@.pages.insert(page, new_base.unwrap())
            },
            result_view(r) == spec_access(
                final(self)@.page_size,
                final(self)@.pages[page],
                offset,
                old(self)@.mutex_size,
                old(self)@.mutex_align,
            ),
            final(self)@.open_mutexes == match r {
                Ok(h) => old(self)@.open_mutexes.insert(name@, h),
                Err(_) => old(self)@.open_mutexes,
            },
    {
        let ghost old_m = self@;
        let r = self.shm_consumer.consume(page, new_base, offset, self.mutex_size, self.mutex_align);
        let ghost mid = self@;
        assert forall|k: Seq<char>| #[trigger] mid.open_mutexes.contains_key(k) implies spec_mutex_placed(
            mid,
            mid.open_mutexes[k],
        ) by {
            lemma_placed_kept(old_m, mid, old_m.open_mutexes[k]);
        }
        match r {
            Ok(h) => {
                self.open_mutexes.insert(name, h);
                proof {
                    let m = self@;
                    assert(m.pages[page] == mid.pages[page]);
                    assert(spec_is_multiple_of(offset, m.mutex_align));
                    assert(spec_mutex_placed(m, h));
                    assert forall|k: Seq<char>| #[trigger] m.open_mutexes.contains_key(
                        k,
                    ) implies spec_mutex_placed(m, m.open_mutexes[k]) by {
                        if k != name@ {
                            lemma_placed_kept(mid, m, mid.open_mutexes[k]);
                        }
                    }
                }
                Ok(h)
            },
            Err(e) => Err(e),
        }
    }
}

proof fn lemma_placed_kept(m1: EnvironmentModel, m2: EnvironmentModel, handle: usize)
    requires
        spec_mutex_placed(m1, handle),
        m1.page_size == m2.page_size,
        m1.mutex_size == m2.mutex_size,
        m1.mutex_align == m2.mutex_align,
        forall|p: usize| #[trigger]
            m1.pages.contains_key(p) ==> m2.pages.contains_key(p) && m2.pages[p] == m1.pages[p],
    ensures
        spec_mutex_placed(m2, handle),
{
    let (p, off) = choose|p: usize, off: usize|
        #![trigger m1.pages[p], spec_is_multiple_of(off, m1.mutex_align)]
        m1.pages.contains_key(p) && handle == m1.pages[p] + off && off + m1.mutex_size
            <= m1.page_size && spec_is_multiple_of(off, m1.mutex_align);
    assert(m2.pages.contains_key(p));
    assert(m2.pages[p] == m1.pages[p]);
    assert(spec_is_multiple_of(off, m2.mutex_align));
}

/// Every mutex that an environment has opened lies at a non-null address,
/// aligned, with its whole size inside one mapped page.
pub proof fn lemma_opened_mutexes_lie_in_pages(m: EnvironmentModel, name: Seq<char>)
    requires
        spec_env_invariant(m),
        m.open_mutexes.contains_key(name),
    ensures
        m.open_mutexes[name] > 0,
        exists|page: usize, offset: usize|
            #![trigger m.pages[page], spec_is_multiple_of(offset, m.mutex_align)]
            m.pages.contains_key(page) && m.pages[page] <= m.open_mutexes[name]
                && m.open_mutexes[name] == m.pages[page] + offset && m.open_mutexes[name]
                + m.mutex_size <= m.pages[page] + m.page_size && spec_is_multiple_of(
                offset,
                m.mutex_align,
            ),
{
    assert(spec_mutex_placed(m, m.open_mutexes[name]));
    let (p, off) = choose|p: usize, off: usize|
        #![trigger m.pages[p], spec_is_multiple_of(off, m.mutex_align)]
        m.pages.contains_key(p) && m.open_mutexes[name] == m.pages[p] + off && off + m.mutex_size
            <= m.page_size && spec_is_multiple_of(off, m.mutex_align);
    assert(m.pages[p] > 0);
}

/// A mutex that was opened under a name is found under that name afterwards,
/// with the address it was opened at; the other names keep what they had.
pub proof fn lemma_opened_mutex_is_cached(
    open_mutexes: Map<Seq<char>, usize>,
    name: Seq<char>,
    other: Seq<char>,
    handle: usize,
)
    requires
        other != name,
    ensures
        open_mutexes.insert(name, handle).contains_key(name),
        open_mutexes.insert(name, handle)[name] == handle,
        open_mutexes.insert(name, handle).contains_key(other) == open_mutexes.contains_key(other),
        open_mutexes.insert(name, handle)[other] == open_mutexes[other],
{
}

} // verus!
