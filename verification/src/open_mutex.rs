//! The opening of a mutex through an environment, step by step: each step
//! takes what the last exchange with the outside world gave and says what to
//! do next, so that the order of the exchanges and every decision on their
//! outcomes stand here, while the exchanges themselves (the request to the
//! service, reading the page file, mapping it) happen outside.

use vstd::prelude::*;
use crate::environment::{
    communication_error, open_mutex_outcome, request_failure, spec_communication_error,
    spec_env_invariant, spec_open_mutex_outcome, spec_request_failure, Environment,
    EnvironmentModel, EnvironmentReply, NameKind, RequestFailure,
};
use crate::error_handling::{ErrorType, PartialError, PartialErrorModel, result_view};
use crate::shm_consumer::{spec_access, spec_page_size_mismatch};

verus! {

/// Where an opening stands.
#[derive(Clone, Copy, PartialEq, Eq, Debug, Structural)]
pub enum OpenPhase {
    /// Nothing has happened yet.
    Start,
    /// The request is to be sent and the service's reply received.
    AwaitingReply,
    /// The size of the received page file is to be read.
    AwaitingPageFile { page: usize, offset: usize },
    /// The received page file is to be mapped.
    AwaitingMapping { page: usize, offset: usize },
    /// The opening has ended.
    Done,
}

/// What the last exchange gave.
pub enum OpenInput {
    /// The opening begins.
    Start,
    /// The request could not be written.
    RequestNotWritten(RequestFailure),
    /// Sending, receiving or reading the reply failed, as described.
    ExchangeFailed(String),
    /// The service replied; the flag tells whether a page file came with it.
    Reply(EnvironmentReply, bool),
    /// Reading the page file's size failed, as described.
    PageFileFailed(String),
    /// The page file reports this size.
    PageFileSize(i64),
    /// Mapping the page file failed, as described.
    MappingFailed(String),
    /// The page file is mapped at this address.
    Mapped(usize),
}

/// What to do next.
pub enum OpenAction {
    /// Write the request, send it, receive and read the reply.
    Exchange,
    /// Read the size of the received page file.
    StatPageFile,
    /// Map the received page file.
    MapPage,
    /// The opening has ended with this result.
    Done(Result<usize, PartialError>),
}

/// What an [`OpenAction`] says, as plain values.
pub enum OpenActionModel {
    Exchange,
    StatPageFile,
    MapPage,
    Done(Result<usize, PartialErrorModel>),
}

/// The view of an action.
pub open spec fn action_view(a: OpenAction) -> OpenActionModel {
    match a {
        OpenAction::Exchange => OpenActionModel::Exchange,
        OpenAction::StatPageFile => OpenActionModel::StatPageFile,
        OpenAction::MapPage => OpenActionModel::MapPage,
        OpenAction::Done(r) => OpenActionModel::Done(result_view(r)),
    }
}

/// What an [`OpenMutex`] holds, as plain values.
pub struct OpenMutexModel {
    pub name: Seq<char>,
    pub max_name_len: usize,
    pub phase: OpenPhase,
}

/// The opening of the mutex `name`; `max_name_len` is the longest name that
/// the service accepts.
pub struct OpenMutex {
    name: String,
    max_name_len: usize,
    phase: OpenPhase,
}

impl View for OpenMutex {
    type V = OpenMutexModel;

    closed spec fn view(&self) -> OpenMutexModel {
        OpenMutexModel { name: self.name@, max_name_len: self.max_name_len, phase: self.phase }
    }
}

/// Whether `input` is what the phase waits for.
pub open spec fn spec_accepts(phase: OpenPhase, input: OpenInput) -> bool {
    match phase {
        OpenPhase::Start => input is Start,
        OpenPhase::AwaitingReply => input is RequestNotWritten || input is ExchangeFailed
            || input is Reply,
        OpenPhase::AwaitingPageFile { .. } => input is PageFileFailed || input is PageFileSize,
        OpenPhase::AwaitingMapping { .. } => input is MappingFailed || input is Mapped,
        OpenPhase::Done => false,
    }
}

/// An error of the shared memory, with details.
pub open spec fn spec_shm_error(details: Seq<char>) -> PartialErrorModel {
    PartialErrorModel { error_type: ErrorType::SharedMemoryError, details: Some(details) }
}

/// The environment is unchanged.
pub open spec fn spec_same_env(e0: EnvironmentModel, e1: EnvironmentModel) -> bool {
    e1 == e0
}

/// The end of an opening of `name` at `offset` in `page` (newly mapped at
/// `new_base` if it was not mapped): the page is recorded, and the mutex's
/// address is recorded under `name`, or why it cannot be accessed is the result.
pub open spec fn spec_finish(
    e0: EnvironmentModel,
    name: Seq<char>,
    page: usize,
    offset: usize,
    new_base: Option<usize>,
    e1: EnvironmentModel,
    act: OpenActionModel,
) -> bool {
    let pages = if e0.pages.contains_key(page) {
        e0.pages
    } else {
        e0.pages.insert(page, new_base.unwrap())
    };
    let res = spec_access(e0.page_size, pages[page], offset, e0.mutex_size, e0.mutex_align);
    &&& e1.pages == pages
    &&& e1.page_size == e0.page_size
    &&& e1.alive == e0.alive
    &&& e1.mutex_size == e0.mutex_size
    &&& e1.mutex_align == e0.mutex_align
    &&& e1.open_mutexes == match res {
        Ok(h) => e0.open_mutexes.insert(name, h),
        Err(_) => e0.open_mutexes,
    }
    &&& act == OpenActionModel::Done(res)
}

/// One step of an opening: from the environment `e0` and the opening `o0`,
/// given `input`, to the environment `e1`, the phase `p1` and the action `act`.
pub open spec fn spec_step(
    e0: EnvironmentModel,
    o0: OpenMutexModel,
    input: OpenInput,
    e1: EnvironmentModel,
    p1: OpenPhase,
    act: OpenActionModel,
) -> bool {
    let name = o0.name;
    match o0.phase {
        OpenPhase::Start => if e0.open_mutexes.contains_key(name) {
            spec_same_env(e0, e1) && p1 == OpenPhase::Done && act == OpenActionModel::Done(
                Ok(e0.open_mutexes[name]),
            )
        } else {
            spec_same_env(e0, e1) && p1 == OpenPhase::AwaitingReply && act
                == OpenActionModel::Exchange
        },
        OpenPhase::AwaitingReply => match input {
            OpenInput::RequestNotWritten(f) => spec_same_env(e0, e1) && p1 == OpenPhase::Done
                && act == OpenActionModel::Done(
                Err(spec_request_failure(NameKind::Mutex, f, o0.max_name_len)),
            ),
            OpenInput::ExchangeFailed(t) => spec_same_env(e0, e1) && p1 == OpenPhase::Done && act
                == OpenActionModel::Done(Err(spec_communication_error(t@))),
            OpenInput::Reply(reply, fd) => match spec_open_mutex_outcome(reply, fd) {
                Err(e) => spec_same_env(e0, e1) && p1 == OpenPhase::Done && act
                    == OpenActionModel::Done(Err(e)),
                Ok((page, offset)) => if e0.pages.contains_key(page) {
                    p1 == OpenPhase::Done && spec_finish(e0, name, page, offset, None, e1, act)
                } else {
                    spec_same_env(e0, e1) && p1 == (OpenPhase::AwaitingPageFile { page, offset })
                        && act == OpenActionModel::StatPageFile
                },
            },
            _ => false,
        },
        OpenPhase::AwaitingPageFile { page, offset } => match input {
            OpenInput::PageFileFailed(t) => spec_same_env(e0, e1) && p1 == OpenPhase::Done && act
                == OpenActionModel::Done(Err(spec_shm_error(t@))),
            OpenInput::PageFileSize(size) => if (size as usize) == e0.page_size {
                spec_same_env(e0, e1) && p1 == (OpenPhase::AwaitingMapping { page, offset }) && act
                    == OpenActionModel::MapPage
            } else {
                spec_same_env(e0, e1) && p1 == OpenPhase::Done && act == OpenActionModel::Done(
                    Err(spec_shm_error(spec_page_size_mismatch())),
                )
            },
            _ => false,
        },
        OpenPhase::AwaitingMapping { page, offset } => match input {
            OpenInput::MappingFailed(t) => spec_same_env(e0, e1) && p1 == OpenPhase::Done && act
                == OpenActionModel::Done(Err(spec_shm_error(t@))),
            OpenInput::Mapped(base) => p1 == OpenPhase::Done && spec_finish(
                e0,
                name,
                page,
                offset,
                Some(base),
                e1,
                act,
            ),
            _ => false,
        },
        OpenPhase::Done => false,
    }
}

/// What the step needs where it computes the mutex's address: there the
/// offset leaves room for a mutex in the address space (the address is
/// computed for a reply whose page file came and whose page is mapped
/// already, and for a newly mapped page), and a new mapping lies above
/// address zero and within the address space.
pub open spec fn spec_input_in_range(e0: EnvironmentModel, phase: OpenPhase, input: OpenInput) -> bool {
    &&& input matches OpenInput::Reply(EnvironmentReply::OpenMutexOk(page, offset), true) ==> (
    e0.pages.contains_key(page) ==> offset + e0.mutex_size <= usize::MAX)
    &&& input matches OpenInput::Mapped(base) ==> {
        &&& 0 < base
        &&& base + e0.page_size <= usize::MAX
        &&& phase matches OpenPhase::AwaitingMapping { offset, .. } ==> offset + e0.mutex_size
            <= usize::MAX
    }
}

impl OpenMutex {
    /// The opening of the mutex `name`, before its first step.
    pub fn new(name: &str, max_name_len: usize) -> (r: Self)
        ensures
            r@ == (OpenMutexModel { name: name@, max_name_len, phase: OpenPhase::Start }),
    {
        OpenMutex { name: String::from_str(name), max_name_len, phase: OpenPhase::Start }
    }

    /// Where the opening stands.
    pub fn phase(&self) -> (r: OpenPhase)
        ensures
            r == self@.phase,
    {
        self.phase
    }

    fn finish(
        &mut self,
        env: &mut Environment,
        page: usize,
        offset: usize,
        new_base: Option<usize>,
    ) -> (act: OpenAction)
        requires
            old(env).wf(),
            offset + old(env)@.mutex_size <= usize::MAX,
            !old(env)@.pages.contains_key(page) ==> (new_base matches Some(b) && 0 < b && b
                + old(env)@.page_size <= usize::MAX),
        ensures
            final(env).wf(),
            final(self)@ == (OpenMutexModel { phase: OpenPhase::Done, ..old(self)@ }),
            spec_finish(
                old(env)@,
                old(self)@.name,
                page,
                offset,
                new_base,
                final(env)@,
                action_view(act),
            ),
    {
        self.phase = OpenPhase::Done;
        let r = env.finish_open_mutex(self.name.as_str(), page, offset, new_base);
        OpenAction::Done(r)
    }

    /// Takes one step of the opening on `env`, given what the last exchange
    /// gave: the environment and the phase move on, and the next action is
    /// returned.
    pub fn step(&mut self, env: &mut Environment, input: OpenInput) -> (act: OpenAction)
        requires
            old(env).wf(),
            spec_accepts(old(self)@.phase, input),
            spec_input_in_range(old(env)@, old(self)@.phase, input),
        ensures
            final(env).wf(),
            spec_env_invariant(final(env)@),
            final(self)@.name == old(self)@.name,
            final(self)@.max_name_len == old(self)@.max_name_len,
            spec_step(old(env)@, old(self)@, input, final(env)@, final(self)@.phase, action_view(act)),
    {
        let act = match self.phase {
            OpenPhase::Start => match env.cached_mutex(self.name.as_str()) {
                Some(h) => {
                    self.phase = OpenPhase::Done;
                    OpenAction::Done(Ok(h))
                },
                None => {
                    self.phase = OpenPhase::AwaitingReply;
                    OpenAction::Exchange
                },
            },
            OpenPhase::AwaitingReply => match input {
                OpenInput::RequestNotWritten(f) => {
                    self.phase = OpenPhase::Done;
                    OpenAction::Done(Err(request_failure(NameKind::Mutex, f, self.max_name_len)))
                },
                OpenInput::ExchangeFailed(t) => {
                    self.phase = OpenPhase::Done;
                    OpenAction::Done(Err(communication_error(t)))
                },
                OpenInput::Reply(reply, fd) => match open_mutex_outcome(reply, fd) {
                    Err(e) => {
                        self.phase = OpenPhase::Done;
                        OpenAction::Done(Err(e))
                    },
                    Ok((page, offset)) => {
                        if env.needs_page(page) {
                            self.phase = OpenPhase::AwaitingPageFile { page, offset };
                            OpenAction::StatPageFile
                        } else {
                            self.finish(env, page, offset, None)
                        }
                    },
                },
                _ => {
                    self.phase = OpenPhase::Done;
                    OpenAction::Done(Err(communication_error(String::new())))
                },
            },
            OpenPhase::AwaitingPageFile { page, offset } => match input {
                OpenInput::PageFileFailed(t) => {
                    self.phase = OpenPhase::Done;
                    OpenAction::Done(
                        Err(PartialError::with_details(ErrorType::SharedMemoryError, t)),
                    )
                },
                OpenInput::PageFileSize(size) => match env.check_page_file(size) {
                    Ok(()) => {
                        self.phase = OpenPhase::AwaitingMapping { page, offset };
                        OpenAction::MapPage
                    },
                    Err(e) => {
                        self.phase = OpenPhase::Done;
                        OpenAction::Done(Err(e))
                    },
                },
                _ => {
                    self.phase = OpenPhase::Done;
                    OpenAction::Done(Err(communication_error(String::new())))
                },
            },
            OpenPhase::AwaitingMapping { page, offset } => match input {
                OpenInput::MappingFailed(t) => {
                    self.phase = OpenPhase::Done;
                    OpenAction::Done(
                        Err(PartialError::with_details(ErrorType::SharedMemoryError, t)),
                    )
                },
                OpenInput::Mapped(base) => self.finish(env, page, offset, Some(base)),
                _ => {
                    self.phase = OpenPhase::Done;
                    OpenAction::Done(Err(communication_error(String::new())))
                },
            },
            OpenPhase::Done => OpenAction::Done(Err(communication_error(String::new()))),
        };
        proof {
            env.lemma_wf_keeps_invariant();
        }
        act
    }
}

/// The service's answer ends an opening that waits for it unless the answer
/// names a page and a page file came with it: a reply reporting an internal
/// error, a malformed request, or a placement without a page file ends the
/// opening with the failure to communicate with the service, carrying the
/// report, and changes nothing. The request is sent only from the start.
pub proof fn lemma_service_errors_end_the_opening(
    e0: EnvironmentModel,
    o0: OpenMutexModel,
    input: OpenInput,
    e1: EnvironmentModel,
    p1: OpenPhase,
    act: OpenActionModel,
)
    requires
        spec_step(e0, o0, input, e1, p1, act),
    ensures
        act is Exchange ==> o0.phase == OpenPhase::Start,
        o0.phase == OpenPhase::AwaitingReply && (input matches OpenInput::Reply(
            EnvironmentReply::InternalError,
            _,
        )) ==> p1 == OpenPhase::Done && e1 == e0 && act == OpenActionModel::Done(
            Err(
                PartialErrorModel {
                    error_type: ErrorType::ServiceCommunicationFailed,
                    details: Some("garnd service reported an internal error."@),
                },
            ),
        ),
        o0.phase == OpenPhase::AwaitingReply && (input matches OpenInput::Reply(
            EnvironmentReply::MalformedRequest,
            _,
        )) ==> p1 == OpenPhase::Done && e1 == e0 && act == OpenActionModel::Done(
            Err(
                PartialErrorModel {
                    error_type: ErrorType::ServiceCommunicationFailed,
                    details: Some("garnd service reported a malformed request."@),
                },
            ),
        ),
        o0.phase == OpenPhase::AwaitingReply && (input matches OpenInput::Reply(
            EnvironmentReply::OpenMutexOk(_, _),
            false,
        )) ==> p1 == OpenPhase::Done && e1 == e0 && act == OpenActionModel::Done(
            Err(
                PartialErrorModel {
                    error_type: ErrorType::ServiceCommunicationFailed,
                    details: Some(
                        "The garnd service did not provide a shared memory file descriptor."@,
                    ),
                },
            ),
        ),
{
}

/// An opening that ends in an error has recorded no mutex, and one that ends
/// with an address has recorded that address under its name, beside the
/// mutexes recorded before.
pub proof fn lemma_failed_open_records_nothing(
    e0: EnvironmentModel,
    o0: OpenMutexModel,
    input: OpenInput,
    e1: EnvironmentModel,
    p1: OpenPhase,
    act: OpenActionModel,
)
    requires
        spec_step(e0, o0, input, e1, p1, act),
    ensures
        act matches OpenActionModel::Done(Err(_)) ==> e1.open_mutexes == e0.open_mutexes,
        act matches OpenActionModel::Done(Ok(h)) ==> e1.open_mutexes == e0.open_mutexes.insert(
            o0.name,
            h,
        ),
        !(act is Done) ==> e1 == e0,
{
}

} // verus!
