//! The opening of an environment in two steps: the system's page size is
//! learned first, and only then is the service asked; what the exchange with
//! the service gave decides the result.

use vstd::prelude::*;
use crate::environment::{
    communication_error, request_failure, spec_communication_error, spec_request_failure,
    spec_welcome_outcome, Environment, EnvironmentModel, NameKind, RequestFailure, WelcomeReply,
};
use crate::error_handling::{ErrorType, PartialError, PartialErrorModel};
use crate::shm_consumer::ShmConsumer;

verus! {

/// What the exchange with the service gave.
pub enum OpenEnvironmentInput {
    /// The request could not be written.
    RequestNotWritten(RequestFailure),
    /// Connecting, sending, receiving or reading the reply failed, as described.
    ExchangeFailed(String),
    /// The service replied.
    Reply(WelcomeReply),
}

/// An opening of an environment whose page size is known and which waits for
/// the exchange with the service.
pub struct OpenEnvironment {
    shm_consumer: ShmConsumer,
    max_name_len: usize,
    mutex_size: usize,
    mutex_align: usize,
}

/// What an [`OpenEnvironment`] holds, as plain values.
pub struct OpenEnvironmentModel {
    pub page_size: usize,
    pub max_name_len: usize,
    pub mutex_size: usize,
    pub mutex_align: usize,
}

impl View for OpenEnvironment {
    type V = OpenEnvironmentModel;

    closed spec fn view(&self) -> OpenEnvironmentModel {
        OpenEnvironmentModel {
            page_size: self.shm_consumer@.page_size,
            max_name_len: self.max_name_len,
            mutex_size: self.mutex_size,
            mutex_align: self.mutex_align,
        }
    }
}

/// The result of the exchange for an opening `o`: the new environment, with
/// no mutex and no page, or the error.
pub open spec fn spec_open_environment(
    o: OpenEnvironmentModel,
    input: OpenEnvironmentInput,
    r: Result<EnvironmentModel, PartialErrorModel>,
) -> bool {
    match input {
        OpenEnvironmentInput::RequestNotWritten(f) => r == Err::<
            EnvironmentModel,
            PartialErrorModel,
        >(spec_request_failure(NameKind::Environment, f, o.max_name_len)),
        OpenEnvironmentInput::ExchangeFailed(t) => r == Err::<EnvironmentModel, PartialErrorModel>(
            spec_communication_error(t@),
        ),
        OpenEnvironmentInput::Reply(reply) => match spec_welcome_outcome(reply) {
            Err(e) => r == Err::<EnvironmentModel, PartialErrorModel>(e),
            Ok(_) => r == Ok::<EnvironmentModel, PartialErrorModel>(
                EnvironmentModel {
                    open_mutexes: Map::empty(),
                    page_size: o.page_size,
                    pages: Map::empty(),
                    alive: true,
                    mutex_size: o.mutex_size,
                    mutex_align: o.mutex_align,
                },
            ),
        },
    }
}

/// The view of a result whose value is an environment.
pub open spec fn env_result_view(r: Result<Environment, PartialError>) -> Result<
    EnvironmentModel,
    PartialErrorModel,
> {
    match r {
        Ok(e) => Ok(e@),
        Err(e) => Err(e@),
    }
}

/// The exchange decides the opening of an environment: it opens exactly when
/// the service answers that the environment is open, and then with no mutex,
/// no mapped page, alive, with the page size learned at the start; a reply
/// reporting a malformed request or an internal error gives the failure to
/// communicate with the service, with the service's report as details.
pub proof fn lemma_open_environment_outcomes(
    o: OpenEnvironmentModel,
    input: OpenEnvironmentInput,
    r: Result<EnvironmentModel, PartialErrorModel>,
)
    requires
        spec_open_environment(o, input, r),
    ensures
        r is Ok <==> input matches OpenEnvironmentInput::Reply(WelcomeReply::OpenEnvironmentOk),
        input matches OpenEnvironmentInput::Reply(WelcomeReply::InternalError) ==> r == Err::<
            EnvironmentModel,
            PartialErrorModel,
        >(
            PartialErrorModel {
                error_type: ErrorType::ServiceCommunicationFailed,
                details: Some("garnd service reported an internal error."@),
            },
        ),
        input matches OpenEnvironmentInput::Reply(WelcomeReply::MalformedRequest) ==> r == Err::<
            EnvironmentModel,
            PartialErrorModel,
        >(
            PartialErrorModel {
                error_type: ErrorType::ServiceCommunicationFailed,
                details: Some("garnd service reported a malformed request."@),
            },
        ),
        r matches Ok(m) ==> m.open_mutexes == Map::<Seq<char>, usize>::empty() && m.pages == Map::<
            usize,
            usize,
        >::empty() && m.alive && m.page_size == o.page_size,
{
}

impl OpenEnvironment {
    /// The page table is valid and empty.
    pub closed spec fn wf(&self) -> bool {
        &&& self.shm_consumer.wf()
        &&& self.shm_consumer@.pages == Map::<usize, usize>::empty()
    }

    /// Begins opening an environment: learns the system's page size, which
    /// must succeed before the service is asked; `max_name_len` is the
    /// longest name that the service accepts, and the service's mutexes have
    /// `mutex_size` bytes and the alignment `mutex_align`.
    pub fn start(max_name_len: usize, mutex_size: usize, mutex_align: usize) -> (r: Result<
        Self,
        PartialError,
    >)
        ensures
            match r {
                Ok(o) => o.wf() && o@.page_size > 0 && o@.max_name_len == max_name_len && o@.mutex_size
                    == mutex_size && o@.mutex_align == mutex_align,
                Err(e) => e@ == (PartialErrorModel {
                    error_type: ErrorType::GetPageSizeFailed,
                    details: None,
                }),
            },
    {
        match ShmConsumer::new() {
            Ok(shm_consumer) => Ok(
                OpenEnvironment { shm_consumer, max_name_len, mutex_size, mutex_align },
            ),
            Err(e) => Err(e),
        }
    }

    /// Ends the opening with what the exchange with the service gave.
    pub fn finish(self, input: OpenEnvironmentInput) -> (r: Result<Environment, PartialError>)
        requires
            self.wf(),
        ensures
            spec_open_environment(self@, input, env_result_view(r)),
            r matches Ok(env) ==> env.wf(),
    {
        match input {
            OpenEnvironmentInput::RequestNotWritten(f) => Err(
                request_failure(NameKind::Environment, f, self.max_name_len),
            ),
            OpenEnvironmentInput::ExchangeFailed(t) => Err(communication_error(t)),
            OpenEnvironmentInput::Reply(reply) => Environment::new(
                self.shm_consumer,
                reply,
                self.mutex_size,
                self.mutex_align,
            ),
        }
    }
}

} // verus!
