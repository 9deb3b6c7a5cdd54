use garn::alive_marker::{AliveMarker, ALIVE_MARKER};
use garn::decimal::decimal;
use garn::environment::{
    communication_error, open_mutex_outcome, request_failure, welcome_outcome, Environment,
    EnvironmentReply, NameKind, RequestFailure, WelcomeReply,
};
use garn::error_handling::{contains_nul, fatal_report, Error, ErrorType, PartialError};
use garn::interface::{
    check_environment_destroy, check_environment_init, check_environment_open_mutex,
    check_mutex_call, mutex_call_name, CStrArg, MutexCall,
};
use garn::local_mutex::Mutex;
use garn::mutex::{classify_mutex_code, lock_outcome, try_lock_outcome, unlock_outcome};
use garn::reflect::{arg_name_const_identifier, c_interface_reflect, reflect_params, Param};
use garn::open_environment::{OpenEnvironment, OpenEnvironmentInput};
use garn::open_mutex::{OpenAction, OpenInput, OpenMutex, OpenPhase};
use garn::registry::MutexRegistry;
use garn::shm_consumer::ShmConsumer;

#[test]
fn lib_it_works() {}

#[test]
fn error_codes_are_stable() {
    let all = [
        (ErrorType::NonNullReferenceViolation, 1),
        (ErrorType::InvalidString, 2),
        (ErrorType::MutexAlreadyOpened, 3),
        (ErrorType::ThreadOwnershipViolation, 4),
        (ErrorType::ServiceCommunicationFailed, 5),
        (ErrorType::NameTooLong, 6),
        (ErrorType::SharedMemoryError, 7),
        (ErrorType::GetPageSizeFailed, 8),
        (ErrorType::UseAfterDestroy, 9),
        (ErrorType::MutexNestedLock, 10),
        (ErrorType::MutexUnauthorizedUnlock, 11),
        (ErrorType::MutexTrylockFailed, 12),
        (ErrorType::MutexError, 13),
        (ErrorType::SerializationError, 14),
        (ErrorType::ShmAccessOutOfBounds, 15),
        (ErrorType::ShmMisalignedAccess, 16),
    ];
    for (t, c) in all {
        assert_eq!(t.code(), c);
    }
}

#[test]
fn error_messages() {
    assert_eq!(
        ErrorType::NonNullReferenceViolation.get_c_error_message(),
        "A null-reference was provided to a garn-function expecting a non-null-reference."
    );
    assert_eq!(
        ErrorType::InvalidString.get_c_error_message(),
        "An invalid UTF8-string was provided to a garn-function."
    );
    assert_eq!(ErrorType::NameTooLong.get_c_error_message(), "The provided name was too long.");
    assert_eq!(
        ErrorType::GetPageSizeFailed.get_c_error_message(),
        "Could not determine the system's page size."
    );
}

#[test]
fn partial_error_constructors() {
    let e = PartialError::new(ErrorType::MutexError);
    assert_eq!(e.error_type(), ErrorType::MutexError);
    assert_eq!(e.details(), None);
    let e = PartialError::with_details(ErrorType::SharedMemoryError, "boom".to_string());
    assert_eq!(e.error_type(), ErrorType::SharedMemoryError);
    assert_eq!(e.details(), Some("boom"));
}

#[test]
fn nul_detection() {
    assert!(!contains_nul(""));
    assert!(!contains_nul("abc"));
    assert!(contains_nul("a\0b"));
    assert!(contains_nul("\0"));
}

#[test]
fn error_constructors_and_getters() {
    let e = Error::new(ErrorType::InvalidString, "garn_x");
    assert_eq!(e.error_type(), ErrorType::InvalidString);
    assert_eq!(e.code(), 2);
    assert_eq!(e.get_message(), ErrorType::InvalidString.get_c_error_message());
    assert_eq!(e.get_fn_name(), "garn_x");
    assert_eq!(e.get_arg_name(), None);
    assert_eq!(e.get_details(), None);

    let e = Error::with_arg(ErrorType::NonNullReferenceViolation, "garn_y", "env");
    assert_eq!(e.get_fn_name(), "garn_y");
    assert_eq!(e.get_arg_name(), Some("env"));

    let p = PartialError::with_details(ErrorType::NameTooLong, "too long".to_string());
    let e = Error::from_partial(p, "garn_z");
    assert_eq!(e.error_type(), ErrorType::NameTooLong);
    assert_eq!(e.get_details(), Some("too long"));
    assert_eq!(e.get_arg_name(), None);

    let p = PartialError::new(ErrorType::UseAfterDestroy);
    let e = Error::from_partial_with_arg(p, "garn_w", "mutex");
    assert_eq!(e.code(), 9);
    assert_eq!(e.get_arg_name(), Some("mutex"));
    assert_eq!(e.get_details(), None);
}

#[test]
fn error_report_text() {
    let e = Error::new(ErrorType::NameTooLong, "garn_f");
    assert_eq!(
        e.report(),
        "garn: The provided name was too long.\n      In function: garn_f\n"
    );
    let p = PartialError::with_details(ErrorType::NameTooLong, "max 3".to_string());
    let e = Error::from_partial_with_arg(p, "garn_f", "name");
    assert_eq!(
        e.report(),
        "garn: The provided name was too long.\n      In function: garn_f\n      Responsible argument: name\n      Additional details: max 3\n"
    );
    assert_eq!(fatal_report("bad"), "garn: FATAL! bad\n");
}

#[test]
fn alive_marker_lifecycle() {
    let mut m = AliveMarker::new();
    assert!(m.check().is_ok());
    m.invalidate();
    let e = m.check().unwrap_err();
    assert_eq!(e.error_type(), ErrorType::UseAfterDestroy);
    assert_eq!(e.details(), None);
    assert_ne!(ALIVE_MARKER, 0);
}

#[test]
fn page_size_query() {
    assert_eq!(
        ShmConsumer::from_page_size(None).err().unwrap().error_type(),
        ErrorType::GetPageSizeFailed
    );
    assert_eq!(
        ShmConsumer::from_page_size(Some(0)).err().unwrap().error_type(),
        ErrorType::GetPageSizeFailed
    );
    let c = ShmConsumer::from_page_size(Some(4096)).ok().unwrap();
    assert_eq!(c.page_size(), 4096);
    assert!(!c.is_loaded(0));
    assert_eq!(
        ShmConsumer::from_page_size(Some(-4096)).err().unwrap().error_type(),
        ErrorType::GetPageSizeFailed
    );
}

#[test]
fn system_page_size() {
    let c = ShmConsumer::new().ok().unwrap();
    let ps = c.page_size();
    assert!(ps >= 4096);
    assert_eq!(ps & (ps - 1), 0);
    assert_eq!(ps as i64, nix::unistd::sysconf(nix::unistd::SysconfVar::PAGE_SIZE).unwrap().unwrap() as i64);
}

#[test]
fn page_file_size_check() {
    let c = ShmConsumer::from_page_size(Some(4096)).ok().unwrap();
    assert!(c.check_page_file(4096).is_ok());
    let e = c.check_page_file(100).unwrap_err();
    assert_eq!(e.error_type(), ErrorType::SharedMemoryError);
    assert_eq!(
        e.details(),
        Some("Size of received page file does not match the system's page size")
    );
    assert!(c.check_page_file(-1).is_err());
}

#[test]
fn resource_access() {
    let mut c = ShmConsumer::from_page_size(Some(4096)).ok().unwrap();
    assert_eq!(c.consume(3, Some(0x10000), 64, 40, 8).ok(), Some(0x10040));
    assert!(c.is_loaded(3));
    // The page stays at its first address.
    assert_eq!(c.consume(3, Some(0x90000), 128, 40, 8).ok(), Some(0x10080));
    assert_eq!(c.access_resource(3, 0, 4096, 1).ok(), Some(0x10000));
    assert_eq!(
        c.access_resource(3, 4090, 8, 1).err().unwrap().error_type(),
        ErrorType::ShmAccessOutOfBounds
    );
    assert_eq!(
        c.access_resource(3, 4, 8, 8).err().unwrap().error_type(),
        ErrorType::ShmMisalignedAccess
    );
    assert_eq!(
        c.access_resource(3, 4, 8, 0).err().unwrap().error_type(),
        ErrorType::ShmMisalignedAccess
    );
    assert_eq!(c.access_resource(3, 0, 8, 0).ok(), Some(0x10000));
    c.add_page(5, 0x20000);
    assert_eq!(c.access_resource(5, 16, 8, 8).ok(), Some(0x20010));
}

#[test]
fn mutex_registry() {
    let mut r = MutexRegistry::new();
    assert_eq!(r.get("a"), None);
    r.insert("a", 10);
    r.insert("b", 20);
    assert_eq!(r.get("a"), Some(10));
    assert_eq!(r.get("b"), Some(20));
    r.insert("a", 30);
    assert_eq!(r.get("a"), Some(30));
    assert_eq!(r.get("b"), Some(20));
    assert_eq!(r.get("c"), None);
}

#[test]
fn decimal_notation() {
    assert_eq!(decimal(0), "0");
    assert_eq!(decimal(7), "7");
    assert_eq!(decimal(10), "10");
    assert_eq!(decimal(1234), "1234");
    assert_eq!(decimal(usize::MAX), usize::MAX.to_string());
}

#[test]
fn request_failures() {
    let e = request_failure(NameKind::Environment, RequestFailure::ArgumentTooLong, 255);
    assert_eq!(e.error_type(), ErrorType::NameTooLong);
    assert_eq!(
        e.details(),
        Some("The maximum length of an environment name is 255 bytes.")
    );
    let e = request_failure(NameKind::Mutex, RequestFailure::ArgumentTooLong, 64);
    assert_eq!(e.details(), Some("The maximum length of a mutex name is 64 bytes."));
    let e = request_failure(NameKind::Mutex, RequestFailure::Other("x".to_string()), 64);
    assert_eq!(e.error_type(), ErrorType::SerializationError);
    assert_eq!(e.details(), Some("x"));
    let e = communication_error("lost".to_string());
    assert_eq!(e.error_type(), ErrorType::ServiceCommunicationFailed);
    assert_eq!(e.details(), Some("lost"));
}

#[test]
fn service_replies() {
    assert!(welcome_outcome(WelcomeReply::OpenEnvironmentOk).is_ok());
    let e = welcome_outcome(WelcomeReply::MalformedRequest).unwrap_err();
    assert_eq!(e.error_type(), ErrorType::ServiceCommunicationFailed);
    assert_eq!(e.details(), Some("garnd service reported a malformed request."));
    let e = welcome_outcome(WelcomeReply::InternalError).unwrap_err();
    assert_eq!(e.details(), Some("garnd service reported an internal error."));

    assert_eq!(open_mutex_outcome(EnvironmentReply::OpenMutexOk(2, 64), true).ok(), Some((2, 64)));
    let e = open_mutex_outcome(EnvironmentReply::OpenMutexOk(2, 64), false).unwrap_err();
    assert_eq!(
        e.details(),
        Some("The garnd service did not provide a shared memory file descriptor.")
    );
    let e = open_mutex_outcome(EnvironmentReply::InternalError, false).unwrap_err();
    assert_eq!(e.details(), Some("garnd service reported an internal error."));
    let e = open_mutex_outcome(EnvironmentReply::MalformedRequest, true).unwrap_err();
    assert_eq!(e.details(), Some("garnd service reported a malformed request."));
}

#[test]
fn environment_opens_and_caches_mutexes() {
    let shm = ShmConsumer::from_page_size(Some(4096)).ok().unwrap();
    assert!(Environment::new(shm, WelcomeReply::InternalError, 40, 8).is_err());
    let shm = ShmConsumer::from_page_size(Some(4096)).ok().unwrap();
    let mut env = Environment::new(shm, WelcomeReply::OpenEnvironmentOk, 40, 8).ok().unwrap();
    assert!(env.check_alive().is_ok());
    assert_eq!(env.cached_mutex("m"), None);
    assert!(env.needs_page(1));
    assert!(env.check_page_file(4096).is_ok());
    assert_eq!(env.finish_open_mutex("m", 1, 128, Some(0x4000)).ok(), Some(0x4080));
    assert_eq!(env.cached_mutex("m"), Some(0x4080));
    assert!(!env.needs_page(1));
    let e = env.finish_open_mutex("n", 1, 4095, None).unwrap_err();
    assert_eq!(e.error_type(), ErrorType::ShmAccessOutOfBounds);
    assert_eq!(env.cached_mutex("n"), None);
    let e = env.finish_open_mutex("n", 1, 4, None).unwrap_err();
    assert_eq!(e.error_type(), ErrorType::ShmMisalignedAccess);
    assert_eq!(env.finish_open_mutex("n", 2, 0, Some(0x9000)).ok(), Some(0x9000));
    assert_eq!(env.cached_mutex("n"), Some(0x9000));
    assert_eq!(env.cached_mutex("m"), Some(0x4080));
    env.destroy();
    assert_eq!(env.check_alive().unwrap_err().error_type(), ErrorType::UseAfterDestroy);
}

#[test]
fn mutex_return_codes() {
    assert!(classify_mutex_code(0, 35, ErrorType::MutexNestedLock, "x".to_string()).is_ok());
    let e = classify_mutex_code(35, 35, ErrorType::MutexNestedLock, "x".to_string()).unwrap_err();
    assert_eq!(e.error_type(), ErrorType::MutexNestedLock);
    assert_eq!(e.details(), None);
    let e = classify_mutex_code(22, 35, ErrorType::MutexNestedLock, "bad".to_string()).unwrap_err();
    assert_eq!(e.error_type(), ErrorType::MutexError);
    assert_eq!(e.details(), Some("bad"));

    assert!(lock_outcome(0, String::new()).is_ok());
    let e = lock_outcome(nix::libc::EINVAL, "inv".to_string()).unwrap_err();
    assert_eq!(e.error_type(), ErrorType::MutexError);
    assert_eq!(e.details(), Some("inv"));
    assert_eq!(
        unlock_outcome(1, String::new()).unwrap_err().error_type(),
        ErrorType::MutexUnauthorizedUnlock
    );
    let e = try_lock_outcome(16, String::new()).unwrap_err();
    assert_eq!(e.error_type(), ErrorType::MutexTrylockFailed);
    assert_eq!(e.details(), None);
    assert!(unlock_outcome(0, String::new()).is_ok());
    assert!(try_lock_outcome(0, String::new()).is_ok());
    assert_eq!(
        unlock_outcome(16, "busy".to_string()).unwrap_err().error_type(),
        ErrorType::MutexError
    );
    assert_eq!(
        lock_outcome(nix::libc::EDEADLK, String::new()).unwrap_err().error_type(),
        ErrorType::MutexNestedLock
    );
    assert_eq!(
        unlock_outcome(nix::libc::EPERM, String::new()).unwrap_err().error_type(),
        ErrorType::MutexUnauthorizedUnlock
    );
    assert_eq!(
        try_lock_outcome(nix::libc::EBUSY, String::new()).unwrap_err().error_type(),
        ErrorType::MutexTrylockFailed
    );
    assert_eq!(
        try_lock_outcome(nix::libc::EINVAL, "inv".to_string()).unwrap_err().error_type(),
        ErrorType::MutexError
    );
}

#[test]
fn interface_argument_checks() {
    let e = check_environment_init(false, CStrArg::Null).unwrap_err();
    assert_eq!(e.error_type(), ErrorType::NonNullReferenceViolation);
    assert_eq!(e.get_fn_name(), "garn_environment_init");
    assert_eq!(e.get_arg_name(), Some("env"));
    let e = check_environment_init(true, CStrArg::Null).unwrap_err();
    assert_eq!(e.get_arg_name(), Some("name"));
    let e = check_environment_init(true, CStrArg::NotUtf8).unwrap_err();
    assert_eq!(e.error_type(), ErrorType::InvalidString);
    assert_eq!(check_environment_init(true, CStrArg::Text("env1".to_string())).ok(), Some("env1".to_string()));

    let e = check_environment_destroy(true, false).unwrap_err();
    assert_eq!(e.error_type(), ErrorType::ThreadOwnershipViolation);
    assert_eq!(e.get_fn_name(), "garn_environment_destroy");
    assert_eq!(check_environment_destroy(false, false).unwrap_err().error_type(), ErrorType::NonNullReferenceViolation);
    assert!(check_environment_destroy(true, true).is_ok());

    let e = check_environment_open_mutex(true, true, false, CStrArg::Null).unwrap_err();
    assert_eq!(e.get_arg_name(), Some("mutex"));
    assert_eq!(e.get_fn_name(), "garn_environment_open_mutex");
    let e = check_environment_open_mutex(true, false, false, CStrArg::Null).unwrap_err();
    assert_eq!(e.error_type(), ErrorType::ThreadOwnershipViolation);
    let e = check_environment_open_mutex(true, true, true, CStrArg::NotUtf8).unwrap_err();
    assert_eq!(e.get_arg_name(), Some("name"));
    assert_eq!(
        check_environment_open_mutex(true, true, true, CStrArg::Text("m".to_string())).ok(),
        Some("m".to_string())
    );

    let e = check_mutex_call(MutexCall::TryLock, false).unwrap_err();
    assert_eq!(e.get_fn_name(), "garn_mutex_try_lock");
    assert_eq!(e.get_arg_name(), Some("mutex"));
    assert!(check_mutex_call(MutexCall::Lock, true).is_ok());
    assert_eq!(mutex_call_name(MutexCall::Unlock), "garn_mutex_unlock");
}

#[test]
fn named_local_mutex() {
    let m = Mutex::new("local");
    m.lock();
    m.try_lock();
    m.unlock();
    assert_eq!(m.name(), "local");
}

#[test]
fn parameter_constants() {
    assert_eq!(arg_name_const_identifier("env"), "ARG_ENV");
    assert_eq!(arg_name_const_identifier("name_2"), "ARG_NAME_2");
    let params = vec![
        Param::Receiver,
        Param::Ident("env".to_string()),
        Param::Wildcard,
        Param::Ident("name".to_string()),
    ];
    let consts = reflect_params(&params).unwrap();
    assert_eq!(consts.len(), 2);
    assert_eq!(consts[0].const_name, "ARG_ENV");
    assert_eq!(consts[0].value, "env");
    assert_eq!(consts[1].const_name, "ARG_NAME");
    assert_eq!(consts[1].value, "name");
    assert!(reflect_params(&vec![Param::Ident("a".to_string()), Param::Destructuring]).is_none());
    assert_eq!(reflect_params(&vec![]).unwrap().len(), 0);
}

#[test]
fn interface_function_constants() {
    let params = vec![Param::Ident("mutex_name".to_string()), Param::Wildcard];
    let stmts = vec!["7"];
    let f = c_interface_reflect("sig", "open", &params, stmts).ok().unwrap();
    assert_eq!(f.head, "sig");
    assert_eq!(f.fn_const.const_name, "FN_NAME");
    assert_eq!(f.fn_const.value, "open");
    assert_eq!(f.arg_consts.len(), 1);
    assert_eq!(f.arg_consts[0].const_name, "ARG_MUTEX_NAME");
    assert_eq!(f.arg_consts[0].value, "mutex_name");
    assert_eq!(f.stmts, vec!["7"]);

    let params = vec![Param::Destructuring];
    let e = c_interface_reflect((), "f", &params, Vec::<u8>::new()).err().unwrap();
    assert_eq!(
        e,
        "c_str_consts: arguments must be simple identifiers, not destructuring patterns"
    );
}

fn test_env() -> Environment {
    let shm = ShmConsumer::from_page_size(Some(4096)).ok().unwrap();
    Environment::new(shm, WelcomeReply::OpenEnvironmentOk, 40, 8).ok().unwrap()
}

fn done(a: OpenAction) -> Result<usize, PartialError> {
    match a {
        OpenAction::Done(r) => r,
        _ => panic!("the opening has not ended"),
    }
}

#[test]
fn open_mutex_steps() {
    let mut env = test_env();
    let mut o = OpenMutex::new("m", 64);
    assert_eq!(o.phase(), OpenPhase::Start);
    assert!(matches!(o.step(&mut env, OpenInput::Start), OpenAction::Exchange));
    assert_eq!(o.phase(), OpenPhase::AwaitingReply);
    assert!(matches!(
        o.step(&mut env, OpenInput::Reply(EnvironmentReply::OpenMutexOk(1, 128), true)),
        OpenAction::StatPageFile
    ));
    assert_eq!(o.phase(), OpenPhase::AwaitingPageFile { page: 1, offset: 128 });
    assert!(matches!(o.step(&mut env, OpenInput::PageFileSize(4096)), OpenAction::MapPage));
    assert_eq!(done(o.step(&mut env, OpenInput::Mapped(0x4000))).ok(), Some(0x4080));
    assert_eq!(o.phase(), OpenPhase::Done);

    // A second opening of the same name asks nobody.
    let mut o = OpenMutex::new("m", 64);
    assert_eq!(done(o.step(&mut env, OpenInput::Start)).ok(), Some(0x4080));

    // A page that is mapped already is not mapped again.
    let mut o = OpenMutex::new("k", 64);
    o.step(&mut env, OpenInput::Start);
    let r = done(o.step(&mut env, OpenInput::Reply(EnvironmentReply::OpenMutexOk(1, 256), true)));
    assert_eq!(r.ok(), Some(0x4100));
    assert_eq!(env.cached_mutex("k"), Some(0x4100));
}

#[test]
fn open_mutex_failures_record_nothing() {
    let mut env = test_env();
    let mut o = OpenMutex::new("m", 64);
    o.step(&mut env, OpenInput::Start);
    let e = done(o.step(&mut env, OpenInput::RequestNotWritten(RequestFailure::ArgumentTooLong))).unwrap_err();
    assert_eq!(e.error_type(), ErrorType::NameTooLong);
    assert_eq!(e.details(), Some("The maximum length of a mutex name is 64 bytes."));

    let mut o = OpenMutex::new("m", 64);
    o.step(&mut env, OpenInput::Start);
    let e = done(o.step(&mut env, OpenInput::ExchangeFailed("reset".to_string()))).unwrap_err();
    assert_eq!(e.error_type(), ErrorType::ServiceCommunicationFailed);
    assert_eq!(e.details(), Some("reset"));

    let mut o = OpenMutex::new("m", 64);
    o.step(&mut env, OpenInput::Start);
    let e = done(o.step(&mut env, OpenInput::Reply(EnvironmentReply::OpenMutexOk(1, 0), false))).unwrap_err();
    assert_eq!(
        e.details(),
        Some("The garnd service did not provide a shared memory file descriptor.")
    );

    let mut o = OpenMutex::new("m", 64);
    o.step(&mut env, OpenInput::Start);
    o.step(&mut env, OpenInput::Reply(EnvironmentReply::OpenMutexOk(1, 0), true));
    let e = done(o.step(&mut env, OpenInput::PageFileSize(100))).unwrap_err();
    assert_eq!(e.error_type(), ErrorType::SharedMemoryError);

    let mut o = OpenMutex::new("m", 64);
    o.step(&mut env, OpenInput::Start);
    o.step(&mut env, OpenInput::Reply(EnvironmentReply::OpenMutexOk(1, 0), true));
    let e = done(o.step(&mut env, OpenInput::PageFileFailed("bad fd".to_string()))).unwrap_err();
    assert_eq!(e.details(), Some("bad fd"));

    let mut o = OpenMutex::new("m", 64);
    o.step(&mut env, OpenInput::Start);
    o.step(&mut env, OpenInput::Reply(EnvironmentReply::OpenMutexOk(1, 0), true));
    o.step(&mut env, OpenInput::PageFileSize(4096));
    let e = done(o.step(&mut env, OpenInput::MappingFailed("no memory".to_string()))).unwrap_err();
    assert_eq!(e.error_type(), ErrorType::SharedMemoryError);
    assert_eq!(e.details(), Some("no memory"));
    assert!(env.needs_page(1));

    let mut o = OpenMutex::new("m", 64);
    o.step(&mut env, OpenInput::Start);
    o.step(&mut env, OpenInput::Reply(EnvironmentReply::OpenMutexOk(1, 4), true));
    o.step(&mut env, OpenInput::PageFileSize(4096));
    let e = done(o.step(&mut env, OpenInput::Mapped(0x8000))).unwrap_err();
    assert_eq!(e.error_type(), ErrorType::ShmMisalignedAccess);
    assert_eq!(env.cached_mutex("m"), None);
    assert!(!env.needs_page(1));
}

#[test]
fn open_environment_steps() {
    let o = OpenEnvironment::start(64, 40, 8).ok().unwrap();
    let env = o.finish(OpenEnvironmentInput::Reply(WelcomeReply::OpenEnvironmentOk)).ok().unwrap();
    assert!(env.check_alive().is_ok());
    assert!(env.page_size() >= 4096);
    assert_eq!(env.cached_mutex("x"), None);

    let o = OpenEnvironment::start(64, 40, 8).ok().unwrap();
    let e = o.finish(OpenEnvironmentInput::RequestNotWritten(RequestFailure::ArgumentTooLong)).err().unwrap();
    assert_eq!(e.details(), Some("The maximum length of an environment name is 64 bytes."));

    let o = OpenEnvironment::start(64, 40, 8).ok().unwrap();
    let e = o.finish(OpenEnvironmentInput::ExchangeFailed("refused".to_string())).err().unwrap();
    assert_eq!(e.error_type(), ErrorType::ServiceCommunicationFailed);

    let o = OpenEnvironment::start(64, 40, 8).ok().unwrap();
    let e = o.finish(OpenEnvironmentInput::Reply(WelcomeReply::MalformedRequest)).err().unwrap();
    assert_eq!(e.details(), Some("garnd service reported a malformed request."));
}

#[test]
fn far_offsets_fail_before_any_address() {
    let mut env = test_env();
    let far = usize::MAX - 3;
    let mut o = OpenMutex::new("m", 64);
    o.step(&mut env, OpenInput::Start);
    let e = done(o.step(&mut env, OpenInput::Reply(EnvironmentReply::OpenMutexOk(1, far), false))).unwrap_err();
    assert_eq!(
        e.details(),
        Some("The garnd service did not provide a shared memory file descriptor.")
    );
    let mut o = OpenMutex::new("m", 64);
    o.step(&mut env, OpenInput::Start);
    assert!(matches!(
        o.step(&mut env, OpenInput::Reply(EnvironmentReply::OpenMutexOk(1, far), true)),
        OpenAction::StatPageFile
    ));
    let e = done(o.step(&mut env, OpenInput::PageFileFailed("gone".to_string()))).unwrap_err();
    assert_eq!(e.error_type(), ErrorType::SharedMemoryError);
    assert_eq!(env.cached_mutex("m"), None);
    assert!(env.needs_page(1));
}
