use platform_services::error::{OsCall, PlatformError};
use platform_services::mutex::{
    create_global_mutex, encode_wide, mutex_created, MutexOutcome, ERROR_ALREADY_EXISTS, ERROR_SUCCESS,
};

/// A host that knows one mutex name and whether somebody owns it.
struct Host {
    owned: bool,
    next_handle: isize,
    closed: Vec<isize>,
}

impl Host {
    fn create(&mut self) -> (Result<isize, u32>, u32) {
        self.next_handle += 4;
        if self.owned {
            (Ok(self.next_handle), ERROR_ALREADY_EXISTS)
        } else {
            self.owned = true;
            (Ok(self.next_handle), ERROR_SUCCESS)
        }
    }

    fn close(&mut self, handle: isize, owner: bool) {
        self.closed.push(handle);
        if owner {
            self.owned = false;
        }
    }
}

#[test]
fn second_acquire_fails_until_the_first_guard_is_released() {
    let mut host = Host { owned: false, next_handle: 0, closed: vec![] };

    let (created, last_error) = host.create();
    let first = match mutex_created(created, last_error) {
        MutexOutcome::Acquired(guard) => guard,
        other => panic!("{other:?}"),
    };

    let (created, last_error) = host.create();
    match mutex_created(created, last_error) {
        MutexOutcome::Refused { close: Some(handle), error } => {
            assert_eq!(error, PlatformError::AlreadyRunning);
            assert_eq!(handle, 8);
            host.close(handle, false);
        }
        other => panic!("{other:?}"),
    }

    let handle = first.release();
    assert_eq!(handle, 4);
    host.close(handle, true);

    let (created, last_error) = host.create();
    match mutex_created(created, last_error) {
        MutexOutcome::Acquired(guard) => assert_eq!(guard.release(), 12),
        other => panic!("{other:?}"),
    }
    assert_eq!(host.closed, vec![8, 4]);
}

#[test]
fn failed_creation_is_an_os_error_with_nothing_to_close() {
    assert_eq!(
        mutex_created(Err(5), 5),
        MutexOutcome::Refused {
            close: None,
            error: PlatformError::OsApiError { context: OsCall::CreateMutex, code: 5 },
        }
    );
    assert_eq!(
        mutex_created(Err(1450), 0),
        MutexOutcome::Refused {
            close: None,
            error: PlatformError::OsApiError { context: OsCall::CreateMutex, code: 1450 },
        }
    );
}

#[test]
fn any_other_last_error_closes_the_handle() {
    assert_eq!(
        mutex_created(Ok(64), 6),
        MutexOutcome::Refused {
            close: Some(64),
            error: PlatformError::OsApiError { context: OsCall::CreateMutex, code: 6 },
        }
    );
    assert_eq!(
        mutex_created(Ok(64), 183),
        MutexOutcome::Refused { close: Some(64), error: PlatformError::AlreadyRunning }
    );
}

#[test]
fn mutex_is_named_after_the_application() {
    let request = create_global_mutex("MyApp");
    assert_eq!(request.name, "velopack-MyApp");
    assert!(request.initial_owner);
    let expected: Vec<u16> = "velopack-MyApp\0".encode_utf16().collect();
    assert_eq!(request.wide_name, expected);
    assert_eq!(request.wide_name.len(), 15);

    let request = create_global_mutex("");
    assert_eq!(request.name, "velopack-");
    assert_eq!(request.wide_name, vec![118, 101, 108, 111, 112, 97, 99, 107, 45, 0]);
}

#[test]
fn different_applications_have_different_mutexes() {
    assert_ne!(create_global_mutex("a").name, create_global_mutex("b").name);
    assert_ne!(create_global_mutex("a").wide_name, create_global_mutex("A").wide_name);
    assert_eq!(create_global_mutex("a"), create_global_mutex("a"));
}

#[test]
fn wide_text_is_utf16_closed_by_zero() {
    assert_eq!(encode_wide(""), vec![0]);
    assert_eq!(encode_wide("A"), vec![0x41, 0]);
    assert_eq!(encode_wide("é€"), vec![0xE9, 0x20AC, 0]);
    assert_eq!(encode_wide("\u{ffff}"), vec![0xFFFF, 0]);
    assert_eq!(encode_wide("\u{10000}"), vec![0xD800, 0xDC00, 0]);
    assert_eq!(encode_wide("𝄞"), vec![0xD834, 0xDD1E, 0]);
    assert_eq!(encode_wide("\u{10ffff}"), vec![0xDBFF, 0xDFFF, 0]);
    assert_eq!(encode_wide("a\0b"), vec![0x61, 0, 0x62, 0]);
}

#[test]
fn wide_text_agrees_with_the_standard_encoder() {
    for text in ["velopack-Ünïcödé-😀-app", "日本語", "\u{d7ff}\u{e000}", "x\u{1F600}y\u{10FFFF}"] {
        let mut expected: Vec<u16> = text.encode_utf16().collect();
        expected.push(0);
        assert_eq!(encode_wide(text), expected, "{text}");
    }
}
