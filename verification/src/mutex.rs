//! The single-instance guard: one named, host-wide mutex for each application.

use vstd::prelude::*;
use vstd::string::StringExecFns;
use crate::error::{OsCall, PlatformError};
use crate::text::chars_of;

verus! {

/// The code by which the host says that nothing went wrong.
pub const ERROR_SUCCESS: u32 = 0;

/// The code by which the host says that an object of that name was there before.
pub const ERROR_ALREADY_EXISTS: u32 = 183;

/// What the host is asked to create: a mutex of this name, owned at once by
/// the caller. `wide_name` is the name as the host takes it.
#[derive(Debug, PartialEq, Eq)]
pub struct MutexRequest {
    pub name: String,
    pub wide_name: Vec<u16>,
    pub initial_owner: bool,
}

/// Ownership of the application's mutex. It comes only from a creation that
/// succeeded, and ends when `release` hands the handle back to be closed.
#[derive(Debug, PartialEq, Eq)]
pub struct MutexDropGuard {
    mutex: isize,
}

/// How an attempt to create the mutex ended.
#[derive(Debug, PartialEq, Eq)]
pub enum MutexOutcome {
    /// This process owns the mutex.
    Acquired(MutexDropGuard),
    /// No guard exists. The handle in `close`, if any, is to be closed at once.
    Refused { close: Option<isize>, error: PlatformError },
}

/// The name of the mutex of the application `app_id`: a fixed prefix, then the id.
pub open spec fn mutex_name(app_id: Seq<char>) -> Seq<char> {
    "velopack-"@ + app_id
}

/// The UTF-16 code units of one character.
pub open spec fn utf16_units(c: char) -> Seq<u16> {
    let v = c as u32;
    if v < 0x1_0000 {
        seq![v as u16]
    } else {
        seq![(0xD800 + (v - 0x1_0000) / 0x400) as u16, (0xDC00 + (v - 0x1_0000) % 0x400) as u16]
    }
}

/// The UTF-16 code units of a text.
pub open spec fn utf16(s: Seq<char>) -> Seq<u16>
    decreases s.len(),
{
    if s.len() == 0 {
        Seq::<u16>::empty()
    } else {
        utf16(s.drop_last()) + utf16_units(s.last())
    }
}

/// A text as the host takes it: in UTF-16, closed by a zero.
pub open spec fn wide_nul(s: Seq<char>) -> Seq<u16> {
    utf16(s).push(0u16)
}

/// Whether `outcome` is what becomes of a creation call that returned
/// `created` (the handle, or the code of its failure) and after which the
/// host's last error was `last_error`.
pub open spec fn is_mutex_outcome(outcome: MutexOutcome, created: Result<isize, u32>, last_error: u32) -> bool {
    match created {
        Err(code) => outcome == (MutexOutcome::Refused {
            close: None,
            error: PlatformError::OsApiError { context: OsCall::CreateMutex, code },
        }),
        Ok(handle) => if last_error == ERROR_SUCCESS {
            outcome matches MutexOutcome::Acquired(guard) && guard.handle() == handle
        } else if last_error == ERROR_ALREADY_EXISTS {
            outcome == (MutexOutcome::Refused { close: Some(handle), error: PlatformError::AlreadyRunning })
        } else {
            outcome == (MutexOutcome::Refused {
                close: Some(handle),
                error: PlatformError::OsApiError { context: OsCall::CreateMutex, code: last_error },
            })
        },
    }
}

impl MutexDropGuard {
    /// The handle that the guard owns.
    pub closed spec fn handle(self) -> isize {
        self.mutex
    }

    /// Ends the ownership. The handle that comes back is to be closed, once.
    pub fn release(self) -> (handle: isize)
        ensures
            handle == self.handle(),
    {
        self.mutex
    }
}

/// Encodes a text in UTF-16 and closes it with a zero.
pub fn encode_wide(s: &str) -> (r: Vec<u16>)
    ensures
        r@ == wide_nul(s@),
{
    let chars = chars_of(s);
    let mut r: Vec<u16> = Vec::new();
    let mut i: usize = 0;
    while i < chars.len()
        invariant
            i <= chars.len(),
            r@ == utf16(chars@.take(i as int)),
        decreases chars.len() - i,
    {
        let c = chars[i];
        proof {
            assert(chars@.take(i + 1).drop_last() == chars@.take(i as int));
        }
        let v: u32 = c as u32;
        if v < 0x1_0000 {
            r.push(v as u16);
        } else {
            let rest: u32 = v - 0x1_0000;
            let high: u16 = (0xD800 + rest / 0x400) as u16;
            let low: u16 = (0xDC00 + rest % 0x400) as u16;
            r.push(high);
            r.push(low);
        }
        i += 1;
    }
    assert(chars@.take(i as int) == chars@);
    r.push(0);
    r
}

/// Says which mutex to create for the application `app_id`. The caller makes
/// the call and hands its outcome to `mutex_created`.
pub fn create_global_mutex(app_id: &str) -> (r: MutexRequest)
    ensures
        r.name@ == mutex_name(app_id@),
        r.wide_name@ == wide_nul(mutex_name(app_id@)),
        r.initial_owner,
{
    let name = "velopack-".to_owned().concat(app_id);
    let wide_name = encode_wide(name.as_str());
    MutexRequest { name, wide_name, initial_owner: true }
}

/// Decides what a creation call amounts to. The call can return a handle
/// although another process owns the mutex, so the host's last error is read
/// as well: only a handle together with `ERROR_SUCCESS` makes a guard.
pub fn mutex_created(created: Result<isize, u32>, last_error: u32) -> (r: MutexOutcome)
    ensures
        is_mutex_outcome(r, created, last_error),
        r is Acquired <==> created is Ok && last_error == ERROR_SUCCESS,
        r matches MutexOutcome::Refused { error, .. } && error == PlatformError::AlreadyRunning
            <==> created is Ok && last_error == ERROR_ALREADY_EXISTS,
{
    match created {
        Err(code) => MutexOutcome::Refused {
            close: None,
            error: PlatformError::OsApiError { context: OsCall::CreateMutex, code },
        },
        Ok(handle) => {
            if last_error == ERROR_SUCCESS {
                MutexOutcome::Acquired(MutexDropGuard { mutex: handle })
            } else if last_error == ERROR_ALREADY_EXISTS {
                MutexOutcome::Refused { close: Some(handle), error: PlatformError::AlreadyRunning }
            } else {
                MutexOutcome::Refused {
                    close: Some(handle),
                    error: PlatformError::OsApiError { context: OsCall::CreateMutex, code: last_error },
                }
            }
        },
    }
}

} // verus!
