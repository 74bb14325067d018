//! The version check: from a minimum version string to the test that the host
//! must pass.

use vstd::prelude::*;
use crate::error::{OsCall, PlatformError};
use crate::text::{chars_of, views};

verus! {

/// A release of the operating system. An absent field reads as zero.
#[derive(Clone, Copy, Debug, PartialEq, Eq)]
pub struct VersionTriple {
    pub major: u32,
    pub minor: u32,
    pub build: u32,
}

/// What the host is asked in order to decide a minimum version.
#[derive(Clone, Copy, Debug, PartialEq, Eq)]
pub enum VersionTest {
    /// The feature test for the earliest broadly supported release.
    Windows7OrGreater,
    /// The feature test for release 8.
    Windows8OrGreater,
    /// The feature test for release 8.1.
    Windows8Point1OrGreater,
    /// The feature test for release 10, whatever the build.
    Windows10OrGreater,
    /// The generic comparison: major, minor and build each greater than or
    /// equal to the given number, all three at once.
    AtLeast { major: u32, minor: u32, build: u32 },
}

/// The first build of release 11, which the host reports as release 10.0.
pub const WINDOWS_11_FIRST_BUILD: u32 = 22000;

pub open spec fn is_digit(c: char) -> bool {
    '0' <= c && c <= '9'
}

pub open spec fn digit_value(c: char) -> nat {
    (c as u32 - '0' as u32) as nat
}

/// The number that a string of decimal digits writes.
pub open spec fn decimal_value(s: Seq<char>) -> nat
    decreases s.len(),
{
    if s.len() == 0 {
        0
    } else {
        decimal_value(s.drop_last()) * 10 + digit_value(s.last())
    }
}

/// `s` is one or more decimal digits that write a number within `u32`.
pub open spec fn is_number(s: Seq<char>) -> bool {
    &&& s.len() > 0
    &&& forall|i: int| 0 <= i < s.len() ==> is_digit(#[trigger] s[i])
    &&& decimal_value(s) <= u32::MAX
}

/// The fields of `s` between dots. A string without a dot is one field; two
/// dots in a row hold an empty field between them.
pub open spec fn dotted_fields(s: Seq<char>) -> Seq<Seq<char>>
    decreases s.len(),
{
    if s.len() == 0 {
        seq![Seq::<char>::empty()]
    } else {
        let before = dotted_fields(s.drop_last());
        if s.last() == '.' {
            before.push(Seq::<char>::empty())
        } else {
            before.update(before.len() - 1, before.last().push(s.last()))
        }
    }
}

/// The number in field `i`, or zero where the string has no such field.
pub open spec fn field_or_zero(fields: Seq<Seq<char>>, i: int) -> u32 {
    if 0 <= i < fields.len() {
        decimal_value(fields[i]) as u32
    } else {
        0
    }
}

/// The version that `s` writes: one to four numbers separated by dots, of
/// which the first three count. `None` where `s` is anything else.
pub open spec fn parse_version_spec(s: Seq<char>) -> Option<VersionTriple> {
    let fields = dotted_fields(s);
    if fields.len() <= 4 && (forall|i: int| 0 <= i < fields.len() ==> is_number(#[trigger] fields[i])) {
        Some(
            VersionTriple {
                major: field_or_zero(fields, 0),
                minor: field_or_zero(fields, 1),
                build: field_or_zero(fields, 2),
            },
        )
    } else {
        None
    }
}

/// The test that decides whether the host is at least release `v`.
pub open spec fn version_test(v: VersionTriple) -> VersionTest {
    if v.major < 8 {
        VersionTest::Windows7OrGreater
    } else if v.major == 8 {
        if v.minor >= 1 {
            VersionTest::Windows8Point1OrGreater
        } else {
            VersionTest::Windows8OrGreater
        }
    } else if v.major == 11 {
        VersionTest::AtLeast {
            major: 10,
            minor: 0,
            build: if v.build < WINDOWS_11_FIRST_BUILD {
                WINDOWS_11_FIRST_BUILD
            } else {
                v.build
            },
        }
    } else if v.major == 10 && v.build == 0 {
        VersionTest::Windows10OrGreater
    } else {
        VersionTest::AtLeast { major: v.major, minor: v.minor, build: v.build }
    }
}

/// The test for a minimum version string, or the parse error.
pub open spec fn os_version_test(s: Seq<char>) -> Result<VersionTest, PlatformError> {
    match parse_version_spec(s) {
        Some(v) => Ok(version_test(v)),
        None => Err(PlatformError::VersionParseError),
    }
}

fn split_dots(s: &Vec<char>) -> (fields: Vec<Vec<char>>)
    ensures
        views(fields@) == dotted_fields(s@),
{
    let mut done: Vec<Vec<char>> = Vec::new();
    let mut cur: Vec<char> = Vec::new();
    let mut i: usize = 0;
    while i < s.len()
        invariant
            i <= s.len(),
            dotted_fields(s@.take(i as int)) == views(done@).push(cur@),
        decreases s.len() - i,
    {
        let c = s[i];
        proof {
            assert(s@.take(i + 1).drop_last() == s@.take(i as int));
        }
        if c == '.' {
            done.push(cur);
            cur = Vec::new();
        } else {
            cur.push(c);
        }
        i += 1;
    }
    assert(s@.take(i as int) == s@);
    done.push(cur);
    done
}

fn parse_number(s: &Vec<char>) -> (r: Option<u32>)
    ensures
        r == if is_number(s@) {
            Some(decimal_value(s@) as u32)
        } else {
            None::<u32>
        },
{
    if s.len() == 0 {
        return None;
    }
    let mut acc: u64 = 0;
    let mut fits = true;
    let mut i: usize = 0;
    while i < s.len()
        invariant
            i <= s.len(),
            forall|j: int| 0 <= j < i ==> is_digit(#[trigger] s@[j]),
            fits ==> acc == decimal_value(s@.take(i as int)) && acc <= u32::MAX,
            !fits ==> decimal_value(s@.take(i as int)) > u32::MAX,
        decreases s.len() - i,
    {
        let c = s[i];
        if !('0' <= c && c <= '9') {
            return None;
        }
        proof {
            assert(s@.take(i + 1).drop_last() == s@.take(i as int));
        }
        if fits {
            let d: u64 = (c as u32 - '0' as u32) as u64;
            acc = acc * 10 + d;
            if acc > 0xffff_ffff {
                fits = false;
            }
        }
        i += 1;
    }
    assert(s@.take(i as int) == s@);
    if fits {
        Some(acc as u32)
    } else {
        None
    }
}

/// Reads a dotted version string. A fourth number is accepted and not kept.
pub fn parse_version(version: &str) -> (r: Result<VersionTriple, PlatformError>)
    ensures
        r == match parse_version_spec(version@) {
            Some(v) => Ok::<VersionTriple, PlatformError>(v),
            None => Err(PlatformError::VersionParseError),
        },
{
    let chars = chars_of(version);
    let fields = split_dots(&chars);
    if fields.len() > 4 {
        return Err(PlatformError::VersionParseError);
    }
    let mut numbers: [u32; 3] = [0, 0, 0];
    let mut i: usize = 0;
    while i < fields.len()
        invariant
            i <= fields.len() <= 4,
            views(fields@) == dotted_fields(version@),
            forall|j: int| 0 <= j < i ==> is_number(#[trigger] dotted_fields(version@)[j]),
            forall|j: int| 0 <= j < 3 ==> numbers@[j] == if j < i {
                field_or_zero(dotted_fields(version@), j)
            } else {
                0u32
            },
        decreases fields.len() - i,
    {
        assert(views(fields@)[i as int] == fields@[i as int]@);
        match parse_number(&fields[i]) {
            None => {
                return Err(PlatformError::VersionParseError);
            },
            Some(n) => {
                if i < 3 {
                    numbers[i] = n;
                }
            },
        }
        i += 1;
    }
    Ok(VersionTriple { major: numbers[0], minor: numbers[1], build: numbers[2] })
}

/// Chooses the host test for the release `v`.
pub fn select_version_test(v: VersionTriple) -> (t: VersionTest)
    ensures
        t == version_test(v),
{
    if v.major < 8 {
        VersionTest::Windows7OrGreater
    } else if v.major == 8 {
        if v.minor >= 1 {
            VersionTest::Windows8Point1OrGreater
        } else {
            VersionTest::Windows8OrGreater
        }
    } else if v.major == 11 {
        let build = if v.build < WINDOWS_11_FIRST_BUILD {
            WINDOWS_11_FIRST_BUILD
        } else {
            v.build
        };
        VersionTest::AtLeast { major: 10, minor: 0, build }
    } else if v.major == 10 && v.build == 0 {
        VersionTest::Windows10OrGreater
    } else {
        VersionTest::AtLeast { major: v.major, minor: v.minor, build: v.build }
    }
}

/// Says which test the host must pass to be at least the release that
/// `version` writes. The caller runs the test and hands its outcome to
/// `os_version_verdict`.
pub fn is_os_version_or_greater(version: &str) -> (r: Result<VersionTest, PlatformError>)
    ensures
        r == os_version_test(version@),
{
    match parse_version(version) {
        Ok(v) => Ok(select_version_test(v)),
        Err(e) => Err(e),
    }
}

/// The outcome of the version check, from what the host said to the test:
/// its reply as it is, and a failed query as an error that carries the host's code.
pub fn os_version_verdict(answer: Result<bool, u32>) -> (r: Result<bool, PlatformError>)
    ensures
        r == match answer {
            Ok(b) => Ok::<bool, PlatformError>(b),
            Err(code) => Err(PlatformError::OsApiError { context: OsCall::VersionQuery, code }),
        },
{
    match answer {
        Ok(b) => Ok(b),
        Err(code) => Err(PlatformError::OsApiError { context: OsCall::VersionQuery, code }),
    }
}

/// Release 11 is always tested as release 10.0 with a build of 22000 or more.
pub proof fn law_release_11_is_a_build_of_release_10(v: VersionTriple)
    requires
        v.major == 11,
    ensures
        version_test(v) matches VersionTest::AtLeast { major, minor, build } && major == 10 && minor == 0
            && build >= WINDOWS_11_FIRST_BUILD && build >= v.build,
{
}

/// Release 8 and release 8.1 are decided by different tests of the host.
pub proof fn law_release_8_and_8_1_differ(v: VersionTriple, w: VersionTriple)
    requires
        v.major == 8,
        w.major == 8,
        v.minor == 0,
        w.minor >= 1,
    ensures
        version_test(v) == VersionTest::Windows8OrGreater,
        version_test(w) == VersionTest::Windows8Point1OrGreater,
        version_test(v) != version_test(w),
{
}

/// From release 12 on, the host is asked for at least that major number: a
/// host that reports major number 10 cannot pass.
pub proof fn law_later_releases_ask_for_their_major(v: VersionTriple)
    requires
        v.major >= 12,
    ensures
        version_test(v) == (VersionTest::AtLeast { major: v.major, minor: v.minor, build: v.build }),
{
}

} // verus!
