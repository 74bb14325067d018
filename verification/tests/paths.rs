use platform_services::error::{OsCall, PlatformError};
use platform_services::paths::{
    has_component_prefix, is_sub_path, is_sub_path_canonical, is_sub_path_expanded, is_sub_path_folded,
    ExpandedStep, SubPathStep,
};

/// A host whose only environment variable is `windir`.
fn expand(text: &str) -> Result<String, u32> {
    Ok(text.replace("%windir%", "C:\\Windows"))
}

/// A host that resolves `.`, `..` and repeated separators without looking at the disk.
fn canonicalize(text: &str) -> Result<String, u32> {
    let mut parts: Vec<&str> = Vec::new();
    for part in text.split(|c| c == '\\' || c == '/') {
        if part.is_empty() || part == "." {
            continue;
        }
        if part == ".." {
            if parts.len() > 1 {
                parts.pop();
            }
            continue;
        }
        parts.push(part);
    }
    if parts.len() == 1 {
        return Ok(format!("{}\\", parts[0]));
    }
    Ok(parts.join("\\"))
}

fn contained(path: &str, parent: &str) -> Result<bool, PlatformError> {
    let (path, parent) = match is_sub_path(path, parent) {
        SubPathStep::Decided(answer) => return Ok(answer),
        SubPathStep::Expand { path, parent } => (path, parent),
    };
    let (path, parent) = match is_sub_path_expanded(expand(&path), expand(&parent))? {
        ExpandedStep::Decided(answer) => return Ok(answer),
        ExpandedStep::Canonicalize { path, parent } => (path, parent),
    };
    is_sub_path_canonical(canonicalize(&path), canonicalize(&parent))
}

#[test]
fn test_is_sub_path_works_with_existing_paths() {
    let path = r"C:\Windows\System32/dxdiag.exe";
    let parent = r"c:\windows/system32\";
    assert!(contained(path, parent).unwrap());

    let path = r"C:\Windows\System32/dxdiag.exe";
    let parent = r"c:\windows/";
    assert!(contained(path, parent).unwrap());

    let path = r"C:\Windows\System32/dxdiag.exe";
    let parent = r"c:\windows\";
    assert!(contained(path, parent).unwrap());

    let path = r"C:\Windows\System32/dxdiag.exe";
    let parent = r"c:\windows";
    assert!(contained(path, parent).unwrap());

    let path = r"C:\Windows\System32/dxdiag.exe";
    let parent = r"c:/";
    assert!(contained(path, parent).unwrap());
}

#[test]
fn test_is_sub_path_works_with_non_existing_paths() {
    let path = r"C:\Some/Non-existing\Path/Whatever.exe";
    let parent = r"c:\some\non-existing/path\";
    assert!(contained(path, parent).unwrap());

    let path = r"C:\Some/Non-existing\Path/Whatever.exe";
    let parent = r"c:\some\non-existing/path/";
    assert!(contained(path, parent).unwrap());

    let path = r"C:\Some/Non-existing\Path/Whatever.exe";
    let parent = r"c:\some/non-existing/";
    assert!(contained(path, parent).unwrap());

    let path = r"C:\AppData\JamLogic";
    let parent = r"C:\AppData\JamLogicDev";
    assert!(!contained(path, parent).unwrap());

    let path = r"C:\AppData\JamLogicDev";
    let parent = r"C:\AppData\JamLogic";
    assert!(!contained(path, parent).unwrap());
}

#[test]
fn test_is_sub_path_works_with_env_var_paths_and_avoids_current_dir() {
    let path = r"C:\Windows\System32\cmd.exe";
    let parent = r"%windir%";
    assert!(contained(path, parent).unwrap());

    let path = r"C:\Source\rust setup testing\install";
    let parent = r"%windir%\system32";
    assert!(!contained(path, parent).unwrap());

    let path = r"%windir%\system32";
    let parent = r"C:\Source\rust setup testing";
    assert!(!contained(path, parent).unwrap());
    assert!(!contained(parent, path).unwrap());
}

#[test]
fn test_is_sub_path_works_with_empty_paths() {
    let path = r"C:\Windows\Path.exe";
    let parent = "";
    assert!(!contained(path, parent).unwrap());

    let path = "";
    let parent = r"c:\some\non-existing/path/";
    assert!(!contained(path, parent).unwrap());
}

#[test]
fn empty_arguments_are_decided_at_once() {
    assert_eq!(is_sub_path("", ""), SubPathStep::Decided(false));
    assert_eq!(is_sub_path(r"\foo", ""), SubPathStep::Decided(false));
    assert_eq!(is_sub_path("", r"c:\"), SubPathStep::Decided(false));
}

#[test]
fn shorter_path_is_decided_at_once() {
    assert_eq!(is_sub_path(r"c:\a", r"c:\a\b\..\.."), SubPathStep::Decided(false));
    // The parent gains its separator before the lengths are compared.
    assert_eq!(is_sub_path(r"c:\ab", r"c:\ab"), SubPathStep::Decided(false));
}

#[test]
fn text_prefix_is_decided_at_once() {
    assert_eq!(is_sub_path(r"C:\Apps\Tool\bin", r"c:\APPS\tool"), SubPathStep::Decided(true));
    assert_eq!(is_sub_path(r"C:\Apps\Tool\bin", r"c:\apps\tool\\//"), SubPathStep::Decided(true));
    // The quick test looks at the text alone, so it also accepts relative paths.
    assert_eq!(is_sub_path(r"foo\bar", "foo"), SubPathStep::Decided(true));
}

#[test]
fn parent_ends_in_exactly_one_backslash() {
    let step = is_sub_path(r"C:\Data/Sub/file.TXT", r"C:\DATA\sub\/\/");
    assert_eq!(
        step,
        SubPathStep::Expand {
            path: r"c:\data/sub/file.txt".to_string(),
            parent: "c:\\data\\sub\\".to_string(),
        }
    );
    let step = is_sub_path(r"x:/other/place", "C:");
    assert_eq!(
        step,
        SubPathStep::Expand { path: "x:/other/place".to_string(), parent: "c:\\".to_string() }
    );
}

#[test]
fn case_folding_reaches_beyond_ascii() {
    assert_eq!(is_sub_path("C:\\ÄÖÜ\\x", "c:\\äöü"), SubPathStep::Decided(true));
    let step = is_sub_path("C:/ÉCOLE/x", "c:\\école");
    assert_eq!(
        step,
        SubPathStep::Expand { path: "c:/école/x".to_string(), parent: "c:\\école\\".to_string() }
    );
}

#[test]
fn length_is_counted_in_bytes() {
    // Five characters on either side, but the parent takes more bytes.
    assert_eq!(is_sub_path("c:/ab", "éééé"), SubPathStep::Decided(false));
}

#[test]
fn relative_paths_are_not_contained() {
    let absolute = || Ok(r"c:\windows\system32".to_string());
    for relative in [
        "windows", r"\windows", "c:", "c:windows", r".\x", r"\\", "//", "1:\\x", "", r"\\server",
        r"\\server\", r"\\server\\share", r"\\\server\share", "é:\\x", r"\/",
    ] {
        assert_eq!(
            is_sub_path_expanded(Ok(relative.to_string()), absolute()),
            Ok(ExpandedStep::Decided(false)),
            "{relative}"
        );
        assert_eq!(
            is_sub_path_expanded(absolute(), Ok(relative.to_string())),
            Ok(ExpandedStep::Decided(false)),
            "{relative}"
        );
    }
}

#[test]
fn absolute_paths_go_on_to_be_canonicalized() {
    for absolute in [
        r"c:\", "C:/x", r"z:\a\b", r"\\server\share", "//server/share/x", r"\\?\c:\x", r"\\.\COM1",
        r"\/s/x", r"\\s\x\",
    ] {
        assert_eq!(
            is_sub_path_expanded(Ok(absolute.to_string()), Ok(r"d:\".to_string())),
            Ok(ExpandedStep::Canonicalize { path: absolute.to_string(), parent: r"d:\".to_string() }),
            "{absolute}"
        );
    }
}

#[test]
fn failed_expansion_is_an_os_error() {
    let error = |code| PlatformError::OsApiError { context: OsCall::ExpandEnvironment, code };
    assert_eq!(is_sub_path_expanded(Err(5), Ok(r"c:\".to_string())), Err(error(5)));
    assert_eq!(is_sub_path_expanded(Ok(r"c:\".to_string()), Err(8)), Err(error(8)));
    assert_eq!(is_sub_path_expanded(Err(5), Err(8)), Err(error(5)));
    // A relative path does not hide the failure of the other expansion.
    assert_eq!(is_sub_path_expanded(Ok("x".to_string()), Err(8)), Err(error(8)));
}

#[test]
fn failed_canonicalization_is_an_os_error() {
    let ok = || Ok(r"c:\a".to_string());
    let error = |code| Err(PlatformError::OsApiError { context: OsCall::Canonicalize, code });
    assert_eq!(is_sub_path_canonical(Err(123), ok()), error(123));
    assert_eq!(is_sub_path_canonical(ok(), Err(161)), error(161));
    assert_eq!(is_sub_path_canonical(Err(1), Err(2)), error(1));
    assert_eq!(is_sub_path_canonical(Err(0), ok()), error(0));
}

#[test]
fn host_errors_reach_the_caller_with_their_code() {
    // An absolute path inside no parent by its text, on a host whose
    // canonicalization fails.
    let (path, parent) = match is_sub_path(r"C:\Data\..\x", r"C:\Other") {
        SubPathStep::Expand { path, parent } => (path, parent),
        other => panic!("{other:?}"),
    };
    let (path, parent) = match is_sub_path_expanded(expand(&path), expand(&parent)) {
        Ok(ExpandedStep::Canonicalize { path, parent }) => (path, parent),
        other => panic!("{other:?}"),
    };
    assert_eq!(
        is_sub_path_canonical(Err(206), canonicalize(&parent)),
        Err(PlatformError::OsApiError { context: OsCall::Canonicalize, code: 206 })
    );
    assert_eq!(is_sub_path_canonical(canonicalize(&path), canonicalize(&parent)), Ok(false));
    // Empty and relative arguments are decided before the host can fail.
    assert_eq!(is_sub_path("", r"C:\Other"), SubPathStep::Decided(false));
    assert_eq!(is_sub_path_expanded(Ok("x".to_string()), Ok(parent)), Ok(ExpandedStep::Decided(false)));
}

fn canonical(path: &str, parent: &str) -> bool {
    is_sub_path_canonical(Ok(path.to_string()), Ok(parent.to_string())).unwrap()
}

#[test]
fn canonical_paths_are_compared_by_component() {
    assert!(canonical(r"C:\AppData\JamLogic\bin", r"C:\AppData\JamLogic"));
    assert!(!canonical(r"C:\AppData\JamLogicDev", r"C:\AppData\JamLogic"));
    assert!(!canonical(r"C:\AppData\JamLogic", r"C:\AppData\JamLogicDev"));
    assert!(!canonical(r"C:\AppData", r"C:\AppData\JamLogic"));
    assert!(!canonical(r"D:\AppData\JamLogic", r"C:\AppData"));
    assert!(canonical(r"\\server\share\a\b", r"\\server\share\a"));
    assert!(!canonical(r"\\server\share\ab", r"\\server\share\a"));
}

#[test]
fn canonical_comparison_ignores_case_and_separator_style() {
    assert!(canonical(r"C:\WINDOWS\System32", r"c:\windows\system32"));
    assert!(canonical(r"c:\windows\system32", r"C:\WINDOWS\System32"));
    assert!(canonical("c:/a//b/c", r"C:\A\B\"));
    assert!(canonical(r"c:\a\b", r"c:\a\b\\\"));
    assert!(canonical(r"C:\ÉCOLE\x", r"c:\école"));
}

#[test]
fn a_path_without_components_contains_everything_canonical() {
    assert!(canonical(r"c:\a", ""));
    assert!(canonical("", r"\/"));
    assert!(!canonical("", r"c:\"));
}

#[test]
fn quick_answer_agrees_with_components_on_canonical_text() {
    for (path, parent) in [
        (r"c:\a\b\c", r"c:\a\b"),
        (r"c:\a\b\c", r"c:\a\b\"),
        (r"c:\a\b\", r"c:\a\b"),
        (r"c:\a\\b", r"c:\a"),
    ] {
        assert_eq!(is_sub_path(path, parent), SubPathStep::Decided(true));
        assert!(canonical(path, parent));
    }
}

#[test]
fn folded_strings_are_taken_as_they_are() {
    let folded = |path: &str, parent: &str| is_sub_path_folded(path.to_string(), parent.to_string());
    assert_eq!(folded(r"c:\a\b", r"c:\a"), SubPathStep::Decided(true));
    assert_eq!(folded(r"c:\a\b", r"c:\a/\/"), SubPathStep::Decided(true));
    assert_eq!(folded(r"c:\a", r"c:\a"), SubPathStep::Decided(false));
    assert_eq!(folded("", r"c:\a"), SubPathStep::Decided(false));
    assert_eq!(folded(r"c:\a", ""), SubPathStep::Decided(false));
    // No case folding happens here.
    assert_eq!(
        folded(r"C:\A\B", r"c:\a"),
        SubPathStep::Expand { path: r"C:\A\B".to_string(), parent: "c:\\a\\".to_string() }
    );
    assert_eq!(
        folded(r"c:\ab\c", r"c:\a"),
        SubPathStep::Expand { path: r"c:\ab\c".to_string(), parent: "c:\\a\\".to_string() }
    );
    assert_eq!(
        folded("c:/a/b", "c:/a"),
        SubPathStep::Expand { path: "c:/a/b".to_string(), parent: "c:/a\\".to_string() }
    );
}

#[test]
fn components_are_compared_as_they_are() {
    assert!(has_component_prefix(r"c:\a\b", r"c:\a"));
    assert!(has_component_prefix("c:/a/b", r"\\c:\\a\\"));
    assert!(has_component_prefix(r"c:\a", r"c:\a"));
    assert!(has_component_prefix(r"c:\a", ""));
    assert!(!has_component_prefix(r"c:\a", r"c:\a\b"));
    assert!(!has_component_prefix(r"c:\ab", r"c:\a"));
    assert!(!has_component_prefix(r"c:\a\b", r"c:\b"));
    assert!(!has_component_prefix(r"C:\a", r"c:\a"));
    assert!(!has_component_prefix(r"c:\a b", r"c:\a"));
}
