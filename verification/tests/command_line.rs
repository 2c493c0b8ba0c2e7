use oxidoc::cli::{error_report, plan, version_line, Invocation, UsageError};

#[test]
fn version_flag_wins() {
    assert_eq!(plan(true, false, None, None), Ok(Invocation::Version));
    assert_eq!(plan(true, true, Some("all"), Some("query")), Ok(Invocation::Version));
}

#[test]
fn generation_targets() {
    assert_eq!(plan(false, true, Some("all"), None), Ok(Invocation::GenerateAll));
    assert_eq!(plan(false, true, Some("crates"), None), Ok(Invocation::GenerateCrates));
    assert_eq!(plan(false, true, Some("std"), None), Ok(Invocation::GenerateStd));
    assert_eq!(
        plan(false, true, Some("/src/mycrate"), None),
        Ok(Invocation::GeneratePath("/src/mycrate".to_string()))
    );
    assert_eq!(
        plan(false, true, Some("All"), None),
        Ok(Invocation::GeneratePath("All".to_string()))
    );
    assert_eq!(plan(false, true, Some(""), None), Ok(Invocation::GeneratePath(String::new())));
}

#[test]
fn generation_wins_over_query() {
    assert_eq!(plan(false, true, Some("std"), Some("Vec")), Ok(Invocation::GenerateStd));
}

#[test]
fn generation_without_directory_is_an_error() {
    assert_eq!(plan(false, true, None, Some("Vec")), Err(UsageError::NoCrateDirectory));
    assert_eq!(UsageError::NoCrateDirectory.message(), "No crate source directory supplied");
}

#[test]
fn query_is_searched() {
    assert_eq!(plan(false, false, None, Some("Vec")), Ok(Invocation::Search("Vec".to_string())));
    assert_eq!(
        plan(false, false, Some("ignored"), Some("all")),
        Ok(Invocation::Search("all".to_string()))
    );
}

#[test]
fn nothing_to_do_is_an_error() {
    assert_eq!(plan(false, false, None, None), Err(UsageError::NoQuery));
    assert_eq!(UsageError::NoQuery.message(), "No search query was provided.");
}

#[test]
fn version_line_names_the_tool() {
    assert_eq!(version_line("0.1.0"), "oxidoc 0.1.0");
    assert_eq!(version_line(""), "oxidoc ");
}

#[test]
fn error_report_lists_causes_and_backtrace() {
    let causes = vec!["disk full".to_string(), "quota".to_string()];
    assert_eq!(
        error_report("cannot write", &causes, Some("frame 0")),
        vec![
            "error: cannot write".to_string(),
            "caused by: disk full".to_string(),
            "caused by: quota".to_string(),
            "backtrace: frame 0".to_string(),
        ]
    );
    assert_eq!(
        error_report("cannot write", &Vec::new(), None),
        vec!["error: cannot write".to_string()]
    );
    assert_eq!(
        error_report("m", &vec!["c".to_string()], None),
        vec!["error: m".to_string(), "caused by: c".to_string()]
    );
}
