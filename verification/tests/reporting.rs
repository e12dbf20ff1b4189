use cpp_launcher::error::LaunchError;
use cpp_launcher::loader::{load_error, load_failure, symbol_error, symbol_failure};
use cpp_launcher::report::{report_line, timing_report};
use cpp_launcher::text::decimal;
use std::time::Duration;

#[test]
fn decimal_renders_small_numbers() {
    assert_eq!(decimal(0), "0");
    assert_eq!(decimal(7), "7");
    assert_eq!(decimal(9), "9");
    assert_eq!(decimal(10), "10");
    assert_eq!(decimal(120), "120");
    assert_eq!(decimal(1234567890), "1234567890");
}

#[test]
fn decimal_renders_the_largest_number() {
    assert_eq!(decimal(usize::MAX), format!("{}", usize::MAX));
}

#[test]
fn each_error_has_its_line() {
    assert_eq!(
        LaunchError::Usage { program: "timer".to_string() }.message(),
        "Usage: timer <cpp_file> <function_name>"
    );
    assert_eq!(
        LaunchError::Usage { program: String::new() }.message(),
        "Usage:  <cpp_file> <function_name>"
    );
    assert_eq!(
        LaunchError::Encoding { position: 17 }.message(),
        "failed to convert function name to CString: nul byte found in provided data at position: 17"
    );
    assert_eq!(
        LaunchError::Compile { cause: Some("permission denied".to_string()) }.message(),
        "failed to compile cpp file: permission denied"
    );
    assert_eq!(LaunchError::Compile { cause: None }.message(), "failed to compile cpp file");
    assert_eq!(
        LaunchError::Load { diagnostic: "libexample.so: file too short".to_string() }.message(),
        "failed to load shared library: libexample.so: file too short"
    );
    assert_eq!(
        LaunchError::SymbolNotFound { diagnostic: "undefined symbol: bar".to_string() }.message(),
        "failed to find function in shared library: undefined symbol: bar"
    );
}

#[test]
fn loader_errors_keep_the_diagnostic() {
    assert_eq!(
        load_error("cannot open".to_string()),
        LaunchError::Load { diagnostic: "cannot open".to_string() }
    );
    assert_eq!(
        symbol_error("undefined symbol: bar".to_string()),
        LaunchError::SymbolNotFound { diagnostic: "undefined symbol: bar".to_string() }
    );
}

#[test]
fn missing_library_is_a_load_error() {
    let error = match libloading::Library::new("/nonexistent-directory/libexample.so") {
        Ok(_) => panic!("a library that does not exist was loaded"),
        Err(error) => error,
    };
    let text = format!("{}", error);
    assert!(!text.is_empty());
    let failure = load_failure(&error);
    assert_eq!(failure, LaunchError::Load { diagnostic: text.clone() });
    assert_eq!(failure.message(), format!("failed to load shared library: {}", text));
}

#[test]
fn loader_error_on_lookup_is_symbol_not_found() {
    let error = match libloading::Library::new("/nonexistent-directory/libexample.so") {
        Ok(_) => panic!("a library that does not exist was loaded"),
        Err(error) => error,
    };
    let text = format!("{}", error);
    let failure = symbol_failure(&error);
    assert_eq!(failure, LaunchError::SymbolNotFound { diagnostic: text.clone() });
    assert_eq!(
        failure.message(),
        format!("failed to find function in shared library: {}", text)
    );
}

#[test]
fn report_line_quotes_the_function() {
    assert_eq!(report_line("foo", "1.5ms"), "Function 'foo' executed in 1.5ms");
    assert_eq!(report_line("", ""), "Function '' executed in ");
    assert_eq!(report_line("a'b", "0ns"), "Function 'a'b' executed in 0ns");
}

#[test]
fn timing_report_formats_the_duration() {
    assert_eq!(timing_report("foo", 0, 0), "Function 'foo' executed in 0ns");
    assert_eq!(timing_report("foo", 0, 1_500_000), "Function 'foo' executed in 1.5ms");
    assert_eq!(timing_report("foo", 0, 999), "Function 'foo' executed in 999ns");
    assert_eq!(timing_report("foo", 2, 0), "Function 'foo' executed in 2s");
    assert_eq!(timing_report("run", 3, 250_000_000), "Function 'run' executed in 3.25s");
    assert_eq!(timing_report("run", 0, 42_000), "Function 'run' executed in 42\u{b5}s");
}

#[test]
fn timing_report_agrees_with_duration() {
    for (secs, nanos) in [(0u64, 1u32), (1, 999_999_999), (u64::MAX, 999_999_999), (59, 123_456)] {
        let expected = format!("Function 'f' executed in {:?}", Duration::new(secs, nanos));
        assert_eq!(timing_report("f", secs, nanos), expected);
    }
}
