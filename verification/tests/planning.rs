use cpp_launcher::compile::{CompilerCommand, Platform};
use cpp_launcher::error::LaunchError;
use cpp_launcher::plan::{parse_args, prepare, LaunchPlan, Request};
use cpp_launcher::symbol::encode_symbol_name;

fn strings(items: &[&str]) -> Vec<String> {
    items.iter().map(|s| s.to_string()).collect()
}

#[test]
fn parse_args_takes_source_then_function() {
    let args = strings(&["timer", "shapes.cpp", "draw"]);
    assert_eq!(
        parse_args(&args),
        Ok(Request { source: "shapes.cpp".to_string(), function: "draw".to_string() })
    );
}

#[test]
fn parse_args_rejects_every_other_count() {
    let all = ["timer", "a", "b", "c", "d", "e"];
    for n in 0..=all.len() {
        if n == 3 {
            continue;
        }
        let args = strings(&all[..n]);
        let program = if n == 0 { String::new() } else { "timer".to_string() };
        assert_eq!(parse_args(&args), Err(LaunchError::Usage { program }));
    }
}

#[test]
fn usage_error_plans_no_compilation() {
    for args in [
        strings(&[]),
        strings(&["timer"]),
        strings(&["timer", "shapes.cpp"]),
        strings(&["timer", "shapes.cpp", "draw", "extra"]),
    ] {
        for platform in [Platform::Windows, Platform::MacOs, Platform::Other] {
            let r = prepare(&args, platform);
            assert!(matches!(r, Err(LaunchError::Usage { .. })));
        }
    }
}

#[test]
fn usage_message_names_program_and_both_parameters() {
    let r = prepare(&strings(&["./timer", "only_one"]), Platform::Other);
    let e = r.unwrap_err();
    assert_eq!(e.message(), "Usage: ./timer <cpp_file> <function_name>");
}

#[test]
fn usage_is_checked_before_the_name() {
    let r = prepare(&strings(&["timer", "a.cpp", "b\0d", "extra"]), Platform::Other);
    assert_eq!(r, Err(LaunchError::Usage { program: "timer".to_string() }));
}

#[test]
fn nul_in_function_name_plans_no_compilation() {
    let r = prepare(&strings(&["timer", "shapes.cpp", "dr\0aw"]), Platform::Other);
    assert_eq!(r, Err(LaunchError::Encoding { position: 2 }));
    assert_eq!(
        r.unwrap_err().message(),
        "failed to convert function name to CString: nul byte found in provided data at position: 2"
    );
}

#[test]
fn encoding_error_points_at_first_nul() {
    assert_eq!(encode_symbol_name("\0"), Err(LaunchError::Encoding { position: 0 }));
    assert_eq!(encode_symbol_name("ab\0cd\0"), Err(LaunchError::Encoding { position: 2 }));
    assert_eq!(encode_symbol_name("foo\0"), Err(LaunchError::Encoding { position: 3 }));
}

#[test]
fn encoding_error_counts_bytes_not_characters() {
    // Each of the two letters takes two bytes in UTF-8.
    assert_eq!(encode_symbol_name("\u{e9}\u{e8}\0"), Err(LaunchError::Encoding { position: 4 }));
}

#[test]
fn encoded_name_is_bytes_and_terminator() {
    assert_eq!(encode_symbol_name("foo"), Ok(vec![b'f', b'o', b'o', 0]));
    assert_eq!(encode_symbol_name(""), Ok(vec![0]));
    assert_eq!(encode_symbol_name("Foo"), Ok(vec![b'F', b'o', b'o', 0]));
    assert_eq!(encode_symbol_name("\u{e9}"), Ok(vec![0xc3, 0xa9, 0]));
}

#[test]
fn prepare_plans_the_whole_launch() {
    let r = prepare(&strings(&["timer", "shapes.cpp", "draw"]), Platform::Other);
    let expected = LaunchPlan {
        request: Request { source: "shapes.cpp".to_string(), function: "draw".to_string() },
        command: CompilerCommand {
            program: "g++".to_string(),
            args: strings(&[
                "-fPIC",
                "-shared",
                "-o",
                "libexample.so",
                "shapes.cpp",
                "-I",
                "/usr/include/qt5",
                "-I",
                "/usr/invlude/qt5/QtCore",
                "-lQt5Core",
            ]),
        },
        artifact: "libexample.so".to_string(),
        symbol: vec![b'd', b'r', b'a', b'w', 0],
    };
    assert_eq!(r, Ok(expected));
}

#[test]
fn repeated_launch_names_the_same_artifact() {
    let args = strings(&["timer", "shapes.cpp", "draw"]);
    for platform in [Platform::Windows, Platform::MacOs, Platform::Other] {
        let first = prepare(&args, platform).unwrap();
        let second = prepare(&args, platform).unwrap();
        assert_eq!(first, second);
        assert_eq!(first.artifact, second.artifact);
        assert_eq!(first.command.args[2], "-o");
        assert_eq!(first.command.args[3], first.artifact);
    }
}

#[test]
fn artifact_ignores_what_is_compiled() {
    let a = prepare(&strings(&["timer", "one.cpp", "f"]), Platform::MacOs).unwrap();
    let b = prepare(&strings(&["other", "dir/two.cpp", "g"]), Platform::MacOs).unwrap();
    assert_eq!(a.artifact, "libexample.dylib");
    assert_eq!(b.artifact, "libexample.dylib");
    assert_eq!(a.command.args[3], b.command.args[3]);
    assert_eq!(a.command.args[4], "one.cpp");
    assert_eq!(b.command.args[4], "dir/two.cpp");
}
