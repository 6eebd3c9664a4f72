use frb_codegen::commands::{
    build_runner, build_runner_command, cbindgen_config, cbindgen_config_artifact,
    cbindgen_outcome, dart_format_command, ffigen_config, ffigen_outcome, format_dart,
    format_rust, rustfmt_command, Command, ProcessOutcome,
};
use frb_codegen::error::Error;
use frb_codegen::repo::{ensure_tools_available, DartRepository, DartToolchain};
use frb_codegen::version::{ffi_requirement, ffigen_requirement, PkgVersion};

fn version(major: u64, minor: u64, patch: u64) -> PkgVersion {
    PkgVersion { major, minor, patch }
}

fn healthy_repo() -> DartRepository {
    DartRepository {
        toolchain: DartToolchain::Dart,
        toolchain_available: true,
        ffi_declared: Some(version(2, 0, 1)),
        ffi_installed: Some(version(2, 1, 0)),
        ffigen_declared: Some(version(6, 0, 1)),
        ffigen_installed: Some(version(7, 2, 9)),
    }
}

#[test]
fn version_ranges_are_half_open() {
    let ffi = ffi_requirement();
    assert!(ffi.contains(&version(2, 0, 1)));
    assert!(ffi.contains(&version(2, 5, 9)));
    assert!(!ffi.contains(&version(2, 0, 0)));
    assert!(!ffi.contains(&version(3, 0, 0)));

    let ffigen = ffigen_requirement();
    assert!(ffigen.contains(&version(6, 0, 1)));
    assert!(ffigen.contains(&version(7, 99, 99)));
    assert!(!ffigen.contains(&version(6, 0, 0)));
    assert!(!ffigen.contains(&version(8, 0, 0)));
}

#[test]
fn tools_check_passes_on_a_healthy_repo() {
    assert!(ensure_tools_available(&healthy_repo(), false).is_ok());
}

#[test]
fn tools_check_reports_the_missing_toolchain() {
    let mut repo = healthy_repo();
    repo.toolchain = DartToolchain::Flutter;
    repo.toolchain_available = false;
    match ensure_tools_available(&repo, false) {
        Err(Error::MissingExe { executable }) => assert_eq!(executable, "flutter"),
        _ => panic!("expected the missing-executable error"),
    }
}

#[test]
fn tools_check_reports_an_undeclared_package() {
    let mut repo = healthy_repo();
    repo.ffi_declared = None;
    match ensure_tools_available(&repo, false) {
        Err(Error::PackageRequirement { package, requirement, installed }) => {
            assert_eq!(package, "ffi");
            assert_eq!(requirement, ffi_requirement());
            assert!(!installed);
        },
        _ => panic!("expected the package-requirement error"),
    }
}

#[test]
fn tools_check_reports_an_incompatible_installed_package() {
    let mut repo = healthy_repo();
    repo.ffigen_installed = Some(version(8, 0, 0));
    match ensure_tools_available(&repo, false) {
        Err(Error::PackageRequirement { package, requirement, installed }) => {
            assert_eq!(package, "ffigen");
            assert_eq!(requirement, ffigen_requirement());
            assert!(installed);
        },
        _ => panic!("expected the package-requirement error"),
    }
}

#[test]
fn tools_check_can_skip_the_dependency_checks() {
    let mut repo = healthy_repo();
    repo.ffi_declared = None;
    repo.ffigen_installed = None;
    assert!(ensure_tools_available(&repo, true).is_ok());
}

fn success() -> ProcessOutcome {
    ProcessOutcome { success: true, stdout: String::new(), stderr: String::new() }
}

fn failure(stdout: &str, stderr: &str) -> ProcessOutcome {
    ProcessOutcome { success: false, stdout: stdout.to_string(), stderr: stderr.to_string() }
}

fn args_of(command: &Command) -> Vec<&str> {
    command.args.iter().map(|a| a.as_str()).collect()
}

#[test]
fn rustfmt_invocation_and_failure() {
    let command = rustfmt_command(&vec!["src/a.rs".to_string(), "src/b.rs".to_string()]);
    assert_eq!(command.program, "rustfmt");
    assert_eq!(args_of(&command), vec!["src/a.rs", "src/b.rs"]);
    assert!(command.current_dir.is_none());

    assert!(format_rust(&success()).is_ok());
    match format_rust(&failure("", "bad syntax")) {
        Err(Error::Rustfmt { stderr }) => assert_eq!(stderr, "bad syntax"),
        _ => panic!("expected the formatter error"),
    }
}

#[test]
fn dart_format_invocation_and_failure() {
    let command = dart_format_command(&vec!["lib/api.dart".to_string()], 120);
    assert_eq!(command.program, "dart");
    assert_eq!(args_of(&command), vec!["format", "--line-length", "120", "lib/api.dart"]);

    assert!(format_dart(&success()).is_ok());
    match format_dart(&failure("", "oops")) {
        Err(Error::Dartfmt { stderr }) => assert_eq!(stderr, "oops"),
        _ => panic!("expected the formatter error"),
    }
}

#[test]
fn build_runner_invocation_and_failure() {
    let command = build_runner_command(DartToolchain::Flutter, "app/dart");
    assert_eq!(command.program, "flutter");
    assert_eq!(
        args_of(&command),
        vec!["run", "build_runner", "build", "--delete-conflicting-outputs"],
    );
    assert_eq!(command.current_dir.as_deref(), Some("app/dart"));

    assert!(build_runner("app/dart", &success()).is_ok());
    match build_runner("app/dart", &failure("stale outputs", "")) {
        Err(Error::StringError { message }) => {
            assert_eq!(message, "Failed to run build_runner for app/dart: stale outputs");
        },
        _ => panic!("expected the build-step error"),
    }
}

#[test]
fn header_extraction_failures_are_classified() {
    assert!(cbindgen_outcome(&success()).is_ok());
    match cbindgen_outcome(&failure("out", "err")) {
        Err(Error::StringError { message }) => {
            assert_eq!(message, "cbindgen failed:\nstderr: err\nstdout: out");
        },
        _ => panic!("expected the generic tool failure"),
    }
}

#[test]
fn ffigen_failures_are_classified() {
    assert!(ffigen_outcome(&success()).is_ok());

    let llvm = failure("", "Couldn't find dynamic library in default locations.");
    assert!(matches!(ffigen_outcome(&llvm), Err(Error::FfigenLlvm)));

    let llvm_on_stdout = failure("Couldn't find dynamic library in default locations.", "");
    assert!(matches!(ffigen_outcome(&llvm_on_stdout), Err(Error::FfigenLlvm)));

    match ffigen_outcome(&failure("out", "err")) {
        Err(Error::StringError { message }) => {
            assert_eq!(message, "ffigen failed:\nstderr: err\nstdout: out");
        },
        _ => panic!("expected the generic tool failure"),
    }
}

#[test]
fn ffigen_config_lists_every_section() {
    let config = ffigen_config(
        "out/api.h",
        "lib/api.dart",
        "Api",
        &vec!["/opt/llvm".to_string(), "/usr/lib/llvm".to_string()],
        "-I.",
    );
    let expected = format!(
        "output: 'lib/api.dart'\nname: 'Api'\ndescription: 'native bridge bindings'\nheaders:\n  entry-points:\n    - 'out/api.h'\n  {}clude-directives:\n    - 'out/api.h'\ncomments: false\npreamble: |\n  // ignore_for_file: camel_case_types, non_constant_identifier_names, avoid_positional_boolean_parameters, annotate_overrides, constant_identifier_names\nllvm-path:\n  - '/opt/llvm'\n  - '/usr/lib/llvm'\ncompiler-opts:\n  - '-I.'\n",
        "in",
    );
    assert_eq!(config, expected);

    let bare = ffigen_config("api.h", "api.dart", "Api", &Vec::new(), "");
    assert!(!bare.contains("llvm-path"));
    assert!(!bare.contains("compiler-opts"));
}

#[test]
fn header_extraction_config_quotes_and_prefixes() {
    let config = cbindgen_config(
        &vec!["WireSyncReturnStruct".to_string(), "wire_StringList".to_string()],
        &vec!["init".to_string()],
        "P7_",
    );
    assert_eq!(config.sys_headers, vec!["stdbool.h", "stdint.h", "stdlib.h"]);
    assert!(config.no_default_headers);
    assert_eq!(config.appended_typedef, "typedef struct _Dart_Handle* P7_Dart_Handle;");
    assert_eq!(
        config.export_names,
        vec!["\"WireSyncReturnStruct\"".to_string(), "\"wire_StringList\"".to_string()],
    );
    assert_eq!(config.exclude_symbols, vec!["init".to_string()]);
    assert_eq!(config.prefix, "P7_");
}

#[test]
fn header_extraction_config_renders_as_the_extractor_artifact() {
    let config = cbindgen_config(&vec!["Wire".to_string()], &vec!["init".to_string()], "P_");
    let expected = format!(
        "language = \"C\"\nsys_{0}cludes = [\"stdbool.h\", \"stdint.h\", \"stdlib.h\"]\nno_{0}cludes = true\nafter_{0}cludes = \"typedef struct _Dart_Handle* P_Dart_Handle;\"\n[export]\n{0}clude = [\"\\\"Wire\\\"\"]\nexclude = [\"init\"]\nprefix = \"P_\"\n",
        "in",
    );
    assert_eq!(cbindgen_config_artifact(&config), expected);
}
