//! External-tool interaction, split into its pure halves: building the exact
//! command an unverified caller must run, and classifying the captured
//! outcome of that run.  The caller performs the process call itself and
//! hands back a [`ProcessOutcome`].

use crate::error::Error;
use crate::repo::DartToolchain;
use crate::text::{contains_sub, decimal_digits, decimal_string, string_views};
use vstd::prelude::*;
use vstd::string::StringExecFns;

verus! {

/// A fully determined child-process invocation.
pub struct Command {
    pub program: String,
    pub args: Vec<String>,
    pub current_dir: Option<String>,
}

/// The captured result of one synchronous child-process call: whether it
/// exited successfully, and both streams decoded to text.
pub struct ProcessOutcome {
    pub success: bool,
    pub stdout: String,
    pub stderr: String,
}

/// The native-code formatter invocation: `rustfmt` over the given files.
pub fn rustfmt_command(paths: &Vec<String>) -> (r: Command)
    ensures
        r.program@ == "rustfmt"@,
        string_views(r.args@) == string_views(paths@),
        r.current_dir is None,
{
    let mut args: Vec<String> = Vec::new();
    let mut i: usize = 0;
    while i < paths.len()
        invariant
            i <= paths@.len(),
            args@.len() == i,
            forall|k: int| 0 <= k < i ==> args@[k]@ == paths@[k]@,
        decreases paths@.len() - i,
    {
        args.push(paths[i].clone());
        i += 1;
    }
    proof {
        assert(string_views(args@) =~= string_views(paths@));
    }
    Command { program: String::from_str("rustfmt"), args, current_dir: None }
}

/// Classifies the native-code formatter's outcome: success, or its captured
/// standard error as a formatter failure.
pub fn format_rust(outcome: &ProcessOutcome) -> (r: Result<(), Error>)
    ensures
        outcome.success ==> r is Ok,
        !outcome.success ==> (r matches Err(Error::Rustfmt { stderr }) && stderr@
            == outcome.stderr@),
{
    if outcome.success {
        Ok(())
    } else {
        Err(Error::Rustfmt { stderr: outcome.stderr.clone() })
    }
}

/// The managed-language formatter invocation: `dart format` with an explicit
/// maximum line length over the given files.
pub fn dart_format_command(paths: &Vec<String>, line_length: u32) -> (r: Command)
    ensures
        r.program@ == "dart"@,
        string_views(r.args@) == seq!["format"@, "--line-length"@, decimal_digits(
            line_length as nat,
        )] + string_views(paths@),
        r.current_dir is None,
{
    let mut args: Vec<String> = Vec::new();
    args.push(String::from_str("format"));
    args.push(String::from_str("--line-length"));
    args.push(decimal_string(line_length as u64));
    let mut i: usize = 0;
    while i < paths.len()
        invariant
            i <= paths@.len(),
            args@.len() == i + 3,
            args@[0]@ == "format"@,
            args@[1]@ == "--line-length"@,
            args@[2]@ == decimal_digits(line_length as nat),
            forall|k: int| 0 <= k < i ==> args@[k + 3]@ == paths@[k]@,
        decreases paths@.len() - i,
    {
        args.push(paths[i].clone());
        i += 1;
    }
    proof {
        assert(string_views(args@) =~= seq!["format"@, "--line-length"@, decimal_digits(
            line_length as nat,
        )] + string_views(paths@));
    }
    Command { program: String::from_str("dart"), args, current_dir: None }
}

/// Classifies the managed-language formatter's outcome.
pub fn format_dart(outcome: &ProcessOutcome) -> (r: Result<(), Error>)
    ensures
        outcome.success ==> r is Ok,
        !outcome.success ==> (r matches Err(Error::Dartfmt { stderr }) && stderr@
            == outcome.stderr@),
{
    if outcome.success {
        Ok(())
    } else {
        Err(Error::Dartfmt { stderr: outcome.stderr.clone() })
    }
}

/// The managed-runtime build-step invocation, run inside the project root
/// with the flag that deletes stale generated outputs on conflict.
pub fn build_runner_command(toolchain: DartToolchain, dart_root: &str) -> (r: Command)
    ensures
        r.program@ == toolchain.spec_name(),
        string_views(r.args@) == seq!["run"@, "build_runner"@, "build"@,
            "--delete-conflicting-outputs"@],
        r.current_dir matches Some(d) && d@ == dart_root@,
{
    let mut args: Vec<String> = Vec::new();
    args.push(String::from_str("run"));
    args.push(String::from_str("build_runner"));
    args.push(String::from_str("build"));
    args.push(String::from_str("--delete-conflicting-outputs"));
    proof {
        assert(string_views(args@) =~= seq!["run"@, "build_runner"@, "build"@,
            "--delete-conflicting-outputs"@]);
    }
    Command {
        program: String::from_str(toolchain.name()),
        args,
        current_dir: Some(String::from_str(dart_root)),
    }
}

/// Classifies the build step's outcome; a failure reports the project root
/// and the captured standard output.
pub fn build_runner(dart_root: &str, outcome: &ProcessOutcome) -> (r: Result<(), Error>)
    ensures
        outcome.success ==> r is Ok,
        !outcome.success ==> (r matches Err(Error::StringError { message }) && message@
            == "Failed to run build_runner for "@ + dart_root@ + ": "@ + outcome.stdout@),
{
    if outcome.success {
        Ok(())
    } else {
        let mut message = String::from_str("Failed to run build_runner for ");
        message.append(dart_root);
        message.append(": ");
        message.append(outcome.stdout.as_str());
        Err(Error::StringError { message })
    }
}

/// The binding-generator invocation: the toolchain's package-execution
/// command pointed at the synthesized config artifact, run inside the
/// project root.
pub fn ffigen_command(toolchain: DartToolchain, config_path: &str, dart_root: &str) -> (r: Command)
    ensures
        r.program@ == toolchain.spec_name(),
        string_views(r.args@) == seq!["run"@, "ffigen"@, "--config"@] + seq![config_path@],
        r.current_dir matches Some(d) && d@ == dart_root@,
{
    let mut args: Vec<String> = Vec::new();
    args.push(String::from_str("run"));
    args.push(String::from_str("ffigen"));
    args.push(String::from_str("--config"));
    args.push(String::from_str(config_path));
    proof {
        assert(string_views(args@) =~= seq!["run"@, "ffigen"@, "--config"@] + seq![config_path@]);
    }
    Command {
        program: String::from_str(toolchain.name()),
        args,
        current_dir: Some(String::from_str(dart_root)),
    }
}

/// The failure signature showing that the binding generator could not locate
/// the native compiler toolchain's dynamic library.
pub open spec fn llvm_failure_pattern() -> Seq<char> {
    "Couldn't find dynamic library in default locations."@
}

/// Classifies the binding generator's outcome.  The recognized
/// toolchain-location failure gets its distinct, actionable error; any other
/// failure reports both captured streams verbatim.
pub fn ffigen_outcome(outcome: &ProcessOutcome) -> (r: Result<(), Error>)
    ensures
        outcome.success ==> r is Ok,
        !outcome.success && (contains_sub(outcome.stderr@, llvm_failure_pattern()) || contains_sub(
            outcome.stdout@,
            llvm_failure_pattern(),
        )) ==> r matches Err(Error::FfigenLlvm),
        !outcome.success && !(contains_sub(outcome.stderr@, llvm_failure_pattern())
            || contains_sub(outcome.stdout@, llvm_failure_pattern())) ==> (r matches Err(
            Error::StringError { message },
        ) && message@ == "ffigen failed:\nstderr: "@ + outcome.stderr@ + "\nstdout: "@
            + outcome.stdout@),
{
    if outcome.success {
        return Ok(());
    }
    let pattern = "Couldn't find dynamic library in default locations.";
    if crate::text::str_contains(outcome.stderr.as_str(), pattern) || crate::text::str_contains(
        outcome.stdout.as_str(),
        pattern,
    ) {
        return Err(Error::FfigenLlvm);
    }
    let mut message = String::from_str("ffigen failed:\nstderr: ");
    message.append(outcome.stderr.as_str());
    message.append("\nstdout: ");
    message.append(outcome.stdout.as_str());
    Err(Error::StringError { message })
}

/// Classifies the header extractor's outcome: success, or any failure with
/// both captured streams verbatim.
pub fn cbindgen_outcome(outcome: &ProcessOutcome) -> (r: Result<(), Error>)
    ensures
        outcome.success ==> r is Ok,
        !outcome.success ==> (r matches Err(Error::StringError { message }) && message@
            == "cbindgen failed:\nstderr: "@ + outcome.stderr@ + "\nstdout: "@
            + outcome.stdout@),
{
    if outcome.success {
        Ok(())
    } else {
        let mut message = String::from_str("cbindgen failed:\nstderr: ");
        message.append(outcome.stderr.as_str());
        message.append("\nstdout: ");
        message.append(outcome.stdout.as_str());
        Err(Error::StringError { message })
    }
}

/// The header-extraction configuration handed to the external extractor: a
/// fixed C dialect, a fixed set of system headers, no default headers, an
/// appended typedef aliasing the opaque runtime-handle pointer under the
/// prefixed name, the quoted struct-name allowlist, the symbol exclusion
/// list, and the extractor-level name prefix (which covers type names but
/// not function names; the separate rewrite closes that gap).
pub struct CbindgenConfig {
    pub sys_headers: Vec<String>,
    pub no_default_headers: bool,
    pub appended_typedef: String,
    pub export_names: Vec<String>,
    pub exclude_symbols: Vec<String>,
    pub prefix: String,
}

/// Builds the header-extraction configuration for one generation unit.
pub fn cbindgen_config(
    c_struct_names: &Vec<String>,
    exclude_symbols: &Vec<String>,
    prefix: &str,
) -> (r: CbindgenConfig)
    ensures
        string_views(r.sys_headers@) == seq!["stdbool.h"@, "stdint.h"@, "stdlib.h"@],
        r.no_default_headers,
        r.appended_typedef@ == "typedef struct _Dart_Handle* "@ + prefix@ + "Dart_Handle;"@,
        r.export_names@.len() == c_struct_names@.len(),
        forall|k: int|
            0 <= k < c_struct_names@.len() ==> (#[trigger] r.export_names@[k])@ == "\""@
                + c_struct_names@[k]@ + "\""@,
        string_views(r.exclude_symbols@) == string_views(exclude_symbols@),
        r.prefix@ == prefix@,
{
    let mut sys_headers: Vec<String> = Vec::new();
    sys_headers.push(String::from_str("stdbool.h"));
    sys_headers.push(String::from_str("stdint.h"));
    sys_headers.push(String::from_str("stdlib.h"));
    proof {
        assert(string_views(sys_headers@) =~= seq!["stdbool.h"@, "stdint.h"@, "stdlib.h"@]);
    }
    let mut appended_typedef = String::from_str("typedef struct _Dart_Handle* ");
    appended_typedef.append(prefix);
    appended_typedef.append("Dart_Handle;");
    let mut export_names: Vec<String> = Vec::new();
    let mut i: usize = 0;
    while i < c_struct_names.len()
        invariant
            i <= c_struct_names@.len(),
            export_names@.len() == i,
            forall|k: int|
                0 <= k < i ==> (#[trigger] export_names@[k])@ == "\""@ + c_struct_names@[k]@
                    + "\""@,
        decreases c_struct_names@.len() - i,
    {
        let mut quoted = String::from_str("\"");
        quoted.append(c_struct_names[i].as_str());
        quoted.append("\"");
        export_names.push(quoted);
        i += 1;
    }
    let mut exclude: Vec<String> = Vec::new();
    let mut j: usize = 0;
    while j < exclude_symbols.len()
        invariant
            j <= exclude_symbols@.len(),
            exclude@.len() == j,
            forall|k: int|
                0 <= k < j ==> (#[trigger] exclude@[k])@ == exclude_symbols@[k]@,
        decreases exclude_symbols@.len() - j,
    {
        exclude.push(exclude_symbols[j].clone());
        j += 1;
    }
    proof {
        assert(string_views(exclude@) =~= string_views(exclude_symbols@));
    }
    CbindgenConfig {
        sys_headers,
        no_default_headers: true,
        appended_typedef,
        export_names,
        exclude_symbols: exclude,
        prefix: String::from_str(prefix),
    }
}

/// A configuration string with a backslash put before every quote or
/// backslash character.
pub open spec fn toml_escaped(s: Seq<char>) -> Seq<char>
    decreases s.len(),
{
    if s.len() == 0 {
        Seq::empty()
    } else {
        (if s[0] == '"' || s[0] == '\\' {
            seq!['\\', s[0]]
        } else {
            seq![s[0]]
        }) + toml_escaped(s.drop_first())
    }
}

/// A configuration string value: the escaped text between quotes.
pub open spec fn toml_string_text(s: Seq<char>) -> Seq<char> {
    "\""@ + toml_escaped(s) + "\""@
}

/// The list entries after the first, each behind a comma.
pub open spec fn toml_list_rest(items: Seq<String>) -> Seq<char>
    decreases items.len(),
{
    if items.len() == 0 {
        Seq::empty()
    } else {
        ", "@ + toml_string_text(items[0]@) + toml_list_rest(items.drop_first())
    }
}

/// A configuration list value: bracketed, comma-separated string values.
pub open spec fn toml_list_text(items: Seq<String>) -> Seq<char> {
    "["@ + (if items.len() == 0 {
        Seq::<char>::empty()
    } else {
        toml_string_text(items[0]@) + toml_list_rest(items.drop_first())
    }) + "]"@
}

fn toml_escape(s: &str) -> (r: String)
    ensures
        r@ == toml_escaped(s@),
{
    let len = s.unicode_len();
    let mut out = String::new();
    proof {
        assert(s@.skip(0) =~= s@);
    }
    let mut i: usize = 0;
    while i < len
        invariant
            i <= len,
            len == s@.len(),
            out@ + toml_escaped(s@.skip(i as int)) == toml_escaped(s@),
        decreases len - i,
    {
        let ghost out_old = out@;
        let c = s.get_char(i);
        if c == '"' || c == '\\' {
            out.append("\\");
        }
        let piece = s.substring_char(i, i + 1);
        out.append(piece);
        proof {
            let tail = s@.skip(i as int);
            assert(tail[0] == s@[i as int]);
            assert(tail.drop_first() =~= s@.skip(i + 1));
            assert(piece@ =~= seq![s@[i as int]]);
            reveal_strlit("\\");
            assert(out@ + toml_escaped(s@.skip(i + 1)) =~= out_old + toml_escaped(tail));
        }
        i += 1;
    }
    proof {
        assert(s@.skip(len as int) =~= Seq::<char>::empty());
        assert(out@ + Seq::<char>::empty() =~= out@);
    }
    out
}

fn toml_string(s: &str) -> (r: String)
    ensures
        r@ == toml_string_text(s@),
{
    let mut out = String::from_str("\"");
    let escaped = toml_escape(s);
    out.append(escaped.as_str());
    out.append("\"");
    out
}

fn toml_list(items: &Vec<String>) -> (r: String)
    ensures
        r@ == toml_list_text(items@),
{
    let mut out = String::from_str("[");
    if items.len() > 0 {
        let first = toml_string(items[0].as_str());
        out.append(first.as_str());
        proof {
            assert(items@.skip(1) =~= items@.drop_first());
        }
        let mut i: usize = 1;
        while i < items.len()
            invariant
                1 <= i <= items@.len(),
                out@ + toml_list_rest(items@.skip(i as int)) == "["@ + toml_string_text(
                    items@[0]@,
                ) + toml_list_rest(items@.drop_first()),
            decreases items@.len() - i,
        {
            let ghost out_old = out@;
            out.append(", ");
            let entry = toml_string(items[i].as_str());
            out.append(entry.as_str());
            proof {
                let tail = items@.skip(i as int);
                assert(tail[0] == items@[i as int]);
                assert(tail.drop_first() =~= items@.skip(i + 1));
                assert(out@ + toml_list_rest(items@.skip(i + 1)) =~= out_old + toml_list_rest(
                    tail,
                ));
            }
            i += 1;
        }
        proof {
            assert(items@.skip(items@.len() as int) =~= Seq::<String>::empty());
            assert(out@ + Seq::<char>::empty() =~= out@);
        }
    }
    out.append("]");
    out
}

/// The header-extraction configuration rendered as the external extractor's
/// structured config artifact.
pub open spec fn cbindgen_config_artifact_text(config: CbindgenConfig) -> Seq<char> {
    "language = \"C\"\nsys_in"@ + "cludes = "@ + toml_list_text(config.sys_headers@)
        + "\nno_in"@ + "cludes = "@ + (if config.no_default_headers {
        "true"@
    } else {
        "false"@
    }) + "\nafter_in"@ + "cludes = "@ + toml_string_text(config.appended_typedef@)
        + "\n[export]\nin"@ + "clude = "@ + toml_list_text(config.export_names@)
        + "\nexclude = "@ + toml_list_text(config.exclude_symbols@) + "\nprefix = "@
        + toml_string_text(config.prefix@) + "\n"@
}

/// Renders the header-extraction configuration as the config artifact the
/// external extractor reads.
pub fn cbindgen_config_artifact(config: &CbindgenConfig) -> (r: String)
    ensures
        r@ == cbindgen_config_artifact_text(*config),
{
    let mut out = String::from_str("language = \"C\"\nsys_in");
    out.append("cludes = ");
    let sys = toml_list(&config.sys_headers);
    out.append(sys.as_str());
    out.append("\nno_in");
    out.append("cludes = ");
    out.append(if config.no_default_headers {
        "true"
    } else {
        "false"
    });
    out.append("\nafter_in");
    out.append("cludes = ");
    let typedef = toml_string(config.appended_typedef.as_str());
    out.append(typedef.as_str());
    out.append("\n[export]\nin");
    out.append("clude = ");
    let names = toml_list(&config.export_names);
    out.append(names.as_str());
    out.append("\nexclude = ");
    let excluded = toml_list(&config.exclude_symbols);
    out.append(excluded.as_str());
    out.append("\nprefix = ");
    let prefix = toml_string(config.prefix.as_str());
    out.append(prefix.as_str());
    out.append("\n");
    out
}

/// The explicit toolchain search paths section, one quoted path per line.
pub open spec fn llvm_path_lines(paths: Seq<Seq<char>>) -> Seq<char>
    decreases paths.len(),
{
    if paths.len() == 0 {
        Seq::empty()
    } else {
        "  - '"@ + paths[0] + "'\n"@ + llvm_path_lines(paths.drop_first())
    }
}

/// The complete binding-generator configuration artifact: output path,
/// declared class name, the header entry point, comment suppression, a
/// preamble suppressing naming-convention lint categories, and the optional
/// toolchain search paths and raw compiler options.
pub open spec fn ffigen_config_text(
    c_path: Seq<char>,
    dart_path: Seq<char>,
    dart_class_name: Seq<char>,
    llvm_paths: Seq<Seq<char>>,
    llvm_compiler_opts: Seq<char>,
) -> Seq<char> {
    "output: '"@ + dart_path + "'\nname: '"@ + dart_class_name
        + "'\ndescription: 'native bridge bindings'\nheaders:\n  entry-points:\n    - '"@ + c_path
        + "'\n  in"@ + "clude-directives:\n    - '"@ + c_path
        + "'\ncomments: false\npreamble: |\n  // ignore_for_file: camel_case_types, non_constant_identifier_names, avoid_positional_boolean_parameters, annotate_overrides, constant_identifier_names\n"@
        + (if llvm_paths.len() == 0 {
        Seq::<char>::empty()
    } else {
        "llvm-path:\n"@ + llvm_path_lines(llvm_paths)
    }) + (if llvm_compiler_opts.len() == 0 {
        Seq::<char>::empty()
    } else {
        "compiler-opts:\n  - '"@ + llvm_compiler_opts + "'\n"@
    })
}

/// Synthesizes the binding-generator configuration artifact.
pub fn ffigen_config(
    c_path: &str,
    dart_path: &str,
    dart_class_name: &str,
    llvm_path: &Vec<String>,
    llvm_compiler_opts: &str,
) -> (r: String)
    ensures
        r@ == ffigen_config_text(
            c_path@,
            dart_path@,
            dart_class_name@,
            string_views(llvm_path@),
            llvm_compiler_opts@,
        ),
{
    let mut s = String::from_str("output: '");
    s.append(dart_path);
    s.append("'\nname: '");
    s.append(dart_class_name);
    s.append("'\ndescription: 'native bridge bindings'\nheaders:\n  entry-points:\n    - '");
    s.append(c_path);
    s.append("'\n  in");
    s.append("clude-directives:\n    - '");
    s.append(c_path);
    s.append(
        "'\ncomments: false\npreamble: |\n  // ignore_for_file: camel_case_types, non_constant_identifier_names, avoid_positional_boolean_parameters, annotate_overrides, constant_identifier_names\n",
    );
    let ghost base = s@;
    let ghost pv = string_views(llvm_path@);
    if llvm_path.len() > 0 {
        s.append("llvm-path:\n");
        let ghost with_head = s@;
        proof {
            assert(pv.skip(0) =~= pv);
        }
        let mut i: usize = 0;
        while i < llvm_path.len()
            invariant
                i <= llvm_path@.len(),
                pv == string_views(llvm_path@),
                s@ + llvm_path_lines(pv.skip(i as int)) == with_head + llvm_path_lines(pv),
            decreases llvm_path@.len() - i,
        {
            let ghost s_old = s@;
            s.append("  - '");
            s.append(llvm_path[i].as_str());
            s.append("'\n");
            proof {
                let tail = pv.skip(i as int);
                assert(tail[0] == pv[i as int]);
                assert(tail.drop_first() =~= pv.skip(i + 1));
                assert(s@ + llvm_path_lines(pv.skip(i + 1)) =~= s_old + llvm_path_lines(tail));
            }
            i += 1;
        }
        proof {
            assert(pv.skip(pv.len() as int) =~= Seq::<Seq<char>>::empty());
            assert(s@ + Seq::<char>::empty() =~= s@);
            assert(s@ =~= base + ("llvm-path:\n"@ + llvm_path_lines(pv)));
        }
    }
    if !llvm_compiler_opts.is_empty() {
        s.append("compiler-opts:\n  - '");
        s.append(llvm_compiler_opts);
        s.append("'\n");
    }
    proof {
        assert(s@ =~= ffigen_config_text(
            c_path@,
            dart_path@,
            dart_class_name@,
            string_views(llvm_path@),
            llvm_compiler_opts@,
        ));
    }
    s
}

} // verus!
