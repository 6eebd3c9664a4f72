use frb_codegen::cgen::{
    generate_dummy, get_dummy_func, get_dummy_signature, get_dummy_var, has_wire_pattern,
    header_ref, join_path, prefix_wire_names, relative_dir, Opts, OutPath,
};
use frb_codegen::rewrite::{rewrite_header, stamped_header};
use frb_codegen::wire::{
    generate_wire_func, wire_string_list_from_api, NewWithNullPtr, WireParam, WireStringList,
    P7C55DD6B_wire_simple_adder_1, P7C55DD6B_wire_simple_adder_2,
};

fn strings(items: &[&str]) -> Vec<String> {
    items.iter().map(|s| s.to_string()).collect()
}

fn opts(class_name: &str, block_index: u64, unique_id: &str, dirs: &[&str], file: &str) -> Opts {
    Opts {
        class_name: class_name.to_string(),
        block_index,
        unique_id: unique_id.to_string(),
        c_output_path: vec![OutPath { dirs: strings(dirs), file: file.to_string() }],
    }
}

#[test]
fn wire_names_get_the_unique_prefix() {
    assert!(has_wire_pattern("wire_add"));
    assert!(has_wire_pattern("P7_wire_add"));
    assert!(!has_wire_pattern("wire_"));
    assert!(!has_wire_pattern("plain"));

    let names = prefix_wire_names("P7_", &strings(&["wire_add", "init_frb", "wire_sub"]));
    assert_eq!(names, strings(&["P7_wire_add", "init_frb", "P7_wire_sub"]));
}

#[test]
fn anchor_function_lists_every_name() {
    assert_eq!(get_dummy_signature(""), "dummy_method_to_enforce_bundling");
    assert_eq!(get_dummy_signature("Api"), "dummy_method_to_enforce_bundling_Api");

    assert_eq!(get_dummy_var(&Vec::new()), "");
    assert_eq!(
        get_dummy_var(&strings(&["f", "g"])),
        "    dummy_var ^= ((int64_t) (void*) f);\n    dummy_var ^= ((int64_t) (void*) g);",
    );

    let func = get_dummy_func("", &strings(&["P_wire_add"]), "P_");
    assert_eq!(
        func,
        "static int64_t P_dummy_method_to_enforce_bundling(void) {\n    int64_t dummy_var = 0;\n    dummy_var ^= ((int64_t) (void*) P_wire_add);\n    return dummy_var;\n}\n",
    );
}

#[test]
fn dropping_a_function_changes_the_anchor() {
    let all = get_dummy_func("Api", &strings(&["a", "b", "c"]), "P_");
    let missing_middle = get_dummy_func("Api", &strings(&["a", "c"]), "P_");
    let missing_last = get_dummy_func("Api", &strings(&["a", "b"]), "P_");
    assert_ne!(all, missing_middle);
    assert_ne!(all, missing_last);
    assert_ne!(missing_middle, missing_last);
}

#[test]
fn relative_routes_between_output_paths() {
    let route = relative_dir(&strings(&["out", "io"]), &strings(&["out", "web"]));
    assert_eq!(route, strings(&["..", "web"]));
    assert_eq!(join_path(&route, "api_2.h"), "../web/api_2.h");

    let same = relative_dir(&strings(&["out"]), &strings(&["out"]));
    assert!(same.is_empty());
    assert_eq!(join_path(&same, "api.h"), "api.h");

    let line = header_ref(&strings(&["out", "io"]), &strings(&["out", "web"]), "api_2.h");
    assert_eq!(line, format!("#{}clude \"../web/api_2.h\"", "in"));
}

#[test]
fn single_module_anchor_uses_the_bare_signature() {
    let config = opts("Api", 0, "P7_", &["out"], "api.h");
    let text = generate_dummy(&config, &vec![], &strings(&["wire_add", "other"]), 0);
    assert_eq!(
        text,
        "static int64_t P7_dummy_method_to_enforce_bundling(void) {\n    int64_t dummy_var = 0;\n    dummy_var ^= ((int64_t) (void*) P7_wire_add);\n    dummy_var ^= ((int64_t) (void*) other);\n    return dummy_var;\n}\n",
    );
}

#[test]
fn root_module_anchor_references_every_other_module() {
    let root = opts("ApiOne", 0, "A_", &["out", "io"], "api_1.h");
    let second = opts("ApiTwo", 1, "B_", &["out", "web"], "api_2.h");
    let all = vec![
        opts("ApiOne", 0, "A_", &["out", "io"], "api_1.h"),
        opts("ApiTwo", 1, "B_", &["out", "web"], "api_2.h"),
        opts("ApiThree", 2, "C_", &["aux"], "api_3.h"),
    ];

    let text = generate_dummy(&root, &all, &strings(&["wire_add"]), 0);
    assert!(text.contains("static int64_t A_dummy_method_to_enforce_bundling_ApiOne(void)"));
    assert!(text.contains(&format!("#{}clude \"../web/api_2.h\"", "in")));
    assert!(text.contains(&format!("#{}clude \"../../aux/api_3.h\"", "in")));
    assert!(text.contains("static int64_t A_dummy_method_to_enforce_bundling(void)"));
    assert!(text.contains("dummy_var ^= ((int64_t) (void*) dummy_method_to_enforce_bundling_ApiOne);"));
    assert!(text.contains("dummy_var ^= ((int64_t) (void*) dummy_method_to_enforce_bundling_ApiTwo);"));
    assert!(text.contains("dummy_var ^= ((int64_t) (void*) dummy_method_to_enforce_bundling_ApiThree);"));

    let leaf = generate_dummy(&second, &all, &strings(&["wire_sub"]), 0);
    assert_eq!(
        leaf,
        "static int64_t B_dummy_method_to_enforce_bundling_ApiTwo(void) {\n    int64_t dummy_var = 0;\n    dummy_var ^= ((int64_t) (void*) B_wire_sub);\n    return dummy_var;\n}\n",
    );
}

#[test]
fn header_rewrite_prefixes_every_signature_once() {
    let header = b"typedef struct _Dart_Handle* P_Dart_Handle;\nvoid store_dart_post(int64_t p);\nchar *version(void);\n".to_vec();
    let rewritten = rewrite_header(&header, &b"P_".to_vec());
    let expected = b"typedef struct _Dart_Handle* P_Dart_Handle;\nvoid P_store_dart_post(int64_t p);\nchar *P_version(void);\n".to_vec();
    assert_eq!(
        String::from_utf8(rewritten.clone()).unwrap(),
        String::from_utf8(expected).unwrap(),
    );

    let again = rewrite_header(&rewritten, &b"P_".to_vec());
    assert_eq!(again, rewritten);
}

#[test]
fn stamped_header_prepends_the_prefix_comment_line() {
    let header = b"void version(void);\n".to_vec();
    let stamped = stamped_header(&header, &b"P_".to_vec());
    assert_eq!(
        String::from_utf8(stamped).unwrap(),
        String::from_utf8(b"// P_\nvoid P_version(void);\n".to_vec()).unwrap(),
    );
}

#[test]
fn wire_string_list_allocation_matches_its_length() {
    let filled = wire_string_list_from_api(&strings(&["alpha", "beta"]));
    assert_eq!(filled.len, 2);
    assert_eq!(filled.ptr, strings(&["alpha", "beta"]));

    let empty = wire_string_list_from_api(&Vec::new());
    assert_eq!(empty.len, 0);
    assert!(empty.ptr.is_empty());

    let null = WireStringList::new_with_null_ptr();
    assert_eq!(null.len, 0);
    assert!(null.ptr.is_empty());
}

#[test]
fn wire_adder_emits_the_prefixed_symbol_on_both_targets() {
    let params = vec![
        WireParam { name: "a".to_string(), ty: "i32".to_string() },
        WireParam { name: "b".to_string(), ty: "i32".to_string() },
    ];
    let acc = generate_wire_func("P7C55DD6B_", "add", &params);
    let io = acc.io.unwrap();
    let expected_io = format!(
        "#[no_mangle]\npub {}ern \"C\" fn P7C55DD6B_wire_add(port_: i64, a: i32, b: i32) {{\n    P7C55DD6B_wire_add_impl(port_, a, b)\n}}\n",
        "ext",
    );
    assert_eq!(io, expected_io);
    let wasm = acc.wasm.unwrap();
    assert_eq!(
        wasm,
        "#[wasm_bindgen]\npub fn P7C55DD6B_wire_add(port_: MessagePort, a: i32, b: i32) {\n    P7C55DD6B_wire_add_impl(port_, a, b)\n}\n",
    );
}

#[test]
fn wire_func_with_no_declared_parameters_takes_only_the_channel() {
    let acc = generate_wire_func("A_", "ping", &Vec::new());
    let expected_io = format!(
        "#[no_mangle]\npub {}ern \"C\" fn A_wire_ping(port_: i64) {{\n    A_wire_ping_impl(port_)\n}}\n",
        "ext",
    );
    assert_eq!(acc.io.unwrap(), expected_io);
}

#[test]
fn wire_simple_adder_delivers_the_sum_to_its_channel() {
    assert_eq!(P7C55DD6B_wire_simple_adder_1(42, 2, 3), (42, 5));
    assert_eq!(P7C55DD6B_wire_simple_adder_1(-7, -1, 1), (-7, 0));
    assert_eq!(P7C55DD6B_wire_simple_adder_2(9, 20, 22), (9, 42));
}
