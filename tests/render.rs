use wain_ast::ValType;
use wain_validate_error::text::{push_decimal, push_ordinal};
use wain_validate_error::{Error, ErrorKind};

fn render_at_end(kind: ErrorKind) -> String {
    Error::new(kind, 0, "").render()
}

fn category(kind: ErrorKind) -> String {
    let s = render_at_end(kind);
    let suffix = " caused at byte offset 0 (end of input)";
    assert!(s.ends_with(suffix));
    s[..s.len() - suffix.len()].to_string()
}

fn ordinal_of(n: u128) -> String {
    let mut s = String::new();
    push_ordinal(&mut s, n);
    s
}

#[test]
fn index_out_of_bounds_before_newline() {
    let kind = ErrorKind::IndexOutOfBounds { idx: 5, upper: 3, what: "function" };
    let e = Error::new(kind, 10, "abcdefghij\nxyz");
    assert_eq!(
        e.render(),
        "function index 5 out of bounds 0 <= idx < 3 caused at byte offset 10\n\n ... \n     ^\n     starts from here"
    );
}

#[test]
fn param_type_mismatch_uses_ordinal() {
    let kind = ErrorKind::ParamTypeMismatchWithLocal {
        idx: 1,
        param: ValType::I32,
        local: ValType::F64,
    };
    assert_eq!(
        category(kind),
        "type i32 parameter 2nd does not match to type of respective local f64"
    );
}

#[test]
fn param_ordinal_counts_from_one() {
    let first = ErrorKind::ParamTypeMismatchWithLocal {
        idx: 0,
        param: ValType::I64,
        local: ValType::F32,
    };
    assert_eq!(
        category(first),
        "type i64 parameter 1st does not match to type of respective local f32"
    );
    let last = ErrorKind::ParamTypeMismatchWithLocal {
        idx: usize::MAX,
        param: ValType::F32,
        local: ValType::I32,
    };
    assert_eq!(
        category(last),
        format!(
            "type f32 parameter {}th does not match to type of respective local i32",
            usize::MAX as u128 + 1
        )
    );
}

#[test]
fn end_of_input_has_no_excerpt() {
    let src = "(module)";
    let e = Error::new(ErrorKind::LabelStackEmpty { op: "br" }, src.len(), src);
    let s = e.render();
    assert!(s.ends_with("caused at byte offset 8 (end of input)"));
    assert!(!s.contains("starts from here"));
    assert!(!s.contains(" ... "));
    assert_eq!(
        s,
        "label stack for control instructions is unexpectedly empty at 'br' instruction caused at byte offset 8 (end of input)"
    );
}

#[test]
fn rendering_twice_gives_the_same_text() {
    let e = Error::new(
        ErrorKind::UnknownImport { mod_name: "wasi".to_string(), name: "fd_write".to_string() },
        3,
        "ab\ncd\nef",
    );
    assert_eq!(e.render(), e.render());
}

#[test]
fn ordinal_suffix_by_last_digit() {
    let cases = [
        (1, "1st"),
        (2, "2nd"),
        (3, "3rd"),
        (4, "4th"),
        (5, "5th"),
        (10, "10th"),
        (11, "11st"),
        (12, "12nd"),
        (13, "13rd"),
        (21, "21st"),
        (22, "22nd"),
        (23, "23rd"),
        (100, "100th"),
        (101, "101st"),
    ];
    for (n, want) in cases {
        assert_eq!(ordinal_of(n), want);
    }
}

#[test]
fn ordinal_of_zero() {
    assert_eq!(ordinal_of(0), "0th");
}

#[test]
fn ordinal_appends_to_existing_text() {
    let mut s = String::from("parameter ");
    push_ordinal(&mut s, 42);
    assert_eq!(s, "parameter 42nd");
}

#[test]
fn decimal_edge_values() {
    for (n, want) in [(0u128, "0"), (9, "9"), (10, "10"), (1234567890, "1234567890")] {
        let mut s = String::new();
        push_decimal(&mut s, n);
        assert_eq!(s, want);
    }
    let mut s = String::new();
    push_decimal(&mut s, u128::MAX);
    assert_eq!(s, u128::MAX.to_string());
}

#[test]
fn excerpt_stops_at_carriage_return() {
    let e = Error::new(ErrorKind::LabelStackEmpty { op: "br_if" }, 2, "a (br_if 0)\r\n(nop)");
    assert_eq!(
        e.render(),
        "label stack for control instructions is unexpectedly empty at 'br_if' instruction caused at byte offset 2\n\n ... (br_if 0)\n     ^\n     starts from here"
    );
}

#[test]
fn excerpt_runs_to_end_without_line_break() {
    let e = Error::new(
        ErrorKind::TooFewFuncLocalsForParams { locals: 1, params: 2 },
        4,
        "abc def ghi",
    );
    assert_eq!(
        e.render(),
        "function has 2 params > 1 locals caused at byte offset 4\n\n ... def ghi\n     ^\n     starts from here"
    );
}

#[test]
fn excerpt_keeps_multibyte_characters() {
    let src = "x \u{3042}\u{3044} y\nz";
    let e = Error::new(ErrorKind::LabelStackEmpty { op: "br" }, 2, src);
    let s = e.render();
    assert!(s.ends_with(" ... \u{3042}\u{3044} y\n     ^\n     starts from here"));
}

#[test]
fn excerpt_from_start_of_source() {
    let e = Error::new(ErrorKind::LabelStackEmpty { op: "br" }, 0, "first\nsecond");
    assert!(e.render().ends_with(" caused at byte offset 0\n\n ... first\n     ^\n     starts from here"));
}

#[test]
fn unknown_module_mentions_module_only() {
    let kind = ErrorKind::UnknownImport { mod_name: "wasi".to_string(), name: "fd_write".to_string() };
    assert_eq!(
        category(kind),
        "unknown module name 'wasi'. valid module name is currently only 'env'"
    );
}

#[test]
fn unknown_name_in_env_mentions_name_only() {
    let kind = ErrorKind::UnknownImport { mod_name: "env".to_string(), name: "puts".to_string() };
    assert_eq!(
        category(kind),
        "no exported name 'puts' in module 'env'. currently only 'print' is exported"
    );
}

#[test]
fn module_names_close_to_env_are_unknown() {
    for m in ["en", "envv", "Env", ""] {
        let kind = ErrorKind::UnknownImport { mod_name: m.to_string(), name: "print".to_string() };
        assert_eq!(
            category(kind),
            format!("unknown module name '{}'. valid module name is currently only 'env'", m)
        );
    }
}

#[test]
fn ctrl_frame_empty_at_bottom_of_stack() {
    let kind = ErrorKind::CtrlFrameEmpty { op: "i32.add", frame_start: 17, idx_in_op_stack: 0 };
    assert_eq!(
        category(kind),
        "operand stack cannot be empty at 'i32.add' instruction while validating instruction sequence starting at offset 17"
    );
}

#[test]
fn ctrl_frame_empty_above_earlier_operands() {
    let kind = ErrorKind::CtrlFrameEmpty { op: "drop", frame_start: 5, idx_in_op_stack: 3 };
    assert_eq!(
        category(kind),
        "empty control frame cannot be empty at 'drop' instruction. the frame started at byte offset 5 and top of control frame is op_stack[3]"
    );
}

#[test]
fn multiple_return_types_lists_names() {
    let kind = ErrorKind::MultipleReturnTypes(vec![ValType::I32, ValType::I64, ValType::F32, ValType::F64]);
    assert_eq!(
        category(kind),
        "multiple return types are not allowed for now but got [i32, i64, f32, f64]"
    );
}

#[test]
fn multiple_return_types_empty_and_single() {
    assert_eq!(
        category(ErrorKind::MultipleReturnTypes(vec![])),
        "multiple return types are not allowed for now but got []"
    );
    assert_eq!(
        category(ErrorKind::MultipleReturnTypes(vec![ValType::F32])),
        "multiple return types are not allowed for now but got [f32]"
    );
}

#[test]
fn type_mismatch_names_both_types() {
    let kind = ErrorKind::TypeMismatch { op: "i64.add", expected: ValType::I64, actual: ValType::F32 };
    assert_eq!(
        category(kind),
        "type does not match at 'i64.add': expected i64 but got f32"
    );
}

#[test]
fn set_immutable_global_message() {
    let kind = ErrorKind::SetImmutableGlobal { ty: ValType::F64, idx: 4294967295 };
    assert_eq!(
        category(kind),
        "f64 value cannot be set to immutable global variable 4294967295"
    );
}

#[test]
fn too_large_align_message() {
    let kind = ErrorKind::TooLargeAlign { align: 3, bits: 32 };
    assert_eq!(category(kind), "align 3 must not be larger than 32bits / 8");
}

#[test]
fn too_few_locals_message() {
    let kind = ErrorKind::TooFewFuncLocalsForParams { locals: 0, params: 10 };
    assert_eq!(category(kind), "function has 10 params > 0 locals");
}

#[test]
fn index_out_of_bounds_largest_values() {
    let kind = ErrorKind::IndexOutOfBounds { idx: u32::MAX, upper: usize::MAX, what: "local" };
    assert_eq!(
        category(kind),
        format!("local index 4294967295 out of bounds 0 <= idx < {}", usize::MAX)
    );
}

#[test]
fn error_keeps_its_parts() {
    let src = "(func)";
    let e = Error::new(ErrorKind::LabelStackEmpty { op: "br" }, 1, src);
    assert_eq!(e.offset(), 1);
    assert_eq!(e.source(), src);
    assert_eq!(*e.kind(), ErrorKind::LabelStackEmpty { op: "br" });
}

#[test]
fn result_alias_carries_boxed_error() {
    let r: wain_validate_error::Result<'_, u32> =
        Err(Error::new(ErrorKind::LabelStackEmpty { op: "br" }, 0, ""));
    match r {
        Err(e) => assert_eq!(e.offset(), 0),
        Ok(_) => panic!("expected a failure"),
    }
}
