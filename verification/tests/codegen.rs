use frb_codegen::delegate::{
    enum_wire2api_ordinal, TypeDelegateGenerator, TypeEnumRefGenerator,
};
use frb_codegen::ir::{IrEnum, IrTypeDelegate, IrTypePrimitive, IrTypeTime};
use frb_codegen::target::Acc;

fn weekday_enum(wrapper: Option<&str>) -> IrEnum {
    IrEnum {
        name: "Weekday".to_string(),
        wrapper_name: wrapper.map(|w| w.to_string()),
        variants: vec![
            "Monday".to_string(),
            "Tuesday".to_string(),
            "Wednesday".to_string(),
        ],
    }
}

#[test]
fn accumulator_join_concatenates_matching_slots() {
    let a = Acc { common: None, io: Some("one".to_string()), wasm: None };
    let b = Acc { common: Some("shared".to_string()), io: Some("two".to_string()), wasm: None };
    let joined = a.join(&b);
    assert_eq!(joined.common.as_deref(), Some("shared"));
    assert_eq!(joined.io.as_deref(), Some("onetwo"));
    assert!(joined.wasm.is_none());

    let empty = Acc::new_empty();
    assert!(empty.common.is_none() && empty.io.is_none() && empty.wasm.is_none());

    let spread = Acc::distribute(&Some("x".to_string()));
    assert_eq!(spread.io.as_deref(), Some("x"));
    assert_eq!(spread.wasm.as_deref(), Some("x"));
    assert!(spread.common.is_none());
}

#[test]
fn string_delegate_decodes_lossily_on_io_only() {
    let generator = TypeDelegateGenerator { ir: IrTypeDelegate::Str };
    let body = generator.wire2api_body();
    assert_eq!(
        body.io.as_deref(),
        Some("let vec: Vec<u8> = self.wire2api(); String::from_utf8_lossy(&vec).into_owned()"),
    );
    assert_eq!(body.wasm.as_deref(), Some("self"));
    assert_eq!(
        generator.wire2api_jsvalue().as_deref(),
        Some("self.as_string().expect(\"non-UTF-8 string, or not a string\")"),
    );
}

#[test]
fn zero_copy_delegate_wraps_both_targets() {
    let generator = TypeDelegateGenerator {
        ir: IrTypeDelegate::ZeroCopyBufferVecPrimitive(IrTypePrimitive::U8),
    };
    let body = generator.wire2api_body();
    assert_eq!(body.io.as_deref(), Some("ZeroCopyBuffer(self.wire2api())"));
    assert_eq!(body.wasm.as_deref(), Some("ZeroCopyBuffer(self.wire2api())"));
}

#[test]
fn enum_delegate_decode_lists_variants_in_declaration_order() {
    let generator = TypeDelegateGenerator {
        ir: IrTypeDelegate::PrimitiveEnum { ir: weekday_enum(None), repr: IrTypePrimitive::I32 },
    };
    let body = generator.wire2api_body();
    let expected = "match self {\n    0 => Weekday::Monday,\n    1 => Weekday::Tuesday,\n    2 => Weekday::Wednesday,\n    _ => unreachable!(\"Invalid variant for Weekday: {}\", self),\n}";
    assert_eq!(body.io.as_deref(), Some(expected));
    assert_eq!(body.wasm.as_deref(), Some(expected));
    assert_eq!(
        generator.wire2api_jsvalue().as_deref(),
        Some("(self.unchecked_into_f64() as i32).wire2api()"),
    );
}

#[test]
fn enum_ordinal_decode_never_clamps() {
    let enu = weekday_enum(None);
    assert_eq!(enum_wire2api_ordinal(&enu, 0).map(|v| v.as_str()), Some("Monday"));
    assert_eq!(enum_wire2api_ordinal(&enu, 1).map(|v| v.as_str()), Some("Tuesday"));
    assert_eq!(enum_wire2api_ordinal(&enu, 2).map(|v| v.as_str()), Some("Wednesday"));
    assert!(enum_wire2api_ordinal(&enu, 3).is_none());
    assert!(enum_wire2api_ordinal(&enu, -1).is_none());
    assert!(enum_wire2api_ordinal(&enu, i64::MAX).is_none());
}

#[test]
fn enum_delegate_intodart_is_the_ordinal_inverse() {
    let plain = TypeDelegateGenerator {
        ir: IrTypeDelegate::PrimitiveEnum { ir: weekday_enum(None), repr: IrTypePrimitive::I32 },
    };
    let expected = "impl support::IntoDart for Weekday {\n    fn into_dart(self) -> support::DartAbi {\n        match self {\n            Self::Monday => 0,\n            Self::Tuesday => 1,\n            Self::Wednesday => 2,\n        }.into_dart()\n    }\n}\n";
    assert_eq!(plain.impl_intodart(), expected);

    let wrapped = TypeDelegateGenerator {
        ir: IrTypeDelegate::PrimitiveEnum {
            ir: weekday_enum(Some("mirror_Weekday")),
            repr: IrTypePrimitive::I32,
        },
    };
    let text = wrapped.impl_intodart();
    assert!(text.starts_with("impl support::IntoDart for mirror_Weekday {"));
    assert!(text.contains("match self.0 {"));
    assert!(text.contains("            Weekday::Monday => 0,\n"));
}

#[test]
fn structural_hooks_forward_to_the_enum_generator() {
    let enu = weekday_enum(Some("mirror_Weekday"));
    let hooks = TypeEnumRefGenerator { ir: &enu };
    assert!(hooks.imports().is_none());
    assert!(hooks.static_checks().is_none());
    assert_eq!(hooks.wrapper_struct().as_deref(), Some("mirror_Weekday"));
    assert_eq!(hooks.wrap_obj("value".to_string()), "mirror_Weekday(value)");
    assert_eq!(hooks.self_access("self".to_string()), "self.0");

    let delegate = TypeDelegateGenerator {
        ir: IrTypeDelegate::PrimitiveEnum { ir: enu, repr: IrTypePrimitive::I32 },
    };
    assert_eq!(delegate.wrapper_struct().as_deref(), Some("mirror_Weekday"));
    assert_eq!(delegate.self_access("self".to_string()), "self.0");

    let non_enum = TypeDelegateGenerator { ir: IrTypeDelegate::Str };
    assert!(non_enum.wrapper_struct().is_none());
    assert_eq!(non_enum.wrap_obj("value".to_string()), "value");
    assert_eq!(non_enum.self_access("self".to_string()), "self");
    assert_eq!(non_enum.impl_intodart(), "");

    let list = TypeDelegateGenerator { ir: IrTypeDelegate::StringList };
    assert!(list.wire2api_jsvalue().is_none());
}

#[test]
fn string_list_delegate_owns_a_wire_struct_and_allocator() {
    let generator = TypeDelegateGenerator { ir: IrTypeDelegate::StringList };
    let fields = generator.wire_struct_fields().expect("the composite wire struct");
    assert_eq!(fields, vec!["ptr: *mut *mut wire_uint_8_list".to_string(), "len: i32".to_string()]);

    let alloc = generator.allocate_funcs(3);
    let text = alloc.io.expect("an io-side allocate helper");
    let expected_head = format!("#[no_mangle]\npub {}ern \"C\" fn new_StringList_3(len: i32)", "ext");
    assert!(text.starts_with(&expected_head));
    assert!(alloc.wasm.is_none());

    let none = TypeDelegateGenerator { ir: IrTypeDelegate::Str }.allocate_funcs(0);
    assert!(none.io.is_none() && none.wasm.is_none() && none.common.is_none());
    assert!(TypeDelegateGenerator { ir: IrTypeDelegate::Str }.wire_struct_fields().is_none());
}

#[test]
fn time_delegates_split_per_target_granularity() {
    let naive = TypeDelegateGenerator { ir: IrTypeDelegate::Time(IrTypeTime::Naive) };
    let body = naive.wire2api_body();
    assert_eq!(
        body.io.as_deref(),
        Some("let s = self.div_euclid(1_000_000) as i64;\nlet ns = (self.rem_euclid(1_000_000) * 1_000) as u32;\nchrono::NaiveDateTime::from_timestamp(s, ns)"),
    );
    assert_eq!(
        body.wasm.as_deref(),
        Some("let s = self.div_euclid(1_000) as i64;\nlet ns = (self.rem_euclid(1_000) * 1_000_000) as u32;\nchrono::NaiveDateTime::from_timestamp(s, ns)"),
    );

    let utc = TypeDelegateGenerator { ir: IrTypeDelegate::Time(IrTypeTime::Utc) };
    let text = utc.wire2api_body().io.unwrap();
    assert!(text.ends_with(
        "chrono::DateTime::<chrono::Utc>::from_utc(chrono::NaiveDateTime::from_timestamp(s, ns), chrono::Utc)",
    ));

    let duration = TypeDelegateGenerator { ir: IrTypeDelegate::Time(IrTypeTime::Duration) };
    let body = duration.wire2api_body();
    assert_eq!(body.io.as_deref(), Some("chrono::Duration::microseconds(self)"));
    assert_eq!(body.wasm.as_deref(), Some("chrono::Duration::milliseconds(self)"));
}
