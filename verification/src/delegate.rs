//! The per-type generator for delegate types: one fixed operation set per IR
//! type, each operation returning the exact generated text per target, or an
//! empty/no-op result where an operation is not meaningful for the type.

use crate::ir::{IrEnum, IrTypeDelegate, IrTypePrimitive, IrTypeTime};
use crate::target::{opt_text, Acc};
use crate::text::{decimal_digits, decimal_string};
use vstd::prelude::*;
use vstd::string::StringExecFns;

verus! {

/// Generator for a plain enum reference.  A primitive-enum delegate differs
/// from a plain enum only in its decode/encode bodies, so the delegate
/// generator forwards every structural hook here verbatim.
pub struct TypeEnumRefGenerator<'a> {
    pub ir: &'a IrEnum,
}

/// Wrapping an expression in the enum's declared wrapper, when one exists.
pub open spec fn spec_wrap_obj(wrapper_name: Option<String>, obj: Seq<char>) -> Seq<char> {
    match wrapper_name {
        Some(w) => w@ + "("@ + obj + ")"@,
        None => obj,
    }
}

/// Reaching the underlying value through the wrapper, when one exists.
pub open spec fn spec_self_access(wrapper_name: Option<String>, obj: Seq<char>) -> Seq<char> {
    match wrapper_name {
        Some(_) => obj + ".0"@,
        None => obj,
    }
}

impl<'a> TypeEnumRefGenerator<'a> {
    /// Enum references pull in no imports.
    pub fn imports(&self) -> (r: Option<String>)
        ensures
            r is None,
    {
        None
    }

    /// The wrapper struct name the original declaration specifies, if any.
    pub fn wrapper_struct(&self) -> (r: Option<String>)
        ensures
            opt_text(r) == opt_text(self.ir.wrapper_name),
    {
        match &self.ir.wrapper_name {
            Some(w) => Some(w.clone()),
            None => None,
        }
    }

    /// Wraps an API-side expression in the declared wrapper, if any.
    pub fn wrap_obj(&self, obj: String) -> (r: String)
        ensures
            r@ == spec_wrap_obj(self.ir.wrapper_name, obj@),
    {
        match &self.ir.wrapper_name {
            Some(w) => {
                let mut s = w.clone();
                s.append("(");
                s.append(obj.as_str());
                s.append(")");
                s
            },
            None => obj,
        }
    }

    /// Reaches the underlying value through the wrapper, if any.
    pub fn self_access(&self, obj: String) -> (r: String)
        ensures
            r@ == spec_self_access(self.ir.wrapper_name, obj@),
    {
        match &self.ir.wrapper_name {
            Some(_) => {
                let mut s = obj;
                s.append(".0");
                s
            },
            None => obj,
        }
    }

    /// Enum references need no static checks.
    pub fn static_checks(&self) -> (r: Option<String>)
        ensures
            r is None,
    {
        None
    }
}

/// The natively-compiled decode body of the string delegate: bytes in, text
/// out, invalid encoding tolerated by a lossy conversion.
pub open spec fn string_wire2api_io_text() -> Seq<char> {
    "let vec: Vec<u8> = self.wire2api(); String::from_utf8_lossy(&vec).into_owned()"@
}

/// The decode body of the zero-copy buffer delegate on either target.
pub open spec fn zero_copy_wire2api_text() -> Seq<char> {
    "ZeroCopyBuffer(self.wire2api())"@
}

/// The natively-compiled decode body of the string-list delegate.
pub open spec fn string_list_wire2api_io_text() -> Seq<char> {
    "let vec: Vec<*mut wire_uint_8_list> = self.wire2api(); vec.into_iter().map(Wire2Api::wire2api).collect()"@
}

/// The script-engine decode body of the string-list delegate.
pub open spec fn string_list_wire2api_wasm_text() -> Seq<char> {
    "self.dyn_into::<JsArray>().unwrap().iter().map(Wire2Api::wire2api).collect()"@
}

/// One decode match arm per variant, in declaration order, starting at
/// ordinal `start`.
pub open spec fn enum_wire2api_arms(name: Seq<char>, variants: Seq<String>, start: nat) -> Seq<
    char,
>
    decreases variants.len(),
{
    if variants.len() == 0 {
        Seq::empty()
    } else {
        "    "@ + decimal_digits(start) + " => "@ + name + "::"@ + variants[0]@ + ",\n"@
            + enum_wire2api_arms(name, variants.drop_first(), start + 1)
    }
}

/// The full decode body of a primitive-enum delegate: ordinals map to
/// variants in declaration order, and any other wire value is a fatal decode
/// error, never silently clamped.
pub open spec fn enum_wire2api_text(name: Seq<char>, variants: Seq<String>) -> Seq<char> {
    "match self {\n"@ + enum_wire2api_arms(name, variants, 0)
        + "    _ => unreachable!(\"Invalid variant for "@ + name + ": {}\", self),\n}"@
}

fn build_enum_wire2api_arms(name: &str, variants: &Vec<String>) -> (r: String)
    ensures
        r@ == enum_wire2api_arms(name@, variants@, 0),
{
    let mut s = String::new();
    proof {
        assert(variants@.skip(0) =~= variants@);
    }
    let mut i: usize = 0;
    while i < variants.len()
        invariant
            i <= variants@.len(),
            s@ + enum_wire2api_arms(name@, variants@.skip(i as int), i as nat)
                == enum_wire2api_arms(name@, variants@, 0),
        decreases variants@.len() - i,
    {
        let ghost s_old = s@;
        s.append("    ");
        let d = decimal_string(i as u64);
        s.append(d.as_str());
        s.append(" => ");
        s.append(name);
        s.append("::");
        s.append(variants[i].as_str());
        s.append(",\n");
        proof {
            let tail = variants@.skip(i as int);
            assert(tail[0] == variants@[i as int]);
            assert(tail.drop_first() =~= variants@.skip(i + 1));
            assert(s@ + enum_wire2api_arms(name@, variants@.skip(i + 1), (i + 1) as nat) =~= s_old
                + enum_wire2api_arms(name@, tail, i as nat));
        }
        i += 1;
    }
    proof {
        assert(variants@.skip(variants@.len() as int) =~= Seq::<String>::empty());
        assert(s@ + Seq::<char>::empty() =~= s@);
    }
    s
}

/// The natively-compiled time decode prologue: microseconds split into
/// floored (Euclidean) seconds and the matching non-negative sub-second
/// remainder scaled to nanoseconds.
pub open spec fn time_io_prefix_text() -> Seq<char> {
    "let s = self.div_euclid(1_000_000) as i64;\nlet ns = (self.rem_euclid(1_000_000) * 1_000) as u32;\n"@
}

/// The script-engine time decode prologue: milliseconds split the same way.
pub open spec fn time_wasm_prefix_text() -> Seq<char> {
    "let s = self.div_euclid(1_000) as i64;\nlet ns = (self.rem_euclid(1_000) * 1_000_000) as u32;\n"@
}

/// The conversion expression finishing a (non-duration) time decode.
pub open spec fn time_conversion_text(t: IrTypeTime) -> Seq<char> {
    match t {
        IrTypeTime::Naive => "chrono::NaiveDateTime::from_timestamp(s, ns)"@,
        IrTypeTime::Utc => "chrono::DateTime::<chrono::Utc>::from_utc("@
            + "chrono::NaiveDateTime::from_timestamp(s, ns)"@ + ", chrono::Utc)"@,
        IrTypeTime::Local => "chrono::DateTime::<chrono::Local>::from("@
            + "chrono::DateTime::<chrono::Utc>::from_utc("@
            + "chrono::NaiveDateTime::from_timestamp(s, ns)"@ + ", chrono::Utc)"@ + ")"@,
        IrTypeTime::Duration => Seq::empty(),
    }
}

fn build_time_conversion(t: &IrTypeTime) -> (r: String)
    requires
        *t != IrTypeTime::Duration,
    ensures
        r@ == time_conversion_text(*t),
{
    match t {
        IrTypeTime::Naive => String::from_str("chrono::NaiveDateTime::from_timestamp(s, ns)"),
        IrTypeTime::Utc => {
            let mut s = String::from_str("chrono::DateTime::<chrono::Utc>::from_utc(");
            s.append("chrono::NaiveDateTime::from_timestamp(s, ns)");
            s.append(", chrono::Utc)");
            s
        },
        IrTypeTime::Local => {
            let mut s = String::from_str("chrono::DateTime::<chrono::Local>::from(");
            s.append("chrono::DateTime::<chrono::Utc>::from_utc(");
            s.append("chrono::NaiveDateTime::from_timestamp(s, ns)");
            s.append(", chrono::Utc)");
            s.append(")");
            s
        },
        IrTypeTime::Duration => String::new(),
    }
}

/// What `wire2api_body` yields per delegate type and target.
pub open spec fn wire2api_body_spec(ir: IrTypeDelegate, r: Acc) -> bool {
    match ir {
        IrTypeDelegate::Str => opt_text(r.io) == Some(string_wire2api_io_text()) && opt_text(
            r.wasm,
        ) == Some("self"@) && r.common is None,
        IrTypeDelegate::ZeroCopyBufferVecPrimitive(_) => opt_text(r.io) == Some(
            zero_copy_wire2api_text(),
        ) && opt_text(r.wasm) == Some(zero_copy_wire2api_text()) && r.common is None,
        IrTypeDelegate::StringList => opt_text(r.io) == Some(string_list_wire2api_io_text())
            && opt_text(r.wasm) == Some(string_list_wire2api_wasm_text()) && r.common is None,
        IrTypeDelegate::PrimitiveEnum { ir: enu, repr: _ } => opt_text(r.io) == Some(
            enum_wire2api_text(enu.name@, enu.variants@),
        ) && opt_text(r.wasm) == Some(enum_wire2api_text(enu.name@, enu.variants@)) && r.common
            is None,
        IrTypeDelegate::Time(IrTypeTime::Duration) => opt_text(r.io) == Some(
            "chrono::Duration::microseconds(self)"@,
        ) && opt_text(r.wasm) == Some("chrono::Duration::milliseconds(self)"@) && r.common
            is None,
        IrTypeDelegate::Time(t) => opt_text(r.io) == Some(
            time_io_prefix_text() + time_conversion_text(t),
        ) && opt_text(r.wasm) == Some(time_wasm_prefix_text() + time_conversion_text(t))
            && r.common is None,
    }
}

/// Generator for one delegate type.
pub struct TypeDelegateGenerator {
    pub ir: IrTypeDelegate,
}

impl TypeDelegateGenerator {
    /// The statement sequence converting one wire value into its API value,
    /// per execution target.
    pub fn wire2api_body(&self) -> (r: Acc)
        ensures
            wire2api_body_spec(self.ir, r),
    {
        match &self.ir {
            IrTypeDelegate::Str => Acc {
                common: None,
                io: Some(
                    String::from_str(
                        "let vec: Vec<u8> = self.wire2api(); String::from_utf8_lossy(&vec).into_owned()",
                    ),
                ),
                wasm: Some(String::from_str("self")),
            },
            IrTypeDelegate::ZeroCopyBufferVecPrimitive(_) => {
                let body = Some(String::from_str("ZeroCopyBuffer(self.wire2api())"));
                Acc::distribute(&body)
            },
            IrTypeDelegate::StringList => Acc {
                common: None,
                io: Some(
                    String::from_str(
                        "let vec: Vec<*mut wire_uint_8_list> = self.wire2api(); vec.into_iter().map(Wire2Api::wire2api).collect()",
                    ),
                ),
                wasm: Some(
                    String::from_str(
                        "self.dyn_into::<JsArray>().unwrap().iter().map(Wire2Api::wire2api).collect()",
                    ),
                ),
            },
            IrTypeDelegate::PrimitiveEnum { ir: enu, repr: _ } => {
                let arms = build_enum_wire2api_arms(enu.name.as_str(), &enu.variants);
                let mut t = String::from_str("match self {\n");
                t.append(arms.as_str());
                t.append("    _ => unreachable!(\"Invalid variant for ");
                t.append(enu.name.as_str());
                t.append(": {}\", self),\n}");
                let body = Some(t);
                Acc::distribute(&body)
            },
            IrTypeDelegate::Time(t) => {
                if let IrTypeTime::Duration = t {
                    Acc {
                        common: None,
                        io: Some(String::from_str("chrono::Duration::microseconds(self)")),
                        wasm: Some(String::from_str("chrono::Duration::milliseconds(self)")),
                    }
                } else {
                    let conversion = build_time_conversion(t);
                    let mut io = String::from_str(
                        "let s = self.div_euclid(1_000_000) as i64;\nlet ns = (self.rem_euclid(1_000_000) * 1_000) as u32;\n",
                    );
                    io.append(conversion.as_str());
                    let mut wasm = String::from_str(
                        "let s = self.div_euclid(1_000) as i64;\nlet ns = (self.rem_euclid(1_000) * 1_000_000) as u32;\n",
                    );
                    wasm.append(conversion.as_str());
                    Acc { common: None, io: Some(io), wasm: Some(wasm) }
                }
            },
        }
    }

    /// The wire-struct field declarations, present only for composite
    /// delegate types that need their own transmissible struct layout.
    pub fn wire_struct_fields(&self) -> (r: Option<Vec<String>>)
        ensures
            match self.ir {
                IrTypeDelegate::StringList => r matches Some(fields) && fields@.len() == 2
                    && fields@[0]@ == "ptr: *mut *mut wire_uint_8_list"@ && fields@[1]@
                    == "len: i32"@,
                _ => r is None,
            },
    {
        match &self.ir {
            IrTypeDelegate::StringList => {
                let mut fields: Vec<String> = Vec::new();
                fields.push(String::from_str("ptr: *mut *mut wire_uint_8_list"));
                fields.push(String::from_str("len: i32"));
                Some(fields)
            },
            _ => None,
        }
    }

    /// The named allocate helper materializing the delegate's wire struct
    /// from API-side data; only heap-owning composite delegates need one.
    pub fn allocate_funcs(&self, block_index: u64) -> (r: Acc)
        ensures
            match self.ir {
                IrTypeDelegate::StringList => opt_text(r.io) == Some(
                    string_list_allocate_text(block_index as nat),
                ) && r.wasm is None && r.common is None,
                _ => r.common is None && r.io is None && r.wasm is None,
            },
    {
        match &self.ir {
            IrTypeDelegate::StringList => {
                let mut t = String::from_str("#[no_mangle]\npub ext");
                t.append("ern \"C\" fn new_StringList_");
                let d = decimal_string(block_index);
                t.append(d.as_str());
                t.append(
                    "(len: i32) -> *mut wire_StringList {\n    let wrap = wire_StringList { ptr: support::new_leak_vec_ptr(<*mut wire_uint_8_list>::new_with_null_ptr(), len), len };\n    support::new_leak_box_ptr(wrap)\n}\n",
                );
                Acc { common: None, io: Some(t), wasm: None }
            },
            _ => Acc::new_empty(),
        }
    }

    /// The conversion producing a managed-runtime value from an API value:
    /// non-empty only for enum delegates, where it emits the ordinal mapping
    /// inverse to the decode's, under the declared wrapper name if the
    /// original declaration specifies one.
    pub fn impl_intodart(&self) -> (r: String)
        ensures
            match self.ir {
                IrTypeDelegate::PrimitiveEnum { ir: enu, repr: _ } => r@ == enum_intodart_text(
                    enu.wrapper_name,
                    enu.name@,
                    enu.variants@,
                ),
                _ => r@ == Seq::<char>::empty(),
            },
    {
        match &self.ir {
            IrTypeDelegate::PrimitiveEnum { ir: enu, repr: _ } => {
                let gen = TypeEnumRefGenerator { ir: enu };
                let self_ref = gen.self_access(String::from_str("self"));
                let impl_name: &str = match &enu.wrapper_name {
                    Some(w) => w.as_str(),
                    None => enu.name.as_str(),
                };
                let self_path: &str = match &enu.wrapper_name {
                    Some(_) => enu.name.as_str(),
                    None => "Self",
                };
                let arms = build_intodart_arms(self_path, &enu.variants);
                let mut t = String::from_str("impl support::IntoDart for ");
                t.append(impl_name);
                t.append(" {\n    fn into_dart(self) -> support::DartAbi {\n        match ");
                t.append(self_ref.as_str());
                t.append(" {\n");
                t.append(arms.as_str());
                t.append("        }.into_dart()\n    }\n}\n");
                t
            },
            _ => String::new(),
        }
    }

    /// The decode path for a wire value arriving as an engine-native dynamic
    /// value; `None` signals the caller to fall back to a generic numeric
    /// cast decode.
    pub fn wire2api_jsvalue(&self) -> (r: Option<String>)
        ensures
            match self.ir {
                IrTypeDelegate::Str => opt_text(r) == Some(
                    "self.as_string().expect(\"non-UTF-8 string, or not a string\")"@,
                ),
                IrTypeDelegate::PrimitiveEnum { ir: _, repr } => opt_text(r) == Some(
                    "(self.unchecked_into_f64() as "@ + repr.spec_rust_type()
                        + ").wire2api()"@,
                ),
                IrTypeDelegate::ZeroCopyBufferVecPrimitive(_) => opt_text(r) == Some(
                    zero_copy_wire2api_text(),
                ),
                _ => r is None,
            },
    {
        match &self.ir {
            IrTypeDelegate::Str => Some(
                String::from_str("self.as_string().expect(\"non-UTF-8 string, or not a string\")"),
            ),
            IrTypeDelegate::PrimitiveEnum { ir: _, repr } => {
                let mut t = String::from_str("(self.unchecked_into_f64() as ");
                t.append(repr.rust_type());
                t.append(").wire2api()");
                Some(t)
            },
            IrTypeDelegate::ZeroCopyBufferVecPrimitive(_) => Some(
                String::from_str("ZeroCopyBuffer(self.wire2api())"),
            ),
            _ => None,
        }
    }

    /// Forwarded verbatim to the enum-reference generator for enum
    /// delegates; no-op otherwise.
    pub fn imports(&self) -> (r: Option<String>)
        ensures
            r is None,
    {
        match &self.ir {
            IrTypeDelegate::PrimitiveEnum { ir: enu, repr: _ } => TypeEnumRefGenerator {
                ir: enu,
            }.imports(),
            _ => None,
        }
    }

    /// Forwarded verbatim to the enum-reference generator for enum
    /// delegates; no-op otherwise.
    pub fn wrapper_struct(&self) -> (r: Option<String>)
        ensures
            match self.ir {
                IrTypeDelegate::PrimitiveEnum { ir: enu, repr: _ } => opt_text(r) == opt_text(
                    enu.wrapper_name,
                ),
                _ => r is None,
            },
    {
        match &self.ir {
            IrTypeDelegate::PrimitiveEnum { ir: enu, repr: _ } => TypeEnumRefGenerator {
                ir: enu,
            }.wrapper_struct(),
            _ => None,
        }
    }

    /// Forwarded verbatim to the enum-reference generator for enum
    /// delegates; identity otherwise.
    pub fn wrap_obj(&self, obj: String) -> (r: String)
        ensures
            match self.ir {
                IrTypeDelegate::PrimitiveEnum { ir: enu, repr: _ } => r@ == spec_wrap_obj(
                    enu.wrapper_name,
                    obj@,
                ),
                _ => r@ == obj@,
            },
    {
        match &self.ir {
            IrTypeDelegate::PrimitiveEnum { ir: enu, repr: _ } => TypeEnumRefGenerator {
                ir: enu,
            }.wrap_obj(obj),
            _ => obj,
        }
    }

    /// Forwarded verbatim to the enum-reference generator for enum
    /// delegates; identity otherwise.
    pub fn self_access(&self, obj: String) -> (r: String)
        ensures
            match self.ir {
                IrTypeDelegate::PrimitiveEnum { ir: enu, repr: _ } => r@ == spec_self_access(
                    enu.wrapper_name,
                    obj@,
                ),
                _ => r@ == obj@,
            },
    {
        match &self.ir {
            IrTypeDelegate::PrimitiveEnum { ir: enu, repr: _ } => TypeEnumRefGenerator {
                ir: enu,
            }.self_access(obj),
            _ => obj,
        }
    }

    /// Forwarded verbatim to the enum-reference generator for enum
    /// delegates; no-op otherwise.
    pub fn static_checks(&self) -> (r: Option<String>)
        ensures
            r is None,
    {
        match &self.ir {
            IrTypeDelegate::PrimitiveEnum { ir: enu, repr: _ } => TypeEnumRefGenerator {
                ir: enu,
            }.static_checks(),
            _ => None,
        }
    }
}

/// The decode semantics the emitted enum decode body implements: a wire
/// ordinal inside `[0, N)` yields the variant at that position in
/// declaration order, and any other wire value is a fatal decode error —
/// `None` here, never a silently clamped variant.
pub fn enum_wire2api_ordinal<'a>(enu: &'a IrEnum, ordinal: i64) -> (r: Option<&'a String>)
    ensures
        0 <= ordinal < enu.variants@.len() ==> (r matches Some(v) && v@ == enu.variants@[ordinal as int]@),
        !(0 <= ordinal < enu.variants@.len()) ==> r is None,
{
    if ordinal >= 0 && (ordinal as u64) < (enu.variants.len() as u64) {
        Some(&enu.variants[ordinal as usize])
    } else {
        None
    }
}

/// The allocate helper for the string-list wire struct: the length comes in,
/// the struct comes back with a pointer array of exactly that many slots.
pub open spec fn string_list_allocate_text(block_index: nat) -> Seq<char> {
    "#[no_mangle]\npub ext"@ + "ern \"C\" fn new_StringList_"@ + decimal_digits(block_index)
        + "(len: i32) -> *mut wire_StringList {\n    let wrap = wire_StringList { ptr: support::new_leak_vec_ptr(<*mut wire_uint_8_list>::new_with_null_ptr(), len), len };\n    support::new_leak_box_ptr(wrap)\n}\n"@
}

/// One encode match arm per variant: variant to its 0-indexed ordinal.
pub open spec fn intodart_arms(self_path: Seq<char>, variants: Seq<String>, start: nat) -> Seq<
    char,
>
    decreases variants.len(),
{
    if variants.len() == 0 {
        Seq::empty()
    } else {
        "            "@ + self_path + "::"@ + variants[0]@ + " => "@ + decimal_digits(start)
            + ",\n"@ + intodart_arms(self_path, variants.drop_first(), start + 1)
    }
}

/// The full managed-runtime conversion for an enum delegate, the inverse of
/// its decode's ordinal mapping.
pub open spec fn enum_intodart_text(
    wrapper_name: Option<String>,
    name: Seq<char>,
    variants: Seq<String>,
) -> Seq<char> {
    let impl_name = match wrapper_name {
        Some(w) => w@,
        None => name,
    };
    let self_path = match wrapper_name {
        Some(_) => name,
        None => "Self"@,
    };
    "impl support::IntoDart for "@ + impl_name
        + " {\n    fn into_dart(self) -> support::DartAbi {\n        match "@ + spec_self_access(
        wrapper_name,
        "self"@,
    ) + " {\n"@ + intodart_arms(self_path, variants, 0) + "        }.into_dart()\n    }\n}\n"@
}

fn build_intodart_arms(self_path: &str, variants: &Vec<String>) -> (r: String)
    ensures
        r@ == intodart_arms(self_path@, variants@, 0),
{
    let mut s = String::new();
    proof {
        assert(variants@.skip(0) =~= variants@);
    }
    let mut i: usize = 0;
    while i < variants.len()
        invariant
            i <= variants@.len(),
            s@ + intodart_arms(self_path@, variants@.skip(i as int), i as nat) == intodart_arms(
                self_path@,
                variants@,
                0,
            ),
        decreases variants@.len() - i,
    {
        let ghost s_old = s@;
        s.append("            ");
        s.append(self_path);
        s.append("::");
        s.append(variants[i].as_str());
        s.append(" => ");
        let d = decimal_string(i as u64);
        s.append(d.as_str());
        s.append(",\n");
        proof {
            let tail = variants@.skip(i as int);
            assert(tail[0] == variants@[i as int]);
            assert(tail.drop_first() =~= variants@.skip(i + 1));
            assert(s@ + intodart_arms(self_path@, variants@.skip(i + 1), (i + 1) as nat) =~= s_old
                + intodart_arms(self_path@, tail, i as nat));
        }
        i += 1;
    }
    proof {
        assert(variants@.skip(variants@.len() as int) =~= Seq::<String>::empty());
        assert(s@ + Seq::<char>::empty() =~= s@);
    }
    s
}

} // verus!
