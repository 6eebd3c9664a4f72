//! The exported wire-function surface of a generated bridge module, and the
//! string-list wire struct with its allocation helper.
//!
//! Every exported wire function takes a response-channel identifier first —
//! an integer channel id on the natively-compiled target, an engine channel
//! object on the script-engine-hosted target — forwards to its paired
//! `_impl` function, and the result is delivered to the channel.  Here the
//! delivery is modeled by returning the channel id together with the value
//! the runtime would deliver to it.

use crate::target::{opt_text, Acc};
use vstd::prelude::*;
use vstd::string::StringExecFns;

verus! {

/// A wire value's null-initialized form, for freshly allocated wire structs
/// whose fields the caller fills afterwards.
pub trait NewWithNullPtr: Sized {
    fn new_with_null_ptr() -> Self;
}

/// The string-list wire struct: a per-element array standing for the
/// per-element transmissible pointers, and its count.  The two fields must
/// always describe the same sequence.
pub struct WireStringList {
    pub ptr: Vec<String>,
    pub len: i32,
}

impl WireStringList {
    /// The struct's invariant: the length field counts exactly the elements
    /// the array holds.
    pub open spec fn wf(self) -> bool {
        self.len as int == self.ptr@.len()
    }
}

impl NewWithNullPtr for WireStringList {
    fn new_with_null_ptr() -> Self {
        WireStringList { ptr: Vec::new(), len: 0 }
    }
}

/// Law: allocating the string-list wire struct from an API-side list of
/// length `L` yields a length field of exactly `L` and exactly `L`
/// per-element entries, each carrying its source element; an empty list
/// still yields a valid struct.
pub fn wire_string_list_from_api(items: &Vec<String>) -> (r: WireStringList)
    requires
        items@.len() <= i32::MAX,
    ensures
        r.wf(),
        r.len as int == items@.len(),
        r.ptr@.len() == items@.len(),
        forall|k: int| 0 <= k < items@.len() ==> (#[trigger] r.ptr@[k])@ == items@[k]@,
{
    let mut ptr: Vec<String> = Vec::new();
    let mut i: usize = 0;
    while i < items.len()
        invariant
            i <= items@.len(),
            items@.len() <= i32::MAX,
            ptr@.len() == i,
            forall|k: int| 0 <= k < i ==> (#[trigger] ptr@[k])@ == items@[k]@,
        decreases items@.len() - i,
    {
        ptr.push(items[i].clone());
        i += 1;
    }
    let len = ptr.len() as i32;
    WireStringList { ptr, len }
}

/// One parameter of an exported API function: its name and its wire type.
pub struct WireParam {
    pub name: String,
    pub ty: String,
}

/// The exported symbol's name: the module's unique prefix, the `wire_`
/// stem, and the declared function name.
pub open spec fn wire_func_name(prefix: Seq<char>, func: Seq<char>) -> Seq<char> {
    prefix + "wire_"@ + func
}

/// The declared parameters rendered for the signature: `, name: type` each.
pub open spec fn wire_params_text(params: Seq<WireParam>) -> Seq<char>
    decreases params.len(),
{
    if params.len() == 0 {
        Seq::empty()
    } else {
        ", "@ + params[0].name@ + ": "@ + params[0].ty@ + wire_params_text(params.drop_first())
    }
}

/// The declared parameters rendered for the forwarding call: `, name` each.
pub open spec fn wire_args_text(params: Seq<WireParam>) -> Seq<char>
    decreases params.len(),
{
    if params.len() == 0 {
        Seq::empty()
    } else {
        ", "@ + params[0].name@ + wire_args_text(params.drop_first())
    }
}

/// The natively-compiled target's exported forwarding function: a C-ABI
/// symbol taking an integer channel id, forwarding to the `_impl` function.
pub open spec fn wire_func_io_text(name: Seq<char>, params: Seq<WireParam>) -> Seq<char> {
    "#[no_mangle]\npub ext"@ + "ern \"C\" fn "@ + name + "(port_: i64"@ + wire_params_text(params)
        + ") {\n    "@ + name + "_impl(port_"@ + wire_args_text(params) + ")\n}\n"@
}

/// The script-engine target's bindable function of the same name, taking an
/// engine channel object.
pub open spec fn wire_func_wasm_text(name: Seq<char>, params: Seq<WireParam>) -> Seq<char> {
    "#[wasm_bindgen]\npub fn "@ + name + "(port_: MessagePort"@ + wire_params_text(params)
        + ") {\n    "@ + name + "_impl(port_"@ + wire_args_text(params) + ")\n}\n"@
}

fn build_wire_params(params: &Vec<WireParam>) -> (r: String)
    ensures
        r@ == wire_params_text(params@),
{
    let mut s = String::new();
    proof {
        assert(params@.skip(0) =~= params@);
    }
    let mut i: usize = 0;
    while i < params.len()
        invariant
            i <= params@.len(),
            s@ + wire_params_text(params@.skip(i as int)) == wire_params_text(params@),
        decreases params@.len() - i,
    {
        let ghost s_old = s@;
        s.append(", ");
        s.append(params[i].name.as_str());
        s.append(": ");
        s.append(params[i].ty.as_str());
        proof {
            let tail = params@.skip(i as int);
            assert(tail[0] == params@[i as int]);
            assert(tail.drop_first() =~= params@.skip(i + 1));
            assert(s@ + wire_params_text(params@.skip(i + 1)) =~= s_old + wire_params_text(tail));
        }
        i += 1;
    }
    proof {
        assert(params@.skip(params@.len() as int) =~= Seq::<WireParam>::empty());
        assert(s@ + Seq::<char>::empty() =~= s@);
    }
    s
}

fn build_wire_args(params: &Vec<WireParam>) -> (r: String)
    ensures
        r@ == wire_args_text(params@),
{
    let mut s = String::new();
    proof {
        assert(params@.skip(0) =~= params@);
    }
    let mut i: usize = 0;
    while i < params.len()
        invariant
            i <= params@.len(),
            s@ + wire_args_text(params@.skip(i as int)) == wire_args_text(params@),
        decreases params@.len() - i,
    {
        let ghost s_old = s@;
        s.append(", ");
        s.append(params[i].name.as_str());
        proof {
            let tail = params@.skip(i as int);
            assert(tail[0] == params@[i as int]);
            assert(tail.drop_first() =~= params@.skip(i + 1));
            assert(s@ + wire_args_text(params@.skip(i + 1)) =~= s_old + wire_args_text(tail));
        }
        i += 1;
    }
    proof {
        assert(params@.skip(params@.len() as int) =~= Seq::<WireParam>::empty());
        assert(s@ + Seq::<char>::empty() =~= s@);
    }
    s
}

/// Emits the exported forwarding function for one declared API function,
/// per target: identical name and parameter shape, differing only in the
/// channel argument's type and the export mechanism.
pub fn generate_wire_func(prefix: &str, func: &str, params: &Vec<WireParam>) -> (r: Acc)
    ensures
        opt_text(r.io) == Some(wire_func_io_text(wire_func_name(prefix@, func@), params@)),
        opt_text(r.wasm) == Some(wire_func_wasm_text(wire_func_name(prefix@, func@), params@)),
        r.common is None,
{
    let mut name = String::from_str(prefix);
    name.append("wire_");
    name.append(func);
    let params_text = build_wire_params(params);
    let args_text = build_wire_args(params);
    let mut io = String::from_str("#[no_mangle]\npub ext");
    io.append("ern \"C\" fn ");
    io.append(name.as_str());
    io.append("(port_: i64");
    io.append(params_text.as_str());
    io.append(") {\n    ");
    io.append(name.as_str());
    io.append("_impl(port_");
    io.append(args_text.as_str());
    io.append(")\n}\n");
    let mut wasm = String::from_str("#[wasm_bindgen]\npub fn ");
    wasm.append(name.as_str());
    wasm.append("(port_: MessagePort");
    wasm.append(params_text.as_str());
    wasm.append(") {\n    ");
    wasm.append(name.as_str());
    wasm.append("_impl(port_");
    wasm.append(args_text.as_str());
    wasm.append(")\n}\n");
    Acc { common: None, io: Some(io), wasm: Some(wasm) }
}

#[allow(non_snake_case)]
fn P7C55DD6B_wire_simple_adder_1_impl(port_: i64, a: i32, b: i32) -> (r: (i64, i32))
    requires
        i32::MIN <= a + b <= i32::MAX,
    ensures
        r.0 == port_,
        r.1 == a + b,
{
    (port_, a + b)
}

/// The script-engine target's exported wire function of the example adder:
/// forwards the channel and both operands to its `_impl` function, whose
/// result — the sum — is what the runtime delivers to the channel, returned
/// here alongside the channel id.
#[allow(non_snake_case)]
pub fn P7C55DD6B_wire_simple_adder_1(port_: i64, a: i32, b: i32) -> (r: (i64, i32))
    requires
        i32::MIN <= a + b <= i32::MAX,
    ensures
        r.0 == port_,
        r.1 == a + b,
{
    P7C55DD6B_wire_simple_adder_1_impl(port_, a, b)
}

#[allow(non_snake_case)]
fn P7C55DD6B_wire_simple_adder_2_impl(port_: i64, a: i32, b: i32) -> (r: (i64, i32))
    requires
        i32::MIN <= a + b <= i32::MAX,
    ensures
        r.0 == port_,
        r.1 == a + b,
{
    (port_, a + b)
}

/// The natively-compiled target's twin of the example adder.  Its exported
/// form is a C-ABI symbol of the same name taking the integer channel id
/// first; the symbol modifier itself cannot stand here, so this carries the
/// forwarding and its contract.
#[allow(non_snake_case)]
pub fn P7C55DD6B_wire_simple_adder_2(port_: i64, a: i32, b: i32) -> (r: (i64, i32))
    requires
        i32::MIN <= a + b <= i32::MAX,
    ensures
        r.0 == port_,
        r.1 == a + b,
{
    P7C55DD6B_wire_simple_adder_2_impl(port_, a, b)
}

} // verus!
