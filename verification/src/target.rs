//! The per-target output accumulator: one optional fragment of generated
//! text for each execution target plus an optional shared fragment.

use vstd::prelude::*;
use vstd::string::StringExecFns;

verus! {

/// One operation's output, keyed by target.  A `None` slot means "no output
/// for that target", never an error.
pub struct Acc {
    pub common: Option<String>,
    pub io: Option<String>,
    pub wasm: Option<String>,
}

/// The text a slot holds; a missing slot holds no text.
pub open spec fn slot_text(slot: Option<String>) -> Seq<char> {
    match slot {
        Some(s) => s@,
        None => Seq::empty(),
    }
}

/// The view of a slot's text, kept optional.
pub open spec fn opt_text(slot: Option<String>) -> Option<Seq<char>> {
    match slot {
        Some(s) => Some(s@),
        None => None,
    }
}

fn join_slot(a: Option<String>, b: &Option<String>) -> (r: Option<String>)
    ensures
        slot_text(r) == slot_text(a) + slot_text(*b),
        r is None <==> a is None && b is None,
{
    match (a, b) {
        (Some(mut x), Some(y)) => {
            x.append(y.as_str());
            Some(x)
        },
        (Some(x), None) => {
            proof {
                assert(x@ + Seq::<char>::empty() =~= x@);
            }
            Some(x)
        },
        (None, Some(y)) => {
            proof {
                assert(Seq::<char>::empty() + y@ =~= y@);
            }
            Some(y.clone())
        },
        (None, None) => {
            proof {
                assert(Seq::<char>::empty() + Seq::<char>::empty() =~= Seq::<char>::empty());
            }
            None
        },
    }
}

impl Acc {
    /// The accumulator with every slot missing.
    pub fn new_empty() -> (r: Acc)
        ensures
            r.common is None,
            r.io is None,
            r.wasm is None,
    {
        Acc { common: None, io: None, wasm: None }
    }

    /// The same fragment for both execution targets, nothing shared.
    pub fn distribute(value: &Option<String>) -> (r: Acc)
        ensures
            r.common is None,
            opt_text(r.io) == opt_text(*value),
            opt_text(r.wasm) == opt_text(*value),
    {
        match value {
            Some(s) => Acc { common: None, io: Some(s.clone()), wasm: Some(s.clone()) },
            None => Acc { common: None, io: None, wasm: None },
        }
    }

    /// Merges two accumulators by concatenating same-named slots; a slot of
    /// the result is missing only when it is missing on both sides.
    pub fn join(self, other: &Acc) -> (r: Acc)
        ensures
            slot_text(r.common) == slot_text(self.common) + slot_text(other.common),
            slot_text(r.io) == slot_text(self.io) + slot_text(other.io),
            slot_text(r.wasm) == slot_text(self.wasm) + slot_text(other.wasm),
            r.common is None <==> self.common is None && other.common is None,
            r.io is None <==> self.io is None && other.io is None,
            r.wasm is None <==> self.wasm is None && other.wasm is None,
    {
        Acc {
            common: join_slot(self.common, &other.common),
            io: join_slot(self.io, &other.io),
            wasm: join_slot(self.wasm, &other.wasm),
        }
    }
}

} // verus!
