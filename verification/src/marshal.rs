//! Argument marshalling and the scalar-function trampoline.
//!
//! At the binary boundary a scalar function receives a signed argument count
//! and a pointer to an array of opaque per-argument handles, each handle a
//! pointer to a value or null. Here the array is modeled as an optional
//! vector of optional values: an absent vector stands for a null array
//! pointer, an absent element for a null handle. The arity guard runs before
//! anything else, because a count outside the declared window means the
//! array itself cannot be trusted and must not be read.

use vstd::prelude::*;
use crate::value::{null_model, Value, ValueModel};

verus! {

/// The inclusive arity window: the declared [min, max] bounds admit the
/// count.
pub open spec fn arity_in_range(min: i32, max: i32, argc: i32) -> bool {
    min <= argc && argc <= max
}

/// The guard a trampoline runs before touching the argument array.
pub fn arity_ok(min: i32, max: i32, argc: i32) -> (r: bool)
    ensures
        r == arity_in_range(min, max, argc),
{
    min <= argc && argc <= max
}

/// The models of a sequence of values.
pub open spec fn models_of(values: Seq<Value>) -> Seq<ValueModel> {
    values.map_values(|v: Value| v@)
}

/// The value a single handle stands for: an absent handle stands for the
/// null value, a present one for the value it points at.
pub open spec fn handle_model(handle: Option<Value>) -> ValueModel {
    match handle {
        Option::Some(v) => v@,
        Option::None => null_model(),
    }
}

/// What marshalling an in-range count yields: a count of zero or an absent
/// array yields no values at all; otherwise handle `i` yields its value.
pub open spec fn marshalled_models(argc: i32, handles: Option<Seq<Option<Value>>>) -> Seq<
    ValueModel,
> {
    match handles {
        Option::None => Seq::empty(),
        Option::Some(h) => if argc <= 0 {
            Seq::empty()
        } else {
            Seq::new(argc as nat, |i: int| handle_model(h[i]))
        },
    }
}

/// The handle sequence an optional argument array stands for.
pub open spec fn handles_model(argv: Option<&Vec<Option<Value>>>) -> Option<Seq<Option<Value>>> {
    match argv {
        Option::Some(h) => Option::Some(h@),
        Option::None => Option::None,
    }
}

/// Marshalling maps handles pointwise: under an admitted positive count the
/// marshalled sequence has exactly `argc` entries, an absent handle at a
/// position yields the null value at that position, and a present handle
/// yields an identical copy of the value it points at.
pub proof fn lemma_marshalling_is_pointwise(argc: i32, handles: Seq<Option<Value>>, i: int)
    requires
        0 < argc,
        0 <= i < argc,
    ensures
        marshalled_models(argc, Option::Some(handles)).len() == argc,
        handles[i] is None ==> marshalled_models(argc, Option::Some(handles))[i] == null_model(),
        handles[i] is Some ==> marshalled_models(argc, Option::Some(handles))[i]
            == handles[i].unwrap()@,
{
}

/// Convert an argument array into the typed values a function body works on.
///
/// An out-of-range count is refused without reading the array at all — the
/// contract demands nothing of `argv` in that case. Within range, a count of
/// zero and an absent array both yield the empty vector; otherwise element
/// `i` is a copy of the value handle `i` points at, with an absent handle
/// standing in for the null value.
pub fn marshal_args(min: i32, max: i32, argc: i32, argv: Option<&Vec<Option<Value>>>) -> (r:
    Option<Vec<Value>>)
    requires
        arity_in_range(min, max, argc) && argc > 0 && argv is Some ==> argv.unwrap()@.len()
            >= argc as int,
    ensures
        r is Some <==> arity_in_range(min, max, argc),
        r is Some ==> models_of(r.unwrap()@) == marshalled_models(argc, handles_model(argv)),
        r is Some ==> r.unwrap()@.len() == marshalled_models(argc, handles_model(argv)).len(),
        r is Some ==> forall|i: int|
            0 <= i < r.unwrap()@.len() ==> (#[trigger] r.unwrap()@[i])@ == marshalled_models(
                argc,
                handles_model(argv),
            )[i],
{
    if !arity_ok(min, max, argc) {
        return None;
    }
    match argv {
        None => {
            let out: Vec<Value> = Vec::new();
            proof {
                assert(models_of(out@) =~= marshalled_models(argc, handles_model(argv)));
            }
            Some(out)
        },
        Some(handles) => {
            if argc <= 0 {
                let out: Vec<Value> = Vec::new();
                proof {
                    assert(models_of(out@) =~= marshalled_models(argc, handles_model(argv)));
                }
                return Some(out);
            }
            let n: usize = argc as usize;
            let mut out: Vec<Value> = Vec::new();
            let mut i: usize = 0;
            while i < n
                invariant
                    i <= n,
                    n == argc as int,
                    argc > 0,
                    handles@.len() >= n,
                    out@.len() == i,
                    forall|j: int|
                        0 <= j < i ==> #[trigger] out@[j]@ == handle_model(handles@[j]),
                decreases n - i,
            {
                match &handles[i] {
                    None => out.push(Value::null()),
                    Some(v) => out.push(v.clone()),
                }
                i = i + 1;
            }
            proof {
                assert(models_of(out@) =~= marshalled_models(argc, handles_model(argv))) by {
                    assert forall|j: int| 0 <= j < n implies models_of(out@)[j]
                        == marshalled_models(argc, handles_model(argv))[j] by {
                        assert(out@[j]@ == handle_model(handles@[j]));
                    }
                }
            }
            Some(out)
        },
    }
}

/// A scalar function body authored against marshalled values.
///
/// `result_model` is the author's declared function from argument models to
/// the result's model; `call` must return exactly that. The body must be
/// safe to run concurrently with other invocations: it sees only the
/// arguments it is handed and returns a fresh value.
pub trait ScalarLogic {
    /// The declared result for a given argument list.
    spec fn result_model(&self, args: Seq<ValueModel>) -> ValueModel;

    /// Run the body on a marshalled argument list.
    fn call(&self, args: &Vec<Value>) -> (r: Value)
        ensures
            r@ == self.result_model(models_of(args@)),
    ;
}

/// The fixed-signature trampoline wrapped around an author's logic: check
/// the arity window without touching the argument array, marshal the
/// handles, run the body. An arity violation degrades to the null value —
/// there is no finer error channel for it yet.
pub fn dispatch_scalar<L: ScalarLogic>(
    logic: &L,
    min: i32,
    max: i32,
    argc: i32,
    argv: Option<&Vec<Option<Value>>>,
) -> (r: Value)
    requires
        arity_in_range(min, max, argc) && argc > 0 && argv is Some ==> argv.unwrap()@.len()
            >= argc as int,
    ensures
        !arity_in_range(min, max, argc) ==> r@ == null_model(),
        arity_in_range(min, max, argc) ==> r@ == logic.result_model(
            marshalled_models(argc, handles_model(argv)),
        ),
{
    match marshal_args(min, max, argc, argv) {
        None => Value::null(),
        Some(args) => logic.call(&args),
    }
}

/// Sample scalar logic written against the authoring convention: doubles its
/// single integer argument. An argument list it cannot double — any count
/// other than one, or an integer whose double does not fit in 64 bits —
/// yields the null value.
pub struct IntegerDoubler {}

impl ScalarLogic for IntegerDoubler {
    open spec fn result_model(&self, args: Seq<ValueModel>) -> ValueModel {
        if args.len() == 1 && -0x4000_0000_0000_0000 <= args[0].integer
            < 0x4000_0000_0000_0000 {
            crate::value::integer_model((2 * args[0].integer) as i64)
        } else {
            null_model()
        }
    }

    fn call(&self, args: &Vec<Value>) -> (r: Value) {
        if args.len() == 1 {
            let x: i64 = args[0].integer;
            if -0x4000_0000_0000_0000i64 <= x && x < 0x4000_0000_0000_0000i64 {
                return Value::from_integer(2 * x);
            }
        }
        Value::null()
    }
}

} // verus!
