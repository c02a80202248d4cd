//! The registration handshake a plugin performs against the host's
//! capability table.
//!
//! The host calls the plugin's single entry function once at load time with
//! a pointer to a capability table; the plugin answers by registering each of
//! its declared (name, function) pairs through the table's
//! `register_scalar_function` operation and returning a status code. Here
//! the decisions of that handshake are computed as a plan: given whether the
//! table is present and the declared pairs, the plan is the status to return
//! and the exact register calls to perform, each carrying the name in its
//! null-terminated host-facing form. The caller at the binary boundary
//! performs the calls in order; their individual statuses are not inspected
//! and already performed calls are never rolled back.

use vstd::prelude::*;

verus! {

/// Status code handed back across the boundary.
pub type ResultCode = i32;

/// Success status of the entry handshake.
pub const RESULT_OK: ResultCode = 0;

/// Generic failure status; finer-grained codes are reserved but not yet
/// defined.
pub const RESULT_ERROR: ResultCode = 1;

/// True when a name can be handed to the host: it contains no embedded
/// terminator byte.
pub open spec fn nul_free(name: Seq<u8>) -> bool {
    forall|i: int| 0 <= i < name.len() ==> name[i] != 0
}

/// Every name in the sequence is free of embedded terminator bytes.
pub open spec fn all_nul_free(names: Seq<Seq<u8>>) -> bool {
    forall|i: int| 0 <= i < names.len() ==> nul_free(#[trigger] names[i])
}

/// The host-facing form of a registration name: the name's bytes followed by
/// one terminating zero byte.
pub open spec fn encoded_name(name: Seq<u8>) -> Seq<u8> {
    name.push(0)
}

/// Encode a registration name into its null-terminated host-facing form.
/// A name with an embedded terminator byte cannot be encoded and is refused.
pub fn encode_name(name: &Vec<u8>) -> (r: Option<Vec<u8>>)
    ensures
        r is Some <==> nul_free(name@),
        r is Some ==> r.unwrap()@ == encoded_name(name@),
{
    let mut out: Vec<u8> = Vec::new();
    let mut i: usize = 0;
    while i < name.len()
        invariant
            i <= name@.len(),
            out@ == name@.take(i as int),
            forall|j: int| 0 <= j < i ==> name@[j] != 0,
        decreases name@.len() - i,
    {
        let b: u8 = name[i];
        if b == 0 {
            return None;
        }
        out.push(b);
        proof {
            assert(out@ =~= name@.take(i as int + 1));
        }
        i = i + 1;
    }
    proof {
        assert(out@ =~= name@);
    }
    out.push(0);
    Some(out)
}

/// The declared (name, function) registrations of one plugin, in declaration
/// order. `F` is the identity of a scalar function as the host will receive
/// it — at the binary boundary, a function pointer.
pub struct RegistrationBuilder<F> {
    names: Vec<Vec<u8>>,
    funcs: Vec<F>,
}

impl<F: Copy> RegistrationBuilder<F> {
    /// The declared names, in declaration order.
    pub closed spec fn declared_names(&self) -> Seq<Seq<u8>> {
        self.names@.map_values(|n: Vec<u8>| n@)
    }

    /// The declared functions, in declaration order.
    pub closed spec fn declared_funcs(&self) -> Seq<F> {
        self.funcs@
    }

    /// Each declared name is paired with one declared function.
    pub closed spec fn wf(&self) -> bool {
        self.names@.len() == self.funcs@.len()
    }

    /// A builder with nothing declared yet.
    pub fn new() -> (r: Self)
        ensures
            r.wf(),
            r.declared_names().len() == 0,
            r.declared_funcs().len() == 0,
    {
        RegistrationBuilder { names: Vec::new(), funcs: Vec::new() }
    }

    /// Declare one more scalar (name, function) pair, after those already
    /// declared.
    pub fn scalar(&mut self, name: Vec<u8>, func: F)
        requires
            old(self).wf(),
        ensures
            final(self).wf(),
            final(self).declared_names() == old(self).declared_names().push(name@),
            final(self).declared_funcs() == old(self).declared_funcs().push(func),
    {
        self.names.push(name);
        self.funcs.push(func);
        proof {
            assert(self.declared_names() =~= old(self).declared_names().push(name@));
        }
    }

    /// The entry handshake against a capability table.
    ///
    /// An absent table is refused outright with the error status and no
    /// register calls at all. Otherwise each declared pair, in declaration
    /// order, becomes one register call carrying its null-terminated name
    /// and its function. A name with an embedded terminator byte stops the
    /// run at that entry with the error status; the calls already produced
    /// stand — there is no rollback.
    pub fn entry_plan(&self, api_present: bool) -> (r: (ResultCode, Vec<(Vec<u8>, F)>))
        requires
            self.wf(),
        ensures
            !api_present ==> r.0 == RESULT_ERROR && r.1@.len() == 0,
            api_present ==> {
                let k = r.1@.len() as int;
                &&& k <= self.declared_names().len()
                &&& forall|i: int|
                    0 <= i < k ==> nul_free(self.declared_names()[i]) && (#[trigger] r.1@[i]).0@
                        == encoded_name(self.declared_names()[i]) && r.1@[i].1
                        == self.declared_funcs()[i]
                &&& if k == self.declared_names().len() {
                    r.0 == RESULT_OK
                } else {
                    r.0 == RESULT_ERROR && !nul_free(self.declared_names()[k])
                }
            },
            api_present && all_nul_free(self.declared_names()) ==> r.0 == RESULT_OK
                && r.1@.len() == self.declared_names().len(),
    {
        let mut calls: Vec<(Vec<u8>, F)> = Vec::new();
        if !api_present {
            return (RESULT_ERROR, calls);
        }
        let mut i: usize = 0;
        while i < self.names.len()
            invariant
                api_present,
                self.wf(),
                i <= self.names@.len(),
                calls@.len() == i,
                forall|j: int| 0 <= j < i ==> nul_free(#[trigger] self.declared_names()[j]),
                forall|j: int|
                    0 <= j < i ==> (#[trigger] calls@[j]).0@ == encoded_name(
                        self.declared_names()[j],
                    ),
                forall|j: int| 0 <= j < i ==> (#[trigger] calls@[j]).1 == self.declared_funcs()[j],
            decreases self.names@.len() - i,
        {
            match encode_name(&self.names[i]) {
                None => {
                    return (RESULT_ERROR, calls);
                },
                Some(enc) => {
                    let f: F = self.funcs[i];
                    calls.push((enc, f));
                    i = i + 1;
                },
            }
        }
        (RESULT_OK, calls)
    }
}

} // verus!
