//! The host function registry: a static, order-significant sequence of
//! host functions. Import resolution binds a requested name to a registry
//! position by exact name and signature match, and that position — never
//! the name — is what dispatch uses at call time.

use vstd::prelude::*;
use crate::context::{ExecutionContext, HostError, SandboxRunner};
use crate::module_info::{bytes_eq, LoadError};
use crate::values::{Signature, Value};

verus! {

/// One registry entry as resolution sees it: the host function's name and
/// exact signature.
pub struct HostFunctionDecl {
    /// The function's name.
    pub name: Vec<u8>,
    /// The function's signature.
    pub signature: Signature,
}

/// A host function implementation callable from guest code, implemented by
/// the embedder. The engine relies only on execution keeping the context
/// well-formed; the name and signature it is registered under stand in the
/// declaration list the module was resolved against.
pub trait Function<R: SandboxRunner> {
    /// Returns the name of this function.
    fn name(&self) -> &[u8];

    /// Returns the signature of this function.
    fn signature(&self) -> Signature;

    /// Execute this function against the given context.
    fn execute(
        &self,
        context: &mut ExecutionContext,
        runner: &mut R,
        args: &Vec<Value>,
    ) -> (r: Result<Option<Value>, HostError>)
        requires
            old(context).wf(),
        ensures
            final(context).wf(),
            final(context).spec_memory().spec_max_pages() == old(
                context,
            ).spec_memory().spec_max_pages(),
    ;
}

/// The declarations of a list of host functions, in registry order.
pub fn declarations_of<R: SandboxRunner, F: Function<R>>(functions: &Vec<F>) -> (r: Vec<
    HostFunctionDecl,
>)
    ensures
        r@.len() == functions@.len(),
{
    let n = functions.len();
    let mut decls: Vec<HostFunctionDecl> = Vec::new();
    let mut i: usize = 0;
    while i < n
        invariant
            n == functions@.len(),
            i <= n,
            decls@.len() == i,
        decreases n - i,
    {
        let f = &functions[i];
        decls.push(
            HostFunctionDecl {
                name: vstd::slice::slice_to_vec(f.name()),
                signature: f.signature(),
            },
        );
        i = i + 1;
    }
    decls
}

/// The position of the first registry entry carrying `name`, if any.
pub open spec fn spec_first_named(decls: Seq<HostFunctionDecl>, name: Seq<u8>) -> Option<int>
    decreases decls.len(),
{
    if decls.len() == 0 {
        None
    } else if decls[0].name@ == name {
        Some(0int)
    } else {
        match spec_first_named(decls.drop_first(), name) {
            Some(j) => Some(1 + j),
            None => None,
        }
    }
}

/// The first-named position, when it exists, is a real position whose
/// entry carries the name.
pub proof fn lemma_first_named_range(decls: Seq<HostFunctionDecl>, name: Seq<u8>)
    ensures
        spec_first_named(decls, name) matches Some(i) ==> 0 <= i < decls.len()
            && decls[i].name@ == name,
    decreases decls.len(),
{
    if decls.len() > 0 && decls[0].name@ != name {
        lemma_first_named_range(decls.drop_first(), name);
    }
}

/// Skipping a prefix that misses the name shifts the first position.
proof fn lemma_first_named_skip(decls: Seq<HostFunctionDecl>, name: Seq<u8>, i: int)
    requires
        0 <= i <= decls.len(),
        forall|k: int| 0 <= k < i ==> (#[trigger] decls[k]).name@ != name,
    ensures
        spec_first_named(decls, name) == match spec_first_named(
            decls.subrange(i, decls.len() as int),
            name,
        ) {
            Some(j) => Some(i + j),
            None => None::<int>,
        },
    decreases i,
{
    if i == 0 {
        assert(decls.subrange(0, decls.len() as int) =~= decls);
        match spec_first_named(decls, name) {
            Some(j) => {
                assert(0 + j == j);
            },
            None => {},
        }
    } else {
        lemma_first_named_skip(decls, name, i - 1);
        let sub_prev = decls.subrange(i - 1, decls.len() as int);
        let sub = decls.subrange(i, decls.len() as int);
        assert(sub_prev[0] == decls[i - 1]);
        assert(sub_prev[0].name@ != name);
        assert(sub_prev.drop_first() =~= sub);
    }
}

/// Resolve one import request against the registry: find the entry whose
/// name matches exactly; its signature must then match exactly — argument
/// count, each argument type, and return type — and the entry's position
/// is the binding.
///
/// An unresolved name and a signature mismatch on a resolved name are
/// distinct failures, and both fail instantiation of the whole module.
pub fn resolve_import(
    functions: &Vec<HostFunctionDecl>,
    name: &[u8],
    signature: &Signature,
) -> (r: Result<usize, LoadError>)
    ensures
        match spec_first_named(functions@, name@) {
            None => r == Err::<usize, LoadError>(LoadError::UnresolvedImport),
            Some(i) => {
                if functions@[i].signature.spec_matches(signature) {
                    r == Ok::<usize, LoadError>(i as usize)
                } else {
                    r == Err::<usize, LoadError>(LoadError::ImportSignatureMismatch)
                }
            },
        },
{
    let n = functions.len();
    let mut i: usize = 0;
    while i < n
        invariant
            n == functions@.len(),
            i <= n,
            forall|k: int| 0 <= k < i ==> (#[trigger] functions@[k]).name@ != name@,
        decreases n - i,
    {
        let f = &functions[i];
        if bytes_eq(f.name.as_slice(), name) {
            proof {
                lemma_first_named_skip(functions@, name@, i as int);
                let sub = functions@.subrange(i as int, n as int);
                assert(sub[0] == functions@[i as int]);
                assert(spec_first_named(sub, name@) == Some(0int));
                assert(spec_first_named(functions@, name@) == Some(i as int));
            }
            if f.signature.matches(signature) {
                return Ok(i);
            } else {
                return Err(LoadError::ImportSignatureMismatch);
            }
        }
        i = i + 1;
    }
    proof {
        lemma_first_named_skip(functions@, name@, n as int);
        assert(functions@.subrange(n as int, n as int) =~= Seq::<HostFunctionDecl>::empty());
    }
    Err(LoadError::UnresolvedImport)
}

/// Law: import resolution is positional and repeatable — the position the
/// first matching name resolves to is a function of the registry and the
/// name alone, so the same request resolves to the same registry index
/// across repeated loads of the same module.
pub proof fn lemma_resolution_repeatable(
    decls: Seq<HostFunctionDecl>,
    name: Seq<u8>,
    i: int,
    j: int,
)
    requires
        0 <= i < decls.len(),
        0 <= j < decls.len(),
        decls[i].name@ == name,
        decls[j].name@ == name,
        forall|k: int| 0 <= k < i ==> (#[trigger] decls[k]).name@ != name,
        forall|k: int| 0 <= k < j ==> (#[trigger] decls[k]).name@ != name,
    ensures
        i == j,
        spec_first_named(decls, name) == Some(i),
{
    if i < j {
        assert(decls[i].name@ != name);
    } else if j < i {
        assert(decls[j].name@ != name);
    }
    lemma_first_named_skip(decls, name, i);
    let sub = decls.subrange(i, decls.len() as int);
    assert(sub[0] == decls[i]);
}

/// Dispatch a host call by registry position: execute the function bound
/// at `index`, or fail exactly when no function is registered there.
pub fn dispatch_host_call<R: SandboxRunner, F: Function<R>>(
    functions: &Vec<F>,
    index: u32,
    ctx: &mut ExecutionContext,
    runner: &mut R,
    args: &Vec<Value>,
) -> (r: Result<Option<Value>, HostError>)
    requires
        old(ctx).wf(),
    ensures
        final(ctx).wf(),
        index >= functions@.len() ==> r == Err::<Option<Value>, HostError>(
            HostError::UnknownHostFunction,
        ),
{
    if (index as usize) < functions.len() {
        functions[index as usize].execute(ctx, runner, args)
    } else {
        Err(HostError::UnknownHostFunction)
    }
}

} // verus!
