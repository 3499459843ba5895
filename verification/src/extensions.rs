//! The extension system: named interceptors that wrap, modify, block or
//! chain around an operation through an explicit continuation. An
//! interceptor fully controls whether, how many times and with what context
//! the continuation runs.

use vstd::prelude::*;

verus! {

use vstd::string::StringExecFns;

/// The result type extensions and wrapped operations produce. Operation
/// errors propagate unchanged through the registry.
pub type ExtensionResult = Result<String, String>;

/// The read-only context handed to an interceptor and to the operation it
/// wraps.
pub struct ExtensionContext {
    /// The name the call was dispatched under.
    pub name: String,
    /// Caller-supplied metadata pairs.
    pub metadata: Vec<(String, String)>,
}

/// A caller-supplied original operation: the code an interceptor wraps.
///
/// Implementations choose their own postcondition `op_ensures` and must
/// prove their `call` establishes it.
pub trait Operation: Sized {
    /// The relation the operation promises between the context it is run
    /// with and its result; an implementation that keeps the default
    /// promises nothing.
    open spec fn op_ensures(&self, ctx: ExtensionContext, r: ExtensionResult) -> bool {
        true
    }

    /// Runs the operation on a context.
    fn call(&mut self, ctx: &ExtensionContext) -> (r: ExtensionResult)
        ensures
            old(self).op_ensures(*ctx, r),
    ;
}

/// The continuation handed to an interceptor: "the rest of the
/// computation", here the wrapped original operation. The ghost `calls`
/// field counts how often the interceptor chose to run it.
pub struct Continuation<Op> {
    /// The wrapped original operation.
    pub op: Op,
    /// How many times the continuation has been run.
    pub calls: Ghost<nat>,
}

impl<Op: Operation> Continuation<Op> {
    /// Runs the wrapped operation with the given context, counting the
    /// invocation.
    pub fn run(&mut self, ctx: &ExtensionContext) -> (r: ExtensionResult)
        ensures
            final(self).calls@ == old(self).calls@ + 1,
            old(self).op.op_ensures(*ctx, r),
    {
        proof {
            let ghost c = self.calls@;
            self.calls@ = c + 1;
        }
        self.op.call(ctx)
    }
}

/// A named wrapper around operations. An implementation receives the
/// context and the continuation and decides whether, how often and with
/// what context the continuation runs; `icpt_ensures` is the relation it
/// promises between the continuation's states and its result.
pub trait Interceptor<Op: Operation>: Sized {
    /// The relation the interceptor promises between the context, the
    /// continuation before and after, and its result; an implementation
    /// that keeps the default promises nothing.
    open spec fn icpt_ensures(
        &self,
        ctx: ExtensionContext,
        old_next: Continuation<Op>,
        new_next: Continuation<Op>,
        r: ExtensionResult,
    ) -> bool {
        true
    }

    /// Intercepts a call: receives the context and the continuation that
    /// runs the original operation.
    fn invoke(&self, ctx: &ExtensionContext, next: &mut Continuation<Op>) -> (r: ExtensionResult)
        ensures
            self.icpt_ensures(*ctx, *old(next), *final(next), r),
    ;
}

/// The interceptor that invokes its continuation exactly once, with the
/// context unchanged, and returns the continuation's result.
pub struct PassThrough;

impl<Op: Operation> Interceptor<Op> for PassThrough {
    /// Exactly one continuation call, and the result is the operation's.
    open spec fn icpt_ensures(
        &self,
        ctx: ExtensionContext,
        old_next: Continuation<Op>,
        new_next: Continuation<Op>,
        r: ExtensionResult,
    ) -> bool {
        &&& new_next.calls@ == old_next.calls@ + 1
        &&& old_next.op.op_ensures(ctx, r)
    }

    fn invoke(&self, ctx: &ExtensionContext, next: &mut Continuation<Op>) -> (r: ExtensionResult) {
        next.run(ctx)
    }
}

/// A pass-through interceptor is observationally transparent: whatever the
/// bare operation promises of its result, the intercepted call's result
/// satisfies as well, and the continuation ran exactly once.
pub proof fn lemma_pass_through_transparent<Op: Operation>(
    p: PassThrough,
    ctx: ExtensionContext,
    old_next: Continuation<Op>,
    new_next: Continuation<Op>,
    r: ExtensionResult,
)
    requires
        Interceptor::<Op>::icpt_ensures(&p, ctx, old_next, new_next, r),
    ensures
        old_next.op.op_ensures(ctx, r),
        new_next.calls@ == old_next.calls@ + 1,
{
}

/// The error text returned when a name is not registered.
pub open spec fn spec_extension_not_found(name: Seq<char>) -> Seq<char> {
    "Extension '"@ + name + "' not found"@
}

/// Builds the error text for an unregistered name.
pub fn extension_not_found_message(name: &str) -> (r: String)
    ensures
        r@ == spec_extension_not_found(name@),
{
    let mut out = "Extension '".to_owned();
    out.append(name);
    out.append("' not found");
    out
}

/// The registry of named interceptors. Registration replaces any prior
/// entry under the same name; dispatch on an unregistered name runs
/// nothing.
#[verifier::reject_recursive_types(I)]
pub struct Extensions<I> {
    registry: vstd::hash_map::StringHashMap<I>,
}

impl<I> View for Extensions<I> {
    type V = Map<Seq<char>, I>;

    /// The registry viewed as a map from name to interceptor.
    closed spec fn view(&self) -> Map<Seq<char>, I> {
        self.registry@
    }
}

impl<I> Extensions<I> {
    /// Creates an empty extension registry.
    pub fn new() -> (r: Self)
        ensures
            r@ == Map::<Seq<char>, I>::empty(),
    {
        Extensions { registry: vstd::hash_map::StringHashMap::new() }
    }

    /// Registers an interceptor under a name, replacing any prior entry
    /// (last write wins).
    pub fn register(&mut self, name: String, func: I)
        ensures
            final(self)@ == old(self)@.insert(name@, func),
    {
        self.registry.insert(name, func);
    }

    /// Calls the extension registered under `name`: the interceptor
    /// receives the context and a continuation that runs `original`. On an
    /// unregistered name, neither the interceptor nor the operation runs:
    /// the operation comes back unchanged beside the not-found error.
    pub fn call<Op: Operation>(&self, name: &str, ctx: &ExtensionContext, original: Op) -> (r: (
        ExtensionResult,
        Op,
    )) where I: Interceptor<Op>
        ensures
            !self@.contains_key(name@) ==> (r.0 matches Err(m) && m@ == spec_extension_not_found(
                name@,
            ) && r.1 == original),
            self@.contains_key(name@) ==> exists|c0: Continuation<Op>, c1: Continuation<Op>|
                {
                    &&& c0.op == original
                    &&& c0.calls@ == 0
                    &&& #[trigger] self@[name@].icpt_ensures(*ctx, c0, c1, r.0)
                    &&& r.1 == c1.op
                },
    {
        match self.registry.get(name) {
            Some(ext) => {
                let mut next = Continuation { op: original, calls: Ghost(0) };
                let ghost c0 = next;
                let out = ext.invoke(ctx, &mut next);
                proof {
                    assert(self@[name@].icpt_ensures(*ctx, c0, next, out));
                }
                (out, next.op)
            },
            None => (Err(extension_not_found_message(name)), original),
        }
    }
}

} // verus!
