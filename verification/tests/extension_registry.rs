use sentinel::extensions::{
    extension_not_found_message, Continuation, ExtensionContext, ExtensionResult, Extensions,
    Interceptor, Operation, PassThrough,
};
use sentinel::runtime::Runtime;

/// An operation that counts how often it really ran.
struct CountingOp {
    invocations: u32,
    reply: String,
}

impl Operation for CountingOp {
    fn call(&mut self, _ctx: &ExtensionContext) -> ExtensionResult {
        self.invocations += 1;
        Ok(self.reply.clone())
    }
}

/// An interceptor that never invokes its continuation.
struct Blocker;

impl Interceptor<CountingOp> for Blocker {
    fn invoke(
        &self,
        _ctx: &ExtensionContext,
        _next: &mut Continuation<CountingOp>,
    ) -> ExtensionResult {
        Err("blocked by policy".to_string())
    }
}

/// An interceptor that runs the continuation and decorates its result.
struct Decorator;

impl Interceptor<CountingOp> for Decorator {
    fn invoke(
        &self,
        ctx: &ExtensionContext,
        next: &mut Continuation<CountingOp>,
    ) -> ExtensionResult {
        match next.run(ctx) {
            Ok(out) => Ok(format!("[{}]", out)),
            Err(e) => Err(e),
        }
    }
}

fn op(reply: &str) -> CountingOp {
    CountingOp {
        invocations: 0,
        reply: reply.to_string(),
    }
}

fn ctx(name: &str) -> ExtensionContext {
    ExtensionContext {
        name: name.to_string(),
        metadata: Vec::new(),
    }
}

#[test]
fn missing_extension_reports_not_found_and_never_runs_the_operation() {
    let registry: Extensions<PassThrough> = Extensions::new();
    let (result, returned_op) = registry.call("missing", &ctx("missing"), op("unused"));
    assert_eq!(result, Err("Extension 'missing' not found".to_string()));
    assert_eq!(returned_op.invocations, 0);
}

#[test]
fn not_found_message_carries_the_requested_name() {
    assert_eq!(
        extension_not_found_message("audit"),
        "Extension 'audit' not found"
    );
}

#[test]
fn pass_through_interceptor_is_observationally_transparent() {
    let mut registry: Extensions<PassThrough> = Extensions::new();
    registry.register("wrap".to_string(), PassThrough);
    let (result, returned_op) = registry.call("wrap", &ctx("wrap"), op("hello"));
    assert_eq!(result, Ok("hello".to_string()));
    assert_eq!(returned_op.invocations, 1);
}

#[test]
fn blocking_interceptor_prevents_the_operation() {
    let mut registry: Extensions<Blocker> = Extensions::new();
    registry.register("guard".to_string(), Blocker);
    let (result, returned_op) = registry.call("guard", &ctx("guard"), op("never"));
    assert_eq!(result, Err("blocked by policy".to_string()));
    assert_eq!(returned_op.invocations, 0);
}

#[test]
fn decorating_interceptor_post_processes_the_result() {
    let mut registry: Extensions<Decorator> = Extensions::new();
    registry.register("deco".to_string(), Decorator);
    let (result, returned_op) = registry.call("deco", &ctx("deco"), op("core"));
    assert_eq!(result, Ok("[core]".to_string()));
    assert_eq!(returned_op.invocations, 1);
}

#[test]
fn registration_replaces_the_prior_entry() {
    let mut registry: Extensions<Blocker> = Extensions::new();
    registry.register("x".to_string(), Blocker);
    registry.register("x".to_string(), Blocker);
    let (result, returned_op) = registry.call("x", &ctx("x"), op("payload"));
    assert_eq!(result, Err("blocked by policy".to_string()));
    assert_eq!(returned_op.invocations, 0);
}

#[test]
fn runtime_dispatches_extensions_by_name() {
    let mut runtime: Runtime<PassThrough> = Runtime::new("proj");
    let (missing, untouched) = runtime.run_extension("op", Vec::new(), op("hi"));
    assert_eq!(missing, Err("Extension 'op' not found".to_string()));
    assert_eq!(untouched.invocations, 0);
    runtime.extensions.register("op".to_string(), PassThrough);
    let metadata = vec![("k".to_string(), "v".to_string())];
    let (found, ran) = runtime.run_extension("op", metadata, op("hi"));
    assert_eq!(found, Ok("hi".to_string()));
    assert_eq!(ran.invocations, 1);
}
