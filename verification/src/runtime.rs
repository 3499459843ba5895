//! The central execution engine: it owns the project structure, the
//! loader, the validator, the identity metadata, the backend orchestrator
//! and the extension registry, and connects them for callers.

use vstd::prelude::*;

use crate::auth::User;
use crate::extensions::{
    Continuation, ExtensionContext, ExtensionResult, Extensions, Interceptor, Operation,
    spec_extension_not_found,
};
use crate::gui::GUIContainer;
use crate::middleware::{outcome_view, spec_pipeline, spec_rate_admits, Middleware};
use crate::security::{rate_step, PolicyError};
use crate::structure::{
    is_blank, unit_result_view, validate_presence_spec, validate_templates_from, FolderPresence,
    Identity, Loader, ProjectStructure, Validator,
};
use crate::work::Work;

verus! {

/// The view of an optional string slice.
pub open spec fn opt_str_view(o: Option<&str>) -> Option<Seq<char>> {
    match o {
        Some(s) => Some(s@),
        None => None,
    }
}

/// The value of an optional user reference.
pub open spec fn opt_user_value(o: Option<&User>) -> Option<User> {
    match o {
        Some(u) => Some(*u),
        None => None,
    }
}

/// The outcome of full project validation: folder presence first, then the
/// entry page, then the page templates; the first failure decides.
pub open spec fn validate_project_spec(
    present: FolderPresence,
    index_content: Option<Seq<char>>,
    entries: Seq<String>,
) -> Result<(), Seq<char>> {
    match validate_presence_spec(present) {
        Err(e) => Err(e),
        Ok(()) => match index_content {
            None => Err("Missing Pages/Index.rs"@),
            Some(text) => if is_blank(text) {
                Err("Pages/Index.rs is empty"@)
            } else {
                validate_templates_from(entries, 0)
            },
        },
    }
}

/// The central execution engine, generic over the interceptor type its
/// extension registry holds.
#[verifier::reject_recursive_types(I)]
pub struct Runtime<I> {
    /// The expected project layout.
    pub structure: ProjectStructure,
    /// The loader over the same layout.
    pub loader: Loader,
    /// The validator over the same layout.
    pub validator: Validator,
    /// The identity metadata, once installed.
    pub identity: Option<Identity>,
    /// The backend orchestrator.
    pub backend: Work,
    /// The extension registry.
    pub extensions: Extensions<I>,
}

impl<I> Runtime<I> {
    /// Creates a runtime for the project rooted at `root`, with an empty
    /// backend and an empty extension registry.
    pub fn new(root: &str) -> (r: Runtime<I>)
        ensures
            r.structure.root@ == root@,
            r.structure.describe.path@ == root@ + "/Describe"@,
            r.structure.pages.path@ == root@ + "/Pages"@,
            r.structure.pages.index_page@ == root@ + "/Pages/Index.rs"@,
            r.structure.apis.path@ == root@ + "/APIs"@,
            r.structure.work.path@ == root@ + "/Work"@,
            r.loader.structure == r.structure,
            r.validator.structure == r.structure,
            r.identity is None,
            r.backend.roles@ == Map::<Seq<char>, GUIContainer>::empty(),
            r.backend.sessions@ == Map::<Seq<char>, Seq<char>>::empty(),
            r.extensions@ == Map::<Seq<char>, I>::empty(),
    {
        let structure = ProjectStructure::new(root);
        let loader = Loader { structure: structure.duplicate() };
        let validator = Validator::new(structure.duplicate());
        Runtime {
            structure,
            loader,
            validator,
            identity: None,
            backend: Work::new(),
            extensions: Extensions::new(),
        }
    }

    /// Installs identity metadata, as parsed by the host application.
    pub fn load_identity(&mut self, id: Identity)
        ensures
            final(self).identity == Some(id),
            final(self).structure == old(self).structure,
            final(self).loader == old(self).loader,
            final(self).validator == old(self).validator,
            final(self).backend == old(self).backend,
            final(self).extensions == old(self).extensions,
    {
        self.identity = Some(id);
    }

    /// Validates the project structure against what the host application
    /// found on disk: folder presence, the entry page's content, and the
    /// Pages/ directory entries.
    pub fn validate(
        &self,
        present: &FolderPresence,
        index_content: Option<&str>,
        page_entries: &Vec<String>,
    ) -> (r: Result<(), String>)
        ensures
            unit_result_view(r) == validate_project_spec(
                *present,
                opt_str_view(index_content),
                page_entries@,
            ),
    {
        match self.validator.validate_folders(present) {
            Ok(()) => {},
            Err(e) => {
                return Err(e);
            },
        }
        match self.validator.validate_index(index_content) {
            Ok(()) => {},
            Err(e) => {
                return Err(e);
            },
        }
        self.validator.validate_templates(page_entries)
    }

    /// Runs a middleware pipeline for an operation, using the backend's
    /// session store.
    pub fn run_middleware(
        &self,
        middleware: &mut Middleware,
        session: Option<&str>,
        user: Option<&User>,
        input: Option<&str>,
        client_id: &str,
        now_secs: u64,
    ) -> (r: Result<Option<String>, PolicyError>)
        ensures
            outcome_view(r) == spec_pipeline(
                old(middleware).policy,
                spec_rate_admits(*old(middleware), client_id@, now_secs),
                opt_str_view(session),
                opt_user_value(user),
                opt_str_view(input),
                self.backend.sessions@,
            ),
            final(middleware).policy == old(middleware).policy,
            old(middleware).rate_limiter is None ==> final(middleware).rate_limiter is None,
            old(middleware).rate_limiter matches Some(rl0) ==> {
                &&& final(middleware).rate_limiter matches Some(rl1)
                &&& rl1.max_requests == rl0.max_requests
                &&& rl1.window_secs == rl0.window_secs
                &&& rl1.window_of(client_id@) == rate_step(
                    rl0.window_of(client_id@),
                    now_secs,
                    rl0.max_requests as int,
                    rl0.window_secs,
                )
                &&& forall|c: Seq<char>|
                    c != client_id@ ==> rl1.window_of(c) == rl0.window_of(c)
            },
    {
        let ctx = crate::middleware::MiddlewareContext {
            session_token: match session {
                Some(s) => Some(s.to_owned()),
                None => None,
            },
            user: match user {
                Some(u) => Some(u.duplicate()),
                None => None,
            },
            input: match input {
                Some(s) => Some(s.to_owned()),
                None => None,
            },
            client_id: client_id.to_owned(),
        };
        middleware.run(&ctx, &self.backend.sessions, now_secs)
    }

    /// Dispatches a named extension call: builds the extension context and
    /// hands the operation to the registered interceptor. On an
    /// unregistered name, neither the interceptor nor the operation runs.
    pub fn run_extension<Op: Operation>(
        &self,
        name: &str,
        metadata: Vec<(String, String)>,
        original: Op,
    ) -> (r: (ExtensionResult, Op)) where I: Interceptor<Op>
        ensures
            !self.extensions@.contains_key(name@) ==> (r.0 matches Err(m) && m@
                == spec_extension_not_found(name@) && r.1 == original),
            self.extensions@.contains_key(name@) ==> exists|
                ctx: ExtensionContext,
                c0: Continuation<Op>,
                c1: Continuation<Op>,
            |
                {
                    &&& ctx.name@ == name@
                    &&& ctx.metadata == metadata
                    &&& c0.op == original
                    &&& c0.calls@ == 0
                    &&& #[trigger] self.extensions@[name@].icpt_ensures(ctx, c0, c1, r.0)
                    &&& r.1 == c1.op
                },
    {
        let ctx = ExtensionContext { name: name.to_owned(), metadata };
        let r = self.extensions.call(name, &ctx, original);
        proof {
            if self.extensions@.contains_key(name@) {
                let (c0, c1) = choose|c0: Continuation<Op>, c1: Continuation<Op>|
                    {
                        &&& c0.op == original
                        &&& c0.calls@ == 0
                        &&& #[trigger] self.extensions@[name@].icpt_ensures(ctx, c0, c1, r.0)
                        &&& r.1 == c1.op
                    };
                assert(ctx.name@ == name@ && ctx.metadata == metadata && c0.op == original
                    && c0.calls@ == 0 && self.extensions@[name@].icpt_ensures(ctx, c0, c1, r.0)
                    && r.1 == c1.op);
            }
        }
        r
    }
}

} // verus!
