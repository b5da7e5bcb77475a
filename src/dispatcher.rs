//! RPC dispatcher: a registry of methods and the rule of which channel kind may call which method.
use vstd::prelude::*;
use vstd::string::*;

use crate::consensus::{QuotePolicy, SignedPolicySGX};
use crate::types::{kind_name, Body, Context, Kind, Request, Response};

verus! {

/// Whether a method that requires `method_kind` may be called over a channel of `channel_kind`.
pub open spec fn kind_allowed(method_kind: Kind, channel_kind: Kind) -> bool {
    match (method_kind, channel_kind) {
        (Kind::NoiseSession, Kind::NoiseSession) => true,
        (Kind::InsecureQuery, Kind::InsecureQuery) => true,
        (Kind::InsecureQuery, Kind::NoiseSession) => true,
        (Kind::LocalQuery, Kind::LocalQuery) => true,
        _ => false,
    }
}

/// Whether a method that requires `method_kind` may be called over a channel of `channel_kind`.
pub fn is_kind_allowed(method_kind: Kind, channel_kind: Kind) -> (r: bool)
    ensures
        r == kind_allowed(method_kind, channel_kind),
{
    match (method_kind, channel_kind) {
        (Kind::NoiseSession, Kind::NoiseSession) => true,
        (Kind::InsecureQuery, Kind::InsecureQuery) => true,
        (Kind::InsecureQuery, Kind::NoiseSession) => true,
        (Kind::LocalQuery, Kind::LocalQuery) => true,
        _ => false,
    }
}

/// Message of a call to a method that is not registered.
pub open spec fn method_not_found_message(method: Seq<char>) -> Seq<char> {
    "method not found: \""@ + method + "\""@
}

/// Message of a call over a channel kind that the method does not allow.
pub open spec fn invalid_kind_message(method: Seq<char>, kind: Kind) -> Seq<char> {
    "invalid RPC kind: \""@ + method + "\" ("@ + kind_name(kind) + ")"@
}

/// Dispatch error.
#[derive(Clone, Debug, PartialEq, Eq)]
pub enum DispatchError {
    MethodNotFound { method: String },
    InvalidRpcKind { method: String, kind: Kind },
}

impl DispatchError {
    /// The text of the error.
    pub open spec fn message_spec(&self) -> Seq<char> {
        match self {
            DispatchError::MethodNotFound { method } => method_not_found_message(method@),
            DispatchError::InvalidRpcKind { method, kind } => invalid_kind_message(method@, *kind),
        }
    }

    /// Render the error as text.
    pub fn message(&self) -> (r: String)
        ensures
            r@ == self.message_spec(),
    {
        match self {
            DispatchError::MethodNotFound { method } => {
                let mut s = String::from_str("method not found: \"");
                s.append(method.as_str());
                s.append("\"");
                s
            },
            DispatchError::InvalidRpcKind { method, kind } => {
                let mut s = String::from_str("invalid RPC kind: \"");
                s.append(method.as_str());
                s.append("\" (");
                s.append(kind.name());
                s.append(")");
                s
            },
        }
    }
}

/// Custom context initializer.
pub trait ContextInitializer: Send + Sync {
    /// The initializer turns context `before` into `after`.
    spec fn initializes(&self, before: Context, after: Context) -> bool;

    /// Called to initialize the context.
    fn init(&self, ctx: &mut Context)
        ensures
            self.initializes(*old(ctx), *final(ctx)),
    ;
}

/// Descriptor of a RPC API method.
#[derive(Clone, Debug)]
pub struct MethodDescriptor {
    /// Method name.
    pub name: String,
    /// Specifies which kind of RPC is allowed to call the method.
    pub kind: Kind,
}

/// Handler for a RPC method, over decoded requests and responses.
pub trait MethodHandler<Rq, Rsp> {
    /// Invoke the method implementation and return a response.
    fn handle(&self, request: &Rq, ctx: &mut Context) -> Result<Rsp, String>;
}

/// Dispatcher for a RPC method: decodes the arguments, calls the handler and encodes its result.
pub trait MethodHandlerDispatch: Send + Sync {
    /// The method's descriptor.
    spec fn descriptor(&self) -> MethodDescriptor;

    /// Dispatching `request` with context `before` may leave context `after` and return `r`.
    spec fn dispatches(
        &self,
        request: Request,
        before: Context,
        after: Context,
        r: Result<Response, String>,
    ) -> bool;

    /// Get method descriptor.
    fn get_descriptor(&self) -> (r: &MethodDescriptor)
        ensures
            *r == self.descriptor(),
    ;

    /// Dispatch request.
    fn dispatch(&self, request: Request, ctx: &mut Context) -> (r: Result<Response, String>)
        ensures
            self.dispatches(request, *old(ctx), *final(ctx), r),
    ;
}

/// RPC method dispatcher implementation.
pub struct Method {
    /// Method descriptor.
    descriptor: MethodDescriptor,
    /// Method dispatcher; always present.
    dispatcher: Option<Box<dyn MethodHandlerDispatch>>,
}

impl Method {
    /// A method always holds its dispatcher.
    #[verifier::type_invariant]
    spec fn has_dispatcher(&self) -> bool {
        self.dispatcher is Some
    }

    /// The method's descriptor.
    pub closed spec fn descriptor(&self) -> MethodDescriptor {
        self.descriptor
    }

    /// The method's name.
    pub open spec fn name(&self) -> Seq<char> {
        self.descriptor().name@
    }

    /// Dispatching `request` with context `before` may leave context `after` and return `r`.
    pub closed spec fn dispatches(
        &self,
        request: Request,
        before: Context,
        after: Context,
        r: Result<Response, String>,
    ) -> bool {
        match self.dispatcher {
            Some(dispatcher) => dispatcher.dispatches(request, before, after, r),
            None => false,
        }
    }

    /// Create a new enclave method from its descriptor and dispatcher.
    pub fn new(method: MethodDescriptor, handler: Box<dyn MethodHandlerDispatch>) -> (r: Method)
        ensures
            r.descriptor() == method,
            forall|request: Request, before: Context, after: Context, res: Result<Response, String>|
                r.dispatches(request, before, after, res) == handler.dispatches(
                    request,
                    before,
                    after,
                    res,
                ),
    {
        let dispatcher = Some(handler);
        Method { descriptor: method, dispatcher }
    }

    /// Return method name.
    pub fn get_name(&self) -> (r: &String)
        ensures
            r@ == self.name(),
    {
        &self.descriptor.name
    }

    /// Return RPC call kind.
    pub fn get_kind(&self) -> (r: Kind)
        ensures
            r == self.descriptor().kind,
    {
        self.descriptor.kind
    }

    /// Dispatch a request.
    pub fn dispatch(&self, request: Request, ctx: &mut Context) -> (r: Result<Response, String>)
        ensures
            self.dispatches(request, *old(ctx), *final(ctx), r),
    {
        proof {
            use_type_invariant(self);
        }
        match &self.dispatcher {
            Some(dispatcher) => dispatcher.dispatch(request, ctx),
            None => {
                proof {
                    assert(false);
                }
                Err(String::new())
            },
        }
    }
}

/// Key manager policy update handler callback.
pub trait KeyManagerPolicyHandler: Send + Sync {
    /// Called with each new key manager policy.
    fn handle(&self, policy: SignedPolicySGX);
}

/// Key manager quote policy update handler callback.
pub trait KeyManagerQuotePolicyHandler: Send + Sync {
    /// Called with each new key manager quote policy.
    fn handle(&self, policy: QuotePolicy);
}

/// The response that a fallible dispatch turns into.
pub open spec fn response_of(r: Result<Response, String>) -> Response {
    match r {
        Ok(response) => response,
        Err(message) => Response { body: Body::Error(message) },
    }
}

/// `r` is a failure with message `message`.
pub open spec fn fails_with(r: Result<Response, String>, message: Seq<char>) -> bool {
    match r {
        Ok(_) => false,
        Err(e) => e@ == message,
    }
}

/// RPC call dispatcher.
pub struct Dispatcher {
    /// Registered RPC methods, at most one of each name.
    methods: Vec<Method>,
    /// Registered key manager policy handler.
    km_policy_handler: Option<Box<dyn KeyManagerPolicyHandler>>,
    /// Registered key manager quote policy handler.
    km_quote_policy_handler: Option<Box<dyn KeyManagerQuotePolicyHandler>>,
    /// Registered context initializer.
    ctx_initializer: Option<Box<dyn ContextInitializer>>,
}

impl Dispatcher {
    /// Well-formed: no two registered methods share a name.
    pub closed spec fn wf(&self) -> bool {
        forall|i: int, j: int|
            0 <= i < self.methods@.len() && 0 <= j < self.methods@.len() && i != j
                ==> self.methods@[i].name() != self.methods@[j].name()
    }

    /// The method registered under `name`, if any.
    pub closed spec fn method(&self, name: Seq<char>) -> Option<Method> {
        if exists|i: int| 0 <= i < self.methods@.len() && self.methods@[i].name() == name {
            Some(
                self.methods@[choose|i: int|
                    0 <= i < self.methods@.len() && self.methods@[i].name() == name],
            )
        } else {
            None
        }
    }

    /// Whether a context initializer is installed.
    pub open spec fn has_context_initializer(&self) -> bool {
        self.context_initializer() is Some
    }

    /// The installed context initializer turns `before` into `after`; with none
    /// installed, the context stays as it is.
    pub open spec fn initialized(&self, before: Context, after: Context) -> bool {
        match self.context_initializer() {
            Some(initializer) => initializer.initializes(before, after),
            None => after == before,
        }
    }

    /// The installed context initializer.
    pub closed spec fn context_initializer(&self) -> Option<Box<dyn ContextInitializer>> {
        self.ctx_initializer
    }

    /// The installed key manager policy handler.
    pub closed spec fn km_policy_handler(&self) -> Option<Box<dyn KeyManagerPolicyHandler>> {
        self.km_policy_handler
    }

    /// The installed key manager quote policy handler.
    pub closed spec fn km_quote_policy_handler(&self) -> Option<Box<dyn KeyManagerQuotePolicyHandler>> {
        self.km_quote_policy_handler
    }

    /// Routing `request` over a channel of `kind`, with context `before`, may
    /// leave context `after` and return `r`.
    pub open spec fn routes(
        &self,
        before: Context,
        after: Context,
        request: Request,
        kind: Kind,
        r: Result<Response, String>,
    ) -> bool {
        match self.method(request.method@) {
            None => after == before && fails_with(r, method_not_found_message(request.method@)),
            Some(m) => if kind_allowed(m.descriptor().kind, kind) {
                m.dispatches(request, before, after, r)
            } else {
                after == before && fails_with(r, invalid_kind_message(request.method@, kind))
            },
        }
    }

    /// Dispatching `request` over a channel of `kind`, with context `ctx`, may return `r`:
    /// the context is initialized, then the request is routed and its outcome made a response.
    pub open spec fn dispatch_result(&self, ctx: Context, request: Request, kind: Kind, r: Response) -> bool {
        exists|initialized: Context, after: Context, res: Result<Response, String>|
            self.initialized(ctx, initialized) && self.routes(initialized, after, request, kind, res)
                && r == response_of(res)
    }

    /// In a well-formed dispatcher, the method at index `k` is the one registered under its name.
    proof fn lemma_method_at(&self, name: Seq<char>, k: int)
        requires
            self.wf(),
            0 <= k < self.methods@.len(),
            self.methods@[k].name() == name,
        ensures
            self.method(name) == Some(self.methods@[k]),
    {
    }

    /// Create a dispatcher with no methods and no handlers.
    pub fn new() -> (r: Dispatcher)
        ensures
            r.wf(),
            forall|name: Seq<char>| r.method(name) is None,
            r.context_initializer() is None,
            forall|before: Context, after: Context| r.initialized(before, after) == (after == before),
            r.km_policy_handler() is None,
            r.km_quote_policy_handler() is None,
    {
        Dispatcher {
            methods: Vec::new(),
            km_policy_handler: None,
            km_quote_policy_handler: None,
            ctx_initializer: None,
        }
    }

    /// Find the index of the method registered under `name`.
    fn find_method(&self, name: &String) -> (r: Option<usize>)
        ensures
            match r {
                Some(i) => i < self.methods@.len() && self.methods@[i as int].name() == name@,
                None => forall|j: int|
                    0 <= j < self.methods@.len() ==> self.methods@[j].name() != name@,
            },
    {
        let mut i: usize = 0;
        while i < self.methods.len()
            invariant
                i <= self.methods@.len(),
                forall|j: int| 0 <= j < i ==> self.methods@[j].name() != name@,
            decreases self.methods@.len() - i,
        {
            if self.methods[i].get_name().eq(name) {
                return Some(i);
            }
            i = i + 1;
        }
        None
    }

    /// Register a new method in the dispatcher, replacing any method of the same name.
    pub fn add_method(&mut self, method: Method)
        requires
            old(self).wf(),
        ensures
            final(self).wf(),
            final(self).method(method.name()) == Some(method),
            forall|name: Seq<char>|
                name != method.name() ==> final(self).method(name) == old(self).method(name),
            forall|before: Context, after: Context|
                final(self).initialized(before, after) == old(self).initialized(before, after),
            final(self).context_initializer() == old(self).context_initializer(),
            final(self).km_policy_handler() == old(self).km_policy_handler(),
            final(self).km_quote_policy_handler() == old(self).km_quote_policy_handler(),
    {
        let ghost prev = *self;
        let idx = self.find_method(method.get_name());
        let ghost k: int;
        match idx {
            Some(i) => {
                self.methods.set(i, method);
                proof {
                    k = i as int;
                }
            },
            None => {
                self.methods.push(method);
                proof {
                    k = prev.methods@.len() as int;
                }
            },
        }
        proof {
            let name = method.name();
            assert(self.methods@[k] == method);
            self.lemma_method_at(name, k);
            assert forall|n: Seq<char>| n != name implies self.method(n) == prev.method(n) by {
                if exists|j: int| 0 <= j < prev.methods@.len() && prev.methods@[j].name() == n {
                    let j = choose|j: int| 0 <= j < prev.methods@.len() && prev.methods@[j].name() == n;
                    prev.lemma_method_at(n, j);
                    assert(self.methods@[j] == prev.methods@[j]);
                    self.lemma_method_at(n, j);
                } else {
                    assert(!exists|j: int| 0 <= j < self.methods@.len() && self.methods@[j].name() == n) by {
                        if exists|j: int| 0 <= j < self.methods@.len() && self.methods@[j].name() == n {
                            let j = choose|j: int| 0 <= j < self.methods@.len() && self.methods@[j].name() == n;
                            assert(j != k);
                            assert(prev.methods@[j].name() == n);
                        }
                    }
                }
            }
        }
    }

    /// Configure context initializer: install one, replacing any earlier, or clear it with `None`.
    pub fn set_context_initializer(&mut self, initializer: Option<Box<dyn ContextInitializer>>)
        requires
            old(self).wf(),
        ensures
            final(self).wf(),
            final(self).context_initializer() == initializer,
            forall|before: Context, after: Context|
                final(self).initialized(before, after) == match initializer {
                    Some(i) => i.initializes(before, after),
                    None => after == before,
                },
            forall|name: Seq<char>| final(self).method(name) == old(self).method(name),
            final(self).km_policy_handler() == old(self).km_policy_handler(),
            final(self).km_quote_policy_handler() == old(self).km_quote_policy_handler(),
    {
        self.ctx_initializer = initializer;
    }

    /// Dispatch request.
    pub fn dispatch(&self, ctx: Context, request: Request, kind: Kind) -> (r: Response)
        requires
            self.wf(),
        ensures
            self.dispatch_result(ctx, request, kind, r),
    {
        let ghost given = ctx;
        let mut ctx = ctx;
        match &self.ctx_initializer {
            Some(ctx_init) => ctx_init.init(&mut ctx),
            None => {},
        }
        let ghost initialized = ctx;
        let result = self.dispatch_fallible(&mut ctx, request, kind);
        let ghost res = result;
        let r = match result {
            Ok(response) => response,
            Err(error) => Response { body: Body::Error(error) },
        };
        assert(self.initialized(given, initialized) && self.routes(initialized, ctx, request, kind, res)
            && r == response_of(res));
        r
    }

    fn dispatch_fallible(&self, ctx: &mut Context, request: Request, kind: Kind) -> (r: Result<
        Response,
        String,
    >)
        requires
            self.wf(),
        ensures
            self.routes(*old(ctx), *final(ctx), request, kind, r),
    {
        let i = match self.find_method(&request.method) {
            Some(i) => i,
            None => {
                let error = DispatchError::MethodNotFound { method: request.method };
                return Err(error.message());
            },
        };
        proof {
            self.lemma_method_at(request.method@, i as int);
        }
        let method = &self.methods[i];
        if !is_kind_allowed(method.get_kind(), kind) {
            let error = DispatchError::InvalidRpcKind { method: request.method, kind };
            return Err(error.message());
        }
        method.dispatch(request, ctx)
    }

    /// Handle key manager policy update.
    pub fn handle_km_policy_update(&self, policy: SignedPolicySGX) {
        if let Some(handler) = self.km_policy_handler.as_ref() {
            handler.handle(policy)
        }
    }

    /// Handle key manager quote policy update.
    pub fn handle_km_quote_policy_update(&self, policy: QuotePolicy) {
        if let Some(handler) = self.km_quote_policy_handler.as_ref() {
            handler.handle(policy)
        }
    }

    /// Update key manager policy update handler.
    pub fn set_keymanager_policy_update_handler(
        &mut self,
        f: Option<Box<dyn KeyManagerPolicyHandler>>,
    )
        requires
            old(self).wf(),
        ensures
            final(self).wf(),
            final(self).km_policy_handler() == f,
            forall|name: Seq<char>| final(self).method(name) == old(self).method(name),
            forall|before: Context, after: Context|
                final(self).initialized(before, after) == old(self).initialized(before, after),
            final(self).context_initializer() == old(self).context_initializer(),
            final(self).km_quote_policy_handler() == old(self).km_quote_policy_handler(),
    {
        self.km_policy_handler = f;
    }

    /// Update key manager quote policy update handler.
    pub fn set_keymanager_quote_policy_update_handler(
        &mut self,
        f: Option<Box<dyn KeyManagerQuotePolicyHandler>>,
    )
        requires
            old(self).wf(),
        ensures
            final(self).wf(),
            final(self).km_quote_policy_handler() == f,
            forall|name: Seq<char>| final(self).method(name) == old(self).method(name),
            forall|before: Context, after: Context|
                final(self).initialized(before, after) == old(self).initialized(before, after),
            final(self).context_initializer() == old(self).context_initializer(),
            final(self).km_policy_handler() == old(self).km_policy_handler(),
    {
        self.km_quote_policy_handler = f;
    }
}

impl Default for Dispatcher {
    fn default() -> (r: Dispatcher)
        ensures
            r.wf(),
            forall|name: Seq<char>| r.method(name) is None,
            r.context_initializer() is None,
            forall|before: Context, after: Context| r.initialized(before, after) == (after == before),
            r.km_policy_handler() is None,
            r.km_quote_policy_handler() is None,
    {
        Dispatcher::new()
    }
}

/// Of the nine pairs of method kind and channel kind, exactly four are allowed:
/// a noise session method over a noise session, an insecure query method over an
/// insecure query or a noise session, and a local query method over a local query.
/// For a registered method, a dispatch over an allowed pair is the handler's work on
/// the initialized context; over any other pair it fails with the invalid kind error.
pub proof fn lemma_kind_rule(
    d: Dispatcher,
    ctx: Context,
    request: Request,
    kind: Kind,
    r: Response,
    m: Method,
)
    requires
        d.dispatch_result(ctx, request, kind, r),
        d.method(request.method@) == Some(m),
    ensures
        forall|method_kind: Kind, channel_kind: Kind|
            kind_allowed(method_kind, channel_kind) <==> ((method_kind == Kind::NoiseSession
                && channel_kind == Kind::NoiseSession) || (method_kind == Kind::InsecureQuery
                && channel_kind == Kind::InsecureQuery) || (method_kind == Kind::InsecureQuery
                && channel_kind == Kind::NoiseSession) || (method_kind == Kind::LocalQuery
                && channel_kind == Kind::LocalQuery)),
        kind_allowed(m.descriptor().kind, kind) ==> exists|
            initialized: Context,
            after: Context,
            res: Result<Response, String>,
        |
            d.initialized(ctx, initialized) && m.dispatches(request, initialized, after, res) && r
                == response_of(res),
        !kind_allowed(m.descriptor().kind, kind) ==> (r.body matches Body::Error(e) && e@
            == invalid_kind_message(request.method@, kind)),
{
}

/// Dispatching a request for a method that is not registered, whatever else is
/// registered, yields an error response whose message holds the method's name.
pub proof fn lemma_unknown_method(d: Dispatcher, ctx: Context, request: Request, kind: Kind, r: Response)
    requires
        d.dispatch_result(ctx, request, kind, r),
        d.method(request.method@) is None,
    ensures
        r.body matches Body::Error(e) && e@ == method_not_found_message(request.method@),
        r.body matches Body::Error(e) && e@.subrange(19, 19 + request.method@.len() as int) == request.method@,
{
    reveal_strlit("method not found: \"");
    reveal_strlit("\"");
    let e = choose|e: String| r.body == Body::Error(e);
    assert(e@.subrange(19, 19 + request.method@.len() as int) =~= request.method@);
}

/// A registered method called over a refused kind fails with the invalid kind
/// error, never with the error of an unregistered method.
pub proof fn lemma_registered_method_is_found(
    d: Dispatcher,
    before: Context,
    after: Context,
    request: Request,
    kind: Kind,
    res: Result<Response, String>,
    m: Method,
)
    requires
        d.routes(before, after, request, kind, res),
        d.method(request.method@) == Some(m),
        !kind_allowed(m.descriptor().kind, kind),
    ensures
        fails_with(res, invalid_kind_message(request.method@, kind)),
        !fails_with(res, method_not_found_message(request.method@)),
{
    reveal_strlit("invalid RPC kind: \"");
    reveal_strlit("method not found: \"");
    assert(invalid_kind_message(request.method@, kind)[0] != method_not_found_message(request.method@)[0]);
}

/// The handler of every dispatch that reaches one runs on the context as the
/// installed initializer left it; with no initializer installed, on the context
/// exactly as given.
pub proof fn lemma_handler_sees_initialized_context(
    d: Dispatcher,
    ctx: Context,
    request: Request,
    kind: Kind,
    r: Response,
    m: Method,
)
    requires
        d.dispatch_result(ctx, request, kind, r),
        d.method(request.method@) == Some(m),
        kind_allowed(m.descriptor().kind, kind),
    ensures
        d.context_initializer() matches Some(init) ==> exists|
            initialized: Context,
            after: Context,
            res: Result<Response, String>,
        |
            init.initializes(ctx, initialized) && m.dispatches(request, initialized, after, res)
                && r == response_of(res),
        d.context_initializer() is None ==> exists|after: Context, res: Result<Response, String>|
            m.dispatches(request, ctx, after, res) && r == response_of(res),
{
}

} // verus!
