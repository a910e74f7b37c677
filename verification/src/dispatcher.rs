//! The trust-boundary dispatcher: it binds RPC method names to handlers,
//! tags each as remote-callable or local-only, and constructs a fresh
//! per-call context before a handler is invoked. Local-only methods are
//! unreachable from the remote path and remote methods from the local
//! path; the boundary is enforced here, not in the handlers.

use vstd::prelude::*;

use crate::common::Namespace;

verus! {

/// A handle to the underlying host transport protocol, modelled by its
/// 64-bit connection identifier.
#[derive(Clone, Copy, Debug, PartialEq, Eq, Structural)]
pub struct ProtocolHandle {
    pub id: u64,
}

/// The per-call, request-scoped context: created fresh for every inbound
/// call, carrying the runtime identity and a protocol handle, and
/// discarded at call completion.
#[derive(Clone, Copy, Debug, PartialEq, Eq, Structural)]
pub struct RpcContext {
    /// The runtime this call executes for.
    pub runtime_id: Namespace,
    /// The handle to the underlying transport protocol.
    pub protocol: ProtocolHandle,
}

/// The context initializer: bound once at initialization over the runtime
/// identifier and the protocol handle; every inbound call gets a fresh
/// context carrying copies of them, never a shared reference.
#[derive(Clone, Copy, Debug, PartialEq, Eq, Structural)]
pub struct ContextInitializer {
    /// The runtime identity every context will carry.
    pub runtime_id: Namespace,
    /// The protocol handle every context will carry.
    pub protocol: ProtocolHandle,
}

impl ContextInitializer {
    /// Produce a new context for one inbound call. Each call of this
    /// function returns a fresh, exclusively owned value.
    pub fn init_context(&self) -> (ctx: RpcContext)
        ensures
            ctx.runtime_id == self.runtime_id,
            ctx.protocol == self.protocol,
    {
        RpcContext { runtime_id: self.runtime_id, protocol: self.protocol }
    }
}

/// The handler bound to a registered method. Handler bodies are external
/// collaborators; this core decides only which of them a call may reach.
#[derive(Clone, Copy, Debug, PartialEq, Eq, Structural)]
pub enum MethodHandler {
    /// Remote: create or fetch runtime keys.
    GetOrCreateKeys,
    /// Remote: fetch a public key.
    GetPublicKey,
    /// Remote: replicate the master secret to a peer key manager.
    ReplicateMasterSecret,
    /// Local only: bootstrap key-derivation state from a policy document.
    InitKdf,
}

/// An RPC method descriptor: the method's wire name.
#[derive(Debug)]
pub struct MethodDescriptor {
    pub name: String,
}

/// An RPC method: its descriptor and the handler it is bound to.
#[derive(Debug)]
pub struct RpcMethod {
    pub descriptor: MethodDescriptor,
    pub handler: MethodHandler,
}

impl RpcMethod {
    /// Bind a handler to a method descriptor.
    pub fn new(descriptor: MethodDescriptor, handler: MethodHandler) -> (r: Self)
        ensures
            r.descriptor.name@ == descriptor.name@,
            r.handler == handler,
    {
        RpcMethod { descriptor, handler }
    }
}

/// One row of the routing table: a method and its trust tag. A tag is
/// fixed at registration and never mutated afterwards.
#[derive(Debug)]
pub struct MethodEntry {
    pub method: RpcMethod,
    pub is_local: bool,
}

/// First routing-table row at or after index `i` whose name matches and
/// whose trust tag equals the calling path's.
pub open spec fn resolve_from(
    ms: Seq<MethodEntry>,
    name: Seq<char>,
    local: bool,
    i: int,
) -> Option<MethodHandler>
    decreases ms.len() - i,
{
    if i < 0 || i >= ms.len() {
        None
    } else if ms[i].is_local == local && ms[i].method.descriptor.name@ == name {
        Some(ms[i].method.handler)
    } else {
        resolve_from(ms, name, local, i + 1)
    }
}

/// The handler a call path resolves a name to: the first registered method
/// with that name whose trust tag equals the path's. A local-only method
/// never resolves on the remote path, nor a remote method on the local
/// path.
pub open spec fn spec_resolve(ms: Seq<MethodEntry>, name: Seq<char>, local: bool) -> Option<
    MethodHandler,
> {
    resolve_from(ms, name, local, 0)
}

/// A resolved handler comes from a row with the resolving path's own trust
/// tag: the boundary cannot be crossed, whatever the table holds.
pub proof fn lemma_resolve_respects_boundary(
    ms: Seq<MethodEntry>,
    name: Seq<char>,
    local: bool,
    i: int,
)
    ensures
        resolve_from(ms, name, local, i) matches Some(h) ==> exists|j: int|
            i <= j < ms.len() && (#[trigger] ms[j]).is_local == local && ms[j].method.descriptor.name@
                == name && ms[j].method.handler == h,
    decreases ms.len() - i,
{
    if i < 0 || i >= ms.len() {
    } else if ms[i].is_local == local && ms[i].method.descriptor.name@ == name {
        assert(i <= i < ms.len() && ms[i].is_local == local && ms[i].method.descriptor.name@
            == name);
    } else {
        lemma_resolve_respects_boundary(ms, name, local, i + 1);
    }
}

/// The RPC dispatcher: a routing table built during a single
/// initialization phase, before any request is served, and read-only
/// afterwards.
#[derive(Debug)]
pub struct RpcDispatcher {
    /// The routing table, in registration order.
    pub methods: Vec<MethodEntry>,
    /// The bound context initializer, if one was set.
    pub ctx_init: Option<ContextInitializer>,
}

impl RpcDispatcher {
    /// An empty dispatcher: no methods, no context initializer.
    pub fn new() -> (r: Self)
        ensures
            r.methods@.len() == 0,
            r.ctx_init is None,
    {
        RpcDispatcher { methods: Vec::new(), ctx_init: None }
    }

    /// Register a method under the given trust tag. Registration is
    /// additive only: existing rows and their tags are never touched.
    pub fn add_method(&mut self, method: RpcMethod, is_local: bool)
        ensures
            final(self).methods@ == old(self).methods@.push(
                (MethodEntry { method, is_local }),
            ),
            final(self).ctx_init == old(self).ctx_init,
    {
        self.methods.push(MethodEntry { method, is_local });
    }

    /// Bind the context initializer, once, at initialization time.
    pub fn set_context_initializer(&mut self, ci: ContextInitializer)
        ensures
            final(self).ctx_init == Some(ci),
            final(self).methods@ == old(self).methods@,
    {
        self.ctx_init = Some(ci);
    }

    /// Resolve a method name on one of the two calling paths.
    fn resolve(&self, name: &String, local: bool) -> (r: Option<MethodHandler>)
        ensures
            r == spec_resolve(self.methods@, name@, local),
    {
        let n = self.methods.len();
        let mut i: usize = 0;
        while i < n
            invariant
                i <= n,
                n == self.methods@.len(),
                spec_resolve(self.methods@, name@, local) == resolve_from(
                    self.methods@,
                    name@,
                    local,
                    i as int,
                ),
            decreases n - i,
        {
            let entry = &self.methods[i];
            if entry.is_local == local && entry.method.descriptor.name == *name {
                return Some(entry.method.handler);
            }
            i = i + 1;
        }
        None
    }

    /// Dispatch an inbound call arriving over the remote transport: the
    /// name is resolved strictly among remote-callable methods, and a
    /// fresh context is constructed for the call. Returns `None` when no
    /// remote method has the name or no context initializer is bound.
    pub fn dispatch_remote(&self, name: &String) -> (r: Option<(MethodHandler, RpcContext)>)
        ensures
            match self.ctx_init {
                None => r is None,
                Some(ci) => r == (match spec_resolve(self.methods@, name@, false) {
                    Some(h) => Some(
                        (
                            h,
                            (RpcContext { runtime_id: ci.runtime_id, protocol: ci.protocol }),
                        ),
                    ),
                    None => None,
                }),
            },
    {
        let ci = match self.ctx_init {
            Some(ci) => ci,
            None => {
                return None;
            },
        };
        match self.resolve(name, false) {
            Some(h) => Some((h, ci.init_context())),
            None => None,
        }
    }

    /// Dispatch a call from the trusted local host process: the name is
    /// resolved strictly among local-only methods, with a fresh context.
    pub fn dispatch_local(&self, name: &String) -> (r: Option<(MethodHandler, RpcContext)>)
        ensures
            match self.ctx_init {
                None => r is None,
                Some(ci) => r == (match spec_resolve(self.methods@, name@, true) {
                    Some(h) => Some(
                        (
                            h,
                            (RpcContext { runtime_id: ci.runtime_id, protocol: ci.protocol }),
                        ),
                    ),
                    None => None,
                }),
            },
    {
        let ci = match self.ctx_init {
            Some(ci) => ci,
            None => {
                return None;
            },
        };
        match self.resolve(name, true) {
            Some(h) => Some((h, ci.init_context())),
            None => None,
        }
    }
}

} // verus!
