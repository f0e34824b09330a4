//! Per-request identity: a user identifier, an optional conversation
//! identifier, and the tenant identifier that selects the logical database.

use vstd::prelude::*;

verus! {

/// Error raised when a `Ctx` is constructed with an empty user identifier.
#[derive(Debug, Clone, PartialEq, Eq, Structural)]
pub enum Error {
    CtxCannotNewRootCtx,
}

/// The fixed user identifier of the privileged root context.
pub open spec fn root_user_id() -> Seq<char> {
    "0000"@
}

/// The default tenant identifier used until a caller selects another one.
pub open spec fn default_tenant_id() -> Seq<char> {
    "d1UuaOAUBRL2glq1eawbyKHqBgc"@
}

/// Per-request identity. The tenant identifier is the sole routing key for
/// tenant isolation: every store operation resolves its database from it.
#[derive(Debug, Clone)]
pub struct Ctx {
    user_id: String,
    tenant_id: String,
    conv_id: Option<String>,
}

impl Ctx {
    /// The user identifier this context acts as.
    pub closed spec fn user_id_spec(&self) -> Seq<char> {
        self.user_id@
    }

    /// The tenant identifier naming the logical database.
    pub closed spec fn tenant_id_spec(&self) -> Seq<char> {
        self.tenant_id@
    }

    /// The optional conversation identifier.
    pub closed spec fn conv_id_spec(&self) -> Option<Seq<char>> {
        match self.conv_id {
            Some(c) => Some(c@),
            None => None,
        }
    }

    /// The privileged root context: fixed user identifier, default tenant,
    /// no conversation.
    pub fn root_ctx() -> (r: Self)
        ensures
            r.user_id_spec() == root_user_id(),
            r.tenant_id_spec() == default_tenant_id(),
            r.conv_id_spec() is None,
    {
        Ctx {
            user_id: "0000".to_owned(),
            conv_id: None,
            tenant_id: "d1UuaOAUBRL2glq1eawbyKHqBgc".to_owned(),
        }
    }

    /// A user context. Fails exactly when the user identifier is empty;
    /// otherwise the context starts under the default tenant with no
    /// conversation identifier.
    pub fn new(user_id: String) -> (r: Result<Self, Error>)
        ensures
            r is Err <==> user_id@.len() == 0,
            r matches Ok(c) ==> {
                &&& c.user_id_spec() == user_id@
                &&& c.tenant_id_spec() == default_tenant_id()
                &&& c.conv_id_spec() is None
            },
    {
        if user_id.as_str().is_empty() {
            Err(Error::CtxCannotNewRootCtx)
        } else {
            Ok(Self {
                user_id,
                conv_id: None,
                tenant_id: "d1UuaOAUBRL2glq1eawbyKHqBgc".to_owned(),
            })
        }
    }

    /// The same identity with the conversation identifier set.
    pub fn add_conv_id(&self, conv_id: String) -> (r: Ctx)
        ensures
            r.user_id_spec() == self.user_id_spec(),
            r.tenant_id_spec() == self.tenant_id_spec(),
            r.conv_id_spec() == Some(conv_id@),
    {
        Ctx {
            user_id: self.user_id.clone(),
            tenant_id: self.tenant_id.clone(),
            conv_id: Some(conv_id),
        }
    }

    /// The same identity routed to another tenant's database.
    pub fn add_tenant_id(&self, tenant_id: String) -> (r: Ctx)
        ensures
            r.user_id_spec() == self.user_id_spec(),
            r.tenant_id_spec() == tenant_id@,
            r.conv_id_spec() == self.conv_id_spec(),
    {
        Ctx {
            user_id: self.user_id.clone(),
            tenant_id,
            conv_id: match &self.conv_id {
                Some(c) => Some(c.clone()),
                None => None,
            },
        }
    }

    pub fn user_id(&self) -> (r: String)
        ensures
            r@ == self.user_id_spec(),
    {
        self.user_id.clone()
    }

    pub fn conv_id(&self) -> (r: Option<String>)
        ensures
            match r {
                Some(c) => self.conv_id_spec() == Some(c@),
                None => self.conv_id_spec() is None,
            },
    {
        match &self.conv_id {
            Some(c) => Some(c.clone()),
            None => None,
        }
    }

    pub fn tenant_id(&self) -> (r: String)
        ensures
            r@ == self.tenant_id_spec(),
    {
        self.tenant_id.clone()
    }
}

} // verus!
