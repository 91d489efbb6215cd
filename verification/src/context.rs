//! Per-invocation metadata, and the scope that makes exactly one
//! invocation's metadata ambient while that invocation's code runs.

use vstd::prelude::*;
use vstd::string::StringExecFns;

use crate::messages::InvokeRequest;

verus! {

/// Information about the client application that invoked the lambda function.
#[derive(Clone, Debug)]
pub struct Client {
    pub installation_id: String,
    pub app_title: String,
    pub app_version_code: String,
    pub app_package_name: String,
}

/// Mathematical view of `Client`.
pub struct ClientV {
    pub installation_id: Seq<char>,
    pub app_title: Seq<char>,
    pub app_version_code: Seq<char>,
    pub app_package_name: Seq<char>,
}

impl View for Client {
    type V = ClientV;

    open spec fn view(&self) -> ClientV {
        ClientV {
            installation_id: self.installation_id@,
            app_title: self.app_title@,
            app_version_code: self.app_version_code@,
            app_package_name: self.app_package_name@,
        }
    }
}

impl Client {
    /// Installation id of the application.
    pub fn installation_id(&self) -> (r: &str)
        ensures
            r@ == self@.installation_id,
    {
        self.installation_id.as_str()
    }

    /// Title of the application.
    pub fn app_title(&self) -> (r: &str)
        ensures
            r@ == self@.app_title,
    {
        self.app_title.as_str()
    }

    /// Version of the application.
    pub fn app_version_code(&self) -> (r: &str)
        ensures
            r@ == self@.app_version_code,
    {
        self.app_version_code.as_str()
    }

    /// Package name of the application.
    pub fn app_package_name(&self) -> (r: &str)
        ensures
            r@ == self@.app_package_name,
    {
        self.app_package_name.as_str()
    }
}

/// The value the key maps to: the first pair with that key decides, and keys
/// are stored at most once.
pub open spec fn spec_lookup(pairs: Seq<(Seq<char>, Seq<char>)>, key: Seq<char>) -> Option<
    Seq<char>,
>
    decreases pairs.len(),
{
    if pairs.len() == 0 {
        None
    } else if pairs[0].0 == key {
        Some(pairs[0].1)
    } else {
        spec_lookup(pairs.drop_first(), key)
    }
}

/// Looks a key up among the stored pairs.
pub(crate) fn lookup<'a>(pairs: &'a Vec<(String, String)>, key: &str) -> (r: Option<&'a str>)
    ensures
        match r {
            Some(v) => spec_lookup(pairs.deep_view(), key@) == Some(v@),
            None => spec_lookup(pairs.deep_view(), key@) is None,
        },
{
    let ghost pv = pairs.deep_view();
    proof {
        assert(pv.skip(0) =~= pv);
    }
    let mut i: usize = 0;
    while i < pairs.len()
        invariant
            i <= pairs.len(),
            pv == pairs.deep_view(),
            pv.len() == pairs.len(),
            spec_lookup(pv, key@) == spec_lookup(pv.skip(i as int), key@),
        decreases pairs.len() - i,
    {
        proof {
            assert(pv.skip(i as int)[0] == pv[i as int]);
            assert(pv.skip(i as int).drop_first() =~= pv.skip(i + 1));
        }
        if crate::codec::str_eq(pairs[i].0.as_str(), key) {
            return Some(pairs[i].1.as_str());
        }
        i = i + 1;
    }
    proof {
        assert(pv.skip(pairs.len() as int).len() == 0);
    }
    None
}

/// Client-specific information passed by the calling application.
#[derive(Clone, Debug)]
pub struct ClientContext {
    pub client: Client,
    pub env: Vec<(String, String)>,
    pub custom: Vec<(String, String)>,
}

/// Mathematical view of `ClientContext`.
pub struct ClientContextV {
    pub client: ClientV,
    pub env: Seq<(Seq<char>, Seq<char>)>,
    pub custom: Seq<(Seq<char>, Seq<char>)>,
}

impl View for ClientContext {
    type V = ClientContextV;

    open spec fn view(&self) -> ClientContextV {
        ClientContextV { client: self.client@, env: self.env.deep_view(), custom: self.custom.deep_view() }
    }
}

impl ClientContext {
    /// Client information provided by the mobile SDK.
    pub fn client(&self) -> (r: &Client)
        ensures
            r@ == self@.client,
    {
        &self.client
    }

    /// Get custom values set by the client application.
    pub fn get_custom(&self, key: &str) -> (r: Option<&str>)
        ensures
            match r {
                Some(v) => spec_lookup(self@.custom, key@) == Some(v@),
                None => spec_lookup(self@.custom, key@) is None,
            },
    {
        lookup(&self.custom, key)
    }

    /// Get environment information provided by mobile SDK.
    pub fn get_environment(&self, key: &str) -> (r: Option<&str>)
        ensures
            match r {
                Some(v) => spec_lookup(self@.env, key@) == Some(v@),
                None => spec_lookup(self@.env, key@) is None,
            },
    {
        lookup(&self.env, key)
    }
}

/// Information about the cognito identity used by the calling application.
#[derive(Clone, Debug)]
pub struct CognitoIdentity {
    pub cognito_identity_id: Option<String>,
    pub cognito_identity_pool_id: Option<String>,
}

/// Mathematical view of `CognitoIdentity`.
pub struct CognitoIdentityV {
    pub cognito_identity_id: Option<Seq<char>>,
    pub cognito_identity_pool_id: Option<Seq<char>>,
}

impl View for CognitoIdentity {
    type V = CognitoIdentityV;

    open spec fn view(&self) -> CognitoIdentityV {
        CognitoIdentityV {
            cognito_identity_id: match self.cognito_identity_id {
                Some(s) => Some(s@),
                None => None,
            },
            cognito_identity_pool_id: match self.cognito_identity_pool_id {
                Some(s) => Some(s@),
                None => None,
            },
        }
    }
}

impl CognitoIdentity {
    /// Cognito identity ID.
    pub fn id(&self) -> (r: Option<&str>)
        ensures
            match r {
                Some(v) => self@.cognito_identity_id == Some(v@),
                None => self@.cognito_identity_id is None,
            },
    {
        match &self.cognito_identity_id {
            Some(s) => Some(s.as_str()),
            None => None,
        }
    }

    /// Cognito identity pool ID.
    pub fn pool_id(&self) -> (r: Option<&str>)
        ensures
            match r {
                Some(v) => self@.cognito_identity_pool_id == Some(v@),
                None => self@.cognito_identity_pool_id is None,
            },
    {
        match &self.cognito_identity_pool_id {
            Some(s) => Some(s.as_str()),
            None => None,
        }
    }
}

/// Metadata that is passed to the function on invocation. Immutable for the
/// whole of exactly one invocation's execution.
#[derive(Clone, Debug)]
pub struct Context {
    pub aws_request_id: String,
    pub invoked_function_arn: String,
    pub identity: CognitoIdentity,
    pub client_context: Option<ClientContext>,
}

/// Mathematical view of `Context`.
pub struct ContextV {
    pub aws_request_id: Seq<char>,
    pub invoked_function_arn: Seq<char>,
    pub identity: CognitoIdentityV,
    pub client_context: Option<ClientContextV>,
}

impl View for Context {
    type V = ContextV;

    open spec fn view(&self) -> ContextV {
        ContextV {
            aws_request_id: self.aws_request_id@,
            invoked_function_arn: self.invoked_function_arn@,
            identity: self.identity@,
            client_context: match self.client_context {
                Some(c) => Some(c@),
                None => None,
            },
        }
    }
}

/// The fault of asking for the current context outside any invocation's
/// execution: a programmer error, reported hard rather than guessed around.
#[derive(Clone, Copy, Debug, PartialEq, Eq, Structural)]
pub enum ContextError {
    NotInInvocation,
}

impl ContextError {
    /// A short description of the error.
    pub fn describe(&self) -> (r: String)
        ensures
            r@ == "no lambda invocation is currently executing"@,
    {
        String::from_str("no lambda invocation is currently executing")
    }
}

/// The ambient binding for one logical task: it holds the context of the
/// invocation whose code is presently running there, and nothing otherwise.
/// The connection driver installs the binding immediately before resuming an
/// invocation and clears it immediately after that step returns, every step,
/// so interleaved invocations never observe one another's context.
pub struct ContextScope {
    pub current: Option<Context>,
}

impl ContextScope {
    /// A scope with no invocation executing.
    pub fn new() -> (s: ContextScope)
        ensures
            s.current is None,
    {
        ContextScope { current: None }
    }

    /// Installs a context; to be called immediately before resuming the
    /// invocation it belongs to.
    pub fn enter(&mut self, ctx: Context)
        requires
            old(self).current is None,
        ensures
            final(self).current == Some(ctx),
    {
        self.current = Some(ctx);
    }

    /// Clears the binding and returns the context, to be called immediately
    /// after the invocation's step returns.
    pub fn exit(&mut self) -> (ctx: Option<Context>)
        ensures
            final(self).current is None,
            ctx == old(self).current,
    {
        self.current.take()
    }
}

/// A copy of the stored pairs with the same view.
fn clone_pairs(pairs: &Vec<(String, String)>) -> (r: Vec<(String, String)>)
    ensures
        r.deep_view() == pairs.deep_view(),
{
    let mut r: Vec<(String, String)> = Vec::new();
    let ghost pv = pairs.deep_view();
    let mut i: usize = 0;
    while i < pairs.len()
        invariant
            i <= pairs.len(),
            pv == pairs.deep_view(),
            pv.len() == pairs.len(),
            r.deep_view() =~= pv.take(i as int),
        decreases pairs.len() - i,
    {
        let entry = &pairs[i];
        let ghost old_dv = r.deep_view();
        r.push((entry.0.clone(), entry.1.clone()));
        proof {
            assert(pairs@[i as int].deep_view() == pv[i as int]);
            assert(r.deep_view() =~= old_dv.push(pv[i as int]));
            assert(old_dv.push(pv[i as int]) =~= pv.take(i + 1));
        }
        i = i + 1;
    }
    proof {
        assert(pv.take(pairs.len() as int) =~= pv);
    }
    r
}

impl CognitoIdentity {
    /// An identity with the same fields.
    fn duplicate(&self) -> (r: CognitoIdentity)
        ensures
            r@ == self@,
    {
        CognitoIdentity {
            cognito_identity_id: match &self.cognito_identity_id {
                Some(s) => Some(s.clone()),
                None => None,
            },
            cognito_identity_pool_id: match &self.cognito_identity_pool_id {
                Some(s) => Some(s.clone()),
                None => None,
            },
        }
    }
}

impl ClientContext {
    /// A client context with the same view.
    fn duplicate(&self) -> (r: ClientContext)
        ensures
            r@ == self@,
    {
        ClientContext {
            client: Client {
                installation_id: self.client.installation_id.clone(),
                app_title: self.client.app_title.clone(),
                app_version_code: self.client.app_version_code.clone(),
                app_package_name: self.client.app_package_name.clone(),
            },
            env: clone_pairs(&self.env),
            custom: clone_pairs(&self.custom),
        }
    }
}

impl Context {
    /// A context with the same metadata.
    pub fn duplicate(&self) -> (r: Context)
        ensures
            r@ == self@,
    {
        Context {
            aws_request_id: self.aws_request_id.clone(),
            invoked_function_arn: self.invoked_function_arn.clone(),
            identity: self.identity.duplicate(),
            client_context: match &self.client_context {
                Some(c) => Some(c.duplicate()),
                None => None,
            },
        }
    }

    /// Retrieve the context of the invocation presently executing in the
    /// given scope.
    ///
    /// Calling this outside of any invocation's execution is an error.
    pub fn current(scope: &ContextScope) -> (r: Result<Context, ContextError>)
        ensures
            match r {
                Ok(c) => scope.current matches Some(cur) && c@ == cur@,
                Err(_) => scope.current is None,
            },
    {
        match &scope.current {
            Some(c) => Ok(c.duplicate()),
            None => Err(ContextError::NotInInvocation),
        }
    }

    /// AWS request ID associated with the request.
    pub fn aws_request_id(&self) -> (r: &str)
        ensures
            r@ == self@.aws_request_id,
    {
        self.aws_request_id.as_str()
    }

    /// ARN of the function being invoked.
    pub fn invoked_function_arn(&self) -> (r: &str)
        ensures
            r@ == self@.invoked_function_arn,
    {
        self.invoked_function_arn.as_str()
    }

    /// Gets information about the Amazon Cognito identity provider when
    /// invoked through the AWS Mobile SDK.
    pub fn identity(&self) -> (r: &CognitoIdentity)
        ensures
            r@ == self@.identity,
    {
        &self.identity
    }

    /// Information about the client application and device when invoked
    /// through the AWS Mobile SDK.
    pub fn client_context(&self) -> (r: Option<&ClientContext>)
        ensures
            match r {
                Some(c) => self@.client_context == Some(c@),
                None => self@.client_context is None,
            },
    {
        match &self.client_context {
            Some(c) => Some(c),
            None => None,
        }
    }
}

impl InvokeRequest {
    /// The context that this Invoke message supplies: its request id, its
    /// function ARN and its identity fields, carried over verbatim.
    pub fn context(&self) -> (c: Context)
        ensures
            c@.aws_request_id == self@.request_id,
            c@.invoked_function_arn == self@.invoked_function_arn,
            c@.identity.cognito_identity_id == self@.cognito_identity_id,
            c@.identity.cognito_identity_pool_id == self@.cognito_identity_pool_id,
            c@.client_context is None,
    {
        Context {
            aws_request_id: self.request_id.clone(),
            invoked_function_arn: self.invoked_function_arn.clone(),
            identity: CognitoIdentity {
                cognito_identity_id: match &self.cognito_identity_id {
                    Some(s) => Some(s.clone()),
                    None => None,
                },
                cognito_identity_pool_id: match &self.cognito_identity_pool_id {
                    Some(s) => Some(s.clone()),
                    None => None,
                },
            },
            client_context: None,
        }
    }
}

} // verus!
