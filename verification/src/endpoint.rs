//! What a session is negotiated from: the endpoint, the identity and the
//! client's own configuration.

use vstd::prelude::*;
use crate::stack::{stack_anonymous_policy, stack_policy_name};

verus! {

/// The cryptographic profile of a session.
#[derive(Clone, Copy, Debug, PartialEq, Eq, Structural)]
pub enum SecurityPolicy {
    NoSecurity,
    Basic128Rsa15,
    Basic256,
    Basic256Sha256,
    Aes128Sha256RsaOaep,
    Aes256Sha256RsaPss,
}

/// How the messages of a session are protected.
#[derive(Clone, Copy, Debug, PartialEq, Eq, Structural)]
pub enum SecurityMode {
    NoSecurity,
    Sign,
    SignAndEncrypt,
}

/// The kind of identity that a user token policy asks for.
#[derive(Clone, Copy, Debug, PartialEq, Eq, Structural)]
pub enum UserTokenType {
    Anonymous,
    UserName,
    Certificate,
    IssuedToken,
}

/// The identifier by which a security policy is named to the stack.
pub open spec fn policy_name(policy: SecurityPolicy) -> Seq<char> {
    match policy {
        SecurityPolicy::NoSecurity => "None"@,
        SecurityPolicy::Basic128Rsa15 => "Basic128Rsa15"@,
        SecurityPolicy::Basic256 => "Basic256"@,
        SecurityPolicy::Basic256Sha256 => "Basic256Sha256"@,
        SecurityPolicy::Aes128Sha256RsaOaep => "Aes128-Sha256-RsaOaep"@,
        SecurityPolicy::Aes256Sha256RsaPss => "Aes256-Sha256-RsaPss"@,
    }
}

/// One way in which an endpoint lets a user identify.
#[derive(Debug, PartialEq, Eq)]
pub struct UserTokenPolicy {
    pub policy_id: String,
    pub token_type: UserTokenType,
}

/// What a [`UserTokenPolicy`] stands for.
pub struct UserTokenPolicyView {
    pub policy_id: Seq<char>,
    pub token_type: UserTokenType,
}

impl View for UserTokenPolicy {
    type V = UserTokenPolicyView;

    open spec fn view(&self) -> UserTokenPolicyView {
        UserTokenPolicyView { policy_id: self.policy_id@, token_type: self.token_type }
    }
}

impl Clone for UserTokenPolicy {
    fn clone(&self) -> (copy: UserTokenPolicy)
        ensures
            copy == *self,
    {
        UserTokenPolicy { policy_id: self.policy_id.clone(), token_type: self.token_type }
    }
}

/// The policy of an endpoint that asks for no identity.
pub open spec fn anonymous_policy() -> UserTokenPolicyView {
    UserTokenPolicyView { policy_id: "anonymous"@, token_type: UserTokenType::Anonymous }
}

impl UserTokenPolicy {
    /// The policy for anonymous access, as the stack defines it.
    pub fn anonymous() -> (policy: UserTokenPolicy)
        ensures
            policy@ == anonymous_policy(),
    {
        stack_anonymous_policy()
    }
}

/// The identity that a session is opened with.
#[derive(Debug, PartialEq, Eq)]
pub enum IdentityToken {
    Anonymous,
    UserName { user: String, password: String },
}

/// What an [`IdentityToken`] stands for.
pub enum IdentityTokenView {
    Anonymous,
    UserName { user: Seq<char>, password: Seq<char> },
}

impl View for IdentityToken {
    type V = IdentityTokenView;

    open spec fn view(&self) -> IdentityTokenView {
        match self {
            IdentityToken::Anonymous => IdentityTokenView::Anonymous,
            IdentityToken::UserName { user, password } => IdentityTokenView::UserName {
                user: user@,
                password: password@,
            },
        }
    }
}

impl Clone for IdentityToken {
    fn clone(&self) -> (copy: IdentityToken)
        ensures
            copy == *self,
    {
        match self {
            IdentityToken::Anonymous => IdentityToken::Anonymous,
            IdentityToken::UserName { user, password } => IdentityToken::UserName {
                user: user.clone(),
                password: password.clone(),
            },
        }
    }
}

/// The endpoint that a session is opened against. Its parts are fixed when
/// it is made.
#[derive(Debug, PartialEq, Eq)]
pub struct EndpointDescriptor {
    url: String,
    security_policy: String,
    security_mode: SecurityMode,
    user_token_policy: UserTokenPolicy,
}

/// What an [`EndpointDescriptor`] stands for.
pub struct EndpointDescriptorView {
    pub url: Seq<char>,
    /// The identifier of the security policy.
    pub security_policy: Seq<char>,
    pub security_mode: SecurityMode,
    pub user_token_policy: UserTokenPolicyView,
}

impl View for EndpointDescriptor {
    type V = EndpointDescriptorView;

    closed spec fn view(&self) -> EndpointDescriptorView {
        EndpointDescriptorView {
            url: self.url@,
            security_policy: self.security_policy@,
            security_mode: self.security_mode,
            user_token_policy: self.user_token_policy@,
        }
    }
}

impl Clone for EndpointDescriptor {
    fn clone(&self) -> (copy: EndpointDescriptor)
        ensures
            copy == *self,
    {
        EndpointDescriptor {
            url: self.url.clone(),
            security_policy: self.security_policy.clone(),
            security_mode: self.security_mode,
            user_token_policy: self.user_token_policy.clone(),
        }
    }
}

/// The endpoint at `url` with the given security settings.
pub open spec fn endpoint_of(
    url: Seq<char>,
    policy: SecurityPolicy,
    mode: SecurityMode,
    user_token_policy: UserTokenPolicyView,
) -> EndpointDescriptorView {
    EndpointDescriptorView {
        url,
        security_policy: policy_name(policy),
        security_mode: mode,
        user_token_policy,
    }
}

impl EndpointDescriptor {
    /// Describes the endpoint at `url`. The security policy is held by the
    /// identifier that the stack gives it.
    pub fn new(
        url: String,
        policy: SecurityPolicy,
        mode: SecurityMode,
        user_token_policy: UserTokenPolicy,
    ) -> (endpoint: EndpointDescriptor)
        ensures
            endpoint@ == endpoint_of(url@, policy, mode, user_token_policy@),
    {
        EndpointDescriptor {
            url,
            security_policy: stack_policy_name(policy),
            security_mode: mode,
            user_token_policy,
        }
    }

    /// The endpoint at `url` without security, open to anonymous users.
    pub fn unsecured(url: String) -> (endpoint: EndpointDescriptor)
        ensures
            endpoint@ == endpoint_of(
                url@,
                SecurityPolicy::NoSecurity,
                SecurityMode::NoSecurity,
                anonymous_policy(),
            ),
    {
        EndpointDescriptor::new(
            url,
            SecurityPolicy::NoSecurity,
            SecurityMode::NoSecurity,
            UserTokenPolicy::anonymous(),
        )
    }

    /// The URL of the server.
    pub fn url(&self) -> (url: &String)
        ensures
            url@ == self@.url,
    {
        &self.url
    }

    /// The identifier of the security policy.
    pub fn security_policy(&self) -> (policy: &String)
        ensures
            policy@ == self@.security_policy,
    {
        &self.security_policy
    }

    /// How messages are protected.
    pub fn security_mode(&self) -> (mode: SecurityMode)
        ensures
            mode == self@.security_mode,
    {
        self.security_mode
    }

    /// How a user identifies.
    pub fn user_token_policy(&self) -> (policy: &UserTokenPolicy)
        ensures
            policy@ == self@.user_token_policy,
    {
        &self.user_token_policy
    }
}

/// How the client presents itself and whom it trusts.
#[derive(Debug, PartialEq, Eq)]
pub struct ClientConfig {
    pub application_name: String,
    pub application_uri: String,
    pub product_uri: String,
    /// Trust every server certificate instead of verifying it.
    pub trust_server_certs: bool,
    /// Generate a key pair for the client if it has none.
    pub create_sample_keypair: bool,
    /// The session timeout, in milliseconds.
    pub session_timeout: u32,
}

/// What a [`ClientConfig`] stands for.
pub struct ClientConfigView {
    pub application_name: Seq<char>,
    pub application_uri: Seq<char>,
    pub product_uri: Seq<char>,
    pub trust_server_certs: bool,
    pub create_sample_keypair: bool,
    pub session_timeout: u32,
}

impl View for ClientConfig {
    type V = ClientConfigView;

    open spec fn view(&self) -> ClientConfigView {
        ClientConfigView {
            application_name: self.application_name@,
            application_uri: self.application_uri@,
            product_uri: self.product_uri@,
            trust_server_certs: self.trust_server_certs,
            create_sample_keypair: self.create_sample_keypair,
            session_timeout: self.session_timeout,
        }
    }
}

impl Clone for ClientConfig {
    fn clone(&self) -> (copy: ClientConfig)
        ensures
            copy == *self,
    {
        ClientConfig {
            application_name: self.application_name.clone(),
            application_uri: self.application_uri.clone(),
            product_uri: self.product_uri.clone(),
            trust_server_certs: self.trust_server_certs,
            create_sample_keypair: self.create_sample_keypair,
            session_timeout: self.session_timeout,
        }
    }
}

} // verus!
