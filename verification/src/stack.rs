//! The calls into the `opcua` protocol stack. Verus takes the contracts in
//! this file on trust: each one restates what the stack's source shows.

use vstd::prelude::*;
use crate::endpoint::{
    anonymous_policy, policy_name, SecurityPolicy, UserTokenPolicy, UserTokenType,
};
use crate::node::{node_id_text, Identifier, NodeId};
use crate::subscription::{default_item_settings, ItemSettings, MonitoringMode};

verus! {

/// The text that the stack's `Display` for `opcua::types::StatusCode` writes
/// for a status code of these bits: the name of its sub code, then the names
/// of the flags that are set.
pub uninterp spec fn status_code_text(bits: u32) -> Seq<char>;

/// `StatusCode::to_string` of the stack. The text depends on the bits alone.
#[verifier::external_body]
pub(crate) fn stack_status_text(bits: u32) -> (text: String)
    ensures
        text@ == status_code_text(bits),
{
    opcua::types::StatusCode::from(bits).to_string()
}

/// `NodeId::to_string` of the stack, on a node id made by `NodeId::new` from
/// the same namespace and identifier. Its `Display` writes the identifier as
/// `i=` and the number or `s=` and the string, and puts `ns=`, the namespace
/// index and `;` before it when the namespace is not 0.
#[verifier::external_body]
pub(crate) fn stack_node_text(node: &NodeId) -> (text: String)
    ensures
        text@ == node_id_text(node@),
{
    let id = match &node.identifier {
        Identifier::Numeric(n) => opcua::types::NodeId::new(node.namespace, *n),
        Identifier::Text(s) => opcua::types::NodeId::new(node.namespace, s.clone()),
    };
    id.to_string()
}

/// `SecurityPolicy::to_str` of the stack: the short name of the policy,
/// `None` for no security.
#[verifier::external_body]
pub(crate) fn stack_policy_name(policy: SecurityPolicy) -> (name: String)
    ensures
        name@ == policy_name(policy),
{
    let policy = match policy {
        SecurityPolicy::NoSecurity => opcua::crypto::SecurityPolicy::None,
        SecurityPolicy::Basic128Rsa15 => opcua::crypto::SecurityPolicy::Basic128Rsa15,
        SecurityPolicy::Basic256 => opcua::crypto::SecurityPolicy::Basic256,
        SecurityPolicy::Basic256Sha256 => opcua::crypto::SecurityPolicy::Basic256Sha256,
        SecurityPolicy::Aes128Sha256RsaOaep => opcua::crypto::SecurityPolicy::Aes128Sha256RsaOaep,
        SecurityPolicy::Aes256Sha256RsaPss => opcua::crypto::SecurityPolicy::Aes256Sha256RsaPss,
    };
    policy.to_str().to_string()
}

/// `UserTokenPolicy::anonymous` of the stack: the policy with the id
/// `anonymous` and the anonymous token type. Its other fields are null.
#[verifier::external_body]
pub(crate) fn stack_anonymous_policy() -> (policy: UserTokenPolicy)
    ensures
        policy@ == anonymous_policy(),
{
    let policy = opcua::types::UserTokenPolicy::anonymous();
    UserTokenPolicy {
        policy_id: policy.policy_id.as_ref().to_string(),
        token_type: match policy.token_type {
            opcua::types::UserTokenType::Anonymous => UserTokenType::Anonymous,
            opcua::types::UserTokenType::UserName => UserTokenType::UserName,
            opcua::types::UserTokenType::Certificate => UserTokenType::Certificate,
            opcua::types::UserTokenType::IssuedToken => UserTokenType::IssuedToken,
        },
    }
}

/// `MonitoredItemCreateRequest::from` of the stack, on a node id made by
/// `NodeId::new` from the same namespace and identifier. The request that
/// it makes reads the value attribute in reporting mode; the client handle
/// and the queue size are 0, and the oldest value is not discarded.
#[verifier::external_body]
pub(crate) fn stack_item_settings(node: &NodeId) -> (settings: ItemSettings)
    ensures
        settings == default_item_settings(),
{
    let request = opcua::types::MonitoredItemCreateRequest::from(match &node.identifier {
        Identifier::Numeric(n) => opcua::types::NodeId::new(node.namespace, *n),
        Identifier::Text(s) => opcua::types::NodeId::new(node.namespace, s.clone()),
    });
    ItemSettings {
        attribute_id: request.item_to_monitor.attribute_id,
        monitoring_mode: match request.monitoring_mode {
            opcua::types::MonitoringMode::Disabled => MonitoringMode::Disabled,
            opcua::types::MonitoringMode::Sampling => MonitoringMode::Sampling,
            opcua::types::MonitoringMode::Reporting => MonitoringMode::Reporting,
        },
        client_handle: request.requested_parameters.client_handle,
        queue_size: request.requested_parameters.queue_size,
        discard_oldest: request.requested_parameters.discard_oldest,
    }
}

} // verus!
