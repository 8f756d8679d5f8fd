//! Identities, policies and alerts of the security collaborators.

use vstd::prelude::*;
use std::collections::HashMap;

verus! {

/// Identity of a user or service
#[derive(Clone, Debug)]
pub struct Identity {
    pub id: String,
    pub attributes: HashMap<String, String>,
}

/// Represents credentials for authentication
#[derive(Clone, Debug)]
pub enum Credentials {
    Password(String),
    Token(String),
    Certificate(Vec<u8>),
    ApiKey(String),
}

/// Authentication token, including expiry and scope
#[derive(Clone, Debug)]
pub struct AuthToken {
    pub token: String,
    pub expires_at: u64,
    pub scopes: Vec<String>,
    pub issued_at: u64,
    pub issuer: String,
}

/// Represents an action to be authorized
#[derive(Clone, Debug)]
pub struct Action {
    pub resource: String,
    pub operation: String,
    pub context: HashMap<String, String>,
}

/// Decision for an authorization request, with explicit deny reasons
#[derive(Clone, Debug)]
pub enum AuthzDecision {
    Allow,
    Deny { reason: String },
}

/// Security policy for the system, supporting micro-segmentation and least privilege
#[derive(Clone, Debug)]
pub struct SecurityPolicy {
    pub rules: Vec<PolicyRule>,
}

/// A rule within a security policy
#[derive(Clone, Debug)]
pub struct PolicyRule {
    pub identity: IdentityMatch,
    pub action: ActionMatch,
    pub effect: PolicyEffect,
}

/// Criteria for matching an identity in a policy rule
#[derive(Clone, Debug)]
pub struct IdentityMatch {
    pub id: Option<String>,
    pub attributes: HashMap<String, String>,
}

/// Criteria for matching an action in a policy rule
#[derive(Clone, Debug)]
pub struct ActionMatch {
    pub resource: Option<String>,
    pub operation: Option<String>,
}

/// Effect of a policy rule
#[derive(Clone, Debug)]
pub enum PolicyEffect {
    Allow,
    Deny,
}

/// Represents a security alert or potential breach
#[derive(Clone, Debug)]
pub struct SecurityAlert {
    pub alert_id: String,
    pub description: String,
    pub severity: AlertSeverity,
    pub detected_at: u64,
    pub source: String,
    pub additional_info: HashMap<String, String>,
}

/// Severity levels for security alerts
#[derive(Clone, Debug, PartialEq, Eq)]
pub enum AlertSeverity {
    Low,
    Medium,
    High,
    Critical,
}

/// Event when access is denied to a resource
#[derive(Debug)]
pub struct AccessDeniedEvent {
    pub identity: Identity,
    pub action: Action,
    pub reason: String,
    pub timestamp: u64,
}

/// Event related to policy updates
#[derive(Clone, Debug)]
pub struct PolicyUpdate {
    pub policy: SecurityPolicy,
    pub updated_at: u64,
    pub updated_by: String,
}

/// Event related to certificates
#[derive(Clone, Debug)]
pub struct CertificateEvent {
    pub cert_id: String,
    pub event_type: CertificateEventType,
    pub timestamp: u64,
}

/// Types of certificate events
#[derive(Clone, Debug)]
pub enum CertificateEventType {
    Created,
    Updated,
    Revoked,
}

} // verus!
