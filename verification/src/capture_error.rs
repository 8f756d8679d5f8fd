//! The error type shared by every component: a kind, a message, the time it
//! was raised, an optional chain of causes and a structured context.

use vstd::prelude::*;
use vstd::string::StringExecFns;
use vstd::string::StrSliceExecFns;
use crate::text::{decimal, decimal_text};
use crate::time::Timestamp;

verus! {

/// Severity levels for errors.
#[derive(Clone, Copy, Debug, PartialEq, Eq, Structural)]
pub enum ErrorSeverity {
    Critical,
    Error,
    Warning,
    Info,
}

impl Default for ErrorSeverity {
    fn default() -> (s: ErrorSeverity)
        ensures
            s == ErrorSeverity::Error,
    {
        ErrorSeverity::Error
    }
}

/// Network-related errors.
#[derive(Clone, Copy, Debug, PartialEq, Eq, Structural)]
pub enum NetworkErrorKind {
    InterfaceNotFound,
    CaptureFailure,
    FilterError,
    Timeout,
    BufferOverflow,
    DriverError,
}

/// System-level errors.
#[derive(Clone, Copy, Debug, PartialEq, Eq, Structural)]
pub enum SystemErrorKind {
    MemoryError,
    ThreadError,
    IoError,
    TimerError,
    ResourceExhausted,
}

/// Resource management errors.
#[derive(Clone, Copy, Debug, PartialEq, Eq, Structural)]
pub enum ResourceErrorKind {
    NotAvailable,
    QuotaExceeded,
    AllocationFailed,
    InvalidState,
}

/// Configuration errors.
#[derive(Clone, Copy, Debug, PartialEq, Eq, Structural)]
pub enum ConfigErrorKind {
    InvalidValue,
    MissingRequired,
    ValidationFailed,
    ParseError,
}

/// Runtime operational errors.
#[derive(Clone, Copy, Debug, PartialEq, Eq, Structural)]
pub enum RuntimeErrorKind {
    EntityNotFound,
    OperationFailed,
    StateError,
    ConcurrencyError,
    Timeout,
    SyncLockFailure,
}

/// Cloud-specific errors.
#[derive(Clone, Copy, Debug, PartialEq, Eq, Structural)]
pub enum CloudErrorKind {
    VpcError,
    EniError,
    MetadataError,
    ScalingError,
    ApiError,
}

/// Security-related errors.
#[derive(Clone, Copy, Debug, PartialEq, Eq, Structural)]
pub enum SecurityErrorKind {
    AccessDenied,
    AuthenticationFailed,
    EncryptionError,
    InvalidCredentials,
}

/// Main error categories.
#[derive(Clone, Copy, Debug, PartialEq, Eq, Structural)]
pub enum CaptureErrorKind {
    Network(NetworkErrorKind),
    System(SystemErrorKind),
    Resource(ResourceErrorKind),
    Configuration(ConfigErrorKind),
    Runtime(RuntimeErrorKind),
    Cloud(CloudErrorKind),
    Security(SecurityErrorKind),
}

/// The characters of an optional string.
pub open spec fn text_of(o: Option<String>) -> Option<Seq<char>> {
    match o {
        Some(s) => Some(s@),
        None => None,
    }
}

/// What an `ErrorContext` holds, as plain values.
pub struct ErrorContextView {
    pub instance_id: Option<Seq<char>>,
    pub region: Option<Seq<char>>,
    pub vpc_id: Option<Seq<char>>,
    pub operation: Option<Seq<char>>,
    pub component: Option<Seq<char>>,
    pub resource_id: Option<Seq<char>>,
    pub trace_id: Option<Seq<char>>,
    pub retry_count: u32,
    pub severity: ErrorSeverity,
}

/// The context of an error nobody has said anything about: no field set, no
/// retries, severity `Error`.
pub open spec fn empty_context() -> ErrorContextView {
    ErrorContextView {
        instance_id: None,
        region: None,
        vpc_id: None,
        operation: None,
        component: None,
        resource_id: None,
        trace_id: None,
        retry_count: 0,
        severity: ErrorSeverity::Error,
    }
}

/// Detailed context for error reporting and debugging.
#[derive(Debug)]
pub struct ErrorContext {
    pub instance_id: Option<String>,
    pub region: Option<String>,
    pub vpc_id: Option<String>,
    pub operation: Option<String>,
    pub component: Option<String>,
    pub resource_id: Option<String>,
    pub trace_id: Option<String>,
    pub retry_count: u32,
    pub severity: ErrorSeverity,
}

impl View for ErrorContext {
    type V = ErrorContextView;

    open spec fn view(&self) -> ErrorContextView {
        ErrorContextView {
            instance_id: text_of(self.instance_id),
            region: text_of(self.region),
            vpc_id: text_of(self.vpc_id),
            operation: text_of(self.operation),
            component: text_of(self.component),
            resource_id: text_of(self.resource_id),
            trace_id: text_of(self.trace_id),
            retry_count: self.retry_count,
            severity: self.severity,
        }
    }
}

impl Default for ErrorContext {
    fn default() -> (c: ErrorContext)
        ensures
            c@ == empty_context(),
    {
        ErrorContext {
            instance_id: None,
            region: None,
            vpc_id: None,
            operation: None,
            component: None,
            resource_id: None,
            trace_id: None,
            retry_count: 0,
            severity: ErrorSeverity::Error,
        }
    }
}

/// Borrows the characters of an optional string.
fn borrow_text(o: &Option<String>) -> (r: Option<&str>)
    ensures
        r.is_some() == o.is_some(),
        r.is_some() ==> r.unwrap()@ == o.unwrap()@,
{
    match o {
        Some(s) => Some(s.as_str()),
        None => None,
    }
}

/// Copies an optional string.
fn copy_text(o: &Option<String>) -> (r: Option<String>)
    ensures
        text_of(r) == text_of(*o),
{
    match o {
        Some(s) => Some(s.clone()),
        None => None,
    }
}

impl ErrorContext {
    /// The component name, if set.
    pub fn component(&self) -> (r: Option<&str>)
        ensures
            r.is_some() == self@.component.is_some(),
            r.is_some() ==> r.unwrap()@ == self@.component.unwrap(),
    {
        borrow_text(&self.component)
    }

    /// The operation name, if set.
    pub fn operation(&self) -> (r: Option<&str>)
        ensures
            r.is_some() == self@.operation.is_some(),
            r.is_some() ==> r.unwrap()@ == self@.operation.unwrap(),
    {
        borrow_text(&self.operation)
    }

    /// The number of retries attempted.
    pub fn retry_count(&self) -> (n: u32)
        ensures
            n == self@.retry_count,
    {
        self.retry_count
    }

    /// The same context with the retry count replaced.
    pub fn with_retry_count(self, retry_count: u32) -> (c: ErrorContext)
        ensures
            c@ == (ErrorContextView { retry_count, ..self@ }),
    {
        let mut c = self;
        c.retry_count = retry_count;
        c
    }

    /// The same context with the region replaced.
    pub fn with_region(self, region: &str) -> (c: ErrorContext)
        ensures
            c@ == (ErrorContextView { region: Some(region@), ..self@ }),
    {
        let mut c = self;
        c.region = Some(region.to_owned());
        c
    }

    /// The resource id, if set.
    pub fn resource_id(&self) -> (r: Option<&str>)
        ensures
            r.is_some() == self@.resource_id.is_some(),
            r.is_some() ==> r.unwrap()@ == self@.resource_id.unwrap(),
    {
        borrow_text(&self.resource_id)
    }

    /// The same context with the trace id replaced.
    pub fn with_trace_id(self, trace_id: &str) -> (c: ErrorContext)
        ensures
            c@ == (ErrorContextView { trace_id: Some(trace_id@), ..self@ }),
    {
        let mut c = self;
        c.trace_id = Some(trace_id.to_owned());
        c
    }

    /// A copy of this context.
    pub fn duplicate(&self) -> (c: ErrorContext)
        ensures
            c@ == self@,
    {
        ErrorContext {
            instance_id: copy_text(&self.instance_id),
            region: copy_text(&self.region),
            vpc_id: copy_text(&self.vpc_id),
            operation: copy_text(&self.operation),
            component: copy_text(&self.component),
            resource_id: copy_text(&self.resource_id),
            trace_id: copy_text(&self.trace_id),
            retry_count: self.retry_count,
            severity: self.severity,
        }
    }
}

impl NetworkErrorKind {
    /// The variant's name, as text.
    pub open spec fn label(self) -> Seq<char> {
        match self {
            NetworkErrorKind::InterfaceNotFound => "InterfaceNotFound"@,
            NetworkErrorKind::CaptureFailure => "CaptureFailure"@,
            NetworkErrorKind::FilterError => "FilterError"@,
            NetworkErrorKind::Timeout => "Timeout"@,
            NetworkErrorKind::BufferOverflow => "BufferOverflow"@,
            NetworkErrorKind::DriverError => "DriverError"@,
        }
    }

    /// The variant's name.
    pub fn name(&self) -> (n: &'static str)
        ensures
            n@ == self.label(),
    {
        match self {
            NetworkErrorKind::InterfaceNotFound => "InterfaceNotFound",
            NetworkErrorKind::CaptureFailure => "CaptureFailure",
            NetworkErrorKind::FilterError => "FilterError",
            NetworkErrorKind::Timeout => "Timeout",
            NetworkErrorKind::BufferOverflow => "BufferOverflow",
            NetworkErrorKind::DriverError => "DriverError",
        }
    }
}

impl SystemErrorKind {
    /// The variant's name, as text.
    pub open spec fn label(self) -> Seq<char> {
        match self {
            SystemErrorKind::MemoryError => "MemoryError"@,
            SystemErrorKind::ThreadError => "ThreadError"@,
            SystemErrorKind::IoError => "IoError"@,
            SystemErrorKind::TimerError => "TimerError"@,
            SystemErrorKind::ResourceExhausted => "ResourceExhausted"@,
        }
    }

    /// The variant's name.
    pub fn name(&self) -> (n: &'static str)
        ensures
            n@ == self.label(),
    {
        match self {
            SystemErrorKind::MemoryError => "MemoryError",
            SystemErrorKind::ThreadError => "ThreadError",
            SystemErrorKind::IoError => "IoError",
            SystemErrorKind::TimerError => "TimerError",
            SystemErrorKind::ResourceExhausted => "ResourceExhausted",
        }
    }
}

impl ResourceErrorKind {
    /// The variant's name, as text.
    pub open spec fn label(self) -> Seq<char> {
        match self {
            ResourceErrorKind::NotAvailable => "NotAvailable"@,
            ResourceErrorKind::QuotaExceeded => "QuotaExceeded"@,
            ResourceErrorKind::AllocationFailed => "AllocationFailed"@,
            ResourceErrorKind::InvalidState => "InvalidState"@,
        }
    }

    /// The variant's name.
    pub fn name(&self) -> (n: &'static str)
        ensures
            n@ == self.label(),
    {
        match self {
            ResourceErrorKind::NotAvailable => "NotAvailable",
            ResourceErrorKind::QuotaExceeded => "QuotaExceeded",
            ResourceErrorKind::AllocationFailed => "AllocationFailed",
            ResourceErrorKind::InvalidState => "InvalidState",
        }
    }
}

impl ConfigErrorKind {
    /// The variant's name, as text.
    pub open spec fn label(self) -> Seq<char> {
        match self {
            ConfigErrorKind::InvalidValue => "InvalidValue"@,
            ConfigErrorKind::MissingRequired => "MissingRequired"@,
            ConfigErrorKind::ValidationFailed => "ValidationFailed"@,
            ConfigErrorKind::ParseError => "ParseError"@,
        }
    }

    /// The variant's name.
    pub fn name(&self) -> (n: &'static str)
        ensures
            n@ == self.label(),
    {
        match self {
            ConfigErrorKind::InvalidValue => "InvalidValue",
            ConfigErrorKind::MissingRequired => "MissingRequired",
            ConfigErrorKind::ValidationFailed => "ValidationFailed",
            ConfigErrorKind::ParseError => "ParseError",
        }
    }
}

impl RuntimeErrorKind {
    /// The variant's name, as text.
    pub open spec fn label(self) -> Seq<char> {
        match self {
            RuntimeErrorKind::EntityNotFound => "EntityNotFound"@,
            RuntimeErrorKind::OperationFailed => "OperationFailed"@,
            RuntimeErrorKind::StateError => "StateError"@,
            RuntimeErrorKind::ConcurrencyError => "ConcurrencyError"@,
            RuntimeErrorKind::Timeout => "Timeout"@,
            RuntimeErrorKind::SyncLockFailure => "SyncLockFailure"@,
        }
    }

    /// The variant's name.
    pub fn name(&self) -> (n: &'static str)
        ensures
            n@ == self.label(),
    {
        match self {
            RuntimeErrorKind::EntityNotFound => "EntityNotFound",
            RuntimeErrorKind::OperationFailed => "OperationFailed",
            RuntimeErrorKind::StateError => "StateError",
            RuntimeErrorKind::ConcurrencyError => "ConcurrencyError",
            RuntimeErrorKind::Timeout => "Timeout",
            RuntimeErrorKind::SyncLockFailure => "SyncLockFailure",
        }
    }
}

impl CloudErrorKind {
    /// The variant's name, as text.
    pub open spec fn label(self) -> Seq<char> {
        match self {
            CloudErrorKind::VpcError => "VpcError"@,
            CloudErrorKind::EniError => "EniError"@,
            CloudErrorKind::MetadataError => "MetadataError"@,
            CloudErrorKind::ScalingError => "ScalingError"@,
            CloudErrorKind::ApiError => "ApiError"@,
        }
    }

    /// The variant's name.
    pub fn name(&self) -> (n: &'static str)
        ensures
            n@ == self.label(),
    {
        match self {
            CloudErrorKind::VpcError => "VpcError",
            CloudErrorKind::EniError => "EniError",
            CloudErrorKind::MetadataError => "MetadataError",
            CloudErrorKind::ScalingError => "ScalingError",
            CloudErrorKind::ApiError => "ApiError",
        }
    }
}

impl SecurityErrorKind {
    /// The variant's name, as text.
    pub open spec fn label(self) -> Seq<char> {
        match self {
            SecurityErrorKind::AccessDenied => "AccessDenied"@,
            SecurityErrorKind::AuthenticationFailed => "AuthenticationFailed"@,
            SecurityErrorKind::EncryptionError => "EncryptionError"@,
            SecurityErrorKind::InvalidCredentials => "InvalidCredentials"@,
        }
    }

    /// The variant's name.
    pub fn name(&self) -> (n: &'static str)
        ensures
            n@ == self.label(),
    {
        match self {
            SecurityErrorKind::AccessDenied => "AccessDenied",
            SecurityErrorKind::AuthenticationFailed => "AuthenticationFailed",
            SecurityErrorKind::EncryptionError => "EncryptionError",
            SecurityErrorKind::InvalidCredentials => "InvalidCredentials",
        }
    }
}

impl CaptureErrorKind {
    /// The category's name, as text.
    pub open spec fn category_label(self) -> Seq<char> {
        match self {
            CaptureErrorKind::Network(_) => "Network"@,
            CaptureErrorKind::System(_) => "System"@,
            CaptureErrorKind::Resource(_) => "Resource"@,
            CaptureErrorKind::Configuration(_) => "Configuration"@,
            CaptureErrorKind::Runtime(_) => "Runtime"@,
            CaptureErrorKind::Cloud(_) => "Cloud"@,
            CaptureErrorKind::Security(_) => "Security"@,
        }
    }

    /// The name of the variant inside the category, as text.
    pub open spec fn detail_label(self) -> Seq<char> {
        match self {
            CaptureErrorKind::Network(k) => k.label(),
            CaptureErrorKind::System(k) => k.label(),
            CaptureErrorKind::Resource(k) => k.label(),
            CaptureErrorKind::Configuration(k) => k.label(),
            CaptureErrorKind::Runtime(k) => k.label(),
            CaptureErrorKind::Cloud(k) => k.label(),
            CaptureErrorKind::Security(k) => k.label(),
        }
    }

    /// The kind written as category and variant: `Network(Timeout)`.
    pub open spec fn label(self) -> Seq<char> {
        self.category_label() + "("@ + self.detail_label() + ")"@
    }

    /// The category's name.
    pub fn category(&self) -> (n: &'static str)
        ensures
            n@ == self.category_label(),
    {
        match self {
            CaptureErrorKind::Network(_) => "Network",
            CaptureErrorKind::System(_) => "System",
            CaptureErrorKind::Resource(_) => "Resource",
            CaptureErrorKind::Configuration(_) => "Configuration",
            CaptureErrorKind::Runtime(_) => "Runtime",
            CaptureErrorKind::Cloud(_) => "Cloud",
            CaptureErrorKind::Security(_) => "Security",
        }
    }

    /// The name of the variant inside the category.
    pub fn detail(&self) -> (n: &'static str)
        ensures
            n@ == self.detail_label(),
    {
        match self {
            CaptureErrorKind::Network(k) => k.name(),
            CaptureErrorKind::System(k) => k.name(),
            CaptureErrorKind::Resource(k) => k.name(),
            CaptureErrorKind::Configuration(k) => k.name(),
            CaptureErrorKind::Runtime(k) => k.name(),
            CaptureErrorKind::Cloud(k) => k.name(),
            CaptureErrorKind::Security(k) => k.name(),
        }
    }

    /// The kind written as category and variant: `Network(Timeout)`.
    pub fn describe(&self) -> (text: String)
        ensures
            text@ == self.label(),
    {
        let mut text = self.category().to_owned();
        text.append("(");
        text.append(self.detail());
        text.append(")");
        text
    }
}

/// One link in the chain of causes behind an error: what the cause said of
/// itself, and the cause behind it.
#[derive(Debug)]
pub struct ErrorSource {
    pub message: String,
    pub source: Option<Box<ErrorSource>>,
}

impl View for ErrorSource {
    type V = Seq<Seq<char>>;

    /// The messages along the chain, nearest cause first.
    open spec fn view(&self) -> Seq<Seq<char>> {
        self.chain()
    }
}

/// The messages along an optional chain of causes, nearest cause first; empty
/// where there is no cause.
pub open spec fn chain_of(source: Option<Box<ErrorSource>>) -> Seq<Seq<char>> {
    match source {
        Some(s) => s@,
        None => Seq::empty(),
    }
}

impl ErrorSource {
    /// The messages along the chain, nearest cause first.
    pub open spec fn chain(&self) -> Seq<Seq<char>>
        decreases self,
    {
        match self.source {
            Some(inner) => seq![self.message@] + (*inner).chain(),
            None => seq![self.message@],
        }
    }

    /// A cause that has no cause of its own.
    pub fn new(message: &str) -> (s: ErrorSource)
        ensures
            s@ == seq![message@],
    {
        ErrorSource { message: message.to_owned(), source: None }
    }

    /// The cause that `error` stands for: its rendered text, followed by its
    /// own chain of causes.
    pub fn from_error(error: &CaptureError) -> (s: ErrorSource)
        ensures
            s@ == seq![error.rendered()] + chain_of(error.source),
    {
        let inner = match &error.source {
            Some(cause) => Some(Box::new(cause.duplicate())),
            None => None,
        };
        ErrorSource { message: error.to_string(), source: inner }
    }

    /// What this cause said of itself.
    pub fn to_string(&self) -> (text: String)
        ensures
            text@ == self@[0],
    {
        self.message.clone()
    }

    /// The cause behind this one, if any.
    pub fn source(&self) -> (inner: Option<&ErrorSource>)
        ensures
            inner.is_some() == (self@.len() > 1),
            inner.is_some() ==> inner.unwrap()@ == self@.skip(1),
    {
        proof {
            self.lemma_chain_nonempty();
        }
        match &self.source {
            Some(b) => {
                proof {
                    b.lemma_chain_nonempty();
                    assert((seq![self.message@] + b@).skip(1) =~= b@);
                }
                Some(&**b)
            },
            None => None,
        }
    }

    /// A copy of the whole chain.
    pub fn duplicate(&self) -> (copy: ErrorSource)
        ensures
            copy@ == self@,
        decreases self,
    {
        let inner = match &self.source {
            Some(b) => Some(Box::new(b.duplicate())),
            None => None,
        };
        ErrorSource { message: self.message.clone(), source: inner }
    }

    /// A chain holds at least the message of its first link.
    pub proof fn lemma_chain_nonempty(&self)
        ensures
            self@.len() >= 1,
            self@[0] == self.message@,
        decreases self,
    {
        match self.source {
            Some(inner) => {
                inner.lemma_chain_nonempty();
            },
            None => {},
        }
    }
}

/// Core error type that represents all possible errors in the capture system.
#[derive(Debug)]
pub struct CaptureError {
    pub kind: CaptureErrorKind,
    pub message: String,
    pub timestamp: Timestamp,
    pub source: Option<Box<ErrorSource>>,
    pub context: Box<ErrorContext>,
}

/// What a `CaptureError` holds, as plain values. The time it was raised is
/// left out: it is a reading of the clock, and no rule depends on it.
pub struct CaptureErrorView {
    pub kind: CaptureErrorKind,
    pub message: Seq<char>,
    pub causes: Seq<Seq<char>>,
    pub context: ErrorContextView,
}

impl CaptureErrorView {
    /// An error of the given kind and message without causes and with an
    /// empty context.
    pub open spec fn plain(kind: CaptureErrorKind, message: Seq<char>) -> CaptureErrorView {
        CaptureErrorView { kind, message, causes: Seq::empty(), context: empty_context() }
    }
}

impl View for CaptureError {
    type V = CaptureErrorView;

    open spec fn view(&self) -> CaptureErrorView {
        CaptureErrorView {
            kind: self.kind,
            message: self.message@,
            causes: chain_of(self.source),
            context: self.context@,
        }
    }
}

impl CaptureError {
    /// The text that `to_string` gives: the message, then the kind and the
    /// time the error was raised, in nanoseconds since the Unix epoch.
    pub open spec fn rendered(&self) -> Seq<char> {
        self.message@ + " (kind: "@ + self.kind.label() + ", timestamp: "@ + decimal_text(
            self.timestamp@,
        ) + ")"@
    }

    /// A new boxed error of the given kind and message, with an empty context
    /// and no cause.
    pub fn new(kind: CaptureErrorKind, message: &str) -> (e: Box<CaptureError>)
        ensures
            e@ == (CaptureErrorView {
                kind,
                message: message@,
                causes: Seq::empty(),
                context: empty_context(),
            }),
    {
        Box::new(
            CaptureError {
                kind,
                message: message.to_owned(),
                timestamp: Timestamp::now(),
                source: None,
                context: Box::new(ErrorContext::default()),
            },
        )
    }

    /// A new boxed error whose context names the instance and the region.
    pub fn with_cloud_context(
        kind: CaptureErrorKind,
        message: &str,
        instance_id: &str,
        region: &str,
    ) -> (e: Box<CaptureError>)
        ensures
            e@ == (CaptureErrorView {
                kind,
                message: message@,
                causes: Seq::empty(),
                context: ErrorContextView {
                    instance_id: Some(instance_id@),
                    region: Some(region@),
                    ..empty_context()
                },
            }),
    {
        let mut context = ErrorContext::default();
        context.instance_id = Some(instance_id.to_owned());
        context.region = Some(region.to_owned());
        Box::new(
            CaptureError {
                kind,
                message: message.to_owned(),
                timestamp: Timestamp::now(),
                source: None,
                context: Box::new(context),
            },
        )
    }

    /// The same error with `source` as its cause, in place of any earlier one.
    pub fn with_source(self, source: ErrorSource) -> (e: CaptureError)
        ensures
            e@ == (CaptureErrorView { causes: source@, ..self@ }),
            e.timestamp == self.timestamp,
    {
        let mut e = self;
        e.source = Some(Box::new(source));
        e
    }

    /// The error kind.
    pub fn kind(&self) -> (k: &CaptureErrorKind)
        ensures
            *k == self@.kind,
    {
        &self.kind
    }

    /// The error message.
    pub fn message(&self) -> (m: &str)
        ensures
            m@ == self@.message,
    {
        self.message.as_str()
    }

    /// The time the error was raised.
    pub fn timestamp(&self) -> (t: Timestamp)
        ensures
            t == self.timestamp,
    {
        self.timestamp
    }

    /// The error context.
    pub fn context(&self) -> (c: &ErrorContext)
        ensures
            c@ == self@.context,
    {
        &*self.context
    }

    /// The severity recorded in the context.
    pub fn severity(&self) -> (s: ErrorSeverity)
        ensures
            s == self@.context.severity,
    {
        self.context.severity
    }

    /// The nearest cause, if any.
    pub fn source(&self) -> (cause: Option<&ErrorSource>)
        ensures
            cause.is_some() == (self@.causes.len() > 0),
            cause.is_some() ==> cause.unwrap()@ == self@.causes,
    {
        match &self.source {
            Some(b) => {
                proof {
                    b.lemma_chain_nonempty();
                }
                Some(&**b)
            },
            None => None,
        }
    }

    /// The error in a box.
    pub fn build(self) -> (e: Box<CaptureError>)
        ensures
            *e == self,
    {
        Box::new(self)
    }

    /// The message followed by the kind and the time:
    /// `message (kind: Category(Variant), timestamp: nanoseconds)`.
    pub fn to_string(&self) -> (text: String)
        ensures
            text@ == self.rendered(),
    {
        let mut text = self.message.clone();
        text.append(" (kind: ");
        let kind = self.kind.describe();
        text.append(kind.as_str());
        text.append(", timestamp: ");
        let nanos = decimal(self.timestamp.as_nanos());
        text.append(nanos.as_str());
        text.append(")");
        text
    }

    /// A copy of this error, time and causes included.
    pub fn duplicate(&self) -> (copy: CaptureError)
        ensures
            copy@ == self@,
            copy.timestamp == self.timestamp,
    {
        let source = match &self.source {
            Some(b) => Some(Box::new(b.duplicate())),
            None => None,
        };
        CaptureError {
            kind: self.kind,
            message: self.message.clone(),
            timestamp: self.timestamp,
            source,
            context: Box::new(self.context.duplicate()),
        }
    }
}

impl Default for CaptureError {
    /// A generic runtime error: `OperationFailed`, "Default error".
    fn default() -> (e: CaptureError)
        ensures
            e@ == (CaptureErrorView {
                kind: CaptureErrorKind::Runtime(RuntimeErrorKind::OperationFailed),
                message: "Default error"@,
                causes: Seq::empty(),
                context: empty_context(),
            }),
    {
        CaptureError {
            kind: CaptureErrorKind::Runtime(RuntimeErrorKind::OperationFailed),
            message: "Default error".to_owned(),
            timestamp: Timestamp::now(),
            source: None,
            context: Box::new(ErrorContext::default()),
        }
    }
}

/// Whether `c` is white space: one of the characters with the Unicode
/// property `White_Space`, which are the tab and the line and page breaks,
/// the space and the spaces of other widths, and the line and paragraph
/// separators.
pub open spec fn is_white_space(c: char) -> bool {
    let point = c as u32;
    ||| 0x09 <= point <= 0x0D
    ||| point == 0x20
    ||| point == 0x85
    ||| point == 0xA0
    ||| point == 0x1680
    ||| 0x2000 <= point <= 0x200A
    ||| point == 0x2028
    ||| point == 0x2029
    ||| point == 0x202F
    ||| point == 0x205F
    ||| point == 0x3000
}

/// Whether `c` is white space.
pub fn white_space(c: char) -> (w: bool)
    ensures
        w == is_white_space(c),
{
    let point = c as u32;
    (0x09 <= point && point <= 0x0D) || point == 0x20 || point == 0x85 || point == 0xA0 || point
        == 0x1680 || (0x2000 <= point && point <= 0x200A) || point == 0x2028 || point == 0x2029
        || point == 0x202F || point == 0x205F || point == 0x3000
}

/// A text is blank when every character of it is white space: nothing would
/// be left of it after trimming.
pub open spec fn is_blank(text: Seq<char>) -> bool {
    forall|i: int| 0 <= i < text.len() ==> is_white_space(#[trigger] text[i])
}

/// Whether nothing but white space stands in `text`.
pub fn blank(text: &str) -> (b: bool)
    ensures
        b == is_blank(text@),
{
    let n = text.unicode_len();
    let mut i: usize = 0;
    while i < n
        invariant
            n == text@.len(),
            i <= n,
            forall|j: int| 0 <= j < i ==> is_white_space(#[trigger] text@[j]),
        decreases n - i,
    {
        if !white_space(text.get_char(i)) {
            return false;
        }
        i = i + 1;
    }
    true
}

/// What can be wrong with an `ErrorBuilder` when it is asked to build.
#[derive(Clone, Copy, Debug, PartialEq, Eq, Structural)]
pub enum BuilderError {
    MissingKind,
    MissingMessage,
}

impl BuilderError {
    /// The text of the complaint.
    pub open spec fn label(self) -> Seq<char> {
        match self {
            BuilderError::MissingKind => "missing error kind"@,
            BuilderError::MissingMessage => "missing error message"@,
        }
    }

    /// The text of the complaint.
    pub fn to_string(&self) -> (text: String)
        ensures
            text@ == self.label(),
    {
        match self {
            BuilderError::MissingKind => "missing error kind".to_owned(),
            BuilderError::MissingMessage => "missing error message".to_owned(),
        }
    }
}

/// Builder for creating errors with detailed context.
pub struct ErrorBuilder {
    pub kind: Option<CaptureErrorKind>,
    pub message: Option<String>,
    pub context: ErrorContext,
    pub source: Option<Box<ErrorSource>>,
}

/// What an `ErrorBuilder` has been told so far, as plain values.
pub struct ErrorBuilderView {
    pub kind: Option<CaptureErrorKind>,
    pub message: Option<Seq<char>>,
    pub causes: Seq<Seq<char>>,
    pub context: ErrorContextView,
}

impl View for ErrorBuilder {
    type V = ErrorBuilderView;

    open spec fn view(&self) -> ErrorBuilderView {
        ErrorBuilderView {
            kind: self.kind,
            message: text_of(self.message),
            causes: chain_of(self.source),
            context: self.context@,
        }
    }
}

/// A builder that has been told nothing.
pub open spec fn empty_builder() -> ErrorBuilderView {
    ErrorBuilderView { kind: None, message: None, causes: Seq::empty(), context: empty_context() }
}

/// What `ErrorBuilder::build` answers to what the builder was told: the kind
/// is asked for first, then a message that is not blank.
pub open spec fn build_outcome(b: ErrorBuilderView) -> Result<CaptureErrorView, BuilderError> {
    if b.kind.is_none() {
        Err(BuilderError::MissingKind)
    } else if b.message.is_none() || is_blank(b.message.unwrap()) {
        Err(BuilderError::MissingMessage)
    } else {
        Ok(
            CaptureErrorView {
                kind: b.kind.unwrap(),
                message: b.message.unwrap(),
                causes: b.causes,
                context: b.context,
            },
        )
    }
}

impl ErrorBuilder {
    /// A builder that has been told nothing.
    pub fn new() -> (b: ErrorBuilder)
        ensures
            b@ == empty_builder(),
    {
        ErrorBuilder { kind: None, message: None, source: None, context: ErrorContext::default() }
    }

    /// Sets the retry count.
    pub fn retry_count(self, retry_count: u32) -> (b: ErrorBuilder)
        ensures
            b@ == (ErrorBuilderView {
                context: ErrorContextView { retry_count, ..self@.context },
                ..self@
            }),
    {
        let mut b = self;
        b.context.retry_count = retry_count;
        b
    }

    /// Sets the error kind.
    pub fn kind(self, kind: CaptureErrorKind) -> (b: ErrorBuilder)
        ensures
            b@ == (ErrorBuilderView { kind: Some(kind), ..self@ }),
    {
        let mut b = self;
        b.kind = Some(kind);
        b
    }

    /// Sets the error message.
    pub fn message(self, message: &str) -> (b: ErrorBuilder)
        ensures
            b@ == (ErrorBuilderView { message: Some(message@), ..self@ }),
    {
        let mut b = self;
        b.message = Some(message.to_owned());
        b
    }

    /// Sets the cause.
    pub fn source(self, source: ErrorSource) -> (b: ErrorBuilder)
        ensures
            b@ == (ErrorBuilderView { causes: source@, ..self@ }),
    {
        let mut b = self;
        b.source = Some(Box::new(source));
        b
    }

    /// Sets the severity.
    pub fn severity(self, severity: ErrorSeverity) -> (b: ErrorBuilder)
        ensures
            b@ == (ErrorBuilderView {
                context: ErrorContextView { severity, ..self@.context },
                ..self@
            }),
    {
        let mut b = self;
        b.context.severity = severity;
        b
    }

    /// Sets the cloud context: instance, region and VPC.
    pub fn cloud_context(self, instance_id: &str, region: &str, vpc_id: &str) -> (b: ErrorBuilder)
        ensures
            b@ == (ErrorBuilderView {
                context: ErrorContextView {
                    instance_id: Some(instance_id@),
                    region: Some(region@),
                    vpc_id: Some(vpc_id@),
                    ..self@.context
                },
                ..self@
            }),
    {
        let mut b = self;
        b.context.instance_id = Some(instance_id.to_owned());
        b.context.region = Some(region.to_owned());
        b.context.vpc_id = Some(vpc_id.to_owned());
        b
    }

    /// Builds the error, or says what is missing: the kind first, then a
    /// message that holds more than white space.
    pub fn build(self) -> (r: Result<CaptureError, BuilderError>)
        ensures
            r.is_ok() == build_outcome(self@).is_ok(),
            r.is_ok() ==> Ok::<CaptureErrorView, BuilderError>(r.unwrap()@) == build_outcome(self@),
            r.is_err() ==> Err::<CaptureErrorView, BuilderError>(r.unwrap_err()) == build_outcome(
                self@,
            ),
    {
        let kind = match self.kind {
            Some(k) => k,
            None => {
                return Err(BuilderError::MissingKind);
            },
        };
        let message = match self.message {
            Some(m) => m,
            None => {
                return Err(BuilderError::MissingMessage);
            },
        };
        if blank(message.as_str()) {
            return Err(BuilderError::MissingMessage);
        }
        Ok(
            CaptureError {
                timestamp: Timestamp::now(),
                kind,
                message,
                source: self.source,
                context: Box::new(self.context),
            },
        )
    }
}

impl Default for ErrorBuilder {
    fn default() -> (b: ErrorBuilder)
        ensures
            b@ == empty_builder(),
    {
        ErrorBuilder::new()
    }
}

} // verus!
