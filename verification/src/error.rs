//! What can go wrong with a sandbox or a policy.

use vstd::prelude::*;
use vstd::string::*;

verus! {

/// The failures that the library reports. The cluster's own words, where
/// there are any, are kept for the reader and decide nothing.
#[derive(Clone, Debug, PartialEq, Eq)]
pub enum SandboxError {
    /// A namespace, a service, an address or a rule is not there.
    NotFound(String),
    /// The resource to create exists already.
    AlreadyExists(String),
    /// The load balancer has given the sandbox no address yet.
    Unready,
    /// Polling used up its attempts.
    Timeout,
    /// The cluster or the policy engine refused the request for another
    /// reason.
    Upstream(String),
    /// A manifest's text is not what a manifest has to be.
    Decode(String),
}

/// The mathematical content of a [`SandboxError`].
pub enum SandboxErrorView {
    NotFound(Seq<char>),
    AlreadyExists(Seq<char>),
    Unready,
    Timeout,
    Upstream(Seq<char>),
    Decode(Seq<char>),
}

impl DeepView for SandboxError {
    type V = SandboxErrorView;

    open spec fn deep_view(&self) -> SandboxErrorView {
        match self {
            SandboxError::NotFound(what) => SandboxErrorView::NotFound(what@),
            SandboxError::AlreadyExists(what) => SandboxErrorView::AlreadyExists(what@),
            SandboxError::Unready => SandboxErrorView::Unready,
            SandboxError::Timeout => SandboxErrorView::Timeout,
            SandboxError::Upstream(message) => SandboxErrorView::Upstream(message@),
            SandboxError::Decode(message) => SandboxErrorView::Decode(message@),
        }
    }
}

impl View for SandboxError {
    type V = SandboxErrorView;

    open spec fn view(&self) -> SandboxErrorView {
        self.deep_view()
    }
}

/// The error that stands for a refusal of the cluster: status 404 is a
/// missing resource, status 409 a duplicate, every other status an upstream
/// failure. The message is kept as it is.
pub open spec fn classified(status: u16, message: Seq<char>) -> SandboxErrorView {
    if status == 404 {
        SandboxErrorView::NotFound(message)
    } else if status == 409 {
        SandboxErrorView::AlreadyExists(message)
    } else {
        SandboxErrorView::Upstream(message)
    }
}

/// The words of an error.
pub open spec fn message_of(error: SandboxErrorView) -> Seq<char> {
    match error {
        SandboxErrorView::NotFound(what) => what,
        SandboxErrorView::AlreadyExists(what) => what,
        SandboxErrorView::Unready => "LoadBalancer not ready"@,
        SandboxErrorView::Timeout => "LoadBalancer timeout"@,
        SandboxErrorView::Upstream(message) => message,
        SandboxErrorView::Decode(message) => message,
    }
}

impl SandboxError {
    /// Names the failure behind a status that the cluster answered with.
    pub fn from_status(status: u16, message: String) -> (error: SandboxError)
        ensures
            error@ == classified(status, message@),
    {
        if status == 404 {
            SandboxError::NotFound(message)
        } else if status == 409 {
            SandboxError::AlreadyExists(message)
        } else {
            SandboxError::Upstream(message)
        }
    }

    /// Gives the words of the error.
    pub fn message(&self) -> (text: String)
        ensures
            text@ == message_of(self@),
    {
        match self {
            SandboxError::NotFound(what) => what.clone(),
            SandboxError::AlreadyExists(what) => what.clone(),
            SandboxError::Unready => String::from_str("LoadBalancer not ready"),
            SandboxError::Timeout => String::from_str("LoadBalancer timeout"),
            SandboxError::Upstream(message) => message.clone(),
            SandboxError::Decode(message) => message.clone(),
        }
    }

    /// Copies the error.
    pub fn duplicate(&self) -> (copy: SandboxError)
        ensures
            copy@ == self@,
    {
        match self {
            SandboxError::NotFound(what) => SandboxError::NotFound(what.clone()),
            SandboxError::AlreadyExists(what) => SandboxError::AlreadyExists(what.clone()),
            SandboxError::Unready => SandboxError::Unready,
            SandboxError::Timeout => SandboxError::Timeout,
            SandboxError::Upstream(message) => SandboxError::Upstream(message.clone()),
            SandboxError::Decode(message) => SandboxError::Decode(message.clone()),
        }
    }
}

} // verus!
