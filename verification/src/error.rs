//! The closed error taxonomy of the engine.
use vstd::prelude::*;

verus! {

/// Errors surfaced by the operator API and the workflows.
///
/// `ResourceNotFound` and `ResourceAlreadyExists` report validation failures
/// against the persisted state; `Generic` wraps everything else (transport
/// failures, malformed remote responses, timed-out polls, propagated
/// workflow-step failures) as descriptive text.
#[derive(Debug)]
pub enum Error {
    ResourceNotFound,
    ResourceAlreadyExists,
    Generic(String),
}

impl Error {
    /// Maps a hypervisor client error into the engine's taxonomy: every
    /// variant becomes `Generic`, an HTTP failure formatted as
    /// `Http status: [..], reason: [..], response: [..]`, invalid
    /// credentials as empty text.
    pub fn from_remote(e: &crate::proxmox::Error) -> (r: Error)
        ensures
            r is Generic,
            e matches crate::proxmox::Error::Generic(t) ==> (r matches Error::Generic(m) && m@
                == t@),
            e matches crate::proxmox::Error::CannotConnectToProxmox(t) ==> (r
                matches Error::Generic(m) && m@ == t@),
            e is CredentialsInvalid ==> (r matches Error::Generic(m) && m@ == Seq::<
                char,
            >::empty()),
            e matches crate::proxmox::Error::HttpError { status, reason, response } ==> (r
                matches Error::Generic(m) && m@ == "Http status: ["@ + crate::text::spec_dec(
                status as nat,
            ) + "], reason: ["@ + reason@ + "], response: ["@ + response@ + "]"@),
            e matches crate::proxmox::Error::BodyMalformed(t) ==> (r matches Error::Generic(m)
                && m@ == t@),
    {
        match e {
            crate::proxmox::Error::Generic(t) => Error::Generic(t.clone()),
            crate::proxmox::Error::CannotConnectToProxmox(t) => Error::Generic(t.clone()),
            crate::proxmox::Error::CredentialsInvalid => Error::Generic(String::new()),
            crate::proxmox::Error::HttpError { status, reason, response } => {
                let mut m = String::from_str("Http status: [");
                let num = crate::text::dec_u64(*status as u64);
                m.append(num.as_str());
                m.append("], reason: [");
                m.append(reason.as_str());
                m.append("], response: [");
                m.append(response.as_str());
                m.append("]");
                Error::Generic(m)
            },
            crate::proxmox::Error::BodyMalformed(t) => Error::Generic(t.clone()),
        }
    }

    /// A human-readable description, mirroring how each variant is reported.
    pub fn message(&self) -> (r: String)
        ensures
            self is ResourceNotFound ==> r@ == "Cluster not found"@,
            self is ResourceAlreadyExists ==> r@ == "Cluster already exists"@,
            self matches Error::Generic(e) ==> r@ == e@,
    {
        match self {
            Error::ResourceNotFound => String::from_str("Cluster not found"),
            Error::ResourceAlreadyExists => String::from_str("Cluster already exists"),
            Error::Generic(e) => e.clone(),
        }
    }
}

} // verus!
