//! The failure taxonomy shared by every facade operation.

use vstd::prelude::*;

verus! {

/// Why a facade operation did not produce its object.
///
/// Variants that wrap a transport failure carry the transport's own text.
#[derive(Debug, PartialEq, Eq)]
pub enum FacadeError {
    /// The endpoint, connection or overlay the operation needs does not exist yet.
    NotInitialized,
    /// The text given as a peer identifier is not one; it is carried along.
    InvalidPeerIdentifier(String),
    /// A topic identifier of the wrong length; the length is carried along.
    InvalidTopic(usize),
    /// The transport could not allocate a local identity.
    BindError(String),
    /// The handshake with the remote peer failed.
    ConnectError(String),
    /// The endpoint was closed while waiting, or the inbound handshake failed.
    AcceptFailed(String),
    /// The transport could not open a stream.
    StreamOpenFailed(String),
    /// The transport could not accept a stream.
    StreamAcceptFailed(String),
    /// The overlay refused the subscription.
    SubscribeFailed(String),
    /// The host object was destroyed before its result could be delivered.
    HandleExpired,
}

/// Mathematical value of a [`FacadeError`].
pub ghost enum FacadeErrorView {
    NotInitialized,
    InvalidPeerIdentifier(Seq<char>),
    InvalidTopic(nat),
    BindError(Seq<char>),
    ConnectError(Seq<char>),
    AcceptFailed(Seq<char>),
    StreamOpenFailed(Seq<char>),
    StreamAcceptFailed(Seq<char>),
    SubscribeFailed(Seq<char>),
    HandleExpired,
}

impl View for FacadeError {
    type V = FacadeErrorView;

    open spec fn view(&self) -> FacadeErrorView {
        match *self {
            FacadeError::NotInitialized => FacadeErrorView::NotInitialized,
            FacadeError::InvalidPeerIdentifier(text) => FacadeErrorView::InvalidPeerIdentifier(
                text@,
            ),
            FacadeError::InvalidTopic(len) => FacadeErrorView::InvalidTopic(len as nat),
            FacadeError::BindError(detail) => FacadeErrorView::BindError(detail@),
            FacadeError::ConnectError(detail) => FacadeErrorView::ConnectError(detail@),
            FacadeError::AcceptFailed(detail) => FacadeErrorView::AcceptFailed(detail@),
            FacadeError::StreamOpenFailed(detail) => FacadeErrorView::StreamOpenFailed(detail@),
            FacadeError::StreamAcceptFailed(detail) => FacadeErrorView::StreamAcceptFailed(
                detail@,
            ),
            FacadeError::SubscribeFailed(detail) => FacadeErrorView::SubscribeFailed(detail@),
            FacadeError::HandleExpired => FacadeErrorView::HandleExpired,
        }
    }
}

/// The text of an error, as it is written to the log.
pub open spec fn message_text(error: FacadeErrorView) -> Seq<char> {
    match error {
        FacadeErrorView::NotInitialized => "not yet initialized"@,
        FacadeErrorView::InvalidPeerIdentifier(text) => "\""@ + text
            + "\" is not parsable as a public key"@,
        FacadeErrorView::InvalidTopic(_) => "a topic must be 32 bytes long"@,
        FacadeErrorView::BindError(detail) => "binding failed: "@ + detail,
        FacadeErrorView::ConnectError(detail) => "connecting failed: "@ + detail,
        FacadeErrorView::AcceptFailed(detail) => "accepting failed: "@ + detail,
        FacadeErrorView::StreamOpenFailed(detail) => "opening a stream failed: "@ + detail,
        FacadeErrorView::StreamAcceptFailed(detail) => "accepting a stream failed: "@ + detail,
        FacadeErrorView::SubscribeFailed(detail) => "subscribing failed: "@ + detail,
        FacadeErrorView::HandleExpired =>
            "the host object was freed before its result could be delivered"@,
    }
}

impl FacadeError {
    /// The error as text for the log.
    pub fn message(&self) -> (text: String)
        ensures
            text@ == message_text(self@),
    {
        match self {
            FacadeError::NotInitialized => String::from_str("not yet initialized"),
            FacadeError::InvalidPeerIdentifier(given) => {
                let mut text = String::from_str("\"");
                text.append(given.as_str());
                text.append("\" is not parsable as a public key");
                text
            },
            FacadeError::InvalidTopic(_) => String::from_str("a topic must be 32 bytes long"),
            FacadeError::BindError(detail) => String::from_str("binding failed: ").concat(
                detail.as_str(),
            ),
            FacadeError::ConnectError(detail) => String::from_str("connecting failed: ").concat(
                detail.as_str(),
            ),
            FacadeError::AcceptFailed(detail) => String::from_str("accepting failed: ").concat(
                detail.as_str(),
            ),
            FacadeError::StreamOpenFailed(detail) => String::from_str(
                "opening a stream failed: ",
            ).concat(detail.as_str()),
            FacadeError::StreamAcceptFailed(detail) => String::from_str(
                "accepting a stream failed: ",
            ).concat(detail.as_str()),
            FacadeError::SubscribeFailed(detail) => String::from_str("subscribing failed: ").concat(
                detail.as_str(),
            ),
            FacadeError::HandleExpired => String::from_str(
                "the host object was freed before its result could be delivered",
            ),
        }
    }
}

/// Why an operation that needs an object ends before any transport work:
/// `NotInitialized` exactly where the object is not there.
pub open spec fn prerequisite_refusal(present: bool) -> Option<FacadeErrorView> {
    if present {
        None
    } else {
        Some(FacadeErrorView::NotInitialized)
    }
}

/// Without its object an operation is refused with `NotInitialized`; with
/// it, it is not refused on that account.
pub proof fn lemma_prerequisite(present: bool)
    ensures
        !present ==> prerequisite_refusal(present) == Some(FacadeErrorView::NotInitialized),
        present ==> prerequisite_refusal(present) is None,
{
}

} // verus!
