//! What can go wrong on the way to a TUIC server.
use vstd::prelude::*;

verus! {

/// Why a TUIC outbound, or a stream on it, was not made.
#[derive(Debug)]
pub enum TuicError {
    /// The heartbeat interval is zero.
    HeartbeatInterval,
    /// The interval between garbage collections is zero.
    GcInterval,
    /// The TLS configuration was not built, for the reason given.
    Tls(String),
    /// The resolver knows no address of the server.
    NoAddress,
    /// The resolver failed, for the reason given.
    Resolver(String),
    /// The connection to the server took too long.
    ConnectTimedOut,
    /// The connection to the server failed, for the reason given.
    Connect(String),
    /// The connection's tasks did not start, for the reason given.
    Poll(String),
    /// A stream through the server took too long.
    StreamTimedOut,
    /// A stream through the server failed, for the reason given.
    StreamConnect(String),
}

/// A fixed text followed by a reason.
fn with_reason(what: &str, reason: &str) -> (r: String)
    ensures
        r@ == what@ + reason@,
{
    let mut text: String = what.to_owned();
    text.append(reason);
    text
}

impl TuicError {
    /// The error in words.
    pub open spec fn text(&self) -> Seq<char> {
        match *self {
            TuicError::HeartbeatInterval => "TUIC heartbeat interval must be positive"@,
            TuicError::GcInterval => "TUIC GC interval must be positive"@,
            TuicError::Tls(e) => "tuic TLS: "@ + e@,
            TuicError::NoAddress => "TUIC server resolution returned no address"@,
            TuicError::Resolver(e) => e@,
            TuicError::ConnectTimedOut => "TUIC connect timed out"@,
            TuicError::Connect(e) => "TUIC connect: "@ + e@,
            TuicError::Poll(e) => "TUIC poll: "@ + e@,
            TuicError::StreamTimedOut => "TUIC stream connect timed out"@,
            TuicError::StreamConnect(e) => "TUIC stream connect: "@ + e@,
        }
    }

    /// The error in words, with the reason where there is one.
    pub fn message(&self) -> (r: String)
        ensures
            r@ == self.text(),
    {
        match self {
            TuicError::HeartbeatInterval => "TUIC heartbeat interval must be positive".to_owned(),
            TuicError::GcInterval => "TUIC GC interval must be positive".to_owned(),
            TuicError::Tls(e) => with_reason("tuic TLS: ", e.as_str()),
            TuicError::NoAddress => "TUIC server resolution returned no address".to_owned(),
            TuicError::Resolver(e) => e.clone(),
            TuicError::ConnectTimedOut => "TUIC connect timed out".to_owned(),
            TuicError::Connect(e) => with_reason("TUIC connect: ", e.as_str()),
            TuicError::Poll(e) => with_reason("TUIC poll: ", e.as_str()),
            TuicError::StreamTimedOut => "TUIC stream connect timed out".to_owned(),
            TuicError::StreamConnect(e) => with_reason("TUIC stream connect: ", e.as_str()),
        }
    }
}

} // verus!
