//! The shared outbound of a handler, and the streams on it.
use vstd::prelude::*;
use crate::session::{Session, SocksAddr};
use crate::tuic::datagram::{udp_flow_of, FlowContext, TuicDatagramOutbound};
use crate::tuic::error::TuicError;
use crate::tuic::handler::Handler;
use crate::tuic::init::{checked, ConnectOutcome, TlsStage};
use crate::tuic::options::{policy_of, Duration, SocketPolicy};
use crate::tuic::types::{target_of, SocketAdderTrans, TargetAddr};

verus! {

/// Whether a handler has its outbound yet, and the policy of the outbound's socket.
#[derive(Debug)]
pub enum OutboundCell {
    Empty,
    Built(SocketPolicy),
}

impl OutboundCell {
    /// The cell once an attempt to build the outbound came out as `outcome`. The
    /// first outbound stays.
    pub open spec fn settled(self, outcome: Result<SocketPolicy, TuicError>) -> OutboundCell {
        match (self, outcome) {
            (OutboundCell::Empty, Ok(policy)) => OutboundCell::Built(policy),
            _ => self,
        }
    }

    /// Keeps what an attempt to build the outbound came to; a failed one leaves
    /// nothing behind.
    pub fn settle(&mut self, outcome: Result<SocketPolicy, TuicError>) -> (r: Result<
        (),
        TuicError,
    >)
        ensures
            *final(self) == old(self).settled(outcome),
            match outcome {
                Ok(_) => r is Ok,
                Err(e) => r == Err::<(), TuicError>(e),
            },
    {
        match outcome {
            Ok(policy) => {
                if let OutboundCell::Empty = *self {
                    *self = OutboundCell::Built(policy);
                }
                Ok(())
            },
            Err(e) => Err(e),
        }
    }
}

/// What opening a stream comes to, where getting the outbound came to `outbound` and
/// the attempt on it to `outcome`. Without an outbound there is no attempt.
pub open spec fn stream_outcome(
    outbound: Result<(), TuicError>,
    outcome: ConnectOutcome,
) -> Result<(), TuicError> {
    match (outbound, outcome) {
        (Err(e), _) => Err(e),
        (Ok(_), ConnectOutcome::Ready) => Ok(()),
        (Ok(_), ConnectOutcome::Failed(e)) => Err(TuicError::StreamConnect(e)),
        (Ok(_), ConnectOutcome::TimedOut) => Err(TuicError::StreamTimedOut),
    }
}

impl Handler {
    /// What is to be done for the outbound that `sess` goes through: nothing where
    /// there is one, whatever the session; else it is built for this session.
    pub fn get_outbound<'a>(&'a self, cell: &OutboundCell, sess: &Session) -> (r: Result<
        Option<TlsStage<'a>>,
        TuicError,
    >)
        ensures
            match *cell {
                OutboundCell::Built(_) => r == Ok::<Option<TlsStage<'a>>, TuicError>(None),
                OutboundCell::Empty => match checked(self.opts) {
                    Ok(_) => r matches Ok(Some(stage)) && stage.plan().options() == self.opts
                        && stage.plan().policy() == policy_of(*sess),
                    Err(e) => r == Err::<Option<TlsStage<'a>>, TuicError>(e),
                },
            },
    {
        match cell {
            OutboundCell::Built(_) => Ok(None),
            OutboundCell::Empty => match self.init_outbound(sess) {
                Ok(stage) => Ok(Some(stage)),
                Err(e) => Err(e),
            },
        }
    }

    /// Where a stream for `sess` goes.
    pub fn stream_target(&self, sess: &Session) -> (r: TargetAddr)
        ensures
            r == target_of(sess.destination),
    {
        sess.destination.clone().into_tuic()
    }

    /// How long opening a stream may take.
    pub fn stream_time_limit(&self) -> (r: Duration)
        ensures
            r == self.opts.request_timeout,
    {
        self.opts.request_timeout
    }

    /// What an attempt to open a stream comes to.
    pub fn stream_connected(&self, outcome: ConnectOutcome) -> (r: Result<(), TuicError>)
        ensures
            match outcome {
                ConnectOutcome::Ready => r == Ok::<(), TuicError>(()),
                ConnectOutcome::Failed(e) => r == Err::<(), TuicError>(
                    TuicError::StreamConnect(e),
                ),
                ConnectOutcome::TimedOut => r == Err::<(), TuicError>(TuicError::StreamTimedOut),
            },
    {
        match outcome {
            ConnectOutcome::Ready => Ok(()),
            ConnectOutcome::Failed(e) => Err(TuicError::StreamConnect(e)),
            ConnectOutcome::TimedOut => Err(TuicError::StreamTimedOut),
        }
    }

    /// Where a stream for `sess` is to be opened to, and how long that may take. An
    /// error of getting the outbound is handed on, and no stream is tried.
    pub fn open_stream(&self, outbound: Result<(), TuicError>, sess: &Session) -> (r: Result<
        (TargetAddr, Duration),
        TuicError,
    >)
        ensures
            match outbound {
                Ok(_) => r == Ok::<(TargetAddr, Duration), TuicError>(
                    (target_of(sess.destination), self.opts.request_timeout),
                ),
                Err(e) => r == Err::<(TargetAddr, Duration), TuicError>(e),
            },
    {
        match outbound {
            Ok(_) => Ok((self.stream_target(sess), self.stream_time_limit())),
            Err(e) => Err(e),
        }
    }

    /// What opening a stream comes to, from what getting the outbound came to and what
    /// came of the attempt on it. An error of the outbound is handed on unchanged.
    pub fn stream_given(&self, outbound: Result<(), TuicError>, outcome: ConnectOutcome) -> (r:
        Result<(), TuicError>)
        ensures
            r == stream_outcome(outbound, outcome),
    {
        match outbound {
            Ok(_) => self.stream_connected(outcome),
            Err(e) => Err(e),
        }
    }

    /// The UDP association for `sess`: the proxy's end, and the flow to announce. An
    /// error of getting the outbound is handed on.
    pub fn open_datagram(&self, outbound: Result<(), TuicError>, sess: &Session) -> (r: Result<
        (TuicDatagramOutbound, FlowContext),
        TuicError,
    >)
        ensures
            match outbound {
                Ok(_) => r matches Ok(association) && association.0.local_addr == SocksAddr::Ip(
                    sess.source,
                ) && udp_flow_of(*sess, association.1),
                Err(e) => r == Err::<(TuicDatagramOutbound, FlowContext), TuicError>(e),
            },
    {
        match outbound {
            Ok(_) => Ok(TuicDatagramOutbound::new(sess)),
            Err(e) => Err(e),
        }
    }
}

} // verus!
