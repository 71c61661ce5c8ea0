//! Connecting to the worker of a block.

use vstd::prelude::*;
use vstd::string::*;

use crate::error::{Error, ErrorView, Result};
use crate::proto::{WorkerInfo, WorkerNetAddress};
use crate::text::{decimal_int, push_decimal_i64};

verus! {

/// Port of a worker that reports none.
pub const DEFAULT_WORKER_PORT: i32 = 9203;

/// Host of a worker that reports none.
pub const DEFAULT_WORKER_HOST: &'static str = "127.0.0.1";

/// The message of a worker that cannot be reached.
pub const NO_ADDRESS: &'static str = "worker has no address";

/// The message of a second worker that cannot be reached.
pub const NO_RETRY_ADDRESS: &'static str = "retry worker has no address";

/// The endpoint of a worker: its host and port, separated by a colon.
pub open spec fn endpoint_of(addr: WorkerNetAddress) -> Seq<char> {
    (match addr.host {
        Some(h) => h@,
        None => DEFAULT_WORKER_HOST@,
    }) + seq![':'] + decimal_int(
        match addr.rpc_port {
            Some(p) => p as int,
            None => DEFAULT_WORKER_PORT as int,
        },
    )
}

/// The endpoint of a worker.
pub fn worker_endpoint(addr: &WorkerNetAddress) -> (r: String)
    ensures
        r@ == endpoint_of(*addr),
{
    let mut out = match &addr.host {
        Some(h) => h.clone(),
        None => DEFAULT_WORKER_HOST.to_string(),
    };
    let port: i32 = match addr.rpc_port {
        Some(p) => p,
        None => DEFAULT_WORKER_PORT,
    };
    out.push(':');
    push_decimal_i64(&mut out, port as i64);
    proof {
        assert(out@ =~= endpoint_of(*addr));
    }
    out
}

/// Where connecting stands.
#[derive(Debug)]
pub enum ConnectPhase {
    /// A worker is selected.
    Select,
    /// The worker at the address is connected to.
    Connect(WorkerNetAddress),
    /// Another worker is selected.
    SelectAgain,
    /// That worker is connected to.
    ConnectAgain,
    /// Connecting has ended, with the last outcome or with a failure of its own.
    Ended,
}

/// What connecting asks for.
#[derive(Debug)]
pub enum ConnectAction {
    /// Select a worker for the block.
    Select,
    /// Connect to the endpoint.
    Connect(String),
    /// Count the worker at the address as failed and drop its connection, and
    /// select another one.
    FailAndSelect(WorkerNetAddress),
    /// Select a worker once more; nothing was wrong with the first.
    SelectAgain,
    /// Return the connection that was just made.
    Connected,
    /// Return the error.
    Fail(Error),
}

/// Connecting to the worker of a block, with one retry.
///
/// A worker that rejects the credentials is not counted as failed.
#[derive(Debug)]
pub struct ConnectOp {
    /// Where connecting stands.
    pub phase: ConnectPhase,
}

impl ConnectOp {
    fn fail(e: Error) -> (r: (ConnectOp, ConnectAction))
        ensures
            r.0.phase is Ended,
            r.1 == ConnectAction::Fail(e),
    {
        (ConnectOp { phase: ConnectPhase::Ended }, ConnectAction::Fail(e))
    }

    fn no_address(text: &str) -> (r: (ConnectOp, ConnectAction))
        ensures
            r.0.phase is Ended,
            r.1 matches ConnectAction::Fail(e) && e@ == (ErrorView::Internal {
                message: text@,
                source: None,
            }),
    {
        ConnectOp::fail(Error::Internal { message: text.to_owned(), source: None })
    }

    /// Starts to connect.
    pub fn start() -> (r: (ConnectOp, ConnectAction))
        ensures
            r.0.phase is Select,
            r.1 is Select,
    {
        (ConnectOp { phase: ConnectPhase::Select }, ConnectAction::Select)
    }

    /// Takes in the worker that was selected.
    pub fn selected(self, outcome: Result<WorkerInfo>) -> (r: (ConnectOp, ConnectAction))
        requires
            self.phase is Select || self.phase is SelectAgain,
        ensures
            match outcome {
                Err(e) => r.0.phase is Ended && r.1 == ConnectAction::Fail(e),
                Ok(worker) => match worker.address {
                    None => {
                        &&& r.0.phase is Ended
                        &&& r.1 matches ConnectAction::Fail(e) && e@ == (ErrorView::Internal {
                            message: if self.phase is Select {
                                NO_ADDRESS@
                            } else {
                                NO_RETRY_ADDRESS@
                            },
                            source: None,
                        })
                    },
                    Some(a) => {
                        &&& r.1 matches ConnectAction::Connect(s) && s@ == endpoint_of(a)
                        &&& if self.phase is Select {
                            r.0.phase == ConnectPhase::Connect(a)
                        } else {
                            r.0.phase is ConnectAgain
                        }
                    },
                },
            },
    {
        let first = match self.phase {
            ConnectPhase::Select => true,
            _ => false,
        };
        match outcome {
            Err(e) => ConnectOp::fail(e),
            Ok(worker) => match worker.address {
                None => if first {
                    ConnectOp::no_address(NO_ADDRESS)
                } else {
                    ConnectOp::no_address(NO_RETRY_ADDRESS)
                },
                Some(a) => {
                    let endpoint = worker_endpoint(&a);
                    let phase = if first {
                        ConnectPhase::Connect(a)
                    } else {
                        ConnectPhase::ConnectAgain
                    };
                    (ConnectOp { phase }, ConnectAction::Connect(endpoint))
                },
            },
        }
    }

    /// Takes in whether the connection was made.
    pub fn connected(self, outcome: Result<()>) -> (r: (ConnectOp, ConnectAction))
        requires
            self.phase is Connect || self.phase is ConnectAgain,
        ensures
            match (self.phase, outcome) {
                (_, Ok(_)) => r.0.phase is Ended && r.1 is Connected,
                (ConnectPhase::Connect(a), Err(e)) => {
                    &&& r.0.phase is SelectAgain
                    &&& if e is AuthenticationFailed {
                        r.1 is SelectAgain
                    } else {
                        r.1 == ConnectAction::FailAndSelect(a)
                    }
                },
                (_, Err(e)) => r.0.phase is Ended && r.1 == ConnectAction::Fail(e),
            },
    {
        match outcome {
            Ok(_) => (ConnectOp { phase: ConnectPhase::Ended }, ConnectAction::Connected),
            Err(e) => match self.phase {
                ConnectPhase::Connect(a) => {
                    let action = if e.is_authentication_failed() {
                        ConnectAction::SelectAgain
                    } else {
                        ConnectAction::FailAndSelect(a)
                    };
                    (ConnectOp { phase: ConnectPhase::SelectAgain }, action)
                },
                _ => ConnectOp::fail(e),
            },
        }
    }
}

} // verus!
