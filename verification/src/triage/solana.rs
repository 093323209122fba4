//! Severity of Solana RPC client errors.
//!
//! The errors are those of the Solana client; they are classified here by
//! what they are read to hold, so that the classification does not hang on
//! the client itself.

use vstd::prelude::*;
use crate::triage::http::HttpFault;
use crate::triage::io::IoFault;
use crate::triage::Severity;

verus! {

/// What went wrong with an RPC request.
#[derive(Debug, Clone, Copy, PartialEq, Eq, Structural, Hash)]
pub enum RpcRequestFault {
    /// The request itself failed
    RequestError,
    /// The node answered that it is unhealthy
    NodeUnhealthy,
    /// The node answered with any other error
    ResponseError,
    /// The answer could not be parsed
    ParseError,
    /// An error that is meant for the user
    ForUser,
}

/// What a Solana client error is read to hold.
#[derive(Debug, Clone, Copy, PartialEq, Eq, Structural, Hash)]
pub enum SolanaFault {
    /// An I/O error of this kind
    Io(IoFault),
    /// An HTTP client error
    Reqwest(HttpFault),
    /// A failed RPC request
    Rpc(RpcRequestFault),
    /// A JSON error
    SerdeJson,
    /// A failure to sign
    Signing,
    /// A failed transaction; `cluster_maintenance` where it failed because
    /// the cluster is in maintenance
    Transaction { cluster_maintenance: bool },
    /// An error of the faucet
    Faucet,
    /// A custom error
    Custom,
    /// A public key that does not parse
    ParsePubkey,
    /// A signature that does not parse
    ParseSignature,
}

impl SolanaFault {
    /// I/O and HTTP errors are as severe as they are by themselves. A
    /// request that failed, an unhealthy node and a cluster in maintenance may
    /// pass; everything else will fail again.
    pub open spec fn severity_spec(self) -> Severity {
        match self {
            SolanaFault::Io(fault) => fault.severity_spec(),
            SolanaFault::Reqwest(fault) => fault.severity_spec(),
            SolanaFault::Rpc(RpcRequestFault::RequestError)
            | SolanaFault::Rpc(RpcRequestFault::NodeUnhealthy) => Severity::Transient,
            SolanaFault::Transaction { cluster_maintenance } => if cluster_maintenance {
                Severity::Transient
            } else {
                Severity::Permanent
            },
            _ => Severity::Permanent,
        }
    }

    /// The severity of the Solana client error that this fault was read
    /// from.
    pub fn severity(&self) -> (s: Severity)
        ensures
            s == self.severity_spec(),
            s != Severity::Fatal,
    {
        match self {
            SolanaFault::Io(fault) => fault.severity(),
            SolanaFault::Reqwest(fault) => fault.severity(),
            SolanaFault::Rpc(RpcRequestFault::RequestError | RpcRequestFault::NodeUnhealthy)
            | SolanaFault::Transaction { cluster_maintenance: true } => Severity::Transient,
            SolanaFault::Rpc(
                RpcRequestFault::ResponseError
                | RpcRequestFault::ParseError
                | RpcRequestFault::ForUser,
            )
            | SolanaFault::SerdeJson
            | SolanaFault::Signing
            | SolanaFault::Transaction { cluster_maintenance: false }
            | SolanaFault::Faucet
            | SolanaFault::Custom
            | SolanaFault::ParsePubkey
            | SolanaFault::ParseSignature => Severity::Permanent,
        }
    }
}

} // verus!
