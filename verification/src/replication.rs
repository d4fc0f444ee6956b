//! Access to the replication log.

use vstd::prelude::*;

use crate::error::ErrorKind;
use crate::text::joined;

verus! {

/// The codes with which replicas are refused.
#[derive(Clone, Copy, Debug, PartialEq, Eq, Structural)]
pub enum RpcCode {
    FailedPrecondition,
    Internal,
}

/// A refusal.
#[derive(Debug)]
pub struct RpcStatus {
    pub code: RpcCode,
    pub message: String,
}

impl View for RpcStatus {
    type V = (RpcCode, Seq<char>);

    open spec fn view(&self) -> (RpcCode, Seq<char>) {
        (self.code, self.message@)
    }
}

/// An error of loading a namespace, with its text.
#[derive(Debug)]
pub struct LoadError {
    pub kind: ErrorKind,
    pub text: String,
}

/// How a replica is refused, if it is: its namespace must load. A namespace that does not exist
/// is let pass where users may authenticate later, and has a message of its own otherwise.
pub open spec fn replica_refusal(
    loaded: Result<(), LoadError>,
    allow_user_auth_fallback: bool,
    missing: Seq<char>,
) -> Option<(RpcCode, Seq<char>)> {
    match loaded {
        Ok(()) => None,
        Err(e) => if e.kind != ErrorKind::NamespaceDoesntExist {
            Some((RpcCode::Internal, "Error loading namespace: "@ + e.text@))
        } else if allow_user_auth_fallback {
            None
        } else {
            Some((RpcCode::FailedPrecondition, missing))
        },
    }
}

/// Decides about a replica once its namespace was loaded, or could not be. `missing` is the
/// message by which replicas know that their namespace does not exist.
pub fn authenticate(
    loaded: Result<(), LoadError>,
    allow_user_auth_fallback: bool,
    missing: &str,
) -> (r: Result<(), RpcStatus>)
    ensures
        match replica_refusal(loaded, allow_user_auth_fallback, missing@) {
            None => r is Ok,
            Some(status) => r matches Err(e) && e@ == status,
        },
{
    match loaded {
        Ok(()) => Ok(()),
        Err(e) => match e.kind {
            ErrorKind::NamespaceDoesntExist => if allow_user_auth_fallback {
                Ok(())
            } else {
                Err(
                    RpcStatus { code: RpcCode::FailedPrecondition, message: missing.to_owned() },
                )
            },
            _ => Err(
                RpcStatus {
                    code: RpcCode::Internal,
                    message: joined("Error loading namespace: ", e.text.as_str()),
                },
            ),
        },
    }
}


/// A replica is let through exactly if its namespace loads, or does not exist and users may
/// authenticate later. A namespace that does not exist is told by the message for it, and every
/// other failure by its own text.
pub proof fn lemma_authenticate(
    loaded: Result<(), LoadError>,
    allow_user_auth_fallback: bool,
    missing: &str,
    r: Result<(), RpcStatus>,
)
    requires
        call_ensures(authenticate, (loaded, allow_user_auth_fallback, missing), r),
    ensures
        r is Ok <==> (loaded is Ok || (allow_user_auth_fallback && loaded->Err_0.kind
            == ErrorKind::NamespaceDoesntExist)),
        r matches Err(e) ==> if loaded->Err_0.kind == ErrorKind::NamespaceDoesntExist {
            e.code == RpcCode::FailedPrecondition && e.message@ == missing@
        } else {
            e.code == RpcCode::Internal && e.message@ == "Error loading namespace: "@
                + loaded->Err_0.text@
        },
{
}

} // verus!
