//! The outcomes that an operation against the Steam client can report.

use vstd::prelude::*;

verus! {

/// The result code with which the Steam client reports success.
pub const RESULT_OK: i32 = 1;

/// The failure codes that the Steam client is known to report: every code
/// from 2 to 112 except 4, which it never assigned.
pub open spec fn is_failure_code(code: i32) -> bool {
    code == 2 || code == 3 || (5 <= code && code <= 112)
}

/// Why an operation against the Steam client did not succeed.
#[derive(Clone, Copy, Debug, PartialEq, Eq, Structural)]
pub enum SteamError {
    /// The session could not be established: the Steam client was not
    /// reachable when the session was opened.
    InitializationFailed,
    /// The request never completed because the connection to Steam failed
    /// underneath it. No payload exists for such a request.
    TransportFailure,
    /// The request completed and Steam rejected it with this known failure
    /// code, forwarded as it was received.
    ApplicationFailure(i32),
    /// The request completed with a code that is not among the known
    /// failure codes; the code is kept so that nothing is lost.
    Unknown(i32),
}

impl SteamError {
    /// The error that a result code other than success stands for.
    pub open spec fn spec_from_code(code: i32) -> SteamError {
        if is_failure_code(code) {
            SteamError::ApplicationFailure(code)
        } else {
            SteamError::Unknown(code)
        }
    }

    /// Whether the error is one that the taxonomy assigns: a known failure
    /// code stands in `ApplicationFailure`, and `Unknown` holds neither a
    /// known failure code nor the success code.
    pub open spec fn wf(self) -> bool {
        match self {
            SteamError::InitializationFailed => true,
            SteamError::TransportFailure => true,
            SteamError::ApplicationFailure(code) => is_failure_code(code),
            SteamError::Unknown(code) => !is_failure_code(code) && code != RESULT_OK,
        }
    }

    /// The raw code that the error carries, if it came from a result code.
    pub open spec fn spec_code(self) -> Option<i32> {
        match self {
            SteamError::InitializationFailed => None,
            SteamError::TransportFailure => None,
            SteamError::ApplicationFailure(code) => Some(code),
            SteamError::Unknown(code) => Some(code),
        }
    }

    /// Maps a failure code reported by the Steam client to an error.
    ///
    /// A known failure code becomes `ApplicationFailure`, every other code
    /// becomes `Unknown`; in both cases the code itself is kept. The success
    /// code is no failure and has no error.
    pub fn from_code(code: i32) -> (e: SteamError)
        requires
            code != RESULT_OK,
        ensures
            e == Self::spec_from_code(code),
            e.spec_code() == Some(code),
            is_failure_code(code) <==> e is ApplicationFailure,
            e.wf(),
    {
        if code == 2 || code == 3 || (5 <= code && code <= 112) {
            SteamError::ApplicationFailure(code)
        } else {
            SteamError::Unknown(code)
        }
    }

    /// Returns the raw result code behind the error, where there is one.
    pub fn code(&self) -> (c: Option<i32>)
        ensures
            c == self.spec_code(),
    {
        match self {
            SteamError::InitializationFailed => None,
            SteamError::TransportFailure => None,
            SteamError::ApplicationFailure(code) => Some(*code),
            SteamError::Unknown(code) => Some(*code),
        }
    }
}

/// What a result code means: success, or the error it stands for.
pub open spec fn spec_result_of_code(code: i32) -> Result<(), SteamError> {
    if code == RESULT_OK {
        Ok(())
    } else {
        Err(SteamError::spec_from_code(code))
    }
}

/// Turns a result code reported by the Steam client into a `Result`.
///
/// Succeeds exactly on the success code; every other code gives the error
/// that `SteamError::from_code` assigns to it.
pub fn result_of_code(code: i32) -> (r: Result<(), SteamError>)
    ensures
        r == spec_result_of_code(code),
        r is Ok <==> code == RESULT_OK,
        r matches Err(e) ==> e.wf() && e.spec_code() == Some(code),
{
    if code == RESULT_OK {
        Ok(())
    } else {
        Err(SteamError::from_code(code))
    }
}

/// No result code is both the success code and a failure code, and the
/// mapping of codes to errors loses nothing: two codes with the same error
/// are the same code.
pub proof fn lemma_error_taxonomy(a: i32, b: i32)
    ensures
        !is_failure_code(RESULT_OK),
        SteamError::spec_from_code(a) == SteamError::spec_from_code(b) ==> a == b,
        SteamError::spec_from_code(a).spec_code() == Some(a),
        !(SteamError::spec_from_code(a) is InitializationFailed),
        !(SteamError::spec_from_code(a) is TransportFailure),
        a != RESULT_OK ==> SteamError::spec_from_code(a).wf(),
{
}

} // verus!
