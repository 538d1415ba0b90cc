//! Retrying on "would block".
//!
//! Every session runs in non-blocking mode, so any transport call may
//! answer that it would block. That answer is no failure: the call is made
//! again after a short pause. Every call into the transport goes through
//! this one decision.

use vstd::prelude::*;

verus! {

/// The session-level code with which the transport says "try again".
pub const WOULD_BLOCK: i32 = -37;

/// Pause before a call that would have blocked is made again, in
/// milliseconds.
pub const RETRY_PAUSE_MILLIS: u64 = 10;

/// Where an error code comes from, with the code.
#[derive(Clone, Copy, Debug, PartialEq, Eq, Structural)]
pub enum ErrorCode {
    /// A code of the session layer.
    Session(i32),
    /// A code of the file-transfer subsystem.
    Sftp(i32),
}

/// An error of a transport call.
#[derive(Debug, Clone)]
pub struct TransportError {
    pub code: ErrorCode,
    pub message: String,
}

/// Whether a code is the transient "would block".
pub open spec fn spec_would_block(code: ErrorCode) -> bool {
    code == ErrorCode::Session(WOULD_BLOCK)
}

impl TransportError {
    /// Whether the error only says that the call would have blocked.
    pub fn is_would_block(&self) -> (transient: bool)
        ensures
            transient == spec_would_block(self.code),
    {
        match self.code {
            ErrorCode::Session(code) => code == WOULD_BLOCK,
            ErrorCode::Sftp(_) => false,
        }
    }
}

/// What follows one transport call.
#[derive(Debug)]
pub enum Retry<T> {
    /// The call settled: hand its result on.
    Finished(Result<T, TransportError>),
    /// The call would have blocked: pause, then make it again.
    Again { pause_millis: u64 },
}

/// Decides what follows one transport call: a success or a real error
/// is handed on at once, "would block" asks for the call to be made
/// again after the pause and is never handed on.
pub fn ssh2_retry<T>(outcome: Result<T, TransportError>) -> (step: Retry<T>)
    ensures
        match outcome {
            Ok(v) => step == Retry::Finished(Ok::<T, TransportError>(v)),
            Err(e) => if spec_would_block(e.code) {
                step == (Retry::<T>::Again { pause_millis: RETRY_PAUSE_MILLIS })
            } else {
                step == Retry::Finished(Err::<T, TransportError>(e))
            },
        },
{
    match outcome {
        Ok(v) => Retry::Finished(Ok(v)),
        Err(e) => if e.is_would_block() {
            Retry::Again { pause_millis: RETRY_PAUSE_MILLIS }
        } else {
            Retry::Finished(Err(e))
        },
    }
}

/// Index of the first outcome at or after `from` that is no "would
/// block", or the length of `codes`. `None` stands for a success.
pub open spec fn spec_first_settled(codes: Seq<Option<ErrorCode>>, from: int) -> int
    decreases codes.len() - from,
{
    if from < 0 || from >= codes.len() {
        codes.len() as int
    } else if !(codes[from] matches Some(c) && spec_would_block(c)) {
        from
    } else {
        spec_first_settled(codes, from + 1)
    }
}

/// Repeating a call through `ssh2_retry` hands on the first outcome that
/// is no "would block": every outcome before it asked for a repetition,
/// and the outcome handed on is never "would block".
pub proof fn lemma_retry_hands_on_first_settled(codes: Seq<Option<ErrorCode>>, from: int)
    requires
        0 <= from <= codes.len(),
    ensures
        from <= spec_first_settled(codes, from) <= codes.len(),
        forall|k: int|
            from <= k < spec_first_settled(codes, from) ==> (#[trigger] codes[k]) == Some(
                ErrorCode::Session(WOULD_BLOCK),
            ),
        spec_first_settled(codes, from) < codes.len() ==> !(codes[spec_first_settled(
            codes,
            from,
        )] matches Some(c) && spec_would_block(c)),
    decreases codes.len() - from,
{
    if from < codes.len() && (codes[from] matches Some(c) && spec_would_block(c)) {
        lemma_retry_hands_on_first_settled(codes, from + 1);
    }
}

} // verus!
