use vstd::prelude::*;

use crate::error::AppError;

verus! {

/// Cooperative cancellation shared by the invocation coordinator and its
/// blocking workers: a flag that any holder may set and every holder sees.
#[derive(Clone, Debug)]
pub struct CancellationToken {
    cancelled: std::sync::Arc<std::sync::atomic::AtomicBool>,
}

/// The checkpoint outcome for an observed cancellation state: cancelled
/// work stops with the invocation-deadline timeout.
pub fn checkpoint_state(cancelled: bool) -> (r: Result<(), AppError>)
    ensures
        r is Ok <==> !cancelled,
        r is Err ==> (r->Err_0 is Timeout && r->Err_0->Timeout_0@ == "invocation deadline expired"@),
{
    if cancelled {
        Err(AppError::Timeout("invocation deadline expired".to_owned()))
    } else {
        Ok(())
    }
}

impl CancellationToken {
    /// A token that is not cancelled.
    pub fn new() -> (t: Self) {
        CancellationToken {
            cancelled: std::sync::Arc::new(std::sync::atomic::AtomicBool::new(false)),
        }
    }

    /// Cancels the work of every holder of this token.
    pub fn cancel(&self) {
        self.cancelled.store(true, std::sync::atomic::Ordering::Release);
    }

    /// Whether some holder has cancelled the token; another holder may
    /// cancel it at any moment, so the answer is a snapshot.
    pub fn is_cancelled(&self) -> (r: bool) {
        self.cancelled.load(std::sync::atomic::Ordering::Acquire)
    }

    /// Stops cancelled work with the invocation-deadline timeout; the
    /// observed state decides as `checkpoint_state` says.
    pub fn checkpoint(&self) -> (r: Result<(), AppError>)
        ensures
            r is Ok || (r->Err_0 is Timeout && r->Err_0->Timeout_0@ == "invocation deadline expired"@),
    {
        let cancelled = self.is_cancelled();
        checkpoint_state(cancelled)
    }
}

} // verus!
