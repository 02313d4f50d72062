//! What the answers of the two rectangle queries mean.
//!
//! The caller asks the operating system and passes on the raw return value
//! together with the rectangle buffer as the call left it.

use crate::rect::PrettyPrintRect;
use vstd::prelude::*;

verus! {

/// A failure reported by the operating system, carried as its numeric code.
#[derive(Clone, Copy, Debug, PartialEq, Eq, Structural)]
pub struct OsError {
    pub code: i32,
}

/// Whether a status code (an `HRESULT`) reports success: the codes from zero
/// upwards do, the negative ones report a failure.
pub open spec fn status_succeeded(status: i32) -> bool {
    status >= 0
}

/// Tests a status code for success.
pub fn succeeded(status: i32) -> (ok: bool)
    ensures
        ok == status_succeeded(status),
{
    status >= 0
}

/// What [`dwm_get_window_rect`] returns.
pub open spec fn dwm_window_rect(status: i32, bounds: PrettyPrintRect) -> Result<
    PrettyPrintRect,
    OsError,
> {
    if status_succeeded(status) {
        Ok(bounds)
    } else {
        Err(OsError { code: status })
    }
}

/// What [`get_window_rect`] returns.
pub open spec fn window_rect(ret: i32, rect: PrettyPrintRect) -> Result<PrettyPrintRect, OsError> {
    if ret != 0 {
        Ok(rect)
    } else {
        Err(OsError { code: ret })
    }
}

/// Reads the answer of the compositor's extended-frame-bounds query.
///
/// `status` is the status code that the query returned and `bounds` the
/// rectangle buffer after the call. A status that reports success yields the
/// rectangle. Any other status is a failure whose code is that status itself.
pub fn dwm_get_window_rect(status: i32, bounds: PrettyPrintRect) -> (result: Result<
    PrettyPrintRect,
    OsError,
>)
    ensures
        result == dwm_window_rect(status, bounds),
{
    if succeeded(status) {
        Ok(bounds)
    } else {
        Err(OsError { code: status })
    }
}

/// Reads the answer of the legacy bounding-rectangle query.
///
/// `ret` is what the query returned and `rect` the rectangle buffer after the
/// call. A nonzero `ret` yields the rectangle. Zero is a failure, and the
/// error carries that zero as its code: the query reports no code of its own
/// through its return value.
pub fn get_window_rect(ret: i32, rect: PrettyPrintRect) -> (result: Result<
    PrettyPrintRect,
    OsError,
>)
    ensures
        result == window_rect(ret, rect),
{
    if ret != 0 {
        Ok(rect)
    } else {
        Err(OsError { code: ret })
    }
}

} // verus!
