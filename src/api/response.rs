use vstd::prelude::*;

use crate::api::error::ApiError;

verus! {

/// The envelope of every API answer. An error is signalled in-band through
/// `error`; `expires_at` and `token` carry the (renewed) session on success.
#[derive(Debug, Clone, PartialEq, Eq)]
pub struct ApiResponse<T> {
    pub expires_at: i64,
    pub token: String,
    pub error: Option<ApiError>,
    pub data: T,
}

} // verus!
