//! Data of bill downloads.

use vstd::prelude::*;

verus! {

/// Download address of a bill with its digest.
#[derive(Clone, Debug, Default)]
pub struct BillResponse {
    pub hash_type: String,
    pub hash_value: String,
    pub download_url: String,
}

} // verus!
