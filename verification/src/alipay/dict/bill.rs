//! Data of bill downloads.

use vstd::prelude::*;

verus! {

/// Query for the download address of a bill.
#[derive(Clone, Debug, Default)]
pub struct ReqBillQuery {
    pub bill_date: String,
    pub bill_type: String,
    pub smid: Option<String>,
}

/// Download address of a bill.
#[derive(Clone, Debug, Default)]
pub struct ResBill {
    pub bill_download_url: String,
    pub bill_file_code: String,
}

} // verus!
