//! Bills of the shared-secret provider.

use crate::alipay::dict::bill::ReqBillQuery;
use crate::request::Operation;
use crate::{AlipayConfig, Payment};
use vstd::prelude::*;
use vstd::string::StringExecFns;

verus! {

/// Bills of the shared-secret provider.
pub trait BillTrait {
    /// Prepares the query for the download address of a bill. The address
    /// that comes back is good for thirty seconds.
    fn trade_bill(&self, query: ReqBillQuery) -> Operation<ReqBillQuery>;
}

impl BillTrait for Payment<AlipayConfig> {
    fn trade_bill(&self, query: ReqBillQuery) -> (op: Operation<ReqBillQuery>)
        ensures
            op.uri@ == "/v3/alipay/data/dataservice/bill/downloadurl/query"@,
            op.method@ == "POST"@,
            op.body == query,
    {
        Operation {
            uri: String::from_str("/v3/alipay/data/dataservice/bill/downloadurl/query"),
            method: String::from_str("POST"),
            body: query,
        }
    }
}

} // verus!
