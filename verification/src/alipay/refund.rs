//! Refunds of the shared-secret provider.

use crate::alipay::dict::refund::{ReqRefundOrder, ReqRefundQuery};
use crate::request::Operation;
use crate::{AlipayConfig, Payment};
use vstd::prelude::*;
use vstd::string::StringExecFns;

verus! {

/// Refunds of the shared-secret provider.
pub trait RefundTrait {
    /// Prepares a refund.
    fn refund(&self, data: ReqRefundOrder) -> Operation<ReqRefundOrder>;

    /// Prepares the query of a refund.
    fn query_refund(&self, refund_query: ReqRefundQuery) -> Operation<ReqRefundQuery>;
}

impl RefundTrait for Payment<AlipayConfig> {
    fn refund(&self, data: ReqRefundOrder) -> (op: Operation<ReqRefundOrder>)
        ensures
            op.uri@ == "/v3/alipay/trade/refund"@,
            op.method@ == "POST"@,
            op.body == data,
    {
        Operation {
            uri: String::from_str("/v3/alipay/trade/refund"),
            method: String::from_str("POST"),
            body: data,
        }
    }

    fn query_refund(&self, refund_query: ReqRefundQuery) -> (op: Operation<ReqRefundQuery>)
        ensures
            op.uri@ == "/v3/alipay/trade/fastpay/refund/query"@,
            op.method@ == "POST"@,
            op.body == refund_query,
    {
        Operation {
            uri: String::from_str("/v3/alipay/trade/fastpay/refund/query"),
            method: String::from_str("POST"),
            body: refund_query,
        }
    }
}

} // verus!
