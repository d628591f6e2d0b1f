//! Refunds of the certificate-based provider.

use crate::request::Operation;
use crate::wechat::common::{service_provider, uri_text, BaseTrait};
use crate::wechat::dict::refund::ReqRefundOrder;
use crate::{Payment, WechatConfig};
use vstd::prelude::*;
use vstd::string::StringExecFns;

verus! {

/// The refund as it is sent: through a service provider it names the
/// sub-merchant, and it names the address for notifications of the
/// configuration where it names none itself.
pub open spec fn sent_refund(config: WechatConfig, data: ReqRefundOrder) -> ReqRefundOrder {
    let sub_mchid = if service_provider(config) {
        Some(config.mchid)
    } else {
        data.sub_mchid
    };
    let notify_url = if data.notify_url is Some {
        data.notify_url
    } else {
        Some(config.notify_url)
    };
    ReqRefundOrder { sub_mchid, notify_url, ..data }
}

/// Refunds of the certificate-based provider.
pub trait RefundTrait {
    /// Prepares a refund.
    fn refund(&self, data: ReqRefundOrder) -> Operation<ReqRefundOrder>;

    /// Prepares the query of a refund by the merchant's refund number.
    fn query_refund(&self, out_refund_no: &str) -> Operation<()>;
}

impl RefundTrait for Payment<WechatConfig> {
    fn refund(&self, data: ReqRefundOrder) -> (op: Operation<ReqRefundOrder>)
        ensures
            op.uri@ == uri_text(self.config, "/v3/refund/domestic/refunds"@, false, false),
            op.method@ == "POST"@,
            op.body == sent_refund(self.config, data),
    {
        let mut body = data;
        if self.is_sp() {
            body.sub_mchid = Some(self.config.mchid.clone());
        }
        if body.notify_url.is_none() {
            body.notify_url = Some(self.config.notify_url.clone());
        }
        Operation {
            uri: self.get_uri("/v3/refund/domestic/refunds", false, false),
            method: String::from_str("POST"),
            body,
        }
    }

    fn query_refund(&self, out_refund_no: &str) -> (op: Operation<()>)
        ensures
            op.uri@ == uri_text(
                self.config,
                "/v3/refund/domestic/refunds/"@ + out_refund_no@,
                true,
                false,
            ),
            op.method@ == "GET"@,
    {
        let mut path = String::from_str("/v3/refund/domestic/refunds/");
        path.append(out_refund_no);
        Operation {
            uri: self.get_uri(path.as_str(), true, false),
            method: String::from_str("GET"),
            body: (),
        }
    }
}

} // verus!
