//! The names that a user of the client needs, in one place.

pub use super::dict::order::ReqAccessParams;
pub use super::dict::order::ReqBusinessParams;
pub use super::dict::order::ReqExtUserInfo;
pub use super::dict::order::ReqExtendParams;
pub use super::dict::order::ReqGoodsDetail;
pub use super::dict::order::ReqInvoiceDetail;
pub use super::dict::order::ReqInvoiceInfo;
pub use super::dict::order::ReqInvoiceKeyInfo;
pub use super::dict::order::ReqOrderBody;
pub use super::dict::order::ReqPeriodRuleParams;
pub use super::dict::order::ReqPromoParam;
pub use super::dict::order::ReqSignParams;
pub use super::dict::order::ReqSubMerchant;
pub use super::dict::order::ReqQueryOrderBody;
pub use super::dict::order::ResBkAgentRespInfo;
pub use super::dict::order::ResChargeInfo;
pub use super::dict::order::ResContributeDetail;
pub use super::dict::order::ResFulfillmentDetail;
pub use super::dict::order::ResHbFqPayInfo;
pub use super::dict::order::ResOrderBody;
pub use super::dict::order::ResSubFee;
pub use super::dict::order::ResTradeSettleDetail;
pub use super::dict::order::ResTradeSettleInfo;
pub use super::dict::order::ReqCloseOrderBody;
pub use super::dict::order::ResCloseOrderBody;
pub use super::dict::order::ReqCancelOrderBody;
pub use super::dict::order::ResCancelOrderBody;
pub use super::dict::notify::NotifyFundBill;
pub use super::dict::notify::NotifyOrderBody;
pub use super::dict::notify::NotifyOtherContributeDetail;
pub use super::dict::notify::NotifyVoucherDetail;
pub use super::dict::refund::ReqOpenApiRoyaltyDetailInfoPojo;
pub use super::dict::refund::ReqRefundGoodsDetail;
pub use super::dict::refund::ReqRefundOrder;
pub use super::dict::refund::RefundChargeInfo;
pub use super::dict::refund::RefundSubFee;
pub use super::dict::refund::ResRefundResponse;
pub use super::dict::refund::TradeFundBill;
pub use super::dict::refund::DepositBackInfo;
pub use super::dict::refund::ReqRefundQuery;
pub use super::dict::refund::ResRefundQuery;
pub use super::dict::refund::ResRefundRoyalty;
pub use super::dict::bill::ReqBillQuery;
pub use super::dict::bill::ResBill;
pub use super::bill::BillTrait;
pub use super::common::BaseTrait;
pub use super::refund::RefundTrait;
