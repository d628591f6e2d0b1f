//! The names that a user of the client needs, in one place.

pub use super::dict::order::AppSignPackage;
pub use super::dict::order::CreateOrderResponse;
pub use super::dict::order::CreateOrderResult;
pub use super::dict::order::ErrorDetail;
pub use super::dict::order::ErrorResponse;
pub use super::dict::order::JsapiSignPackage;
pub use super::dict::order::PayerInfo;
pub use super::dict::order::ReqAmountInfo;
pub use super::dict::order::ReqGoodsDetail;
pub use super::dict::order::ReqOrderBody;
pub use super::dict::order::ReqOrderDetail;
pub use super::dict::order::ReqSceneH5Info;
pub use super::dict::order::ReqSceneInfo;
pub use super::dict::order::ReqSettleInfo;
pub use super::dict::order::ReqStoreInfo;
pub use super::dict::order::ResourceOrderBody;
pub use super::dict::order::RespAmount;
pub use super::dict::order::RespBody;
pub use super::dict::order::RespGoodsDetail;
pub use super::dict::order::RespPromotionDetail;
pub use super::dict::order::RespResource;
pub use super::dict::order::RespSceneInfo;
pub use super::dict::order::TradeState;
pub use super::dict::order::TradeType;
pub use super::common::BaseTrait;
pub use super::dict::refund::RefundResponse;
pub use super::dict::refund::ReqRefundAmountFrom;
pub use super::dict::refund::ReqRefundAmountInfo;
pub use super::dict::refund::ReqRefundGoodsDetail;
pub use super::dict::refund::ReqRefundOrder;
pub use super::dict::refund::ReqRefundPromotionDetail;
pub use super::dict::refund::ResourceRefundBody;
pub use super::refund::RefundTrait;
pub use super::bill::BillTrait;
pub use super::dict::bill::BillResponse;
pub use super::dict::cert::CertData;
pub use super::dict::cert::RespCert;
pub use super::dict::cert::RespCertItem;
