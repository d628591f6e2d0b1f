//! Data of orders and of their notifications.

use vstd::prelude::*;

verus! {

/// Way in which an order is paid.
#[derive(Clone, Debug, Default)]
pub enum TradeType {
    #[default]
    JSAPI,
    NATIVE,
    App,
    MWEB,
    MICROPAY,
    FACEPAY,
}

/// State of a trade.
#[derive(Clone, Debug, Default)]
pub enum TradeState {
    #[default]
    SUCCESS,
    REFUND,
    NOTPAY,
    CLOSED,
    REVOKED,
    USERPAYING,
    PAYERROR,
}

/// Request data: amount info.
#[derive(Clone, Debug, Default)]
pub struct ReqAmountInfo {
    pub currency: Option<String>,
    pub total: i32,
}

/// Payer info.
#[derive(Clone, Debug, Default)]
pub struct PayerInfo {
    pub openid: String,
}

/// Request data: goods detail.
#[derive(Clone, Debug, Default)]
pub struct ReqGoodsDetail {
    pub merchant_goods_id: String,
    pub wechatpay_goods_id: Option<String>,
    pub goods_name: Option<String>,
    pub quantity: i32,
    pub unit_price: i32,
}

/// Request data: order detail.
#[derive(Clone, Debug, Default)]
pub struct ReqOrderDetail {
    pub cost_price: Option<i32>,
    pub invoice_id: Option<String>,
    pub goods_detail: Vec<ReqGoodsDetail>,
}

/// Request data: store info.
#[derive(Clone, Debug, Default)]
pub struct ReqStoreInfo {
    pub id: String,
    pub name: Option<String>,
    pub area_code: Option<String>,
    pub address: Option<String>,
}

/// Request data: scene h5 info.
#[derive(Clone, Debug, Default)]
pub struct ReqSceneH5Info {
    pub type_: String,
    pub app_name: Option<String>,
    pub app_url: Option<String>,
    pub bundle_id: Option<String>,
    pub package_name: Option<String>,
}

/// Request data: scene info.
#[derive(Clone, Debug, Default)]
pub struct ReqSceneInfo {
    pub payer_client_ip: String,
    pub device_id: Option<String>,
    pub store_info: Option<ReqStoreInfo>,
    pub h5_info: Option<ReqSceneH5Info>,
}

/// Request data: settle info.
#[derive(Clone, Debug, Default)]
pub struct ReqSettleInfo {
    pub profit_sharing: Option<bool>,
}

/// Request data: order body.
#[derive(Clone, Debug, Default)]
pub struct ReqOrderBody {
    pub sp_appid: Option<String>,
    pub sp_mchid: Option<String>,
    pub sub_mchid: Option<String>,
    pub sub_appid: Option<String>,
    pub appid: Option<String>,
    pub mchid: Option<String>,
    pub description: String,
    pub out_trade_no: String,
    pub time_expire: Option<String>,
    pub attach: Option<String>,
    pub notify_url: Option<String>,
    pub goods_tag: Option<String>,
    pub support_fapiao: Option<bool>,
    pub amount: ReqAmountInfo,
    pub payer: Option<PayerInfo>,
    pub detail: Option<String>,
    pub scene_info: Option<ReqSceneInfo>,
    pub settle_info: Option<ReqSettleInfo>,
}

/// Answer to a placed order.
#[derive(Clone, Debug, Default)]
pub struct CreateOrderResponse {
    pub prepay_id: Option<String>,
    pub code_url: Option<String>,
    pub h5_url: Option<String>,
}

/// Signed parameters that start a payment from a page.
#[derive(Clone, Debug, Default)]
pub struct JsapiSignPackage {
    pub app_id: String,
    pub time_stamp: String,
    pub nonce_str: String,
    pub package: String,
    pub sign_type: String,
    pub pay_sign: String,
}

/// Signed parameters that start a payment from an application.
#[derive(Clone, Debug, Default)]
pub struct AppSignPackage {
    pub app_id: String,
    pub partner_id: String,
    pub prepay_id: String,
    pub package_value: String,
    pub nonce_str: String,
    pub time_stamp: String,
    pub sign: String,
}

/// What placing an order gives back, by way of payment.
#[derive(Clone, Debug)]
pub enum CreateOrderResult {
    Default(CreateOrderResponse),
    JSAPI(JsapiSignPackage),
    APP(AppSignPackage),
}

/// Detail of an error answer.
#[derive(Clone, Debug, Default)]
pub struct ErrorDetail {
    pub field: String,
    pub value: String,
    pub issue: String,
    pub location: String,
}

/// Error answer of the provider.
#[derive(Clone, Debug, Default)]
pub struct ErrorResponse {
    pub code: String,
    pub message: String,
    pub detail: ErrorDetail,
}

/// Encrypted resource of a notification.
#[derive(Clone, Debug, Default)]
pub struct RespResource {
    pub original_type: String,
    pub algorithm: String,
    pub ciphertext: String,
    pub associated_data: Option<String>,
    pub nonce: String,
}

/// Response data: scene info.
#[derive(Clone, Debug, Default)]
pub struct RespSceneInfo {
    pub device_id: Option<String>,
}

/// Envelope of a notification.
#[derive(Clone, Debug, Default)]
pub struct RespBody {
    pub id: String,
    pub create_time: String,
    pub resource_type: String,
    pub event_type: String,
    pub summary: String,
    pub resource: RespResource,
}

/// Response data: amount.
#[derive(Clone, Debug, Default)]
pub struct RespAmount {
    pub currency: String,
    pub total: i32,
    pub payer_total: i32,
    pub payer_currency: String,
}

/// Response data: goods detail.
#[derive(Clone, Debug, Default)]
pub struct RespGoodsDetail {
    pub goods_id: String,
    pub quantity: i32,
    pub unit_price: i32,
    pub discount_amount: i32,
    pub goods_remark: Option<String>,
}

/// Response data: promotion detail.
#[derive(Clone, Debug, Default)]
pub struct RespPromotionDetail {
    pub coupon_id: String,
    pub name: Option<String>,
    pub scope: Option<String>,
    pub type_: Option<String>,
    pub amount: i32,
    pub stock_id: Option<String>,
    pub wechatpay_contribute: Option<i32>,
    pub merchant_contribute: Option<i32>,
    pub other_contribute: Option<i32>,
    pub currency: Option<String>,
    pub goods_detail: Vec<RespGoodsDetail>,
}

/// Decrypted resource of a payment notification.
#[derive(Clone, Debug, Default)]
pub struct ResourceOrderBody {
    pub sp_appid: Option<String>,
    pub sp_mchid: Option<String>,
    pub sub_mchid: Option<String>,
    pub sub_appid: Option<String>,
    pub appid: Option<String>,
    pub mchid: Option<String>,
    pub out_trade_no: String,
    pub transaction_id: String,
    pub trade_type: TradeType,
    pub trade_state: TradeState,
    pub trade_state_desc: String,
    pub bank_type: String,
    pub attach: Option<String>,
    pub success_time: String,
    pub payer: PayerInfo,
    pub amount: RespAmount,
    pub scene_info: Option<RespSceneInfo>,
    pub promotion_detail: Option<Vec<RespPromotionDetail>>,
}

} // verus!
