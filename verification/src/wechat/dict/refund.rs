//! Data of refunds and of their notifications.

use vstd::prelude::*;

verus! {

/// Resource refund amount.
#[derive(Clone, Debug, Default)]
pub struct ResourceRefundAmount {
    pub total: i32,
    pub refund: i32,
    pub payer_total: i32,
    pub payer_refund: i32,
}

/// Decrypted resource of a refund notification.
#[derive(Clone, Debug, Default)]
pub struct ResourceRefundBody {
    pub mchid: String,
    pub transaction_id: String,
    pub out_trade_no: String,
    pub refund_id: String,
    pub out_refund_no: String,
    pub refund_status: String,
    pub success_time: Option<String>,
    pub user_received_account: String,
    pub amount: ResourceRefundAmount,
}

/// Request data: refund amount from.
#[derive(Clone, Debug, Default)]
pub struct ReqRefundAmountFrom {
    pub account: String,
    pub amount: i32,
}

/// Request data: refund amount info.
#[derive(Clone, Debug, Default)]
pub struct ReqRefundAmountInfo {
    pub refund: i32,
    pub from: Option<Vec<ReqRefundAmountFrom>>,
    pub currency: String,
    pub total: i32,
    pub payer_total: Option<i32>,
    pub payer_refund: Option<i32>,
    pub settlement_refund: Option<i32>,
    pub settlement_total: Option<i32>,
    pub discount_refund: Option<i32>,
    pub refund_fee: Option<i32>,
}

/// Request data: refund goods detail.
#[derive(Clone, Debug, Default)]
pub struct ReqRefundGoodsDetail {
    pub merchant_goods_id: String,
    pub wechatpay_goods_id: Option<String>,
    pub goods_name: Option<String>,
    pub unit_price: i32,
    pub refund_amount: i32,
    pub refund_quantity: i32,
}

/// Request data: refund order.
#[derive(Clone, Debug, Default)]
pub struct ReqRefundOrder {
    pub sub_mchid: Option<String>,
    pub transaction_id: Option<String>,
    pub out_trade_no: Option<String>,
    pub out_refund_no: String,
    pub reason: Option<String>,
    pub funds_account: Option<String>,
    pub amount: ReqRefundAmountInfo,
    pub notify_url: Option<String>,
    pub goods_detail: Option<Vec<ReqRefundGoodsDetail>>,
}

/// Request data: refund promotion detail.
#[derive(Clone, Debug, Default)]
pub struct ReqRefundPromotionDetail {
    pub promotion_id: String,
    pub scope: String,
    pub type_: String,
    pub amount: i32,
    pub refund_amount: i32,
    pub goods_detail: Vec<ReqRefundGoodsDetail>,
}

/// Answer to a refund request.
#[derive(Clone, Debug, Default)]
pub struct RefundResponse {
    pub refund_id: String,
    pub out_refund_no: String,
    pub transaction_id: String,
    pub out_trade_no: String,
    pub channel: String,
    pub user_received_account: String,
    pub success_time: Option<String>,
    pub create_time: String,
    pub status: String,
    pub funds_account: String,
    pub amount: ReqRefundAmountInfo,
    pub promotion_detail: Vec<ReqRefundPromotionDetail>,
}

} // verus!
