//! Data of orders: placing, querying, closing and cancelling.

use vstd::prelude::*;

verus! {

/// Request data: goods detail.
#[derive(Clone, Debug, Default)]
pub struct ReqGoodsDetail {
    pub goods_id: String,
    pub goods_name: String,
    pub quantity: i32,
    pub price: String,
    pub goods_category: Option<String>,
    pub categories_tree: Option<String>,
    pub show_url: Option<String>,
    pub alipay_goods_id: Option<String>,
    pub body: Option<String>,
    pub out_item_id: Option<String>,
    pub out_sku_id: Option<String>,
}

/// Request data: extend params.
#[derive(Clone, Debug, Default)]
pub struct ReqExtendParams {
    pub sys_service_provider_id: Option<String>,
    pub specified_seller_name: Option<String>,
    pub card_type: Option<String>,
}

/// Request data: business params.
#[derive(Clone, Debug, Default)]
pub struct ReqBusinessParams {
    pub mc_create_trade_ip: Option<String>,
}

/// Request data: promo param.
#[derive(Clone, Debug, Default)]
pub struct ReqPromoParam {
    pub actual_order_time: Option<String>,
}

/// Request data: ext user info.
#[derive(Clone, Debug, Default)]
pub struct ReqExtUserInfo {
    pub cert_no: Option<String>,
    pub min_age: Option<String>,
    pub name: Option<String>,
    pub mobile: Option<String>,
    pub cert_type: Option<String>,
    pub need_check_info: Option<String>,
    pub identity_hash: Option<String>,
}

/// Request data: sub merchant.
#[derive(Clone, Debug, Default)]
pub struct ReqSubMerchant {
    pub merchant_id: String,
    pub merchant_type: Option<String>,
}

/// Request data: invoice key info.
#[derive(Clone, Debug, Default)]
pub struct ReqInvoiceKeyInfo {
    pub is_support_invoice: String,
    pub invoice_merchant_name: String,
    pub tax_no: String,
}

/// Request data: invoice detail.
#[derive(Clone, Debug, Default)]
pub struct ReqInvoiceDetail {
    pub code: String,
    pub name: String,
    pub num: String,
    pub sum_price: String,
    pub tax_rate: String,
}

/// Request data: invoice info.
#[derive(Clone, Debug, Default)]
pub struct ReqInvoiceInfo {
    pub key_info: ReqInvoiceKeyInfo,
    pub details: Vec<ReqInvoiceDetail>,
}

/// Request data: access params.
#[derive(Clone, Debug, Default)]
pub struct ReqAccessParams {
    pub channel: String,
}

/// Request data: period rule params.
#[derive(Clone, Debug, Default)]
pub struct ReqPeriodRuleParams {
    pub period_type: String,
    pub period: String,
    pub execute_time: String,
    pub single_amount: String,
    pub total_amount: Option<String>,
    pub total_payments: Option<String>,
}

/// Request data: sign params.
#[derive(Clone, Debug, Default)]
pub struct ReqSignParams {
    pub product_code: String,
    pub personal_product_code: String,
    pub sign_scene: String,
    pub access_params: ReqAccessParams,
    pub period_rule_params: ReqPeriodRuleParams,
    pub effect_time: Option<String>,
    pub external_agreement_no: Option<String>,
    pub external_logon_id: Option<String>,
    pub sign_notify_url: Option<String>,
}

/// Request data: order body.
#[derive(Clone, Debug, Default)]
pub struct ReqOrderBody {
    pub out_trade_no: String,
    pub total_amount: String,
    pub subject: String,
    pub auth_code: Option<String>,
    pub auth_no: Option<String>,
    pub auth_confirm_mode: Option<String>,
    pub scene: Option<String>,
    pub notify_url: Option<String>,
    pub auth_token: Option<String>,
    pub quit_url: Option<String>,
    pub qr_pay_mode: Option<String>,
    pub qrcode_width: Option<String>,
    pub product_code: Option<String>,
    pub op_app_id: Option<String>,
    pub buyer_id: Option<String>,
    pub buyer_open_id: Option<String>,
    pub op_buyer_open_id: Option<String>,
    pub seller_id: Option<String>,
    pub body: Option<String>,
    pub goods_detail: Option<Vec<ReqGoodsDetail>>,
    pub time_expire: Option<String>,
    pub sub_merchant: Option<ReqSubMerchant>,
    pub extend_params: Option<ReqExtendParams>,
    pub passback_params: Option<String>,
    pub business_params: Option<ReqBusinessParams>,
    pub discountable_amount: Option<String>,
    pub promo_params: Option<ReqPromoParam>,
    pub integration_type: Option<String>,
    pub request_from_url: Option<String>,
    pub store_id: Option<String>,
    pub operator_id: Option<String>,
    pub terminal_id: Option<String>,
    pub merchant_order_no: Option<String>,
    pub ext_user_info: Option<ReqExtUserInfo>,
    pub query_options: Option<Vec<String>>,
    pub agreement_sign_params: Option<ReqSignParams>,
}

/// Response data: trade fund bill.
#[derive(Clone, Debug, Default)]
pub struct ResTradeFundBill {
    pub fund_channel: String,
    pub amount: String,
    pub real_amount: Option<String>,
}

/// Response data: voucher detail.
#[derive(Clone, Debug, Default)]
pub struct ResVoucherDetail {
    pub id: String,
    pub name: String,
    pub type_: String,
    pub amount: String,
    pub merchant_contribute: Option<String>,
    pub other_contribute: Option<String>,
    pub memo: Option<String>,
    pub template_id: Option<String>,
    pub purchase_buyer_contribute: Option<String>,
    pub purchase_merchant_contribute: Option<String>,
    pub purchase_ant_contribute: Option<String>,
    pub other_contribute_detail: Option<Vec<ResContributeDetail>>,
}

/// Response data: contribute detail.
#[derive(Clone, Debug, Default)]
pub struct ResContributeDetail {
    pub contribute_amount: String,
    pub contribute_type: String,
}

/// Response data: order body.
#[derive(Clone, Debug, Default)]
pub struct ResOrderBody {
    pub trade_no: Option<String>,
    pub out_trade_no: Option<String>,
    pub qr_code: Option<String>,
    pub order_str: Option<String>,
    pub page_redirection_data: Option<String>,
    pub buyer_logon_id: Option<String>,
    pub trade_status: Option<String>,
    pub total_amount: Option<String>,
    pub receipt_amount: Option<String>,
    pub store_id: Option<String>,
    pub terminal_id: Option<String>,
    pub gmt_payment: Option<String>,
    pub fund_bill_list: Option<Vec<ResTradeFundBill>>,
    pub buyer_user_id: Option<String>,
    pub send_pay_date: Option<String>,
    pub buyer_open_id: Option<String>,
    pub buyer_user_type: Option<String>,
    pub mdiscount_amount: Option<String>,
    pub discount_amount: Option<String>,
    pub ext_infos: Option<String>,
    pub buyer_pay_amount: Option<String>,
    pub point_amount: Option<String>,
    pub invoice_amount: Option<String>,
    pub store_name: Option<String>,
    pub discount_goods_detail: Option<String>,
    pub voucher_detail_list: Option<ResVoucherDetail>,
    pub req_goods_detail: Option<Vec<ReqGoodsDetail>>,
    pub period_scene: Option<String>,
    pub trans_currency: Option<String>,
    pub settle_currency: Option<String>,
    pub settle_amount: Option<String>,
    pub pay_currency: Option<String>,
    pub pay_amount: Option<String>,
    pub settle_trans_rate: Option<String>,
    pub trans_pay_rate: Option<String>,
    pub industry_sepc_detail: Option<String>,
    pub industry_sepc_detail_acc: Option<String>,
    pub charge_amount: Option<String>,
    pub charge_flags: Option<String>,
    pub settlement_id: Option<String>,
    pub trade_settle_info: Option<ResTradeSettleInfo>,
    pub auth_trade_pay_mode: Option<String>,
    pub alipay_sub_merchant_id: Option<String>,
    pub hb_fq_pay_info: Option<ResHbFqPayInfo>,
    pub fulfillment_detail_list: Option<ResFulfillmentDetail>,
    pub additional_status: Option<String>,
    pub passback_params: Option<String>,
    pub credit_pay_mode: Option<String>,
    pub credit_biz_order_id: Option<String>,
    pub hyb_amount: Option<String>,
    pub bkagent_resp_info: Option<ResBkAgentRespInfo>,
    pub charge_info_list: Option<Vec<ResChargeInfo>>,
    pub biz_settle_mode: Option<String>,
}

/// Response data: charge info.
#[derive(Clone, Debug, Default)]
pub struct ResChargeInfo {
    pub charge_fee: Option<String>,
    pub original_charge_fee: Option<String>,
    pub switch_fee_rate: Option<String>,
    pub is_rating_on_trade_receiver: Option<String>,
    pub is_rating_on_switch: Option<String>,
    pub charge_type: Option<String>,
    pub sub_fee_detail_list: Option<Vec<ResSubFee>>,
}

/// Response data: sub fee.
#[derive(Clone, Debug, Default)]
pub struct ResSubFee {
    pub charge_fee: Option<String>,
    pub original_charge_fee: Option<String>,
    pub switch_fee_rate: Option<String>,
}

/// Response data: bk agent resp info.
#[derive(Clone, Debug, Default)]
pub struct ResBkAgentRespInfo {
    pub bindtrx_id: String,
    pub bindclrissr_id: String,
    pub bindpyeracctbk_id: String,
    pub bkpyeruser_code: String,
    pub estter_location: String,
}

/// Response data: fulfillment detail.
#[derive(Clone, Debug, Default)]
pub struct ResFulfillmentDetail {
    pub fulfillment_amount: String,
    pub out_request_no: String,
    pub gmt_payment: String,
}

/// Response data: hb fq pay info.
#[derive(Clone, Debug, Default)]
pub struct ResHbFqPayInfo {
    pub user_install_num: Option<String>,
}

/// Response data: trade settle info.
#[derive(Clone, Debug, Default)]
pub struct ResTradeSettleInfo {
    pub trade_unsettled_amount: Option<String>,
    pub trade_settle_detail_list: Option<Vec<ResTradeSettleDetail>>,
}

/// Response data: trade settle detail.
#[derive(Clone, Debug, Default)]
pub struct ResTradeSettleDetail {
    pub operation_type: String,
    pub operation_dt: String,
    pub amount: String,
    pub operation_serial_no: Option<String>,
    pub trans_out: Option<String>,
    pub trans_in: Option<String>,
    pub ori_trans_out: Option<String>,
    pub ori_trans_in: Option<String>,
}

/// Request data: query order body.
#[derive(Clone, Debug, Default)]
pub struct ReqQueryOrderBody {
    pub out_trade_no: Option<String>,
    pub trade_no: Option<String>,
    pub query_options: Option<Vec<String>>,
}

/// Request data: close order body.
#[derive(Clone, Debug, Default)]
pub struct ReqCloseOrderBody {
    pub out_trade_no: Option<String>,
    pub trade_no: Option<String>,
    pub operator_id: Option<String>,
    pub notify_url: Option<String>,
}

/// Response data: close order body.
#[derive(Clone, Debug, Default)]
pub struct ResCloseOrderBody {
    pub trade_no: Option<String>,
    pub out_trade_no: Option<String>,
}

/// Request data: cancel order body.
#[derive(Clone, Debug, Default)]
pub struct ReqCancelOrderBody {
    pub trade_no: Option<String>,
    pub out_trade_no: Option<String>,
}

/// Response data: cancel order body.
#[derive(Clone, Debug, Default)]
pub struct ResCancelOrderBody {
    pub out_trade_no: String,
    pub retry_flag: String,
    pub trade_no: Option<String>,
    pub action: Option<String>,
}

} // verus!
