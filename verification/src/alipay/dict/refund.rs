//! Data of refunds.

use vstd::prelude::*;

verus! {

/// Request data: refund order.
#[derive(Clone, Debug, Default)]
pub struct ReqRefundOrder {
    pub refund_amount: String,
    pub out_trade_no: Option<String>,
    pub trade_no: Option<String>,
    pub refund_reason: Option<String>,
    pub out_request_no: Option<String>,
    pub goods_detail: Option<Vec<ReqRefundGoodsDetail>>,
    pub refund_royalty_parameters: Option<Vec<ReqOpenApiRoyaltyDetailInfoPojo>>,
    pub query_options: Option<String>,
    pub related_settle_confirm_no: Option<String>,
}

/// Request data: open api royalty detail info pojo.
#[derive(Clone, Debug, Default)]
pub struct ReqOpenApiRoyaltyDetailInfoPojo {
    pub trans_in: String,
    pub royalty_type: Option<String>,
    pub trans_out: Option<String>,
    pub trans_out_type: Option<String>,
    pub trans_in_type: Option<String>,
    pub amount: Option<String>,
    pub desc: Option<String>,
    pub royalty_scene: Option<String>,
    pub trans_in_name: Option<String>,
}

/// Request data: refund goods detail.
#[derive(Clone, Debug, Default)]
pub struct ReqRefundGoodsDetail {
    pub goods_id: String,
    pub refund_amount: String,
    pub out_item_id: Option<String>,
    pub out_sku_id: Option<String>,
}

/// Response data: refund response.
#[derive(Clone, Debug)]
pub struct ResRefundResponse {
    pub trade_no: String,
    pub out_trade_no: String,
    pub buyer_logon_id: String,
    pub refund_fee: String,
    pub refund_detail_item_list: Vec<TradeFundBill>,
    pub store_name: Option<String>,
    pub buyer_user_id: Option<String>,
    pub buyer_open_id: Option<String>,
    pub send_back_fee: Option<String>,
    pub fund_change: Option<String>,
    pub refund_hyb_amount: Option<String>,
    pub refund_charge_info_list: Option<RefundChargeInfo>,
    pub voucher_detail_list: Option<Vec<super::order::ResVoucherDetail>>,
}

/// Refund charge info.
#[derive(Clone, Debug)]
pub struct RefundChargeInfo {
    pub refund_charge_fee: Option<String>,
    pub switch_fee_rate: Option<String>,
    pub charge_type: Option<String>,
    pub refund_sub_fee_detail_list: Option<Vec<RefundSubFee>>,
}

/// Refund sub fee.
#[derive(Clone, Debug)]
pub struct RefundSubFee {
    pub refund_charge_fee: Option<String>,
    pub switch_fee_rate: Option<String>,
}

/// Trade fund bill.
#[derive(Clone, Debug)]
pub struct TradeFundBill {
    pub fund_channel: String,
    pub amount: String,
    pub real_amount: Option<String>,
    pub fund_type: Option<String>,
}

/// Request data: refund query.
#[derive(Clone, Debug, Default)]
pub struct ReqRefundQuery {
    pub out_trade_no: Option<String>,
    pub trade_no: Option<String>,
    pub out_request_no: Option<String>,
    pub query_options: Option<String>,
}

/// Response data: refund query.
#[derive(Clone, Debug)]
pub struct ResRefundQuery {
    pub trade_no: Option<String>,
    pub out_trade_no: Option<String>,
    pub out_request_no: Option<String>,
    pub total_amount: Option<String>,
    pub refund_amount: Option<String>,
    pub refund_status: Option<String>,
    pub refund_royaltys: Option<Vec<ResRefundRoyalty>>,
    pub gmt_refund_pay: Option<String>,
    pub refund_detail_item_list: Option<Vec<TradeFundBill>>,
    pub send_back_fee: Option<String>,
    pub deposit_back_info: Option<DepositBackInfo>,
    pub voucher_detail_list: Option<Vec<super::order::ResVoucherDetail>>,
    pub refund_hyb_amount: Option<String>,
    pub refund_charge_info_list: Option<Vec<RefundChargeInfo>>,
    pub deposit_back_info_list: Option<Vec<DepositBackInfo>>,
}

/// Deposit back info.
#[derive(Clone, Debug)]
pub struct DepositBackInfo {
    pub has_deposit_back: Option<String>,
    pub dback_status: Option<String>,
    pub dback_amount: Option<String>,
    pub bank_ack_time: Option<String>,
    pub est_bank_receipt_time: Option<String>,
}

/// Response data: refund royalty.
#[derive(Clone, Debug)]
pub struct ResRefundRoyalty {
    pub refund_amount: String,
    pub result_code: String,
    pub royalty_type: Option<String>,
    pub royalty_amount: Option<String>,
    pub trans_out: Option<String>,
    pub trans_out_email: Option<String>,
    pub trans_in: Option<String>,
    pub trans_in_email: Option<String>,
    pub ori_trans_out: Option<String>,
    pub ori_trans_in: Option<String>,
}

} // verus!
