//! Data of payment notifications.

use crate::error::WeaError;
use crate::request::first_value;
use crate::text::same_text;
use vstd::prelude::*;
use vstd::string::StringExecFns;

verus! {

/// Funds channel used by a payment, as a notification reports it.
#[derive(Clone, Debug, Default)]
pub struct NotifyFundBill {
    pub fund_channel: Option<String>,
    pub amount: Option<String>,
}

/// Contribution of another party to a voucher.
#[derive(Clone, Debug, Default)]
pub struct NotifyOtherContributeDetail {
    pub contribute_amount: Option<String>,
    pub contribute_type: Option<String>,
}

/// Voucher used by a payment, as a notification reports it.
#[derive(Clone, Debug, Default)]
pub struct NotifyVoucherDetail {
    pub voucher_id: String,
    pub template_id: Option<String>,
    pub name: String,
    pub type_: String,
    pub amount: String,
    pub merchant_contribute: Option<String>,
    pub other_contribute: Option<String>,
    pub other_contribute_detail: Option<NotifyOtherContributeDetail>,
    pub memo: Option<String>,
}

/// Parameters of a payment notification.
#[derive(Clone, Debug, Default)]
pub struct NotifyOrderBody {
    pub notify_time: String,
    pub notify_type: String,
    pub notify_id: String,
    pub charset: Option<String>,
    pub version: Option<String>,
    pub sign_type: Option<String>,
    pub sign: Option<String>,
    pub trade_no: String,
    pub app_id: String,
    pub auth_app_id: Option<String>,
    pub out_trade_no: String,
    pub out_biz_no: Option<String>,
    pub buyer_id: String,
    pub buyer_open_id: Option<String>,
    pub buyer_logon_id: String,
    pub seller_id: Option<String>,
    pub seller_email: Option<String>,
    pub trade_status: String,
    pub total_amount: String,
    pub receipt_amount: String,
    pub invoice_amount: Option<String>,
    pub buyer_pay_amount: Option<String>,
    pub point_amount: Option<String>,
    pub refund_fee: Option<String>,
    pub send_back_fee: Option<String>,
    pub subject: Option<String>,
    pub body: Option<String>,
    pub gmt_create: Option<String>,
    pub gmt_payment: Option<String>,
    pub gmt_refund: Option<String>,
    pub gmt_close: Option<String>,
    pub fund_bill_list: Option<String>,
    pub passback_params: Option<String>,
    pub biz_settle_mode: Option<String>,
}

/// The names of the parameters that a payment notification must have.
pub open spec fn required_names() -> Seq<Seq<char>> {
    seq![
        "notify_time"@,
        "notify_type"@,
        "notify_id"@,
        "trade_no"@,
        "app_id"@,
        "out_trade_no"@,
        "buyer_id"@,
        "buyer_logon_id"@,
        "trade_status"@,
        "total_amount"@,
        "receipt_amount"@,
    ]
}

/// Whether `body` holds the parameters `params`: each field has the value of
/// the first parameter with its name, and a field that may be missing is
/// `None` where no parameter has its name.
pub open spec fn holds_params(body: NotifyOrderBody, params: Seq<(Seq<char>, Seq<char>)>) -> bool {
    &&& Some(body.notify_time@) == first_value(params, "notify_time"@)
    &&& Some(body.notify_type@) == first_value(params, "notify_type"@)
    &&& Some(body.notify_id@) == first_value(params, "notify_id"@)
    &&& body.charset.deep_view() == first_value(params, "charset"@)
    &&& body.version.deep_view() == first_value(params, "version"@)
    &&& body.sign_type.deep_view() == first_value(params, "sign_type"@)
    &&& body.sign.deep_view() == first_value(params, "sign"@)
    &&& Some(body.trade_no@) == first_value(params, "trade_no"@)
    &&& Some(body.app_id@) == first_value(params, "app_id"@)
    &&& body.auth_app_id.deep_view() == first_value(params, "auth_app_id"@)
    &&& Some(body.out_trade_no@) == first_value(params, "out_trade_no"@)
    &&& body.out_biz_no.deep_view() == first_value(params, "out_biz_no"@)
    &&& Some(body.buyer_id@) == first_value(params, "buyer_id"@)
    &&& body.buyer_open_id.deep_view() == first_value(params, "buyer_open_id"@)
    &&& Some(body.buyer_logon_id@) == first_value(params, "buyer_logon_id"@)
    &&& body.seller_id.deep_view() == first_value(params, "seller_id"@)
    &&& body.seller_email.deep_view() == first_value(params, "seller_email"@)
    &&& Some(body.trade_status@) == first_value(params, "trade_status"@)
    &&& Some(body.total_amount@) == first_value(params, "total_amount"@)
    &&& Some(body.receipt_amount@) == first_value(params, "receipt_amount"@)
    &&& body.invoice_amount.deep_view() == first_value(params, "invoice_amount"@)
    &&& body.buyer_pay_amount.deep_view() == first_value(params, "buyer_pay_amount"@)
    &&& body.point_amount.deep_view() == first_value(params, "point_amount"@)
    &&& body.refund_fee.deep_view() == first_value(params, "refund_fee"@)
    &&& body.send_back_fee.deep_view() == first_value(params, "send_back_fee"@)
    &&& body.subject.deep_view() == first_value(params, "subject"@)
    &&& body.body.deep_view() == first_value(params, "body"@)
    &&& body.gmt_create.deep_view() == first_value(params, "gmt_create"@)
    &&& body.gmt_payment.deep_view() == first_value(params, "gmt_payment"@)
    &&& body.gmt_refund.deep_view() == first_value(params, "gmt_refund"@)
    &&& body.gmt_close.deep_view() == first_value(params, "gmt_close"@)
    &&& body.fund_bill_list.deep_view() == first_value(params, "fund_bill_list"@)
    &&& body.passback_params.deep_view() == first_value(params, "passback_params"@)
    &&& body.biz_settle_mode.deep_view() == first_value(params, "biz_settle_mode"@)
}

/// Whether the parameters have every name that a notification must have.
pub open spec fn has_required(params: Seq<(Seq<char>, Seq<char>)>) -> bool {
    forall|i: int|
        0 <= i < required_names().len() ==> first_value(params, #[trigger] required_names()[i])
            is Some
}

fn find_param(params: &Vec<(String, String)>, name: &str) -> (value: Option<String>)
    ensures
        value.deep_view() == first_value(params.deep_view(), name@),
{
    let mut i: usize = 0;
    assert(params.deep_view().skip(0) =~= params.deep_view());
    while i < params.len()
        invariant
            i <= params.len(),
            first_value(params.deep_view(), name@) == first_value(
                params.deep_view().skip(i as int),
                name@,
            ),
        decreases params.len() - i,
    {
        proof {
            let rest = params.deep_view().skip(i as int);
            assert(rest[0] == (params[i as int].0@, params[i as int].1@));
            assert(rest.drop_first() =~= params.deep_view().skip(i + 1));
        }
        if same_text(params[i].0.as_str(), name) {
            return Some(params[i].1.clone());
        }
        i += 1;
    }
    None
}

fn need_param(params: &Vec<(String, String)>, name: &str) -> (r: Result<String, WeaError>)
    ensures
        match r {
            Ok(value) => first_value(params.deep_view(), name@) == Some(value@),
            Err(err) => first_value(params.deep_view(), name@) is None && err.kind@
                == "Serialization"@,
        },
{
    match find_param(params, name) {
        Some(value) => Ok(value),
        None => {
            let mut message = String::from_str("missing field ");
            message.append(name);
            Err(WeaError::new("Serialization", message))
        },
    }
}

impl NotifyOrderBody {
    /// Reads a payment notification from its parameters. The error kind is
    /// `Serialization` where a parameter that must be there is missing;
    /// parameters of other names are passed over.
    pub fn from_params(params: &Vec<(String, String)>) -> (r: Result<NotifyOrderBody, WeaError>)
        ensures
            match r {
                Ok(body) => has_required(params.deep_view()) && holds_params(
                    body,
                    params.deep_view(),
                ),
                Err(err) => !has_required(params.deep_view()) && err.kind@ == "Serialization"@,
            },
    {
        proof {
            assert(required_names()[0] == "notify_time"@);
            assert(required_names()[1] == "notify_type"@);
            assert(required_names()[2] == "notify_id"@);
            assert(required_names()[3] == "trade_no"@);
            assert(required_names()[4] == "app_id"@);
            assert(required_names()[5] == "out_trade_no"@);
            assert(required_names()[6] == "buyer_id"@);
            assert(required_names()[7] == "buyer_logon_id"@);
            assert(required_names()[8] == "trade_status"@);
            assert(required_names()[9] == "total_amount"@);
            assert(required_names()[10] == "receipt_amount"@);
        }
        let notify_time = need_param(params, "notify_time")?;
        let notify_type = need_param(params, "notify_type")?;
        let notify_id = need_param(params, "notify_id")?;
        let trade_no = need_param(params, "trade_no")?;
        let app_id = need_param(params, "app_id")?;
        let out_trade_no = need_param(params, "out_trade_no")?;
        let buyer_id = need_param(params, "buyer_id")?;
        let buyer_logon_id = need_param(params, "buyer_logon_id")?;
        let trade_status = need_param(params, "trade_status")?;
        let total_amount = need_param(params, "total_amount")?;
        let receipt_amount = need_param(params, "receipt_amount")?;
        let body = NotifyOrderBody {
            notify_time,
            notify_type,
            notify_id,
            charset: find_param(params, "charset"),
            version: find_param(params, "version"),
            sign_type: find_param(params, "sign_type"),
            sign: find_param(params, "sign"),
            trade_no,
            app_id,
            auth_app_id: find_param(params, "auth_app_id"),
            out_trade_no,
            out_biz_no: find_param(params, "out_biz_no"),
            buyer_id,
            buyer_open_id: find_param(params, "buyer_open_id"),
            buyer_logon_id,
            seller_id: find_param(params, "seller_id"),
            seller_email: find_param(params, "seller_email"),
            trade_status,
            total_amount,
            receipt_amount,
            invoice_amount: find_param(params, "invoice_amount"),
            buyer_pay_amount: find_param(params, "buyer_pay_amount"),
            point_amount: find_param(params, "point_amount"),
            refund_fee: find_param(params, "refund_fee"),
            send_back_fee: find_param(params, "send_back_fee"),
            subject: find_param(params, "subject"),
            body: find_param(params, "body"),
            gmt_create: find_param(params, "gmt_create"),
            gmt_payment: find_param(params, "gmt_payment"),
            gmt_refund: find_param(params, "gmt_refund"),
            gmt_close: find_param(params, "gmt_close"),
            fund_bill_list: find_param(params, "fund_bill_list"),
            passback_params: find_param(params, "passback_params"),
            biz_settle_mode: find_param(params, "biz_settle_mode"),
        };
        proof {
            let names = required_names();
            assert forall|i: int| 0 <= i < names.len() implies first_value(
                params.deep_view(),
                #[trigger] names[i],
            ) is Some by {
                if i == 0 {
                    assert(names[i] == "notify_time"@);
                }
                if i == 1 {
                    assert(names[i] == "notify_type"@);
                }
                if i == 2 {
                    assert(names[i] == "notify_id"@);
                }
                if i == 3 {
                    assert(names[i] == "trade_no"@);
                }
                if i == 4 {
                    assert(names[i] == "app_id"@);
                }
                if i == 5 {
                    assert(names[i] == "out_trade_no"@);
                }
                if i == 6 {
                    assert(names[i] == "buyer_id"@);
                }
                if i == 7 {
                    assert(names[i] == "buyer_logon_id"@);
                }
                if i == 8 {
                    assert(names[i] == "trade_status"@);
                }
                if i == 9 {
                    assert(names[i] == "total_amount"@);
                }
                if i == 10 {
                    assert(names[i] == "receipt_amount"@);
                }
            }
        }
        Ok(body)
    }
}

} // verus!
