//! Bills of the certificate-based provider.

use crate::error::WeaError;
use crate::request::Operation;
use crate::text::{replace_all, replaced};
use crate::wechat::common::{service_provider, BaseTrait};
use crate::{Payment, WechatConfig};
use vstd::prelude::*;
use vstd::string::StringExecFns;

verus! {

/// The text of a choice, or of what stands for it where none was made.
pub open spec fn chosen(choice: Option<String>, otherwise: Seq<char>) -> Seq<char> {
    match choice {
        Some(text) => text@,
        None => otherwise,
    }
}

/// The path that asks for a bill of trades. All trades and a compressed file
/// are asked for where nothing else is chosen; through a service provider the
/// bill can be narrowed to the sub-merchant.
pub open spec fn trade_bill_text(
    config: WechatConfig,
    bill_date: Seq<char>,
    bill_type: Option<String>,
    tar_type: Option<String>,
    with_mchid: bool,
) -> Seq<char> {
    let path = "/v3/bill/tradebill?bill_date="@ + bill_date + "&bill_type="@ + chosen(
        bill_type,
        "ALL"@,
    ) + "&tar_type="@ + chosen(tar_type, "GZIP"@);
    if service_provider(config) && with_mchid {
        path + "&sub_mchid="@ + config.mchid@
    } else {
        path
    }
}

/// The path that asks for a bill of funds. The basic account and a compressed
/// file are asked for where nothing else is chosen.
pub open spec fn fund_bill_text(
    bill_date: Seq<char>,
    account_type: Option<String>,
    tar_type: Option<String>,
) -> Seq<char> {
    "/v3/bill/fundflowbill?bill_date="@ + bill_date + "&account_type="@ + chosen(
        account_type,
        "BASIC"@,
    ) + "&tar_type="@ + chosen(tar_type, "GZIP"@)
}

fn append_chosen(out: &mut String, choice: &Option<String>, otherwise: &str)
    ensures
        final(out)@ == old(out)@ + chosen(*choice, otherwise@),
{
    match choice {
        Some(text) => out.append(text.as_str()),
        None => out.append(otherwise),
    }
}

/// Bills of the certificate-based provider.
pub trait BillTrait {
    /// Prepares the request for a bill of trades.
    fn trade_bill(
        &self,
        bill_date: String,
        bill_type: Option<String>,
        tar_type: Option<String>,
        with_mchid: bool,
    ) -> Operation<()>;

    /// Prepares the request for a bill of funds.
    fn fund_bill(
        &self,
        bill_date: String,
        account_type: Option<String>,
        tar_type: Option<String>,
    ) -> Operation<()>;

    /// Prepares the download of a bill from the address that a bill request
    /// gave.
    fn download(&self, download_url: &str) -> Operation<()>;

    /// Tells whether a download succeeded.
    fn check_download(&self, status: u16, body: &str) -> Result<(), WeaError>;
}

impl BillTrait for Payment<WechatConfig> {
    fn trade_bill(
        &self,
        bill_date: String,
        bill_type: Option<String>,
        tar_type: Option<String>,
        with_mchid: bool,
    ) -> (op: Operation<()>)
        ensures
            op.uri@ == trade_bill_text(self.config, bill_date@, bill_type, tar_type, with_mchid),
            op.method@ == "GET"@,
    {
        let mut uri = String::from_str("/v3/bill/tradebill?bill_date=");
        uri.append(bill_date.as_str());
        uri.append("&bill_type=");
        append_chosen(&mut uri, &bill_type, "ALL");
        uri.append("&tar_type=");
        append_chosen(&mut uri, &tar_type, "GZIP");
        if self.is_sp() && with_mchid {
            uri.append("&sub_mchid=");
            uri.append(self.config.mchid.as_str());
        }
        Operation { uri, method: String::from_str("GET"), body: () }
    }

    fn fund_bill(
        &self,
        bill_date: String,
        account_type: Option<String>,
        tar_type: Option<String>,
    ) -> (op: Operation<()>)
        ensures
            op.uri@ == fund_bill_text(bill_date@, account_type, tar_type),
            op.method@ == "GET"@,
    {
        let mut uri = String::from_str("/v3/bill/fundflowbill?bill_date=");
        uri.append(bill_date.as_str());
        uri.append("&account_type=");
        append_chosen(&mut uri, &account_type, "BASIC");
        uri.append("&tar_type=");
        append_chosen(&mut uri, &tar_type, "GZIP");
        Operation { uri, method: String::from_str("GET"), body: () }
    }

    /// The path is the address without the provider's host.
    fn download(&self, download_url: &str) -> (op: Operation<()>)
        ensures
            op.uri@ == replaced(download_url@, "https://api.mch.weixin.qq.com"@, Seq::empty()),
            op.method@ == "GET"@,
    {
        proof {
            reveal_strlit("");
            assert(""@ =~= Seq::<char>::empty());
        }
        Operation {
            uri: replace_all(download_url, "https://api.mch.weixin.qq.com", ""),
            method: String::from_str("GET"),
            body: (),
        }
    }

    /// A download succeeded where its status is one of the 200s; else the
    /// error has the kind `Status` and the body as message.
    fn check_download(&self, status: u16, body: &str) -> (r: Result<(), WeaError>)
        ensures
            r is Ok <==> 200 <= status < 300,
            r matches Err(err) ==> err.kind@ == "Status"@ && err.message@ == body@,
    {
        if 200 <= status && status < 300 {
            Ok(())
        } else {
            Err(WeaError::new("Status", String::from_str(body)))
        }
    }
}

} // verus!
