//! The usage query: the request's fixed parts and what the response status
//! means. The request itself and the decoding of its body happen outside.

use vstd::prelude::*;

verus! {

/// The usage-reporting endpoint.
pub const QUOTA_ENDPOINT: &'static str = "https://app.factory.ai/api/organization/subscription/schedule";

/// The user agent sent with the request.
pub const QUOTA_USER_AGENT: &'static str =
    "Mozilla/5.0 (Macintosh; Intel Mac OS X 10_15_7) AppleWebKit/537.36";

/// The account that a response describes.
#[derive(Debug, Clone, PartialEq, Eq)]
pub struct Customer {
    pub email: String,
}

/// Why the usage query failed.
#[derive(Debug, PartialEq, Eq)]
pub enum QuotaError {
    /// The request could not be sent or answered.
    Network { detail: String },
    /// The key was refused (status 401).
    InvalidKey,
    /// The key may not see the resource (status 403).
    Forbidden,
    /// Any other status outside 200 to 299, as displayed.
    Failed { status: String },
    /// The body did not decode.
    Decode { detail: String },
}

/// The text shown for each failure.
pub open spec fn quota_error_text(e: QuotaError) -> Seq<char> {
    match e {
        QuotaError::Network { detail } => "网络请求失败: "@ + detail@,
        QuotaError::InvalidKey => "API Key 无效或已过期"@,
        QuotaError::Forbidden => "没有权限访问此资源"@,
        QuotaError::Failed { status } => "请求失败: "@ + status@,
        QuotaError::Decode { detail } => "解析响应失败: "@ + detail@,
    }
}

fn with_detail(head: &str, detail: &String) -> (r: String)
    ensures
        r@ == head@ + detail@,
{
    let mut r = String::from_str(head);
    r.append(detail.as_str());
    r
}

impl QuotaError {
    /// The text shown to the user for this failure.
    pub fn message(&self) -> (r: String)
        ensures
            r@ == quota_error_text(*self),
    {
        match self {
            QuotaError::Network { detail } => with_detail("网络请求失败: ", detail),
            QuotaError::InvalidKey => String::from_str("API Key 无效或已过期"),
            QuotaError::Forbidden => String::from_str("没有权限访问此资源"),
            QuotaError::Failed { status } => with_detail("请求失败: ", status),
            QuotaError::Decode { detail } => with_detail("解析响应失败: ", detail),
        }
    }
}

/// The authorization header's value for `api_key`.
pub fn bearer_header(api_key: &str) -> (r: String)
    ensures
        r@ == "Bearer "@ + api_key@,
{
    let mut r = String::from_str("Bearer ");
    r.append(api_key);
    r
}

/// What a response status means: 401 and 403 have errors of their own,
/// any other status outside 200 to 299 fails with the status as displayed
/// (`status_text`), and the rest go on to decoding.
pub fn check_status(status: u16, status_text: &str) -> (r: Result<(), QuotaError>)
    ensures
        status == 401 ==> r == Err::<(), QuotaError>(QuotaError::InvalidKey),
        status == 403 ==> r == Err::<(), QuotaError>(QuotaError::Forbidden),
        status != 401 && status != 403 && !(200 <= status <= 299) ==> (r matches Err(
            QuotaError::Failed { status: s },
        ) && s@ == status_text@),
        200 <= status <= 299 ==> r is Ok,
{
    if status == 401 {
        Err(QuotaError::InvalidKey)
    } else if status == 403 {
        Err(QuotaError::Forbidden)
    } else if status < 200 || status > 299 {
        Err(QuotaError::Failed { status: String::from_str(status_text) })
    } else {
        Ok(())
    }
}

} // verus!
