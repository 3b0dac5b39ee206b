//! Logging in with a QR code and reading the profile of the logged-in user:
//! the addresses that are asked and how the platform's answers are read.

use crate::fetch::{HttpStatus, HttpStatusView};
use crate::text::join2;
use crate::types::{LoginSuccessData, PollResponse, UserInfoResponse, UserProfile};
use vstd::prelude::*;

verus! {

/// A parsed address, as the URL library holds it.
#[verifier::external_type_specification]
#[verifier::external_body]
pub struct ExUrl(url::Url);

/// Why the URL library rejects a text as an absolute address, in its own
/// words, or nothing where it accepts the text.
pub uninterp spec fn url_parse_error(address: Seq<char>) -> Option<Seq<char>>;

/// Trusted: `Url::parse` accepts or rejects a text by its characters alone,
/// and the `Display` form of its error depends on the error alone; the
/// rejection is named [`url_parse_error`].
#[verifier::external_body]
pub(crate) fn parse_url(address: &str) -> (r: Result<url::Url, String>)
    ensures
        match r {
            Ok(_) => url_parse_error(address@) is None,
            Err(e) => url_parse_error(address@) == Some(e@),
        },
{
    match url::Url::parse(address) {
        Ok(parsed) => Ok(parsed),
        Err(e) => Err(e.to_string()),
    }
}

/// The address that issues a login QR code.
pub open spec fn qr_code_url_text() -> Seq<char> {
    "https://passport.bilibili.com/x/passport-login/web/qrcode/generate"@
}

/// The address that issues a login QR code.
pub fn qr_code_url() -> (url: &'static str)
    ensures
        url@ == qr_code_url_text(),
{
    "https://passport.bilibili.com/x/passport-login/web/qrcode/generate"
}

/// The report of a QR code that was refused.
pub open spec fn qr_code_error_of(status: HttpStatusView) -> Seq<char> {
    "Failed to get QR code: "@ + status.text
}

/// Builds the report of a QR code that was refused.
pub fn qr_code_error(status: &HttpStatus) -> (report: String)
    ensures
        report@ == qr_code_error_of(status@),
{
    join2("Failed to get QR code: ", status.text.as_str())
}

/// The address that tells whether the QR code with the given key has been
/// scanned. The key is appended as it is.
pub open spec fn poll_url_of(qrcode_key: Seq<char>) -> Seq<char> {
    "https://passport.bilibili.com/x/passport-login/web/qrcode/poll?qrcode_key="@ + qrcode_key
}

/// Builds the address that tells whether a QR code has been scanned.
pub fn poll_url(qrcode_key: &str) -> (url: String)
    ensures
        url@ == poll_url_of(qrcode_key@),
{
    join2("https://passport.bilibili.com/x/passport-login/web/qrcode/poll?qrcode_key=", qrcode_key)
}

/// A poll that is ready to be sent.
#[derive(Debug)]
pub struct PollRequest {
    /// The address to ask.
    pub url: String,
    /// The same address in parsed form, under which the cookies of the answer
    /// are filed.
    pub parsed: url::Url,
}

/// Prepares a poll. The address is checked before anything is sent: a key
/// that makes it invalid fails here, with the URL library's reason.
pub fn poll_request(qrcode_key: &str) -> (r: Result<PollRequest, String>)
    ensures
        match r {
            Ok(request) => request.url@ == poll_url_of(qrcode_key@) && url_parse_error(
                poll_url_of(qrcode_key@),
            ) is None,
            Err(reason) => url_parse_error(poll_url_of(qrcode_key@)) == Some(reason@),
        },
{
    let url = poll_url(qrcode_key);
    match parse_url(url.as_str()) {
        Ok(parsed) => Ok(PollRequest { url, parsed }),
        Err(reason) => Err(reason),
    }
}

/// The report of a poll that was refused.
pub open spec fn poll_error_of(status: HttpStatusView) -> Seq<char> {
    "Polling failed: "@ + status.text
}

/// Builds the report of a poll that was refused.
pub fn poll_error(status: &HttpStatus) -> (report: String)
    ensures
        report@ == poll_error_of(status@),
{
    join2("Polling failed: ", status.text.as_str())
}

/// What a poll hands to the user interface: the platform's answer, and the
/// cookies filed under the poll's address, or an empty text where there are
/// none.
pub fn login_success(response: PollResponse, cookies: Option<String>) -> (login: LoginSuccessData)
    ensures
        login.poll_data == response.data,
        login.cookies@ == (match cookies {
            Some(text) => text@,
            None => Seq::<char>::empty(),
        }),
{
    let cookies = match cookies {
        Some(text) => text,
        None => String::new(),
    };
    LoginSuccessData { poll_data: response.data, cookies }
}

/// The address that describes the logged-in user.
pub open spec fn user_info_url_text() -> Seq<char> {
    "https://api.bilibili.com/x/web-interface/nav"@
}

/// The address that describes the logged-in user.
pub fn user_info_url() -> (url: &'static str)
    ensures
        url@ == user_info_url_text(),
{
    "https://api.bilibili.com/x/web-interface/nav"
}

/// The report of a profile that could not be had: the platform's message, or
/// the status of a refused request.
pub open spec fn user_info_error_of(detail: Seq<char>) -> Seq<char> {
    "Failed to get user info: "@ + detail
}

/// Builds the report of a profile request that was refused.
pub fn user_info_http_error(status: &HttpStatus) -> (report: String)
    ensures
        report@ == user_info_error_of(status.text@),
{
    join2("Failed to get user info: ", status.text.as_str())
}

/// Reads the platform's account record: the user's profile where the
/// platform signals no error (code 0), else the report of what went wrong.
/// The profile's membership is the record's membership status, which tells
/// whether the membership is active, not the kind of membership.
pub fn user_profile_result(response: UserInfoResponse) -> (r: Result<UserProfile, String>)
    ensures
        match r {
            Ok(profile) => {
                &&& response.code == 0
                &&& profile.name == response.data.uname
                &&& profile.avatar == response.data.face
                &&& profile.mid == response.data.mid
                &&& profile.vip_type == response.data.vip_status
            },
            Err(report) => response.code != 0 && report@ == user_info_error_of(response.message@),
        },
{
    if response.code == 0 {
        Ok(
            UserProfile {
                name: response.data.uname,
                avatar: response.data.face,
                mid: response.data.mid,
                vip_type: response.data.vip_status,
            },
        )
    } else {
        Err(join2("Failed to get user info: ", response.message.as_str()))
    }
}

} // verus!
