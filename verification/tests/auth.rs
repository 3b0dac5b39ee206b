use cilicili::auth::{
    login_success, poll_error, poll_request, poll_url, qr_code_error, qr_code_url,
    user_info_http_error, user_info_url, user_profile_result,
};
use cilicili::fetch::HttpStatus;
use cilicili::greet;
use cilicili::storage::{login_key, store_file};
use cilicili::types::{
    LoginSuccessData, PollData, PollResponse, StoredLoginData, UserInfoData, UserInfoResponse,
    UserProfile, VipInfo,
};

#[test]
fn addresses() {
    assert_eq!(qr_code_url(), "https://passport.bilibili.com/x/passport-login/web/qrcode/generate");
    assert_eq!(user_info_url(), "https://api.bilibili.com/x/web-interface/nav");
}

#[test]
fn refused_requests_are_reported_with_their_status() {
    assert_eq!(qr_code_error(&HttpStatus::of(500)), "Failed to get QR code: 500 Internal Server Error");
    assert_eq!(poll_error(&HttpStatus::of(412)), "Polling failed: 412 Precondition Failed");
    assert_eq!(user_info_http_error(&HttpStatus::of(401)), "Failed to get user info: 401 Unauthorized");
}

#[test]
fn poll_url_appends_the_key() {
    assert_eq!(
        poll_url("k 1"),
        "https://passport.bilibili.com/x/passport-login/web/qrcode/poll?qrcode_key=k 1"
    );
}

#[test]
fn poll_request_appends_the_key() {
    let request = poll_request("abc123").unwrap();
    assert_eq!(
        request.url,
        "https://passport.bilibili.com/x/passport-login/web/qrcode/poll?qrcode_key=abc123"
    );
    assert_eq!(request.parsed.host_str(), Some("passport.bilibili.com"));
    assert_eq!(request.parsed.path(), "/x/passport-login/web/qrcode/poll");
    assert_eq!(request.parsed.query(), Some("qrcode_key=abc123"));
}

#[test]
fn poll_request_keeps_an_odd_key_as_it_is() {
    let request = poll_request("a b&c=d").unwrap();
    assert_eq!(
        request.url,
        "https://passport.bilibili.com/x/passport-login/web/qrcode/poll?qrcode_key=a b&c=d"
    );
    assert_eq!(request.parsed.query(), Some("qrcode_key=a%20b&c=d"));
    assert!(poll_request("").is_ok());
}

fn poll_data() -> PollData {
    PollData {
        code: 0,
        message: "0".to_string(),
        url: Some("https://passport.biligame.com/crossDomain".to_string()),
        refresh_token: Some("r".to_string()),
        timestamp: Some(1700000000000),
    }
}

#[test]
fn login_success_takes_answer_and_cookies() {
    let login = login_success(PollResponse { data: poll_data() }, Some("SESSDATA=x".to_string()));
    assert_eq!(login, LoginSuccessData { poll_data: poll_data(), cookies: "SESSDATA=x".to_string() });
    let login = login_success(PollResponse { data: poll_data() }, None);
    assert_eq!(login.cookies, "");
    assert_eq!(login.poll_data, poll_data());
}

fn user_info(code: i32, message: &str) -> UserInfoResponse {
    UserInfoResponse {
        code,
        message: message.to_string(),
        ttl: 1,
        data: UserInfoData {
            is_login: true,
            email_verified: 1,
            face: "https://i0.hdslb.com/face.jpg".to_string(),
            mid: 42,
            mobile_verified: 1,
            moral: 70,
            scores: 0,
            uname: "用户".to_string(),
            vip_due_date: Some(1),
            vip_status: 1,
            vip_type: 2,
            vip_pay_type: None,
            vip_theme_type: None,
            vip_avatar_subscript: None,
            vip_nickname_color: None,
            vip: VipInfo { vip_type: 2, vip_status: 1, due_date: None },
            has_shop: false,
            shop_url: None,
            answer_status: 0,
            is_senior_member: None,
            is_jury: None,
        },
    }
}

#[test]
fn user_profile_is_read_from_the_account_record() {
    assert_eq!(
        user_profile_result(user_info(0, "0")),
        Ok(UserProfile {
            name: "用户".to_string(),
            avatar: "https://i0.hdslb.com/face.jpg".to_string(),
            mid: 42,
            vip_type: 1,
        })
    );
}

#[test]
fn user_profile_of_a_refused_request_is_the_platform_message() {
    assert_eq!(
        user_profile_result(user_info(-101, "账号未登录")),
        Err("Failed to get user info: 账号未登录".to_string())
    );
}

#[test]
fn login_is_kept_under_a_fixed_key() {
    assert_eq!(store_file(), "login.json");
    assert_eq!(login_key(), "login_data");
    let stored = StoredLoginData { cookies: "c".to_string(), user_profile: None, login_time: 1 };
    assert_eq!(stored.clone(), stored);
}

#[test]
fn greeting() {
    assert_eq!(greet("世界"), "Hello, 世界! You've been greeted from Rust!");
    assert_eq!(greet(""), "Hello, ! You've been greeted from Rust!");
}
