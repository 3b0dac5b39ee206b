//! The stream fetcher's rules: what a request for a media stream looks like,
//! when an answer counts as a success, and how each failure is reported.
//!
//! Fetching itself is done by the caller. It issues the request described by
//! a [`FetchRequest`], writes the body to the destination only after the
//! whole body has arrived, and reports a [`FetchError`] otherwise. Nothing is
//! retried.

use crate::text::{decimal, decimal_string, join2, join3};
use crate::types::text_of;
use vstd::prelude::*;

verus! {

/// Which of the two streams of a video is meant.
#[derive(Debug, Clone, Copy, PartialEq, Eq, Structural)]
pub enum StreamKind {
    Video,
    Audio,
}

/// One request header.
#[derive(Debug, Clone, PartialEq, Eq)]
pub struct Header {
    pub name: String,
    pub value: String,
}

/// What a [`Header`] holds, as mathematical values.
pub struct HeaderView {
    pub name: Seq<char>,
    pub value: Seq<char>,
}

impl View for Header {
    type V = HeaderView;

    open spec fn view(&self) -> HeaderView {
        HeaderView { name: self.name@, value: self.value@ }
    }
}

/// The headers of a list, in order.
pub open spec fn header_views(headers: Seq<Header>) -> Seq<HeaderView> {
    headers.map_values(|h: Header| h@)
}

/// A GET request for one stream, and where its body goes.
#[derive(Debug, Clone, PartialEq, Eq)]
pub struct FetchRequest {
    pub url: String,
    pub headers: Vec<Header>,
    pub user_agent: String,
    /// The longest the whole exchange may take, in seconds.
    pub timeout_secs: u64,
    /// The file that receives the body.
    pub destination: String,
}

/// What a [`FetchRequest`] holds, as mathematical values.
pub struct FetchRequestView {
    pub url: Seq<char>,
    pub headers: Seq<HeaderView>,
    pub user_agent: Seq<char>,
    pub timeout_secs: u64,
    pub destination: Seq<char>,
}

impl View for FetchRequest {
    type V = FetchRequestView;

    open spec fn view(&self) -> FetchRequestView {
        FetchRequestView {
            url: self.url@,
            headers: header_views(self.headers@),
            user_agent: self.user_agent@,
            timeout_secs: self.timeout_secs,
            destination: self.destination@,
        }
    }
}

/// The user agent that every request to the platform presents.
pub open spec fn user_agent_text() -> Seq<char> {
    "Mozilla/5.0 (Windows NT 10.0; Win64; x64) AppleWebKit/537.36 (KHTML, like Gecko) Chrome/91.0.4472.124 Safari/537.36"@
}

/// The user agent that every request to the platform presents.
pub fn user_agent() -> (agent: &'static str)
    ensures
        agent@ == user_agent_text(),
{
    "Mozilla/5.0 (Windows NT 10.0; Win64; x64) AppleWebKit/537.36 (KHTML, like Gecko) Chrome/91.0.4472.124 Safari/537.36"
}

/// How long a stream may take to arrive: five minutes.
pub const STREAM_TIMEOUT_SECS: u64 = 300;

/// How long a reachability probe may take: half a minute.
pub const PROBE_TIMEOUT_SECS: u64 = 30;

/// The page of a video, which the platform expects as the referer of a
/// stream request.
pub open spec fn referer_of(bvid: Seq<char>) -> Seq<char> {
    "https://www.bilibili.com/video/"@ + bvid
}

/// The headers without which the platform refuses a stream request: the
/// login cookies, a referer and an origin on the platform, and what a
/// browser would send along.
pub open spec fn stream_headers_of(cookies: Seq<char>, bvid: Seq<char>) -> Seq<HeaderView> {
    seq![
        HeaderView { name: "Cookie"@, value: cookies },
        HeaderView { name: "Referer"@, value: referer_of(bvid) },
        HeaderView { name: "Origin"@, value: "https://www.bilibili.com"@ },
        HeaderView { name: "Accept"@, value: "*/*"@ },
        HeaderView { name: "Accept-Language"@, value: "zh-CN,zh;q=0.9,en;q=0.8"@ },
        HeaderView { name: "Accept-Encoding"@, value: "gzip, deflate, br"@ },
        HeaderView { name: "Connection"@, value: "keep-alive"@ },
        HeaderView { name: "Sec-Fetch-Dest"@, value: "empty"@ },
        HeaderView { name: "Sec-Fetch-Mode"@, value: "cors"@ },
        HeaderView { name: "Sec-Fetch-Site"@, value: "cross-site"@ },
    ]
}

/// The request that fetches the stream at `url` into `destination`.
pub open spec fn stream_request_of(
    url: Seq<char>,
    cookies: Seq<char>,
    bvid: Seq<char>,
    destination: Seq<char>,
) -> FetchRequestView {
    FetchRequestView {
        url,
        headers: stream_headers_of(cookies, bvid),
        user_agent: user_agent_text(),
        timeout_secs: STREAM_TIMEOUT_SECS,
        destination,
    }
}

/// A header with the given name and value.
pub fn header(name: &str, value: &str) -> (h: Header)
    ensures
        h@ == (HeaderView { name: name@, value: value@ }),
{
    Header { name: String::from_str(name), value: String::from_str(value) }
}

/// The headers of a stream request.
pub fn stream_headers(cookies: &str, bvid: &str) -> (headers: Vec<Header>)
    ensures
        header_views(headers@) == stream_headers_of(cookies@, bvid@),
{
    let referer = join2("https://www.bilibili.com/video/", bvid);
    let mut headers: Vec<Header> = Vec::new();
    headers.push(header("Cookie", cookies));
    headers.push(header("Referer", referer.as_str()));
    headers.push(header("Origin", "https://www.bilibili.com"));
    headers.push(header("Accept", "*/*"));
    headers.push(header("Accept-Language", "zh-CN,zh;q=0.9,en;q=0.8"));
    headers.push(header("Accept-Encoding", "gzip, deflate, br"));
    headers.push(header("Connection", "keep-alive"));
    headers.push(header("Sec-Fetch-Dest", "empty"));
    headers.push(header("Sec-Fetch-Mode", "cors"));
    headers.push(header("Sec-Fetch-Site", "cross-site"));
    assert(header_views(headers@) =~= stream_headers_of(cookies@, bvid@));
    headers
}

/// The request that fetches one stream of a video.
pub fn stream_request(url: &str, cookies: &str, bvid: &str, destination: &str) -> (request:
    FetchRequest)
    ensures
        request@ == stream_request_of(url@, cookies@, bvid@, destination@),
{
    FetchRequest {
        url: String::from_str(url),
        headers: stream_headers(cookies, bvid),
        user_agent: String::from_str(user_agent()),
        timeout_secs: STREAM_TIMEOUT_SECS,
        destination: String::from_str(destination),
    }
}

/// Whether an HTTP status code denotes success: the codes from 200 to 299.
pub open spec fn status_is_success(code: u16) -> bool {
    200 <= code < 300
}

/// Decides whether the body of an answer is the stream (success) or a
/// diagnostic text (any other status).
pub fn is_success_status(code: u16) -> (ok: bool)
    ensures
        ok == status_is_success(code),
{
    200 <= code && code < 300
}

/// How a status code is shown to a reader: the number and its standard
/// reason phrase, as the HTTP library prints a status. Codes outside 100 to
/// 999 are no status and have no such text.
pub uninterp spec fn status_display(code: u16) -> Option<Seq<char>>;

/// Trusted: `StatusCode::from_u16` accepts exactly the codes from 100 to 999,
/// and the `Display` form of a status depends on its code alone; the text is
/// named [`status_display`].
#[verifier::external_body]
pub(crate) fn status_text(code: u16) -> (text: Option<String>)
    ensures
        text_of(text) == status_display(code),
        text is Some <==> 100 <= code <= 999,
{
    match reqwest::StatusCode::from_u16(code) {
        Ok(status) => Some(status.to_string()),
        Err(_) => None,
    }
}

/// The status of an answer: its code, and the words that show it to a reader.
#[derive(Debug, Clone, PartialEq, Eq)]
pub struct HttpStatus {
    pub code: u16,
    pub text: String,
}

/// What an [`HttpStatus`] holds, as mathematical values.
pub struct HttpStatusView {
    pub code: u16,
    pub text: Seq<char>,
}

impl View for HttpStatus {
    type V = HttpStatusView;

    open spec fn view(&self) -> HttpStatusView {
        HttpStatusView { code: self.code, text: self.text@ }
    }
}

/// The words that show a status: the given ones, or the bare number where
/// there are none.
pub open spec fn status_words(code: u16, display: Option<Seq<char>>) -> Seq<char> {
    match display {
        Some(text) => text,
        None => decimal(code as nat),
    }
}

impl HttpStatus {
    /// The status with the given code, shown by the given words, or by the
    /// bare number where there are none.
    pub fn with_text(code: u16, text: Option<String>) -> (status: HttpStatus)
        ensures
            status@ == (HttpStatusView { code, text: status_words(code, text_of(text)) }),
    {
        let text = match text {
            Some(text) => text,
            None => decimal_string(code as u64),
        };
        HttpStatus { code, text }
    }

    /// The status with the given code, shown the way the HTTP library shows
    /// it: `404 Not Found`. A code that is no status is shown bare.
    pub fn of(code: u16) -> (status: HttpStatus)
        ensures
            status@ == (HttpStatusView { code, text: status_words(code, status_display(code)) }),
    {
        HttpStatus::with_text(code, status_text(code))
    }

    /// Whether the status denotes success.
    pub fn is_success(&self) -> (ok: bool)
        ensures
            ok == status_is_success(self.code),
    {
        is_success_status(self.code)
    }
}

/// Why a stream could not be fetched. The five failures are distinct and
/// each carries the detail that the failing step gave.
#[derive(Debug, Clone, PartialEq, Eq)]
pub enum FetchError {
    /// The request could not be sent or no answer came.
    Request(String),
    /// The answer had a status other than success. `body` is the text that
    /// came with it, if it could be read.
    Status { status: HttpStatus, body: Option<String> },
    /// The answer began well but its body could not be read to the end.
    ReadBody(String),
    /// The destination could not be created.
    CreateFile(String),
    /// The body could not be written to the destination.
    WriteFile(String),
}

/// What a [`FetchError`] holds, as mathematical values.
pub enum FetchErrorView {
    Request(Seq<char>),
    Status { status: HttpStatusView, body: Option<Seq<char>> },
    ReadBody(Seq<char>),
    CreateFile(Seq<char>),
    WriteFile(Seq<char>),
}

impl View for FetchError {
    type V = FetchErrorView;

    open spec fn view(&self) -> FetchErrorView {
        match self {
            FetchError::Request(e) => FetchErrorView::Request(e@),
            FetchError::Status { status, body } => FetchErrorView::Status {
                status: status@,
                body: text_of(*body),
            },
            FetchError::ReadBody(e) => FetchErrorView::ReadBody(e@),
            FetchError::CreateFile(e) => FetchErrorView::CreateFile(e@),
            FetchError::WriteFile(e) => FetchErrorView::WriteFile(e@),
        }
    }
}

/// The broad class of a failed download. A failure of the media tool is
/// not among them: a download makes up for it with the video alone.
#[derive(Debug, Clone, Copy, PartialEq, Eq, Structural)]
pub enum FailureKind {
    /// A stream that is needed is not on offer.
    MissingInput,
    /// The network or the server failed during a fetch.
    Transport,
    /// A file could not be created, written or renamed.
    Filesystem,
    /// After all fetches neither file was there, or the caller reported
    /// what cannot have happened.
    Logic,
}

/// What stands in for the body of a failed answer that could not be read.
pub open spec fn unreadable_body() -> Seq<char> {
    "无法读取错误信息"@
}

/// The words that open the report of a fetch failure.
pub open spec fn fetch_error_prefix(kind: StreamKind, error: FetchErrorView) -> Seq<char> {
    match (kind, error) {
        (StreamKind::Video, FetchErrorView::Request(_)) => "视频流请求失败: "@,
        (StreamKind::Audio, FetchErrorView::Request(_)) => "音频流请求失败: "@,
        (StreamKind::Video, FetchErrorView::Status { .. }) => "视频流下载失败: "@,
        (StreamKind::Audio, FetchErrorView::Status { .. }) => "音频流下载失败: "@,
        (StreamKind::Video, FetchErrorView::ReadBody(_)) => "读取视频流内容失败: "@,
        (StreamKind::Audio, FetchErrorView::ReadBody(_)) => "读取音频流内容失败: "@,
        (StreamKind::Video, FetchErrorView::CreateFile(_)) => "创建视频文件失败: "@,
        (StreamKind::Audio, FetchErrorView::CreateFile(_)) => "创建音频文件失败: "@,
        (StreamKind::Video, FetchErrorView::WriteFile(_)) => "写入视频文件失败: "@,
        (StreamKind::Audio, FetchErrorView::WriteFile(_)) => "写入音频文件失败: "@,
    }
}

/// What follows the opening words: the detail of the failing step, or for a
/// refused request the status, a dash and the body that came with it.
pub open spec fn fetch_error_detail(error: FetchErrorView) -> Seq<char> {
    match error {
        FetchErrorView::Request(e) => e,
        FetchErrorView::Status { status, body } => status.text + " - "@ + match body {
            Some(text) => text,
            None => unreadable_body(),
        },
        FetchErrorView::ReadBody(e) => e,
        FetchErrorView::CreateFile(e) => e,
        FetchErrorView::WriteFile(e) => e,
    }
}

/// The report of a fetch failure.
pub open spec fn fetch_error_message(kind: StreamKind, error: FetchErrorView) -> Seq<char> {
    fetch_error_prefix(kind, error) + fetch_error_detail(error)
}

/// The class of a fetch failure.
pub open spec fn fetch_error_kind(error: FetchErrorView) -> FailureKind {
    match error {
        FetchErrorView::Request(_) => FailureKind::Transport,
        FetchErrorView::Status { .. } => FailureKind::Transport,
        FetchErrorView::ReadBody(_) => FailureKind::Transport,
        FetchErrorView::CreateFile(_) => FailureKind::Filesystem,
        FetchErrorView::WriteFile(_) => FailureKind::Filesystem,
    }
}

impl FetchError {
    /// The class of this failure.
    pub fn kind(&self) -> (kind: FailureKind)
        ensures
            kind == fetch_error_kind(self@),
    {
        match self {
            FetchError::Request(_) => FailureKind::Transport,
            FetchError::Status { .. } => FailureKind::Transport,
            FetchError::ReadBody(_) => FailureKind::Transport,
            FetchError::CreateFile(_) => FailureKind::Filesystem,
            FetchError::WriteFile(_) => FailureKind::Filesystem,
        }
    }

    /// The report of this failure for the given stream.
    pub fn message(&self, kind: StreamKind) -> (text: String)
        ensures
            text@ == fetch_error_message(kind, self@),
    {
        match self {
            FetchError::Request(e) => {
                match kind {
                    StreamKind::Video => join2("视频流请求失败: ", e.as_str()),
                    StreamKind::Audio => join2("音频流请求失败: ", e.as_str()),
                }
            },
            FetchError::Status { status, body } => {
                let detail = match body {
                    Some(text) => join3(status.text.as_str(), " - ", text.as_str()),
                    None => join3(status.text.as_str(), " - ", "无法读取错误信息"),
                };
                match kind {
                    StreamKind::Video => join2("视频流下载失败: ", detail.as_str()),
                    StreamKind::Audio => join2("音频流下载失败: ", detail.as_str()),
                }
            },
            FetchError::ReadBody(e) => {
                match kind {
                    StreamKind::Video => join2("读取视频流内容失败: ", e.as_str()),
                    StreamKind::Audio => join2("读取音频流内容失败: ", e.as_str()),
                }
            },
            FetchError::CreateFile(e) => {
                match kind {
                    StreamKind::Video => join2("创建视频文件失败: ", e.as_str()),
                    StreamKind::Audio => join2("创建音频文件失败: ", e.as_str()),
                }
            },
            FetchError::WriteFile(e) => {
                match kind {
                    StreamKind::Video => join2("写入视频文件失败: ", e.as_str()),
                    StreamKind::Audio => join2("写入音频文件失败: ", e.as_str()),
                }
            },
        }
    }
}

/// The report of a fetch failure is never empty.
pub proof fn lemma_fetch_error_message_nonempty(kind: StreamKind, error: FetchErrorView)
    ensures
        fetch_error_message(kind, error).len() > 0,
{
    reveal_strlit("视频流请求失败: ");
    reveal_strlit("音频流请求失败: ");
    reveal_strlit("视频流下载失败: ");
    reveal_strlit("音频流下载失败: ");
    reveal_strlit("读取视频流内容失败: ");
    reveal_strlit("读取音频流内容失败: ");
    reveal_strlit("创建视频文件失败: ");
    reveal_strlit("创建音频文件失败: ");
    reveal_strlit("写入视频文件失败: ");
    reveal_strlit("写入音频文件失败: ");
}

} // verus!
