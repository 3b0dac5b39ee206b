//! Looking up a video and its streams: the addresses that are asked, what is
//! sent along, and how the platform's answers are read.

use crate::fetch::{
    header, header_views, status_is_success, user_agent, user_agent_text, Header, HeaderView,
    HttpStatus, HttpStatusView,
};
use crate::text::{
    decimal, has_prefix, join2, join3, parse_u64, parsed_u64, preview, preview_of,
    push_decimal, signed_decimal, signed_decimal_string, texts,
};
use crate::types::{
    AudioStream, AudioStreamView, DashAudio, DashVideo, PlayUrlData, PlayUrlResponse,
    SimplifiedPlayUrlData, VideoData, VideoInfoResponse, VideoStream, VideoStreamView,
};
use vstd::prelude::*;

verus! {

/// The address that describes a video. An identifier that begins with `BV`
/// is passed on as it is; one that begins with `av` must go on with a
/// decimal number, which is passed on in its shortest form. No other
/// identifier is accepted.
pub open spec fn video_info_url_of(video_id: Seq<char>) -> Result<Seq<char>, Seq<char>> {
    if "BV"@.is_prefix_of(video_id) {
        Ok("https://api.bilibili.com/x/web-interface/view?bvid="@ + video_id)
    } else if "av"@.is_prefix_of(video_id) {
        match parsed_u64(video_id.skip(2)) {
            Some(aid) => Ok(
                "https://api.bilibili.com/x/web-interface/view?aid="@ + decimal(aid as nat),
            ),
            None => Err("Invalid AV number"@),
        }
    } else {
        Err("Invalid video ID format"@)
    }
}

/// The characters of either side of a result.
pub open spec fn text_result(r: Result<String, String>) -> Result<Seq<char>, Seq<char>> {
    match r {
        Ok(s) => Ok(s@),
        Err(e) => Err(e@),
    }
}

/// Builds the address that describes a video.
pub fn video_info_url(video_id: &str) -> (url: Result<String, String>)
    ensures
        text_result(url) == video_info_url_of(video_id@),
{
    if has_prefix(video_id, "BV") {
        Ok(join2("https://api.bilibili.com/x/web-interface/view?bvid=", video_id))
    } else if has_prefix(video_id, "av") {
        proof {
            reveal_strlit("av");
        }
        let n: usize = video_id.unicode_len();
        let number = video_id.substring_char(2, n);
        assert(number@ =~= video_id@.skip(2));
        match parse_u64(number) {
            Some(aid) => {
                let mut url = String::from_str(
                    "https://api.bilibili.com/x/web-interface/view?aid=",
                );
                push_decimal(&mut url, aid);
                Ok(url)
            },
            None => Err(String::from_str("Invalid AV number")),
        }
    } else {
        Err(String::from_str("Invalid video ID format"))
    }
}

/// The address that lists the streams of one part of a video, asking for
/// every quality up to the best and for separate video and audio streams.
pub open spec fn play_url_of(video_id: Seq<char>, cid: u64) -> Seq<char> {
    "https://api.bilibili.com/x/player/playurl?bvid="@ + video_id + "&cid="@ + decimal(cid as nat)
        + "&qn=127&fourk=1&fnval=4048"@
}

/// Builds the address that lists the streams of one part of a video.
pub fn play_url(video_id: &str, cid: u64) -> (url: String)
    ensures
        url@ == play_url_of(video_id@, cid),
{
    let mut url = join3("https://api.bilibili.com/x/player/playurl?bvid=", video_id, "&cid=");
    push_decimal(&mut url, cid);
    url.concat("&qn=127&fourk=1&fnval=4048")
}

/// The platform's front page, which it accepts as the referer of any
/// request.
pub open spec fn site_referer() -> Seq<char> {
    "https://www.bilibili.com/"@
}

/// The headers of a request that needs no login: the user agent.
pub open spec fn anonymous_headers_of() -> Seq<HeaderView> {
    seq![HeaderView { name: "User-Agent"@, value: user_agent_text() }]
}

/// The headers of a request made for a logged-in user: the user agent, the
/// login cookies and a referer on the platform.
pub open spec fn session_headers_of(cookies: Seq<char>) -> Seq<HeaderView> {
    seq![
        HeaderView { name: "User-Agent"@, value: user_agent_text() },
        HeaderView { name: "Cookie"@, value: cookies },
        HeaderView { name: "Referer"@, value: site_referer() },
    ]
}

/// The headers of a request that only asks whether a stream can be reached:
/// the login cookies, and a referer and an origin on the platform. The user
/// agent is set for the connection as a whole.
pub open spec fn probe_headers_of(cookies: Seq<char>) -> Seq<HeaderView> {
    seq![
        HeaderView { name: "Cookie"@, value: cookies },
        HeaderView { name: "Referer"@, value: site_referer() },
        HeaderView { name: "Origin"@, value: "https://www.bilibili.com"@ },
    ]
}

/// Builds the headers of a request that needs no login.
pub fn anonymous_headers() -> (headers: Vec<Header>)
    ensures
        header_views(headers@) == anonymous_headers_of(),
{
    let mut headers: Vec<Header> = Vec::new();
    headers.push(header("User-Agent", user_agent()));
    assert(header_views(headers@) =~= anonymous_headers_of());
    headers
}

/// Builds the headers of a request made for a logged-in user.
pub fn session_headers(cookies: &str) -> (headers: Vec<Header>)
    ensures
        header_views(headers@) == session_headers_of(cookies@),
{
    let mut headers: Vec<Header> = Vec::new();
    headers.push(header("User-Agent", user_agent()));
    headers.push(header("Cookie", cookies));
    headers.push(header("Referer", "https://www.bilibili.com/"));
    assert(header_views(headers@) =~= session_headers_of(cookies@));
    headers
}

/// Builds the headers of a request that asks whether a stream can be
/// reached.
pub fn probe_headers(cookies: &str) -> (headers: Vec<Header>)
    ensures
        header_views(headers@) == probe_headers_of(cookies@),
{
    let mut headers: Vec<Header> = Vec::new();
    headers.push(header("Cookie", cookies));
    headers.push(header("Referer", "https://www.bilibili.com/"));
    headers.push(header("Origin", "https://www.bilibili.com"));
    assert(header_views(headers@) =~= probe_headers_of(cookies@));
    headers
}

/// The report of an answer whose status is not success.
pub open spec fn http_error_of(status: HttpStatusView) -> Seq<char> {
    "HTTP Error: "@ + status.text
}

/// Builds the report of an answer whose status is not success.
pub fn http_error(status: &HttpStatus) -> (report: String)
    ensures
        report@ == http_error_of(status@),
{
    join2("HTTP Error: ", status.text.as_str())
}

/// The report of an answer in which the platform itself signals an error.
pub open spec fn api_error_of(code: i32, message: Seq<char>) -> Seq<char> {
    "API Error: "@ + signed_decimal(code as int) + " - "@ + message
}

/// Builds the report of an answer in which the platform signals an error.
pub fn api_error(code: i32, message: &str) -> (report: String)
    ensures
        report@ == api_error_of(code, message@),
{
    let number = signed_decimal_string(code);
    let head = join2("API Error: ", number.as_str());
    join3(head.as_str(), " - ", message)
}

/// The report of an answer that is no valid JSON of the expected shape.
pub open spec fn json_error_of(detail: Seq<char>) -> Seq<char> {
    "JSON 解析错误: "@ + detail
}

/// Builds the report of an answer that could not be read as JSON.
pub fn json_error(detail: &str) -> (report: String)
    ensures
        report@ == json_error_of(detail@),
{
    join2("JSON 解析错误: ", detail)
}

/// How much of an answer is quoted where a list of streams cannot be read.
pub const STREAM_PREVIEW_CHARS: usize = 1000;

/// The report of a list of streams that is no valid JSON of the expected
/// shape: the detail, and the beginning of the answer itself.
pub open spec fn stream_json_error_of(detail: Seq<char>, answer: Seq<char>) -> Seq<char> {
    json_error_of(detail) + " - 原始响应: "@ + preview_of(answer, STREAM_PREVIEW_CHARS as nat)
}

/// Builds the report of a list of streams that could not be read as JSON.
pub fn stream_json_error(detail: &str, answer: &str) -> (report: String)
    ensures
        report@ == stream_json_error_of(detail@, answer@),
{
    let head = json_error(detail);
    let shown = preview(answer, STREAM_PREVIEW_CHARS);
    join3(head.as_str(), " - 原始响应: ", shown.as_str())
}

/// Reads the platform's answer to a request for a video description: the
/// description where the platform signals no error (code 0) and sent one,
/// else the report of what went wrong.
pub fn video_info_result(response: VideoInfoResponse) -> (r: Result<VideoData, String>)
    ensures
        match r {
            Ok(data) => response.code == 0 && response.data == Some(data),
            Err(report) => if response.code == 0 {
                response.data is None && report@ == "No video data"@
            } else {
                report@ == api_error_of(response.code, response.message@)
            },
        },
{
    if response.code == 0 {
        match response.data {
            Some(data) => Ok(data),
            None => Err(String::from_str("No video data")),
        }
    } else {
        Err(api_error(response.code, response.message.as_str()))
    }
}

/// The quality shown for the video rendition at `index`: the entry of the
/// accepted qualities at the same place; where the list is too short, its
/// first entry; where it is empty, the rendition's own number.
pub open spec fn quality_at(accepted: Seq<u32>, index: int, id: u32) -> u32 {
    if 0 <= index < accepted.len() {
        accepted[index]
    } else if accepted.len() > 0 {
        accepted[0]
    } else {
        id
    }
}

/// The words shown for a rendition that has no description.
pub open spec fn default_description(id: u32) -> Seq<char> {
    "质量 "@ + decimal(id as nat)
}

/// The description shown for the video rendition at `index`, chosen from the
/// accepted descriptions as the quality is from the accepted qualities.
pub open spec fn description_at(accepted: Seq<Seq<char>>, index: int, id: u32) -> Seq<char> {
    if 0 <= index < accepted.len() {
        accepted[index]
    } else if accepted.len() > 0 {
        accepted[0]
    } else {
        default_description(id)
    }
}

/// The video stream that stands for the rendition at `index`.
pub open spec fn video_stream_of(data: PlayUrlData, index: int) -> VideoStreamView {
    let rendition = data.dash.video@[index];
    VideoStreamView {
        quality: quality_at(data.accept_quality@, index, rendition.id),
        format: "mp4"@,
        description: description_at(texts(data.accept_description@), index, rendition.id),
        url: Some(rendition.base_url@),
        filesize: None,
    }
}

/// The audio stream that stands for a rendition.
pub open spec fn audio_stream_of(rendition: DashAudio) -> AudioStreamView {
    AudioStreamView {
        quality: rendition.id,
        format: "m4a"@,
        url: Some(rendition.base_url@),
        filesize: None,
    }
}

/// The video streams of a list, as mathematical values.
pub open spec fn video_stream_views(streams: Seq<VideoStream>) -> Seq<VideoStreamView> {
    streams.map_values(|s: VideoStream| s@)
}

/// The audio streams of a list, as mathematical values.
pub open spec fn audio_stream_views(streams: Seq<AudioStream>) -> Seq<AudioStreamView> {
    streams.map_values(|s: AudioStream| s@)
}

/// The video streams that stand for the renditions of an answer, in order.
pub open spec fn video_streams_of(data: PlayUrlData) -> Seq<VideoStreamView> {
    Seq::new(data.dash.video@.len(), |i: int| video_stream_of(data, i))
}

/// The audio streams that stand for the renditions of an answer, in order.
pub open spec fn audio_streams_of(data: PlayUrlData) -> Seq<AudioStreamView> {
    data.dash.audio@.map_values(|a: DashAudio| audio_stream_of(a))
}

fn video_stream(data: &PlayUrlData, index: usize) -> (stream: VideoStream)
    requires
        index < data.dash.video@.len(),
    ensures
        stream@ == video_stream_of(*data, index as int),
{
    let rendition: &DashVideo = &data.dash.video[index];
    let quality: u32 = if index < data.accept_quality.len() {
        data.accept_quality[index]
    } else if data.accept_quality.len() > 0 {
        data.accept_quality[0]
    } else {
        rendition.id
    };
    let description = if index < data.accept_description.len() {
        data.accept_description[index].clone()
    } else if data.accept_description.len() > 0 {
        data.accept_description[0].clone()
    } else {
        let mut words = String::from_str("质量 ");
        push_decimal(&mut words, rendition.id as u64);
        words
    };
    VideoStream {
        quality,
        format: String::from_str("mp4"),
        description,
        url: Some(rendition.base_url.clone()),
        filesize: None,
    }
}

/// Turns the renditions of an answer into the streams that the user
/// interface offers: one stream for each rendition, in the order of the
/// answer, each with the rendition's address.
pub fn simplify_play_url(data: &PlayUrlData) -> (streams: SimplifiedPlayUrlData)
    ensures
        video_stream_views(streams.video_streams@) == video_streams_of(*data),
        audio_stream_views(streams.audio_streams@) == audio_streams_of(*data),
{
    let mut video_streams: Vec<VideoStream> = Vec::new();
    let mut index: usize = 0;
    while index < data.dash.video.len()
        invariant
            index <= data.dash.video@.len(),
            video_streams@.len() == index,
            forall|i: int| 0 <= i < index ==> (#[trigger] video_streams@[i])@ == video_stream_of(*data, i),
        decreases data.dash.video@.len() - index,
    {
        video_streams.push(video_stream(data, index));
        index = index + 1;
    }
    let mut audio_streams: Vec<AudioStream> = Vec::new();
    let mut index: usize = 0;
    while index < data.dash.audio.len()
        invariant
            index <= data.dash.audio@.len(),
            audio_streams@.len() == index,
            forall|i: int|
                0 <= i < index ==> (#[trigger] audio_streams@[i])@ == audio_stream_of(
                    data.dash.audio@[i],
                ),
        decreases data.dash.audio@.len() - index,
    {
        let rendition: &DashAudio = &data.dash.audio[index];
        audio_streams.push(
            AudioStream {
                quality: rendition.id,
                format: String::from_str("m4a"),
                url: Some(rendition.base_url.clone()),
                filesize: None,
            },
        );
        index = index + 1;
    }
    assert(video_stream_views(video_streams@) =~= video_streams_of(*data));
    assert(audio_stream_views(audio_streams@) =~= audio_streams_of(*data));
    SimplifiedPlayUrlData { video_streams, audio_streams }
}

/// Reads the platform's answer to a request for the streams of a video: the
/// streams where the platform signals no error (code 0) and sent
/// renditions, else the report of what went wrong.
pub fn play_url_result(response: &PlayUrlResponse) -> (r: Result<SimplifiedPlayUrlData, String>)
    ensures
        match r {
            Ok(streams) => response.code == 0 && response.data is Some && video_stream_views(
                streams.video_streams@,
            ) == video_streams_of(response.data->0) && audio_stream_views(streams.audio_streams@)
                == audio_streams_of(response.data->0),
            Err(report) => if response.code == 0 {
                response.data is None && report@ == "No stream data"@
            } else {
                report@ == api_error_of(response.code, response.message@)
            },
        },
{
    if response.code == 0 {
        match &response.data {
            Some(data) => Ok(simplify_play_url(data)),
            None => Err(String::from_str("No stream data")),
        }
    } else {
        Err(api_error(response.code, response.message.as_str()))
    }
}

/// What the user is told about a stream that was probed: that it can be
/// reached, where the status is success, else that it cannot; either way
/// with the status.
pub open spec fn reachability_of(status: HttpStatusView) -> Result<Seq<char>, Seq<char>> {
    if status_is_success(status.code) {
        Ok("URL可访问，状态: "@ + status.text)
    } else {
        Err("URL不可访问，状态: "@ + status.text)
    }
}

/// Tells whether a probed stream can be reached.
pub fn reachability(status: &HttpStatus) -> (r: Result<String, String>)
    ensures
        text_result(r) == reachability_of(status@),
{
    if status.is_success() {
        Ok(join2("URL可访问，状态: ", status.text.as_str()))
    } else {
        Err(join2("URL不可访问，状态: ", status.text.as_str()))
    }
}

/// The report of a probe that got no answer.
pub open spec fn probe_failure_of(detail: Seq<char>) -> Seq<char> {
    "请求失败: "@ + detail
}

/// Builds the report of a probe that got no answer.
pub fn probe_failure(detail: &str) -> (report: String)
    ensures
        report@ == probe_failure_of(detail@),
{
    join2("请求失败: ", detail)
}

} // verus!
