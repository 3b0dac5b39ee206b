use cilicili::fetch::{Header, HttpStatus};
use cilicili::types::{
    DashAudio, DashData, DashVideo, PlayUrlData, PlayUrlResponse, VideoData, VideoInfoResponse,
    VideoOwner, VideoPage,
};
use cilicili::video::{
    anonymous_headers, api_error, http_error, json_error, play_url, play_url_result,
    probe_failure, probe_headers, reachability, session_headers, simplify_play_url,
    stream_json_error, video_info_result, video_info_url, STREAM_PREVIEW_CHARS,
};

const AGENT: &str = "Mozilla/5.0 (Windows NT 10.0; Win64; x64) AppleWebKit/537.36 (KHTML, like Gecko) Chrome/91.0.4472.124 Safari/537.36";

fn pairs(headers: &[Header]) -> Vec<(&str, &str)> {
    headers.iter().map(|h| (h.name.as_str(), h.value.as_str())).collect()
}

#[test]
fn video_info_url_for_bv_identifier() {
    assert_eq!(
        video_info_url("BV1xx411c7mD"),
        Ok("https://api.bilibili.com/x/web-interface/view?bvid=BV1xx411c7mD".to_string())
    );
    assert_eq!(
        video_info_url("BV"),
        Ok("https://api.bilibili.com/x/web-interface/view?bvid=BV".to_string())
    );
}

#[test]
fn video_info_url_for_av_identifier() {
    assert_eq!(
        video_info_url("av170001"),
        Ok("https://api.bilibili.com/x/web-interface/view?aid=170001".to_string())
    );
    assert_eq!(
        video_info_url("av+007"),
        Ok("https://api.bilibili.com/x/web-interface/view?aid=7".to_string())
    );
    assert_eq!(
        video_info_url("av18446744073709551615"),
        Ok("https://api.bilibili.com/x/web-interface/view?aid=18446744073709551615".to_string())
    );
}

#[test]
fn video_info_url_rejects_bad_av_numbers() {
    for id in ["av", "av-1", "av12x", "av 12", "av18446744073709551616", "av１２"] {
        assert_eq!(video_info_url(id), Err("Invalid AV number".to_string()), "{}", id);
    }
}

#[test]
fn video_info_url_rejects_other_identifiers() {
    for id in ["", "B", "bv1xx", "AV170001", "170001", "Av1", " BV1"] {
        assert_eq!(video_info_url(id), Err("Invalid video ID format".to_string()), "{}", id);
    }
}

#[test]
fn play_url_names_video_and_part() {
    assert_eq!(
        play_url("BV1xx411c7mD", 279786),
        "https://api.bilibili.com/x/player/playurl?bvid=BV1xx411c7mD&cid=279786&qn=127&fourk=1&fnval=4048"
    );
    assert_eq!(
        play_url("", 0),
        "https://api.bilibili.com/x/player/playurl?bvid=&cid=0&qn=127&fourk=1&fnval=4048"
    );
}

#[test]
fn request_headers() {
    assert_eq!(pairs(&anonymous_headers()), vec![("User-Agent", AGENT)]);
    assert_eq!(
        pairs(&session_headers("a=b")),
        vec![("User-Agent", AGENT), ("Cookie", "a=b"), ("Referer", "https://www.bilibili.com/")]
    );
    assert_eq!(
        pairs(&probe_headers("a=b")),
        vec![
            ("Cookie", "a=b"),
            ("Referer", "https://www.bilibili.com/"),
            ("Origin", "https://www.bilibili.com")
        ]
    );
}

#[test]
fn error_reports() {
    assert_eq!(http_error(&HttpStatus::of(412)), "HTTP Error: 412 Precondition Failed");
    assert_eq!(http_error(&HttpStatus { code: 1, text: "odd".to_string() }), "HTTP Error: odd");
    assert_eq!(api_error(-404, "啥都木有"), "API Error: -404 - 啥都木有");
    assert_eq!(api_error(62002, ""), "API Error: 62002 - ");
    assert_eq!(json_error("expected value at line 1 column 1"), "JSON 解析错误: expected value at line 1 column 1");
    assert_eq!(probe_failure("timed out"), "请求失败: timed out");
}

#[test]
fn stream_json_error_quotes_the_beginning_of_the_answer() {
    assert_eq!(STREAM_PREVIEW_CHARS, 1000);
    assert_eq!(stream_json_error("eof", "<html>"), "JSON 解析错误: eof - 原始响应: <html>");
    let long: String = "视".repeat(1001);
    let shown: String = "视".repeat(1000);
    assert_eq!(stream_json_error("eof", &long), format!("JSON 解析错误: eof - 原始响应: {}...", shown));
    let exact: String = "x".repeat(1000);
    assert_eq!(stream_json_error("eof", &exact), format!("JSON 解析错误: eof - 原始响应: {}", exact));
}

fn video_data() -> VideoData {
    VideoData {
        bvid: "BV1xx411c7mD".to_string(),
        aid: 170001,
        title: "t".to_string(),
        desc: "d".to_string(),
        pic: "p".to_string(),
        owner_info: VideoOwner { name: "作者".to_string(), face: Some("f".to_string()), mid: 7 },
        duration: 60,
        pages: vec![VideoPage { cid: 1, page: 1, part: "正片".to_string(), duration: 60 }],
    }
}

#[test]
fn author_is_the_owner() {
    assert_eq!(video_data().author(), "作者");
}

#[test]
fn video_info_result_reads_the_envelope() {
    let ok = VideoInfoResponse { code: 0, message: "0".to_string(), data: Some(video_data()) };
    assert_eq!(video_info_result(ok), Ok(video_data()));
    let empty = VideoInfoResponse { code: 0, message: "0".to_string(), data: None };
    assert_eq!(video_info_result(empty), Err("No video data".to_string()));
    let refused = VideoInfoResponse { code: -400, message: "请求错误".to_string(), data: Some(video_data()) };
    assert_eq!(video_info_result(refused), Err("API Error: -400 - 请求错误".to_string()));
}

fn dash_video(id: u32, url: &str) -> DashVideo {
    DashVideo {
        id,
        base_url: url.to_string(),
        backup_url: None,
        bandwidth: Some(1000),
        mime_type: Some("video/mp4".to_string()),
        codecs: None,
        width: Some(1920),
        height: Some(1080),
        frame_rate: None,
        sar: None,
        start_with_sap: None,
        codecid: Some(7),
    }
}

fn dash_audio(id: u32, url: &str) -> DashAudio {
    DashAudio {
        id,
        base_url: url.to_string(),
        backup_url: Some(vec!["b".to_string()]),
        bandwidth: None,
        mime_type: None,
        codecs: None,
        codecid: None,
    }
}

fn play_data(qualities: &[u32], descriptions: &[&str], video: Vec<DashVideo>, audio: Vec<DashAudio>) -> PlayUrlData {
    PlayUrlData {
        from: "local".to_string(),
        result: "suee".to_string(),
        message: String::new(),
        quality: 80,
        format: "flv".to_string(),
        timelength: 1000,
        accept_format: "flv,mp4".to_string(),
        accept_description: descriptions.iter().map(|d| d.to_string()).collect(),
        accept_quality: qualities.to_vec(),
        video_codecid: 7,
        seek_param: "start".to_string(),
        seek_type: "offset".to_string(),
        dash: DashData { duration: 60, video, audio },
    }
}

#[test]
fn simplify_pairs_renditions_with_accepted_qualities() {
    let data = play_data(
        &[80, 64],
        &["高清 1080P", "高清 720P"],
        vec![dash_video(80, "v80"), dash_video(64, "v64"), dash_video(32, "v32")],
        vec![dash_audio(30280, "a1"), dash_audio(30216, "a2")],
    );
    let s = simplify_play_url(&data);
    assert_eq!(s.video_streams.len(), 3);
    let got: Vec<(u32, &str, &str, Option<&str>, Option<u64>)> = s
        .video_streams
        .iter()
        .map(|v| (v.quality, v.format.as_str(), v.description.as_str(), v.url.as_deref(), v.filesize))
        .collect();
    assert_eq!(
        got,
        vec![
            (80, "mp4", "高清 1080P", Some("v80"), None),
            (64, "mp4", "高清 720P", Some("v64"), None),
            (80, "mp4", "高清 1080P", Some("v32"), None),
        ]
    );
    let got: Vec<(u32, &str, Option<&str>, Option<u64>)> = s
        .audio_streams
        .iter()
        .map(|a| (a.quality, a.format.as_str(), a.url.as_deref(), a.filesize))
        .collect();
    assert_eq!(got, vec![(30280, "m4a", Some("a1"), None), (30216, "m4a", Some("a2"), None)]);
}

#[test]
fn simplify_without_accepted_lists_uses_the_rendition_itself() {
    let data = play_data(&[], &[], vec![dash_video(116, "v")], vec![]);
    let s = simplify_play_url(&data);
    assert_eq!(s.video_streams[0].quality, 116);
    assert_eq!(s.video_streams[0].description, "质量 116");
    assert!(s.audio_streams.is_empty());
}

#[test]
fn simplify_with_lists_of_different_length() {
    let data = play_data(&[80], &["a", "b"], vec![dash_video(1, "x"), dash_video(2, "y")], vec![]);
    let s = simplify_play_url(&data);
    assert_eq!((s.video_streams[1].quality, s.video_streams[1].description.as_str()), (80, "b"));
    let data = play_data(&[80, 64], &[], vec![dash_video(1, "x"), dash_video(2, "y")], vec![]);
    let s = simplify_play_url(&data);
    assert_eq!((s.video_streams[1].quality, s.video_streams[1].description.as_str()), (64, "质量 2"));
}

#[test]
fn simplify_of_nothing_is_nothing() {
    let s = simplify_play_url(&play_data(&[80], &["x"], vec![], vec![]));
    assert!(s.video_streams.is_empty());
    assert!(s.audio_streams.is_empty());
}

#[test]
fn play_url_result_reads_the_envelope() {
    let data = play_data(&[80], &["1080P"], vec![dash_video(80, "v")], vec![dash_audio(1, "a")]);
    let expected = simplify_play_url(&data);
    let ok = PlayUrlResponse { code: 0, message: "0".to_string(), data: Some(data.clone()) };
    assert_eq!(play_url_result(&ok), Ok(expected));
    let empty = PlayUrlResponse { code: 0, message: "0".to_string(), data: None };
    assert_eq!(play_url_result(&empty), Err("No stream data".to_string()));
    let refused = PlayUrlResponse { code: -10403, message: "大会员专享限制".to_string(), data: Some(data) };
    assert_eq!(play_url_result(&refused), Err("API Error: -10403 - 大会员专享限制".to_string()));
}

#[test]
fn reachability_goes_by_the_status() {
    let of = |code: u16| reachability(&HttpStatus::of(code));
    assert_eq!(of(200), Ok("URL可访问，状态: 200 OK".to_string()));
    assert_eq!(of(206), Ok("URL可访问，状态: 206 Partial Content".to_string()));
    assert_eq!(of(403), Err("URL不可访问，状态: 403 Forbidden".to_string()));
    assert_eq!(of(302), Err("URL不可访问，状态: 302 Found".to_string()));
    assert_eq!(
        reachability(&HttpStatus { code: 299, text: "fine".to_string() }),
        Ok("URL可访问，状态: fine".to_string())
    );
}
