//! The records exchanged with the video platform and with the user
//! interface. They are plain data; the rules that read them live in the
//! other modules.

use vstd::prelude::*;

verus! {

/// The characters of an optional text.
pub open spec fn text_of(o: Option<String>) -> Option<Seq<char>> {
    match o {
        Some(s) => Some(s@),
        None => None,
    }
}

/// A login QR code: the address to show and the key to poll with.
#[derive(Debug, Clone, PartialEq, Eq)]
pub struct QrCodeData {
    pub url: String,
    pub qrcode_key: String,
}

/// The envelope of a QR code answer.
#[derive(Debug, Clone, PartialEq, Eq)]
pub struct QrCodeResponse {
    pub data: QrCodeData,
}

/// The state of a QR login as the platform reports it.
#[derive(Debug, Clone, PartialEq, Eq)]
pub struct PollData {
    pub code: i32,
    pub message: String,
    pub url: Option<String>,
    pub refresh_token: Option<String>,
    pub timestamp: Option<u64>,
}

/// The envelope of a poll answer.
#[derive(Debug, Clone, PartialEq, Eq)]
pub struct PollResponse {
    pub data: PollData,
}

/// What a finished poll hands to the user interface: the platform's answer
/// and the cookies that came with it.
#[derive(Debug, Clone, PartialEq, Eq)]
pub struct LoginSuccessData {
    pub poll_data: PollData,
    pub cookies: String,
}

/// One part of a multi-part video.
#[derive(Debug, Clone, PartialEq, Eq)]
pub struct VideoPage {
    pub cid: u64,
    pub page: u32,
    pub part: String,
    pub duration: u32,
}

/// The uploader of a video.
#[derive(Debug, Clone, PartialEq, Eq)]
pub struct VideoOwner {
    pub name: String,
    pub face: Option<String>,
    pub mid: u64,
}

/// The description of a video.
#[derive(Debug, Clone, PartialEq, Eq)]
pub struct VideoData {
    pub bvid: String,
    pub aid: u64,
    pub title: String,
    pub desc: String,
    pub pic: String,
    pub owner_info: VideoOwner,
    pub duration: u32,
    pub pages: Vec<VideoPage>,
}

impl VideoData {
    /// The uploader's name.
    pub fn author(&self) -> (name: String)
        ensures
            name@ == self.owner_info.name@,
    {
        self.owner_info.name.clone()
    }
}

/// The envelope of a video description answer.
#[derive(Debug, Clone, PartialEq, Eq)]
pub struct VideoInfoResponse {
    pub code: i32,
    pub message: String,
    pub data: Option<VideoData>,
}

/// One video rendition of an adaptive stream.
#[derive(Debug, Clone, PartialEq, Eq)]
pub struct DashVideo {
    pub id: u32,
    pub base_url: String,
    pub backup_url: Option<Vec<String>>,
    pub bandwidth: Option<u32>,
    pub mime_type: Option<String>,
    pub codecs: Option<String>,
    pub width: Option<u32>,
    pub height: Option<u32>,
    pub frame_rate: Option<String>,
    pub sar: Option<String>,
    pub start_with_sap: Option<u32>,
    pub codecid: Option<u32>,
}

/// One audio rendition of an adaptive stream.
#[derive(Debug, Clone, PartialEq, Eq)]
pub struct DashAudio {
    pub id: u32,
    pub base_url: String,
    pub backup_url: Option<Vec<String>>,
    pub bandwidth: Option<u32>,
    pub mime_type: Option<String>,
    pub codecs: Option<String>,
    pub codecid: Option<u32>,
}

/// The renditions of an adaptive stream.
#[derive(Debug, Clone, PartialEq, Eq)]
pub struct DashData {
    pub duration: u32,
    pub video: Vec<DashVideo>,
    pub audio: Vec<DashAudio>,
}

/// The platform's answer to a request for playback addresses.
#[derive(Debug, Clone, PartialEq, Eq)]
pub struct PlayUrlData {
    pub from: String,
    pub result: String,
    pub message: String,
    pub quality: u32,
    pub format: String,
    pub timelength: u64,
    pub accept_format: String,
    pub accept_description: Vec<String>,
    pub accept_quality: Vec<u32>,
    pub video_codecid: u32,
    pub seek_param: String,
    pub seek_type: String,
    pub dash: DashData,
}

/// The envelope of a playback address answer.
#[derive(Debug, Clone, PartialEq, Eq)]
pub struct PlayUrlResponse {
    pub code: i32,
    pub message: String,
    pub data: Option<PlayUrlData>,
}

/// A video stream on offer. A missing address means that the stream is not
/// offered.
#[derive(Debug, Clone, PartialEq, Eq)]
pub struct VideoStream {
    pub quality: u32,
    pub format: String,
    pub description: String,
    pub url: Option<String>,
    pub filesize: Option<u64>,
}

/// An audio stream on offer. A missing address means that the stream is not
/// offered.
#[derive(Debug, Clone, PartialEq, Eq)]
pub struct AudioStream {
    pub quality: u32,
    pub format: String,
    pub url: Option<String>,
    pub filesize: Option<u64>,
}

/// What a [`VideoStream`] holds, as mathematical values.
pub struct VideoStreamView {
    pub quality: u32,
    pub format: Seq<char>,
    pub description: Seq<char>,
    pub url: Option<Seq<char>>,
    pub filesize: Option<u64>,
}

/// What an [`AudioStream`] holds, as mathematical values.
pub struct AudioStreamView {
    pub quality: u32,
    pub format: Seq<char>,
    pub url: Option<Seq<char>>,
    pub filesize: Option<u64>,
}

impl View for VideoStream {
    type V = VideoStreamView;

    open spec fn view(&self) -> VideoStreamView {
        VideoStreamView {
            quality: self.quality,
            format: self.format@,
            description: self.description@,
            url: text_of(self.url),
            filesize: self.filesize,
        }
    }
}

impl View for AudioStream {
    type V = AudioStreamView;

    open spec fn view(&self) -> AudioStreamView {
        AudioStreamView {
            quality: self.quality,
            format: self.format@,
            url: text_of(self.url),
            filesize: self.filesize,
        }
    }
}

/// The streams of a video in the form the user interface works with.
#[derive(Debug, Clone, PartialEq, Eq)]
pub struct SimplifiedPlayUrlData {
    pub video_streams: Vec<VideoStream>,
    pub audio_streams: Vec<AudioStream>,
}

/// The profile of the logged-in user.
#[derive(Debug, Clone, PartialEq, Eq)]
pub struct UserProfile {
    pub name: String,
    pub avatar: String,
    pub mid: u64,
    pub vip_type: u32,
}

/// The login that is kept between sessions.
#[derive(Debug, Clone, PartialEq, Eq)]
pub struct StoredLoginData {
    pub cookies: String,
    pub user_profile: Option<UserProfile>,
    pub login_time: u64,
}

/// The membership of a user.
#[derive(Debug, Clone, PartialEq, Eq)]
pub struct VipInfo {
    pub vip_type: u32,
    pub vip_status: u32,
    pub due_date: Option<u64>,
}

/// The platform's account record, as far as it consists of plain values.
#[derive(Debug, Clone, PartialEq, Eq)]
pub struct UserInfoData {
    pub is_login: bool,
    pub email_verified: u32,
    pub face: String,
    pub mid: u64,
    pub mobile_verified: u32,
    pub moral: u32,
    pub scores: u32,
    pub uname: String,
    pub vip_due_date: Option<u64>,
    pub vip_status: u32,
    pub vip_type: u32,
    pub vip_pay_type: Option<u32>,
    pub vip_theme_type: Option<u32>,
    pub vip_avatar_subscript: Option<u32>,
    pub vip_nickname_color: Option<String>,
    pub vip: VipInfo,
    pub has_shop: bool,
    pub shop_url: Option<String>,
    pub answer_status: u32,
    pub is_senior_member: Option<u32>,
    pub is_jury: Option<bool>,
}

/// The envelope of an account record answer.
#[derive(Debug, Clone, PartialEq, Eq)]
pub struct UserInfoResponse {
    pub code: i32,
    pub message: String,
    pub ttl: u32,
    pub data: UserInfoData,
}

/// What is known of a file or directory on disk. The two times are seconds
/// since the Unix epoch and are absent where the platform does not tell.
#[derive(Debug, Clone, PartialEq, Eq)]
pub struct FileInfo {
    pub path: String,
    pub name: String,
    pub size: u64,
    pub is_dir: bool,
    pub created: Option<u64>,
    pub modified: Option<u64>,
}

} // verus!
