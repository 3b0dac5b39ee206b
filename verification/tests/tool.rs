use cilicili::ffmpeg::{
    audio_needs_reencode, convert_args, convert_args_lowercase, extract_args,
    extract_args_lowercase, merge_args, probe_args, push_arg,
};
use cilicili::tool::{
    job_input, job_step, prepare_output_in, start_probe, start_tool, JobAction, JobEvent,
    JobState, ToolJob, ToolOutput,
};
use std::collections::BTreeSet;

fn strings(list: &[&str]) -> Vec<String> {
    list.iter().map(|s| s.to_string()).collect()
}

#[test]
fn push_arg_appends() {
    let mut args = strings(&["-y"]);
    push_arg(&mut args, "out.mp4");
    assert_eq!(args, strings(&["-y", "out.mp4"]));
}

#[test]
fn segment_audio_is_encoded_anew() {
    assert!(audio_needs_reencode("/d/t_audio.m4s"));
    assert!(audio_needs_reencode("/d/t_audio.mp3"));
    assert!(audio_needs_reencode(".m4s"));
    assert!(!audio_needs_reencode("/d/t_audio.m4a"));
    assert!(!audio_needs_reencode("/d/t_audio.M4S"));
    assert!(!audio_needs_reencode("/d/t.m4s.part"));
    assert!(!audio_needs_reencode(""));
}

#[test]
fn merge_args_for_segment_audio() {
    assert_eq!(
        merge_args("/d/t_video.mp4", "/d/t_audio.m4s", "/d/t.mp4"),
        strings(&[
            "-i", "/d/t_video.mp4", "-i", "/d/t_audio.m4s", "-c:v", "copy", "-c:a", "aac", "-b:a",
            "128k", "-movflags", "+faststart", "-avoid_negative_ts", "make_zero", "-y", "/d/t.mp4",
        ])
    );
}

#[test]
fn merge_args_for_the_audio_part_of_a_download() {
    let args = merge_args("v.mp4", "a_audio.mp3", "o.mp4");
    assert_eq!(args.len(), 16);
    assert_eq!(&args[6..10], &strings(&["-c:a", "aac", "-b:a", "128k"])[..]);
}

#[test]
fn merge_args_for_other_audio() {
    assert_eq!(
        merge_args("v.mp4", "a.m4a", "o.mp4"),
        strings(&[
            "-i", "v.mp4", "-i", "a.m4a", "-c:v", "copy", "-c:a", "copy", "-movflags", "+faststart",
            "-y", "o.mp4",
        ])
    );
}

#[test]
fn convert_args_by_format() {
    assert_eq!(
        convert_args("mp4", "in.flv", "out.mp4"),
        Some(strings(&[
            "-i", "in.flv", "-c:v", "libx264", "-c:a", "aac", "-crf", "23", "-preset", "medium",
            "-y", "out.mp4",
        ]))
    );
    assert_eq!(
        convert_args("avi", "in.flv", "out.avi"),
        Some(strings(&["-i", "in.flv", "-c:v", "libx264", "-c:a", "mp3", "-y", "out.avi"]))
    );
    assert_eq!(
        convert_args("mkv", "in.flv", "out.mkv"),
        Some(strings(&["-i", "in.flv", "-c:v", "copy", "-c:a", "copy", "-y", "out.mkv"]))
    );
    assert_eq!(convert_args("webm", "in.flv", "out.webm"), None);
    assert_eq!(convert_args("", "in.flv", "out"), None);
}

#[test]
fn convert_format_is_read_in_any_case() {
    assert_eq!(convert_args("MP4", "i", "o"), convert_args("mp4", "i", "o"));
    assert_eq!(convert_args("Mkv", "i", "o"), convert_args("mkv", "i", "o"));
    assert_eq!(convert_args("m\u{212A}v", "i", "o"), convert_args("mkv", "i", "o"));
    assert_eq!(convert_args_lowercase("MP4", "i", "o"), None);
    assert_eq!(convert_args_lowercase("mp4", "i", "o"), convert_args("mp4", "i", "o"));
}

#[test]
fn extract_args_by_format() {
    assert_eq!(
        extract_args("mp3", "v.mp4", "a.mp3"),
        Some(strings(&["-i", "v.mp4", "-vn", "-acodec", "mp3", "-ab", "192k", "-y", "a.mp3"]))
    );
    assert_eq!(
        extract_args("AAC", "v.mp4", "a.aac"),
        Some(strings(&["-i", "v.mp4", "-vn", "-acodec", "aac", "-ab", "192k", "-y", "a.aac"]))
    );
    assert_eq!(
        extract_args("wav", "v.mp4", "a.wav"),
        Some(strings(&["-i", "v.mp4", "-vn", "-acodec", "pcm_s16le", "-y", "a.wav"]))
    );
    assert_eq!(extract_args("flac", "v.mp4", "a.flac"), None);
    assert_eq!(extract_args_lowercase("WAV", "v", "a"), None);
}

#[test]
fn probe_args_ask_for_json() {
    assert_eq!(
        probe_args("/d/v.mp4"),
        strings(&["-v", "quiet", "-print_format", "json", "-show_format", "-show_streams", "/d/v.mp4"])
    );
}

/// Pretended surroundings of a job.
struct World {
    located: Result<String, String>,
    present: BTreeSet<String>,
    prepared: Result<(), String>,
    ran: Result<ToolOutput, String>,
    probed: Vec<String>,
    created: Vec<String>,
    runs: Vec<(String, Vec<String>)>,
}

fn world(present: &[&str]) -> World {
    World {
        located: Ok("/usr/bin/ffmpeg".to_string()),
        present: present.iter().map(|p| p.to_string()).collect(),
        prepared: Ok(()),
        ran: Ok(ToolOutput { success: true, stdout: "{}".to_string(), stderr: String::new() }),
        probed: Vec::new(),
        created: Vec::new(),
        runs: Vec::new(),
    }
}

fn perform(job: &ToolJob, w: &mut World) -> (Result<String, String>, Vec<String>) {
    let (mut state, mut action) = job_step(job, JobState::Start, JobEvent::Begin);
    let mut steps = 0;
    loop {
        let event = match action {
            JobAction::Finish { result, discard } => return (result, discard),
            JobAction::Locate => JobEvent::Located(w.located.clone()),
            JobAction::Probe(path) => {
                w.probed.push(path.clone());
                JobEvent::Probed(w.present.contains(&path))
            }
            JobAction::CreateDirs(dir) => {
                w.created.push(dir);
                JobEvent::Prepared(w.prepared.clone())
            }
            JobAction::Run { program, args } => {
                w.runs.push((program, args));
                JobEvent::Ran(w.ran.clone())
            }
        };
        steps += 1;
        assert!(steps <= 5, "a job performs at most five actions");
        let following = job_step(job, state, event);
        state = following.0;
        action = following.1;
    }
}

fn merge_job() -> ToolJob {
    ToolJob::Merge {
        video: "/d/t_video.mp4".to_string(),
        audio: "/d/t_audio.m4s".to_string(),
        output: "/d/out/t.mp4".to_string(),
    }
}

#[test]
fn successful_mux_deletes_its_inputs() {
    let mut w = world(&["/d/t_video.mp4", "/d/t_audio.m4s"]);
    let (result, discard) = perform(&merge_job(), &mut w);
    assert_eq!(result, Ok("/d/out/t.mp4".to_string()));
    assert_eq!(discard, strings(&["/d/t_video.mp4", "/d/t_audio.m4s"]));
    assert_eq!(w.probed, strings(&["/d/t_video.mp4", "/d/t_audio.m4s"]));
    assert_eq!(w.created, strings(&["/d/out"]));
    assert_eq!(w.runs.len(), 1);
    assert_eq!(w.runs[0].0, "/usr/bin/ffmpeg");
    assert_eq!(w.runs[0].1, merge_args("/d/t_video.mp4", "/d/t_audio.m4s", "/d/out/t.mp4"));
    assert_eq!(&w.runs[0].1[4..10], &strings(&["-c:v", "copy", "-c:a", "aac", "-b:a", "128k"])[..]);
}

#[test]
fn failed_mux_keeps_its_inputs() {
    let mut w = world(&["/d/t_video.mp4", "/d/t_audio.m4s"]);
    w.ran = Ok(ToolOutput { success: false, stdout: String::new(), stderr: "Invalid data".to_string() });
    let (result, discard) = perform(&merge_job(), &mut w);
    assert_eq!(result, Err("ffmpeg合并失败: Invalid data".to_string()));
    assert!(discard.is_empty());
}

#[test]
fn mux_without_tool_fails_before_anything_is_touched() {
    let mut w = world(&["/d/t_video.mp4", "/d/t_audio.m4s"]);
    w.located = Err("未找到ffmpeg可执行文件".to_string());
    let (result, discard) = perform(&merge_job(), &mut w);
    assert_eq!(result, Err("未找到ffmpeg可执行文件".to_string()));
    assert!(discard.is_empty());
    assert!(w.probed.is_empty());
    assert!(w.created.is_empty());
    assert!(w.runs.is_empty());
}

#[test]
fn mux_reports_the_missing_input() {
    let mut w = world(&["/d/t_audio.m4s"]);
    assert_eq!(perform(&merge_job(), &mut w).0, Err("视频文件不存在: /d/t_video.mp4".to_string()));
    assert_eq!(w.probed.len(), 1);
    let mut w = world(&["/d/t_video.mp4"]);
    assert_eq!(perform(&merge_job(), &mut w).0, Err("音频文件不存在: /d/t_audio.m4s".to_string()));
    assert!(w.runs.is_empty());
    assert!(w.created.is_empty());
}

#[test]
fn mux_reports_a_directory_that_cannot_be_made() {
    let mut w = world(&["/d/t_video.mp4", "/d/t_audio.m4s"]);
    w.prepared = Err("read-only".to_string());
    assert_eq!(perform(&merge_job(), &mut w).0, Err("创建输出目录失败: read-only".to_string()));
    assert!(w.runs.is_empty());
}

#[test]
fn mux_reports_a_tool_that_does_not_start() {
    let mut w = world(&["/d/t_video.mp4", "/d/t_audio.m4s"]);
    w.ran = Err("permission denied".to_string());
    let (result, discard) = perform(&merge_job(), &mut w);
    assert_eq!(result, Err("执行ffmpeg失败: permission denied".to_string()));
    assert!(discard.is_empty());
}

#[test]
fn convert_job() {
    let job = ToolJob::Convert {
        input: "/d/in.flv".to_string(),
        output: "/d/o/out.mkv".to_string(),
        format: "MKV".to_string(),
    };
    let mut w = world(&["/d/in.flv"]);
    let (result, discard) = perform(&job, &mut w);
    assert_eq!(result, Ok("/d/o/out.mkv".to_string()));
    assert!(discard.is_empty());
    assert_eq!(w.created, strings(&["/d/o"]));
    assert_eq!(w.runs[0].1, strings(&["-i", "/d/in.flv", "-c:v", "copy", "-c:a", "copy", "-y", "/d/o/out.mkv"]));

    let mut w = world(&[]);
    assert_eq!(perform(&job, &mut w).0, Err("输入文件不存在: /d/in.flv".to_string()));

    let mut w = world(&["/d/in.flv"]);
    w.ran = Ok(ToolOutput { success: false, stdout: String::new(), stderr: "bad".to_string() });
    assert_eq!(perform(&job, &mut w).0, Err("ffmpeg转换失败: bad".to_string()));
}

#[test]
fn convert_job_with_unknown_format_fails_after_the_directory_is_made() {
    let job = ToolJob::Convert {
        input: "/d/in.flv".to_string(),
        output: "/d/o/out.webm".to_string(),
        format: "WebM".to_string(),
    };
    let mut w = world(&["/d/in.flv"]);
    assert_eq!(perform(&job, &mut w).0, Err("不支持的格式: WebM".to_string()));
    assert_eq!(w.created, strings(&["/d/o"]));
    assert!(w.runs.is_empty());
}

#[test]
fn extract_job() {
    let job = ToolJob::ExtractAudio {
        video: "/d/v.mp4".to_string(),
        audio: "/d/a.wav".to_string(),
        format: "wav".to_string(),
    };
    let mut w = world(&["/d/v.mp4"]);
    assert_eq!(perform(&job, &mut w).0, Ok("/d/a.wav".to_string()));
    assert_eq!(w.runs[0].0, "/usr/bin/ffmpeg");
    assert_eq!(w.runs[0].1, strings(&["-i", "/d/v.mp4", "-vn", "-acodec", "pcm_s16le", "-y", "/d/a.wav"]));

    let mut w = world(&[]);
    assert_eq!(perform(&job, &mut w).0, Err("视频文件不存在: /d/v.mp4".to_string()));

    let mut w = world(&["/d/v.mp4"]);
    w.ran = Ok(ToolOutput { success: false, stdout: String::new(), stderr: "bad".to_string() });
    assert_eq!(perform(&job, &mut w).0, Err("ffmpeg提取音频失败: bad".to_string()));

    let job = ToolJob::ExtractAudio {
        video: "/d/v.mp4".to_string(),
        audio: "/d/a.ogg".to_string(),
        format: "ogg".to_string(),
    };
    let mut w = world(&["/d/v.mp4"]);
    assert_eq!(perform(&job, &mut w).0, Err("不支持的音频格式: ogg".to_string()));
}

#[test]
fn probe_job_runs_the_tool_beside_the_media_tool() {
    let job = ToolJob::Probe { video: "/d/v.mp4".to_string() };
    let mut w = world(&["/d/v.mp4"]);
    w.ran = Ok(ToolOutput { success: true, stdout: "{\"format\":{}}".to_string(), stderr: String::new() });
    let (result, discard) = perform(&job, &mut w);
    assert_eq!(result, Ok("{\"format\":{}}".to_string()));
    assert!(discard.is_empty());
    assert!(w.created.is_empty());
    assert_eq!(w.runs[0].0, "/usr/bin/ffprobe");
    assert_eq!(w.runs[0].1, probe_args("/d/v.mp4"));

    let mut w = world(&["/d/v.mp4"]);
    w.ran = Ok(ToolOutput { success: false, stdout: String::new(), stderr: "bad".to_string() });
    assert_eq!(perform(&job, &mut w).0, Err("获取视频信息失败: bad".to_string()));

    let mut w = world(&["/d/v.mp4"]);
    w.ran = Err("not found".to_string());
    assert_eq!(perform(&job, &mut w).0, Err("执行ffprobe失败: not found".to_string()));

    let mut w = world(&[]);
    assert_eq!(perform(&job, &mut w).0, Err("视频文件不存在: /d/v.mp4".to_string()));
}

#[test]
fn probe_job_needs_a_directory_for_the_media_tool() {
    let job = ToolJob::Probe { video: "/d/v.mp4".to_string() };
    let mut w = world(&["/d/v.mp4"]);
    w.located = Ok("/".to_string());
    assert_eq!(perform(&job, &mut w).0, Err("无法获取ffmpeg父目录".to_string()));
    let mut w = world(&["/d/v.mp4"]);
    w.located = Ok("ffmpeg".to_string());
    assert_eq!(perform(&job, &mut w).0, Ok("{}".to_string()));
    assert_eq!(w.runs[0].0, "ffprobe");
}

#[test]
fn output_without_directory_is_not_prepared() {
    let job = ToolJob::Convert { input: "in".to_string(), output: "/".to_string(), format: "mp4".to_string() };
    let mut w = world(&["in"]);
    assert_eq!(perform(&job, &mut w).0, Ok("/".to_string()));
    assert!(w.created.is_empty());
}

#[test]
fn probe_with_a_given_tool() {
    let (state, action) = start_probe("/d/v.mp4", Some("/opt/ffprobe".to_string()));
    assert_eq!(state, JobState::Running);
    assert_eq!(action, JobAction::Run { program: "/opt/ffprobe".to_string(), args: probe_args("/d/v.mp4") });
    let (state, action) = start_probe("/d/v.mp4", None);
    assert_eq!(state, JobState::Failed);
    assert_eq!(action, JobAction::Finish { result: Err("无法获取ffmpeg父目录".to_string()), discard: Vec::new() });
}

#[test]
fn output_directory_is_created_before_the_tool_runs() {
    let job = merge_job();
    let (state, action) = prepare_output_in(&job, "/opt/ffmpeg".to_string(), Some("/d/out".to_string()));
    assert_eq!(state, JobState::PreparingOutput { tool: "/opt/ffmpeg".to_string() });
    assert_eq!(action, JobAction::CreateDirs("/d/out".to_string()));
    let (state, action) = prepare_output_in(&job, "/opt/ffmpeg".to_string(), None);
    assert_eq!(state, JobState::Running);
    assert_eq!(
        action,
        JobAction::Run {
            program: "/opt/ffmpeg".to_string(),
            args: merge_args("/d/t_video.mp4", "/d/t_audio.m4s", "/d/out/t.mp4")
        }
    );
    assert_eq!(start_tool(&job, "x".to_string()).0, JobState::Running);
}

#[test]
fn job_inputs_in_order() {
    let job = merge_job();
    assert_eq!(job_input(&job, 0), Some("/d/t_video.mp4"));
    assert_eq!(job_input(&job, 1), Some("/d/t_audio.m4s"));
    assert_eq!(job_input(&job, 2), None);
    let job = ToolJob::Probe { video: "v".to_string() };
    assert_eq!(job_input(&job, 0), Some("v"));
    assert_eq!(job_input(&job, 1), None);
}

#[test]
fn unexpected_job_event_fails_the_job() {
    let job = merge_job();
    let (state, action) = job_step(&job, JobState::Running, JobEvent::Probed(true));
    assert_eq!(state, JobState::Failed);
    assert_eq!(action, JobAction::Finish { result: Err("收到了意外的事件".to_string()), discard: Vec::new() });
    let (state, _) = job_step(
        &job,
        JobState::CheckingInput { tool: "t".to_string(), index: 7 },
        JobEvent::Probed(true),
    );
    assert_eq!(state, JobState::Failed);
}
