use cilicili::export::{
    batch_result, choose_name, export_step, file_info, file_info_failure, file_info_named,
    file_missing, folder_creation_failure, folder_missing, folder_opener, numbered,
    numbered_parts, opener_failure, ExportAction, ExportAttempt, ExportEvent, ExportRequest,
    ExportState, Platform,
};
use cilicili::text::join_with;
use cilicili::types::FileInfo;
use std::collections::BTreeSet;

#[test]
fn numbered_names() {
    assert_eq!(numbered("/out/clip.mp4", 1), "clip_1.mp4");
    assert_eq!(numbered("/out/clip.mp4", 12), "clip_12.mp4");
    assert_eq!(numbered("/out/archive.tar.gz", 2), "archive.tar_2.gz");
    assert_eq!(numbered("/out/README", 3), "README_3");
    assert_eq!(numbered("/out/.hidden", 1), ".hidden_1");
    assert_eq!(numbered("/out/视频.mp4", u32::MAX), "视频_4294967295.mp4");
    assert_eq!(numbered("/", 1), "_1");
}

#[test]
fn numbered_names_divide_at_the_last_dot() {
    assert_eq!(numbered("/out/a.", 1), "a_1");
    assert_eq!(numbered("/out/..foo", 1), "._1.foo");
    assert_eq!(numbered("/out/...", 1), ".._1");
    assert_eq!(numbered("/out/.a.b", 4), ".a_4.b");
    assert_eq!(numbered("/out/a.b.", 4), "a.b_4");
    assert_eq!(numbered("/out/dir.d/file", 2), "file_2");
    assert_eq!(numbered("/out/dir.d/", 2), "dir_2.d");
    assert_eq!(numbered("..", 2), "_2");
    assert_eq!(numbered("", 2), "_2");
}

#[test]
fn numbered_names_keep_the_extension() {
    for name in ["clip.mp4", "a.b.c", "视频.mkv", ".x.y"] {
        let dot = name.rfind('.').unwrap();
        let expected = format!("{}_{}{}", &name[..dot], 7, &name[dot..]);
        assert_eq!(numbered(&format!("/out/{}", name), 7), expected);
    }
}

#[test]
fn numbered_names_from_parts() {
    assert_eq!(numbered_parts("clip", "mp4", 1), "clip_1.mp4");
    assert_eq!(numbered_parts("clip", "", 7), "clip_7");
    assert_eq!(numbered_parts("", "", 0), "_0");
    assert_eq!(numbered_parts("a.b", "c", 10), "a.b_10.c");
}

#[test]
fn wanted_name_goes_before_the_source_name() {
    assert_eq!(choose_name(&Some("w".to_string()), Some("s".to_string())), Some("w".to_string()));
    assert_eq!(choose_name(&Some("w".to_string()), None), Some("w".to_string()));
    assert_eq!(choose_name(&None, Some("s".to_string())), Some("s".to_string()));
    assert_eq!(choose_name(&None, None), None);
}

#[test]
fn file_info_with_a_given_name() {
    assert_eq!(file_info_named("/p", Some("n".to_string()), 1, true, None, Some(2)).name, "n");
    assert_eq!(file_info_named("/p", None, 1, true, None, Some(2)).name, "");
}

/// A pretended file system.
struct World {
    present: BTreeSet<String>,
    created: Result<(), String>,
    copied: Result<u64, String>,
    probed: Vec<String>,
    copies: Vec<(String, String)>,
}

fn world(present: &[&str]) -> World {
    World {
        present: present.iter().map(|p| p.to_string()).collect(),
        created: Ok(()),
        copied: Ok(3),
        probed: Vec::new(),
        copies: Vec::new(),
    }
}

fn export(request: &ExportRequest, w: &mut World) -> Result<String, String> {
    let (mut state, mut action) = export_step(request, ExportState::Start, ExportEvent::Begin);
    let mut steps = 0;
    loop {
        let event = match action {
            ExportAction::Finish(result) => return result,
            ExportAction::Probe(path) => {
                w.probed.push(path.clone());
                ExportEvent::Probed(w.present.contains(&path))
            }
            ExportAction::CreateDirs(dir) => {
                if w.created.is_ok() {
                    w.present.insert(dir);
                }
                ExportEvent::Created(w.created.clone())
            }
            ExportAction::Copy { from, to } => {
                w.copies.push((from, to.clone()));
                if w.copied.is_ok() {
                    w.present.insert(to);
                }
                ExportEvent::Copied(w.copied.clone())
            }
        };
        steps += 1;
        assert!(steps < 100);
        let following = export_step(request, state, event);
        state = following.0;
        action = following.1;
    }
}

fn request(source: &str, folder: &str, name: Option<&str>) -> ExportRequest {
    ExportRequest {
        source_path: source.to_string(),
        target_folder: folder.to_string(),
        new_filename: name.map(|n| n.to_string()),
    }
}

#[test]
fn export_into_an_empty_folder_keeps_the_name() {
    let mut w = world(&["/dl/clip.mp4", "/out"]);
    assert_eq!(export(&request("/dl/clip.mp4", "/out", None), &mut w), Ok("/out/clip.mp4".to_string()));
    assert_eq!(w.copies, vec![("/dl/clip.mp4".to_string(), "/out/clip.mp4".to_string())]);
}

#[test]
fn export_takes_the_first_free_number() {
    let mut w = world(&["/dl/clip.mp4", "/out", "/out/clip.mp4", "/out/clip_1.mp4", "/out/clip_2.mp4"]);
    assert_eq!(export(&request("/dl/clip.mp4", "/out", None), &mut w), Ok("/out/clip_3.mp4".to_string()));
    assert_eq!(
        w.probed,
        vec!["/dl/clip.mp4", "/out", "/out/clip.mp4", "/out/clip_1.mp4", "/out/clip_2.mp4", "/out/clip_3.mp4"]
    );
    let mut w = world(&["/dl/clip.mp4", "/out", "/out/clip.mp4", "/out/clip_2.mp4"]);
    assert_eq!(export(&request("/dl/clip.mp4", "/out", None), &mut w), Ok("/out/clip_1.mp4".to_string()));
}

#[test]
fn export_under_a_new_name() {
    let mut w = world(&["/dl/clip.mp4", "/out", "/out/film"]);
    assert_eq!(export(&request("/dl/clip.mp4", "/out", Some("film")), &mut w), Ok("/out/film_1".to_string()));
}

#[test]
fn export_creates_a_missing_folder() {
    let mut w = world(&["/dl/clip.mp4"]);
    assert_eq!(export(&request("/dl/clip.mp4", "/new/out", None), &mut w), Ok("/new/out/clip.mp4".to_string()));
    assert!(w.present.contains("/new/out"));
    let mut w = world(&["/dl/clip.mp4"]);
    w.created = Err("denied".to_string());
    assert_eq!(export(&request("/dl/clip.mp4", "/new/out", None), &mut w), Err("创建目标目录失败: denied".to_string()));
    assert!(w.copies.is_empty());
}

#[test]
fn export_of_a_missing_source_fails() {
    let mut w = world(&["/out"]);
    assert_eq!(export(&request("/dl/clip.mp4", "/out", None), &mut w), Err("源文件不存在: /dl/clip.mp4".to_string()));
    assert_eq!(w.probed, vec!["/dl/clip.mp4"]);
}

#[test]
fn export_of_a_source_without_name_fails() {
    let mut w = world(&["/dl/..", "/out"]);
    assert_eq!(export(&request("/dl/..", "/out", None), &mut w), Err("无法获取源文件名".to_string()));
    let mut w = world(&["/dl/..", "/out"]);
    assert_eq!(export(&request("/dl/..", "/out", Some("x.mp4")), &mut w), Ok("/out/x.mp4".to_string()));
}

#[test]
fn export_reports_a_failed_copy() {
    let mut w = world(&["/dl/clip.mp4", "/out"]);
    w.copied = Err("disk full".to_string());
    assert_eq!(export(&request("/dl/clip.mp4", "/out", None), &mut w), Err("复制文件失败: disk full".to_string()));
}

#[test]
fn export_gives_up_when_the_numbers_run_out() {
    let req = request("/dl/clip.mp4", "/out", None);
    let state = ExportState::Probing {
        base: "/out/clip.mp4".to_string(),
        candidate: "/out/clip_4294967294.mp4".to_string(),
        counter: u32::MAX,
    };
    let (state, action) = export_step(&req, state, ExportEvent::Probed(true));
    assert_eq!(state, ExportState::Failed);
    assert_eq!(action, ExportAction::Finish(Err("复制文件失败: 没有可用的文件名".to_string())));
    let (state, action) = export_step(&req, ExportState::Copying { target: "t".to_string() }, ExportEvent::Begin);
    assert_eq!(state, ExportState::Failed);
    assert_eq!(action, ExportAction::Finish(Err("收到了意外的事件".to_string())));
}

fn attempt(source: &str, result: Result<&str, &str>) -> ExportAttempt {
    ExportAttempt {
        source: source.to_string(),
        result: result.map(|p| p.to_string()).map_err(|e| e.to_string()),
    }
}

#[test]
fn batch_of_successes_lists_the_copies() {
    let attempts = vec![attempt("/a", Ok("/out/a")), attempt("/b", Ok("/out/b_1"))];
    assert_eq!(batch_result(&attempts), Ok(vec!["/out/a".to_string(), "/out/b_1".to_string()]));
    assert_eq!(batch_result(&Vec::new()), Ok(Vec::new()));
}

#[test]
fn batch_with_failures_reports_them_all() {
    let attempts = vec![
        attempt("/a", Err("源文件不存在: /a")),
        attempt("/b", Ok("/out/b")),
        attempt("/c", Err("复制文件失败: x")),
    ];
    assert_eq!(
        batch_result(&attempts),
        Err("部分文件导出失败: 导出文件 /a 失败: 源文件不存在: /a, 导出文件 /c 失败: 复制文件失败: x".to_string())
    );
    let attempts = vec![attempt("/a", Ok("/out/a")), attempt("/b", Err("e"))];
    assert_eq!(batch_result(&attempts), Err("部分文件导出失败: 导出文件 /b 失败: e".to_string()));
}

#[test]
fn join_with_puts_the_separator_between() {
    assert_eq!(join_with(&Vec::new(), ", "), "");
    assert_eq!(join_with(&vec!["a".to_string()], ", "), "a");
    assert_eq!(join_with(&vec!["a".to_string(), "".to_string(), "c".to_string()], ", "), "a, , c");
}

#[test]
fn folder_opener_by_platform() {
    assert_eq!(folder_opener(Platform::MacOs), "open");
    assert_eq!(folder_opener(Platform::Windows), "explorer");
    assert_eq!(folder_opener(Platform::Linux), "xdg-open");
}

#[test]
fn reports_about_files_and_folders() {
    assert_eq!(folder_missing("/nowhere"), "文件夹不存在: /nowhere");
    assert_eq!(folder_creation_failure("denied"), "创建目标目录失败: denied");
    assert_eq!(opener_failure("not found"), "打开文件夹失败: not found");
    assert_eq!(file_missing("/nowhere/f"), "文件不存在: /nowhere/f");
    assert_eq!(file_info_failure("denied"), "获取文件信息失败: denied");
}

#[test]
fn file_info_names_the_last_component() {
    assert_eq!(
        file_info("/out/视频.mp4", 1024, false, Some(1700000000), None),
        FileInfo {
            path: "/out/视频.mp4".to_string(),
            name: "视频.mp4".to_string(),
            size: 1024,
            is_dir: false,
            created: Some(1700000000),
            modified: None,
        }
    );
    assert_eq!(file_info("/out/dir/", 0, true, None, Some(5)).name, "dir");
    assert_eq!(file_info("/", 0, true, None, None).name, "");
    assert_eq!(file_info("/a/..", 0, true, None, None).name, "");
}
