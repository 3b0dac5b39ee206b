use cilicili::paths::{download_folder, file_name_char, resolve, sanitize_title};

fn is_safe(c: char) -> bool {
    c.is_alphanumeric() || c == ' ' || c == '-' || c == '_'
}

#[test]
fn file_name_char_keeps_or_replaces() {
    assert_eq!(file_name_char('a', true), 'a');
    assert_eq!(file_name_char('!', false), '_');
    assert_eq!(file_name_char(' ', false), ' ');
    assert_eq!(file_name_char('-', false), '-');
    assert_eq!(file_name_char('_', false), '_');
    assert_eq!(file_name_char('.', false), '_');
    assert_eq!(file_name_char('/', true), '/');
}

#[test]
fn sanitize_replaces_punctuation() {
    assert_eq!(sanitize_title("My Video! #1"), "My Video_ _1");
}

#[test]
fn sanitize_keeps_letters_of_any_script() {
    assert_eq!(sanitize_title("【4K】演示-视频_01"), "_4K_演示-视频_01");
    assert_eq!(sanitize_title("Ünïcödé ½"), "Ünïcödé ½");
}

#[test]
fn sanitize_replaces_separators_and_dots() {
    assert_eq!(sanitize_title("a/b\\c:d.e"), "a_b_c_d_e");
    assert_eq!(sanitize_title("..\u{0}\t\n"), "_____");
}

#[test]
fn sanitize_of_empty_title_is_empty() {
    assert_eq!(sanitize_title(""), "");
}

#[test]
fn sanitized_titles_hold_only_safe_characters() {
    let titles = ["My Video! #1", "【4K】演示", "a/b\\c", "🎬 film 🎬", "tab\there", "ok-name_1"];
    for title in titles {
        let safe = sanitize_title(title);
        assert!(safe.chars().all(is_safe), "{:?}", safe);
        assert_eq!(safe.chars().count(), title.chars().count());
    }
}

#[test]
fn sanitizing_twice_changes_nothing() {
    let titles = ["My Video! #1", "【4K】演示", "a/b\\c", "🎬 film 🎬", ""];
    for title in titles {
        let once = sanitize_title(title);
        assert_eq!(sanitize_title(&once), once);
    }
}

#[test]
fn resolve_names_the_four_files() {
    let target = resolve("My Video! #1", "/tmp/out");
    assert_eq!(target.video_path, "/tmp/out/My Video_ _1_video.mp4");
    assert_eq!(target.audio_path, "/tmp/out/My Video_ _1_audio.mp3");
    assert_eq!(target.final_path, "/tmp/out/My Video_ _1.mp4");
    assert_eq!(target.audio_final_path, "/tmp/out/My Video_ _1.mp3");
}

#[test]
fn resolve_of_empty_title_keeps_the_endings() {
    let target = resolve("", "out");
    assert_eq!(target.video_path, "out/_video.mp4");
    assert_eq!(target.audio_path, "out/_audio.mp3");
    assert_eq!(target.final_path, "out/.mp4");
    assert_eq!(target.audio_final_path, "out/.mp3");
}

#[test]
fn titles_that_sanitize_alike_share_their_files() {
    assert_eq!(resolve("a?b", "/d"), resolve("a*b", "/d"));
    assert_ne!(resolve("a?b", "/d"), resolve("a?c", "/d"));
}

#[test]
fn download_folder_is_named_for_the_application() {
    assert_eq!(download_folder("/home/u/Downloads"), "/home/u/Downloads/CiliCili");
}
