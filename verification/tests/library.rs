use std::cell::RefCell;

use wp_linux::autostart::{desktop_file_path, set_enabled, AutostartAction};
use wp_linux::library::{library_root, new_project_id, project_dir, scan, Found};
use wp_linux::monitors_config::{assignments_from, load, save, Assignments};
use wp_linux::paths::{extension, file_name, file_stem, join};
use wp_linux::push::{project_request, read_reply, ProjectPusher};
use wp_linux::shaders_library::{scan as scan_shaders, shaders_root};
use wp_linux::trust_store::{holds, is_trusted, mark_trusted, with_item};

fn found(id: &str, is_dir: bool, project: Option<(&str, u32, usize)>, has_preview: bool) -> Found {
    Found {
        id: id.to_string(),
        dir: format!("/lib/{id}"),
        is_dir,
        project: project.map(|(name, fps, layers)| (name.to_string(), fps, layers)),
        has_preview,
    }
}

#[test]
fn library_scan_of_missing_root_is_empty() {
    assert!(scan(Vec::new()).is_empty());
}

#[test]
fn scan_of_empty_dir_is_empty() {
    let nothing: Vec<Found> = Vec::new();
    assert!(scan(nothing).is_empty());
}

#[test]
fn scan_finds_a_valid_project_and_skips_a_malformed_one() {
    let entries = scan(vec![
        found("good-id", true, Some(("My Wallpaper", 30, 1)), false),
        found("bad-id", true, None, false),
        found("empty-id", true, None, false),
    ]);
    assert_eq!(entries.len(), 1);
    assert_eq!(entries[0].id, "good-id");
    assert_eq!(entries[0].name, "My Wallpaper");
    assert_eq!(entries[0].layer_count, 1);
    assert!(entries[0].preview_path.is_none());
}

#[test]
fn missing_name_falls_back_to_empty_string() {
    let entries = scan(vec![found("nameless-id", true, Some(("", 30, 0)), false)]);
    assert_eq!(entries.len(), 1);
    assert_eq!(entries[0].name, "");
    assert_eq!(entries[0].display_name(), "nameless-id");
}

#[test]
fn wallpapers_come_by_name_and_then_by_id() {
    let entries = scan(vec![
        found("3", true, Some(("b", 30, 1)), true),
        found("2", true, Some(("a", 30, 1)), false),
        found("1", true, Some(("a", 24, 2)), false),
        found("0", false, Some(("a", 30, 1)), false),
    ]);
    let ids: Vec<&str> = entries.iter().map(|e| e.id.as_str()).collect();
    assert_eq!(ids, vec!["1", "2", "3"]);
    assert_eq!(entries[2].preview_path.as_deref(), Some("/lib/3/preview.png"));
    assert_eq!((entries[0].fps, entries[0].layer_count), (24, 2));
}

#[test]
fn new_project_id_is_non_empty_hex() {
    let nanos = std::time::SystemTime::now()
        .duration_since(std::time::UNIX_EPOCH)
        .unwrap()
        .as_nanos();
    let id = new_project_id(nanos);
    assert!(!id.is_empty());
    assert!(id.chars().all(|c| c.is_ascii_hexdigit()));
}

#[test]
fn project_ids_are_the_time_in_hexadecimal() {
    assert_eq!(new_project_id(0), "0");
    assert_eq!(new_project_id(0x18f2_ab90), "18f2ab90");
    assert_eq!(new_project_id(u128::MAX), "ffffffffffffffffffffffffffffffff");
    assert_ne!(new_project_id(1), new_project_id(2));
}

#[test]
fn the_library_lies_below_the_users_data() {
    assert_eq!(library_root("/home/u/.local/share"), "/home/u/.local/share/wp_linux/wallpapers");
    assert_eq!(project_dir("/d", "ab12"), "/d/wp_linux/wallpapers/ab12");
    assert_eq!(shaders_root("/d"), "/d/wp_linux/shaders");
}

#[test]
fn paths_are_joined_and_taken_apart() {
    assert_eq!(join("/a", "b/c.png"), "/a/b/c.png");
    assert_eq!(join("/a/", "b"), "/a/b");
    assert_eq!(join("/a", "/b"), "/b");
    assert_eq!(join("", "b"), "b");
    assert_eq!(file_name("/a/b.png").as_deref(), Some("b.png"));
    assert_eq!(file_name("/a/b/").as_deref(), Some("b"));
    assert_eq!(file_name("/"), None);
    assert_eq!(file_name("a/.."), None);
    assert_eq!(extension("/a/b.tar.gz").as_deref(), Some("gz"));
    assert_eq!(extension("/a/.hidden"), None);
    assert_eq!(extension("/a/b"), None);
    assert_eq!(file_stem("/a/b.tar.gz").as_deref(), Some("b.tar"));
    assert_eq!(file_stem("/a/.hidden").as_deref(), Some(".hidden"));
}

#[test]
fn monitors_config_missing_file_is_an_empty_map() {
    assert!(load(&None).entries.is_empty());
}

#[test]
fn round_trips_a_written_map() {
    let text = "{\n  \"DP-1\": \"/tmp/some/project\"\n}".to_string();
    let assignments = load(&Some(text));
    assert_eq!(assignments.entries.len(), 1);
    assert_eq!(assignments.get("DP-1").as_deref(), Some("/tmp/some/project"));
}

#[test]
fn a_file_that_is_no_map_assigns_nothing() {
    for text in ["", "not json", "[1]", "{\"DP-1\": 3}"] {
        assert!(load(&Some(text.to_string())).entries.is_empty(), "{text}");
    }
}

#[test]
fn round_trips_a_saved_map() {
    let mut assignments = Assignments::new();
    assignments.insert("DP-1", "/tmp/some/project");
    assignments.insert("HDMI-A-1", "/tmp/other/project");
    let text = save(&assignments).expect("save_to failed");
    let loaded = load(&Some(text));
    assert_eq!(loaded.entries.len(), 2);
    assert_eq!(loaded.get("DP-1").as_deref(), Some("/tmp/some/project"));
    assert_eq!(loaded.get("HDMI-A-1").as_deref(), Some("/tmp/other/project"));
}

#[test]
fn save_overwrites_rather_than_merges() {
    let mut first = Assignments::new();
    first.insert("DP-1", "/tmp/a");
    let mut file = save(&first).unwrap();
    assert_eq!(load(&Some(file)).get("DP-1").as_deref(), Some("/tmp/a"));

    let mut second = Assignments::new();
    second.insert("HDMI-A-1", "/tmp/b");
    file = save(&second).unwrap();
    let loaded = load(&Some(file));
    assert_eq!(loaded.get("DP-1"), None);
    assert_eq!(loaded.get("HDMI-A-1").as_deref(), Some("/tmp/b"));
    assert_eq!(loaded.entries.len(), 1);
}

#[test]
fn assigning_again_replaces_the_project() {
    let mut a = Assignments::new();
    a.insert("DP-1", "/tmp/a");
    a.insert("DP-1", "/tmp/b");
    assert_eq!(a.entries.len(), 1);
    assert_eq!(a.get("DP-1").as_deref(), Some("/tmp/b"));
    assert_eq!(a.get("DP-2"), None);
    assert!(assignments_from(None).entries.is_empty());
}

#[test]
fn missing_file_trusts_nothing() {
    assert!(!is_trusted(&None, "some-project"));
}

#[test]
fn trusts_only_ids_present_in_the_file() {
    let file = Some("[\"trusted-project\"]".to_string());
    assert!(is_trusted(&file, "trusted-project"));
    assert!(!is_trusted(&file, "some-other-project"));
}

#[test]
fn a_file_that_is_no_set_trusts_nothing() {
    assert!(!is_trusted(&Some("{\"a\": 1}".to_string()), "a"));
    assert!(!is_trusted(&Some("[".to_string()), "a"));
}

#[test]
fn marking_trusted_is_readable_back() {
    let file = mark_trusted(&None, "project-a").unwrap();
    assert!(is_trusted(&Some(file), "project-a"));
}

#[test]
fn marking_a_second_project_trusted_does_not_forget_the_first() {
    let file = mark_trusted(&None, "project-a").unwrap();
    let file = Some(mark_trusted(&Some(file), "project-b").unwrap());
    assert!(is_trusted(&file, "project-a"));
    assert!(is_trusted(&file, "project-b"));
}

#[test]
fn marking_the_same_project_trusted_twice_is_a_no_op() {
    let once = mark_trusted(&None, "project-a").unwrap();
    let twice = mark_trusted(&Some(once.clone()), "project-a").unwrap();
    assert_eq!(once, twice);
    let items = with_item(vec!["project-a".to_string()], "project-a");
    assert_eq!(items.len(), 1);
    assert!(holds(&items, "project-a") && !holds(&items, "project-b"));
}

#[test]
fn shaders_library_scan_of_missing_root_is_empty() {
    assert!(scan_shaders(Vec::new()).is_empty());
}

#[test]
fn scan_finds_wgsl_files_sorted_and_skips_everything_else() {
    let file = |name: &str, is_file: bool| (format!("/s/{name}"), is_file);
    let entries = scan_shaders(vec![
        file("vignette_custom.wgsl", true),
        file("fire_flicker.wgsl", true),
        file("readme.txt", true),
        file("subdir.wgsl", false),
    ]);
    let names: Vec<&str> = entries.iter().map(|e| e.name.as_str()).collect();
    assert_eq!(names, vec!["fire_flicker", "vignette_custom"]);
    assert_eq!(entries[0].path, "/s/fire_flicker.wgsl");
}

#[test]
fn shaders_stand_in_the_order_of_their_files() {
    let file = |name: &str, is_file: bool| (format!("/s/{name}"), is_file);
    let entries = scan_shaders(vec![
        file("a.wgsl", true),
        file("b.wgsl", true),
        file("a-b.wgsl", true),
        file("readme.txt", true),
        file("subdir.wgsl", false),
    ]);
    let names: Vec<&str> = entries.iter().map(|e| e.name.as_str()).collect();
    assert_eq!(names, vec!["a-b", "a", "b"]);
}

struct RecordingPusher {
    calls: RefCell<Vec<(String, String)>>,
}

impl ProjectPusher for RecordingPusher {
    fn push(&self, monitor_id: &str, project_dir: &str) -> Result<(), String> {
        self.calls.borrow_mut().push((monitor_id.to_string(), project_dir.to_string()));
        Ok(())
    }
}

#[test]
fn recording_pusher_records_calls_without_touching_the_network() {
    let pusher = RecordingPusher { calls: RefCell::new(Vec::new()) };
    pusher.push("DP-1", "/tmp/some/project").unwrap();
    pusher.push("HDMI-A-1", "/tmp/other/project").unwrap();
    assert_eq!(
        *pusher.calls.borrow(),
        vec![
            ("DP-1".to_string(), "/tmp/some/project".to_string()),
            ("HDMI-A-1".to_string(), "/tmp/other/project".to_string()),
        ]
    );
}

#[test]
fn a_project_is_pushed_with_its_length_in_bytes() {
    assert_eq!(
        project_request("DP-1", "/p/\u{e4}"),
        "POST /project?monitor=DP-1 HTTP/1.1\r\nHost: 127.0.0.1\r\nContent-Length: 5\r\nConnection: close\r\n\r\n/p/\u{e4}"
    );
}

#[test]
fn a_reply_is_success_or_its_first_line() {
    assert_eq!(read_reply("HTTP/1.1 200 OK\r\n\r\nok"), Ok(()));
    assert_eq!(
        read_reply("HTTP/1.1 400 Bad Request\r\n\r\nx"),
        Err("render-server responded: HTTP/1.1 400 Bad Request".to_string())
    );
    assert_eq!(read_reply(""), Err("render-server responded: ".to_string()));
}

#[test]
fn the_start_at_login_is_a_desktop_file() {
    assert_eq!(
        desktop_file_path("/c"),
        "/c/autostart/dev.wplinux.render-server.desktop"
    );
    match set_enabled(true, "/c", "/usr/bin", true) {
        Ok(AutostartAction::Write { path, contents }) => {
            assert_eq!(path, "/c/autostart/dev.wplinux.render-server.desktop");
            assert_eq!(
                contents,
                "[Desktop Entry]\nType=Application\nName=WP Linux Render Server\nComment=Renders the WP Linux animated wallpaper in the background\nExec=/usr/bin/render-server\nTerminal=false\nNoDisplay=true\nX-GNOME-Autostart-enabled=true\n"
            );
        }
        _ => panic!("expected a file to write"),
    }
    assert!(matches!(
        set_enabled(false, "/c", "/usr/bin", false),
        Ok(AutostartAction::Remove { .. })
    ));
    match set_enabled(true, "/c", "/usr/bin", false) {
        Err(e) => assert_eq!(
            e.message,
            "no render-server binary next to wp_linux_editor at \"/usr/bin/render-server\""
        ),
        Ok(_) => panic!("expected an error"),
    }
}
