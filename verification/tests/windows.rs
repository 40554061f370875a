use deepseek_status_widget::codex::{
    collect_window, detected, get_rect, largest_window, process_name, self_main_hwnd,
    self_window_probe, window_content_rect, Candidate, CodexWindowDetector, DetectedCodex, Lookup,
    NativeRect, Point, ProcessImage, WinRect, WindowReport,
};
use deepseek_status_widget::follow::{
    frame_fits, Follower, Frame, ACCOUNT_AREA_H_L, POLL_MS, SAVE_DELAY_MS, WIDGET_BOTTOM_GAP_L,
    WIDGET_LEFT_INSET_L,
};
use deepseek_status_widget::utf16::encode_utf16;

fn rect(left: i32, top: i32, right: i32, bottom: i32) -> WinRect {
    WinRect { left, top, right, bottom }
}

fn candidate(hwnd: usize, pid: u32, title: &str, r: WinRect) -> Candidate {
    Candidate { hwnd, pid, title: title.to_string(), rect: r }
}

fn image(path: &str) -> Option<ProcessImage> {
    let mut buf = encode_utf16(path);
    let size = buf.len() as u32;
    buf.resize(1024, 0);
    Some(ProcessImage { path: buf, size })
}

fn frame(codex: Option<WinRect>, widget: Option<WinRect>) -> Frame {
    Frame {
        force_reposition: false,
        codex: codex.map(|rect| DetectedCodex { rect, minimized: false }),
        widget,
        inset: 0,
        lift: 46,
        offset_x: 0,
        offset_y: 0,
        visible: true,
    }
}

#[test]
fn default_rules_recognise_the_program() {
    let d = CodexWindowDetector::new();
    assert_eq!(d.process_name_contains, vec!["chatgpt"]);
    assert_eq!(d.title_contains, vec!["chatgpt"]);
    assert_eq!(d.exe_path_contains, vec!["openai.codex"]);
    assert!(d.matches("", "My ChatGPT window"));
    assert!(d.matches("C:\\Program Files\\WindowsApps\\OpenAI.Codex_1.0\\app\\x.exe", ""));
    assert!(d.matches("ChatGPT.exe", "other"));
    assert!(!d.matches("notepad.exe", "Untitled"));
    assert!(!CodexWindowDetector::default().matches("ChatGPT.exe", "ChatGPT"));
}

#[test]
fn process_name_rule_looks_behind_folders() {
    let d = CodexWindowDetector::new();
    assert!(d.matches("C:/Apps/ChatGPT.exe", ""));
    assert!(!d.matches("C:/chatgpt/foo.exe", "My Window"));
    assert!(d.matches("/opt/apps/my-chatgpt", "My Window"));
    assert!(!d.matches("/opt/chatgpt/foo.exe", "My Window"));
    assert!(!d.matches("/opt/foo.chatgpt", "My Window"));
    assert!(d.matches("C:\\Apps\\ChatGPT.exe", ""));
}

#[test]
fn lowercase_follows_unicode() {
    let mut d = CodexWindowDetector::default();
    d.title_contains = vec!["\u{e9}t\u{e9}".to_string()];
    assert!(d.matches("", "\u{c9}T\u{c9}"));
    assert!(d.matches_lowered("", "\u{e9}t\u{e9}", ""));
    assert!(!d.matches_lowered("\u{e9}t\u{e9}", "", "\u{e9}t\u{e9}"));
}

#[test]
fn process_names_are_file_stems() {
    assert_eq!(process_name("ChatGPT.exe"), "ChatGPT");
    assert_eq!(process_name("a.tar.gz"), "a.tar");
    assert_eq!(process_name(".profile"), ".profile");
    assert_eq!(process_name("plain"), "plain");
    assert_eq!(process_name("dot."), "dot");
    assert_eq!(process_name("dir/ChatGPT.exe"), "ChatGPT");
    assert_eq!(process_name("C:/a.b/c/ChatGPT.tar.gz"), "ChatGPT.tar");
    assert_eq!(process_name("/x.y/plain"), "plain");
    let drive = process_name("C:\\Apps\\ChatGPT.exe");
    assert!(drive == "ChatGPT" || drive == "C:\\Apps\\ChatGPT");
    assert_eq!(process_name(""), "");
    assert_eq!(process_name(".."), "");
}

#[test]
fn paths_are_asked_for_once() {
    let mut d = CodexWindowDetector::new();
    assert_eq!(d.known_path(7), None);
    assert_eq!(d.exe_path(7, &image("C:\\a\\ChatGPT.exe")), "C:\\a\\ChatGPT.exe");
    assert_eq!(d.known_path(7), Some("C:\\a\\ChatGPT.exe".to_string()));
    assert_eq!(d.exe_path(7, &image("other")), "C:\\a\\ChatGPT.exe");
    assert_eq!(d.exe_path(8, &None), "");
    assert_eq!(d.known_path(8), Some(String::new()));
}

#[test]
fn a_path_longer_than_the_buffer_is_cut() {
    let mut d = CodexWindowDetector::new();
    let report = Some(ProcessImage { path: encode_utf16("abc"), size: 5000 });
    assert_eq!(d.exe_path(1, &report), "abc");
    let broken = Some(ProcessImage { path: vec![0x61, 0xd800, 0x62], size: 3 });
    assert_eq!(d.exe_path(2, &broken), "a\u{fffd}b");
}

#[test]
fn largest_match_is_the_main_window() {
    let mut d = CodexWindowDetector::new();
    d.exe_path(1, &image("ChatGPT.exe"));
    d.exe_path(2, &image("explorer.exe"));
    let list = vec![
        candidate(10, 1, "small", rect(0, 0, 10, 10)),
        candidate(11, 2, "desktop", rect(0, 0, 900, 900)),
        candidate(12, 1, "main", rect(100, 100, 300, 300)),
        candidate(13, 1, "same", rect(0, 0, 200, 200)),
    ];
    assert_eq!(d.cached(), None);
    assert_eq!(d.find(true), Lookup::Enumerate);
    let found = d.enumerate_best(&list);
    assert_eq!(found, Some(12));
    assert_eq!(d.cached(), None);
    d.remember(found);
    assert_eq!(d.cached(), Some(12));
    assert_eq!(d.find(true), Lookup::Inspect(12));
    assert_eq!(d.find(false), Lookup::Enumerate);
    let none = vec![candidate(11, 2, "desktop", rect(0, 0, 900, 900))];
    let found = d.enumerate_best(&none);
    assert_eq!(found, None);
    d.remember(found);
    assert_eq!(d.cached(), Some(12));
    d.remember(Some(30));
    assert_eq!(d.cached(), Some(30));
}

#[test]
fn largest_window_of_extreme_rectangles() {
    let list = vec![
        candidate(1, 1, "", rect(0, 0, -5, 5)),
        candidate(2, 1, "", rect(i32::MIN, i32::MIN, i32::MAX, i32::MAX)),
        candidate(3, 1, "", rect(0, 0, 1, 1)),
    ];
    assert_eq!(largest_window(&list, &vec![true, true, true]), Some(2));
    assert_eq!(largest_window(&list, &vec![true, false, true]), Some(3));
    assert_eq!(largest_window(&list, &vec![true, false, false]), Some(1));
    assert_eq!(largest_window(&list, &vec![false, false, false]), None);
}

#[test]
fn windows_are_collected() {
    let mut list = Vec::new();
    let mut report = WindowReport {
        hwnd: 5,
        visible: 1,
        pid: 9,
        title: encode_utf16("Hello\0\0"),
        title_len: 5,
        rect: Some(rect(1, 2, 3, 4)),
    };
    collect_window(&mut list, &report);
    assert_eq!(list.len(), 1);
    assert_eq!(list[0].title, "Hello");
    assert_eq!(list[0].rect, rect(1, 2, 3, 4));
    assert_eq!((list[0].hwnd, list[0].pid), (5, 9));
    report.title_len = 0;
    report.rect = None;
    collect_window(&mut list, &report);
    assert_eq!(list[1].title, "");
    assert_eq!(list[1].rect, WinRect::default());
    report.visible = 0;
    collect_window(&mut list, &report);
    report.visible = 1;
    report.pid = 0;
    collect_window(&mut list, &report);
    assert_eq!(list.len(), 2);
}

#[test]
fn own_window_is_found_by_process_and_title() {
    let title = encode_utf16("DeepSeek Status Widget\0\0\0");
    let mut find = self_main_hwnd(77);
    assert_eq!(find.found, None);
    assert!(self_window_probe(&mut find, 1, 76, &title, 22));
    assert!(self_window_probe(&mut find, 2, 77, &title, 8));
    assert!(self_window_probe(&mut find, 3, 77, &title, -1));
    assert_eq!(find.found, None);
    assert!(!self_window_probe(&mut find, 4, 77, &title, 22));
    assert_eq!(find.found, Some(4));
}

#[test]
fn rectangles_of_the_system() {
    let client = NativeRect { left: 0, top: 0, right: 640, bottom: 480 };
    let origin = Point { x: 100, y: -20 };
    assert_eq!(window_content_rect(Some(client), Some(origin)), Some(rect(100, -20, 740, 460)));
    assert_eq!(window_content_rect(None, Some(origin)), None);
    assert_eq!(window_content_rect(Some(client), None), None);
    assert_eq!(get_rect(1, client), Some(rect(0, 0, 640, 480)));
    assert_eq!(get_rect(0, client), None);
    assert_eq!(detected(None, 1), None);
    assert_eq!(
        detected(Some(rect(0, 0, 1, 1)), 1),
        Some(DetectedCodex { rect: rect(0, 0, 1, 1), minimized: true })
    );
    assert!(!detected(Some(rect(0, 0, 1, 1)), 0).unwrap().minimized);
}

#[test]
fn widget_goes_above_the_account_area() {
    let mut f = Follower::new();
    let codex = rect(100, 50, 1100, 850);
    let look = frame(Some(codex), Some(rect(0, 0, 200, 40)));
    assert!(frame_fits(&look));
    let step = f.follow(&look);
    assert_eq!(step.move_to, Some((100, 850 - 46 - 40)));
    assert_eq!(step.record, None);
    assert!(!step.show && !step.hide);
    let settled = frame(Some(codex), Some(rect(100, 764, 300, 804)));
    let step = f.follow(&settled);
    assert_eq!((step.move_to, step.record), (None, None));
}

#[test]
fn widget_of_unknown_height_is_not_moved() {
    let mut f = Follower::new();
    let mut look = frame(Some(rect(0, 0, 500, 500)), None);
    look.visible = false;
    let step = f.follow(&look);
    assert_eq!((step.move_to, step.record), (None, None));
    assert!(step.show);
}

#[test]
fn drag_is_recorded_and_saved_once() {
    let mut f = Follower::new();
    let codex = rect(100, 50, 1100, 850);
    f.follow(&frame(Some(codex), Some(rect(100, 764, 300, 804))));
    let near = f.follow(&frame(Some(codex), Some(rect(103, 761, 303, 801))));
    assert_eq!(near.record, None);
    assert!(!f.save_due(10_000));
    let dragged = frame(Some(codex), Some(rect(140, 700, 340, 740)));
    let step = f.follow(&dragged);
    assert_eq!(step.record, Some((40, -64)));
    assert_eq!(step.move_to, None);
    assert!(!f.save_due(SAVE_DELAY_MS - 1));
    assert!(f.save_due(SAVE_DELAY_MS));
    assert!(!f.save_due(SAVE_DELAY_MS));
    let mut remembered = dragged;
    remembered.offset_x = 40;
    remembered.offset_y = -64;
    let step = f.follow(&remembered);
    assert_eq!((step.move_to, step.record), (None, None));
    remembered.codex = Some(DetectedCodex { rect: rect(110, 50, 1110, 860), minimized: false });
    assert_eq!(f.follow(&remembered).move_to, Some((150, 710)));
}

#[test]
fn forced_reposition_moves_instead_of_recording() {
    let mut f = Follower::new();
    let codex = rect(0, 0, 1000, 1000);
    f.follow(&frame(Some(codex), Some(rect(0, 914, 100, 954))));
    let mut look = frame(Some(codex), Some(rect(50, 900, 150, 940)));
    look.force_reposition = true;
    let step = f.follow(&look);
    assert_eq!(step.move_to, Some((0, 914)));
    assert_eq!(step.record, None);
}

#[test]
fn hidden_while_codex_is_away() {
    let mut f = Follower::new();
    let codex = rect(0, 0, 1000, 1000);
    f.follow(&frame(Some(codex), None));
    assert_eq!(f.last_codex, Some(codex));
    let gone = f.follow(&frame(None, Some(rect(1, 2, 3, 4))));
    assert!(gone.hide && !gone.show);
    assert_eq!((gone.move_to, gone.record), (None, None));
    assert_eq!(f.last_codex, None);
    let mut small = frame(Some(codex), None);
    small.codex = Some(DetectedCodex { rect: codex, minimized: true });
    assert!(f.follow(&small).hide);
    let back = f.follow(&frame(Some(codex), Some(rect(50, 900, 150, 940))));
    assert_eq!(back.move_to, Some((0, 914)));
}

#[test]
fn frames_beyond_the_coordinates_do_not_fit() {
    assert!(!frame_fits(&frame(Some(rect(0, 0, 0, i32::MIN)), None)));
    let mut look = frame(Some(rect(i32::MAX, 0, 0, 0)), None);
    assert!(frame_fits(&look));
    look.offset_x = 1;
    assert!(!frame_fits(&look));
    look.codex = None;
    assert!(frame_fits(&look));
}

#[test]
fn layout_constants() {
    assert_eq!(WIDGET_LEFT_INSET_L, 0);
    assert_eq!(ACCOUNT_AREA_H_L + WIDGET_BOTTOM_GAP_L, 46);
    assert_eq!(POLL_MS, 5);
}
