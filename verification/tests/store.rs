use deepseek_status_widget::autostart::{
    apply_autostart, change_outcome, open_outcome, run_key, RunChange,
};
use deepseek_status_widget::credentials::{
    clear_api_key, clear_user_token, delete_outcome, load_api_key, load_user_token, read_outcome,
    save_api_key, save_user_token, write_outcome, StoredCredential,
};
use deepseek_status_widget::prefs::{
    get_ui_settings, load_prefs, remember_offset, reset_widget_position, set_ui_settings,
    UiSettings, WidgetPrefs,
};
use deepseek_status_widget::text::{
    contains_text, push_decimal, push_padded_decimal, push_signed_decimal, read_number_or_zero,
    starts_with_text, strip_ends, trim, Strip,
};
use deepseek_status_widget::usage::{
    checked_totals, local_today, totals, utc_today, Clocks, Event, SystemTimeRaw, UsageTotals,
};
use deepseek_status_widget::utf16::{
    buffer_text, decode_utf16, decode_utf16_lossy, from_utf16le, to_utf16le, wide, wide_utf16,
};

fn units(s: &str) -> Vec<u16> {
    s.encode_utf16().chain(Some(0)).collect()
}

fn time(year: u16, month: u16, day: u16) -> SystemTimeRaw {
    SystemTimeRaw {
        year,
        month,
        day_of_week: 3,
        day,
        hour: 1,
        minute: 2,
        second: 3,
        millis: 4,
    }
}

fn clocks() -> Clocks {
    Clocks { local: time(2026, 5, 27), utc: time(2026, 5, 26) }
}

fn event(date: &str, input_tokens: u64, output_tokens: u64) -> Event {
    Event { date: date.to_string(), input_tokens, output_tokens }
}

#[test]
fn utf16_agrees_with_the_standard_library() {
    for s in ["", "abc", "\u{e9}\u{4e2d}\u{6587}", "a\u{1f600}b\u{10ffff}", "\u{d7ff}\u{e000}\u{ffff}\u{10000}"] {
        assert_eq!(wide(s), units(s));
        assert_eq!(wide_utf16(s), units(s));
        let bytes: Vec<u8> = s.encode_utf16().flat_map(|u| u.to_le_bytes()).collect();
        assert_eq!(to_utf16le(s), bytes);
        assert_eq!(from_utf16le(&bytes), Some(s.to_string()));
        let plain: Vec<u16> = s.encode_utf16().collect();
        assert_eq!(decode_utf16(&plain), Some(s.to_string()));
        assert_eq!(decode_utf16_lossy(&plain), s);
    }
}

#[test]
fn broken_utf16_is_refused_or_replaced() {
    for plain in [
        vec![0xd800u16],
        vec![0xdc00, 0x61],
        vec![0x61, 0xd83d, 0x62],
        vec![0xd83d, 0xd83d, 0xde00],
        vec![0xde00, 0xd83d],
    ] {
        assert_eq!(decode_utf16(&plain), None);
        assert_eq!(decode_utf16_lossy(&plain), String::from_utf16_lossy(&plain));
    }
    assert_eq!(from_utf16le(&vec![0x61]), None);
    assert_eq!(from_utf16le(&vec![0x00, 0xd8]), None);
    assert_eq!(from_utf16le(&vec![]), Some(String::new()));
}

#[test]
fn buffers_are_cut_to_their_filled_part() {
    let buf = vec![0x61u16, 0x62, 0x63];
    assert_eq!(buffer_text(&buf, 2), "ab");
    assert_eq!(buffer_text(&buf, 0), "");
    assert_eq!(buffer_text(&buf, 3), "abc");
    assert_eq!(buffer_text(&buf, 9), "abc");
    assert_eq!(buffer_text(&buf, -1), "abc");
}

#[test]
fn key_is_stored_and_read_back() {
    let record = save_api_key("sk-\u{5bc6}\u{1f511}");
    assert_eq!(record.target_name, units("DeepSeekStatusWidget/ApiKey"));
    assert_eq!(record.user_name, units("DeepSeekStatusWidget"));
    assert_eq!((record.flags, record.type_, record.persist), (0, 1, 2));
    assert_eq!(record.attribute_count, 0);
    assert_eq!(record.credential_blob_size as usize, record.credential_blob.len());
    let found = StoredCredential { credential_blob: Some(record.credential_blob) };
    assert_eq!(read_outcome(1, Some(found)), Some("sk-\u{5bc6}\u{1f511}".to_string()));
}

#[test]
fn login_is_stored_without_its_wrapping() {
    let record =
        save_user_token(r#"{"value":"sess-test-token-1234567890abcdef","__version":"0"}"#);
    let found = StoredCredential { credential_blob: Some(record.credential_blob) };
    assert_eq!(
        read_outcome(1, Some(found)),
        Some("sess-test-token-1234567890abcdef".to_string())
    );
    let bare = save_user_token(" 'abc-123' ");
    assert_eq!(bare.credential_blob, to_utf16le("abc-123"));
    assert_eq!(bare.credential_blob_size, 14);
}

#[test]
fn names_of_records() {
    let record = save_user_token("t");
    assert_eq!(record.target_name, units("DeepSeekStatusWidget/UserToken"));
    assert_eq!(load_user_token().target_name, record.target_name);
    assert_eq!(clear_user_token().target_name, record.target_name);
    assert_eq!(load_user_token().type_, 1);
    assert_eq!(load_api_key().target_name, save_api_key("").target_name);
    assert_eq!(clear_api_key().target_name, load_api_key().target_name);
    assert_ne!(load_api_key().target_name, load_user_token().target_name);
}

#[test]
fn answers_of_the_store() {
    assert_eq!(write_outcome(1), Ok(()));
    assert_eq!(write_outcome(0), Err("保存到 Windows 凭据管理器失败".to_string()));
    assert_eq!(delete_outcome(0), Ok(()));
    assert_eq!(delete_outcome(1), Err("清除失败".to_string()));
    assert_eq!(read_outcome(1, None), None);
    assert_eq!(read_outcome(1, Some(StoredCredential { credential_blob: None })), Some(String::new()));
    let blob = || StoredCredential { credential_blob: Some(vec![0x61, 0]) };
    assert_eq!(read_outcome(0, Some(blob())), None);
    assert_eq!(read_outcome(-1, Some(blob())), Some("a".to_string()));
    assert_eq!(read_outcome(1, Some(StoredCredential { credential_blob: Some(vec![1]) })), None);
}

#[test]
fn autostart_entry() {
    assert_eq!(run_key(), units("Software\\Microsoft\\Windows\\CurrentVersion\\Run"));
    match apply_autostart(Some("C:\\w.exe")) {
        RunChange::Write { name, ty, data, size } => {
            assert_eq!(name, units("DeepSeekStatusWidget"));
            assert_eq!(ty, 1);
            assert_eq!(data, units("\"C:\\w.exe\""));
            assert_eq!(size, 22);
        }
        RunChange::Remove { .. } => panic!("no value"),
    }
    match apply_autostart(None) {
        RunChange::Remove { name } => assert_eq!(name, units("DeepSeekStatusWidget")),
        RunChange::Write { .. } => panic!("a value"),
    }
    assert_eq!(open_outcome(0), Ok(()));
    assert_eq!(open_outcome(5), Err("无法打开注册表启动项".to_string()));
    assert_eq!(change_outcome(0, true), Ok(()));
    assert_eq!(change_outcome(2, false), Ok(()));
    assert_eq!(change_outcome(2, true), Err("写入登录启动项失败".to_string()));
}

#[test]
fn default_preferences() {
    let p = load_prefs(None);
    assert_eq!(p.anchor, "codex-bottom-left");
    assert_eq!((p.offset_x, p.offset_y), (0, 0));
    let s = get_ui_settings(&p);
    assert_eq!(s, UiSettings::default());
    assert!(s.show_balance && s.show_tokens && s.show_today_cost && s.show_month_cost);
    assert!(s.start_visible && s.autostart);
    assert_eq!((s.balance_interval_s, s.usage_interval_min), (60, 5));
}

#[test]
fn empty_anchor_is_filled_in() {
    let mut saved = WidgetPrefs::default();
    saved.anchor = String::new();
    saved.offset_x = 3;
    saved.show_tokens = false;
    let p = load_prefs(Some(saved));
    assert_eq!(p.anchor, "codex-bottom-left");
    assert_eq!(p.offset_x, 3);
    assert!(!p.show_tokens);
    let mut other = WidgetPrefs::default();
    other.anchor = "elsewhere".to_string();
    assert_eq!(load_prefs(Some(other)).anchor, "elsewhere");
}

#[test]
fn settings_have_minima_and_keep_the_place() {
    let mut p = WidgetPrefs::default();
    remember_offset(&mut p, 1.5f64.to_bits(), (-2.0f64).to_bits());
    let wanted = UiSettings {
        show_balance: false,
        balance_interval_s: 0,
        usage_interval_min: 0,
        ..UiSettings::default()
    };
    set_ui_settings(&wanted, &mut p);
    let have = get_ui_settings(&p);
    assert_eq!((have.balance_interval_s, have.usage_interval_min), (5, 1));
    assert!(!have.show_balance && have.show_tokens);
    assert_eq!(f64::from_bits(p.offset_x), 1.5);
    assert_eq!(f64::from_bits(p.offset_y), -2.0);
    set_ui_settings(&have, &mut p);
    assert_eq!(get_ui_settings(&p), have);
    reset_widget_position(&mut p);
    assert_eq!((f64::from_bits(p.offset_x), f64::from_bits(p.offset_y)), (0.0, 0.0));
    assert_eq!(p.anchor, "codex-bottom-left");
    assert_eq!(get_ui_settings(&p), have);
}

#[test]
fn dates_of_both_clocks() {
    assert_eq!(local_today(&clocks()), "2026-05-27");
    assert_eq!(utc_today(&clocks()), "2026-05-26");
    let odd = Clocks { local: time(7, 123, 0), utc: time(65535, 1, 1) };
    assert_eq!(local_today(&odd), "0007-123-00");
    assert_eq!(utc_today(&odd), "65535-01-01");
}

#[test]
fn totals_of_day_and_month() {
    let events = vec![
        event("2026-05-27", 10, 1),
        event("2026-05-01", 100, 2),
        event("2026-04-27", 1000, 3),
        event("2026-05-27", 20, 4),
        event("2026-05", 5, 0),
        event("", 7, 7),
    ];
    let t = totals(&events, &clocks());
    assert_eq!(t.today_tokens, 35);
    assert_eq!(t.month_tokens, 142);
    assert!(t.today_tokens <= t.month_tokens);
    assert_eq!(totals(&vec![], &clocks()), UsageTotals::default());
    let early = totals(&vec![event("2026-05-27", 10, 1)], &clocks());
    let late = totals(&vec![event("2026-05-02", 5, 5)], &clocks());
    let both = vec![event("2026-05-27", 10, 1), event("2026-05-02", 5, 5)];
    let sum = totals(&both, &clocks());
    assert_eq!(sum.today_tokens, early.today_tokens + late.today_tokens);
    assert_eq!(sum.month_tokens, early.month_tokens + late.month_tokens);
}

#[test]
fn totals_beyond_sixty_four_bits() {
    assert_eq!(checked_totals(&vec![event("x", u64::MAX, 1)], &clocks()), None);
    let two = vec![event("2026-05-01", u64::MAX, 0), event("2026-05-02", 1, 0)];
    assert_eq!(checked_totals(&two, &clocks()), None);
    let apart = vec![event("2026-05-01", u64::MAX, 0), event("2026-04-02", 1, 0)];
    assert_eq!(
        checked_totals(&apart, &clocks()),
        Some(UsageTotals { today_tokens: 0, month_tokens: u64::MAX })
    );
}

#[test]
fn trimming() {
    let spaced = "\u{9}\u{a}\u{b}\u{c}\u{d} \u{85}\u{a0}\u{1680}\u{2000}\u{200a}\u{2028}\u{2029}\u{202f}\u{205f}\u{3000}";
    assert_eq!(trim(spaced), "");
    assert_eq!(spaced.trim(), "");
    for s in ["  a b ", "\u{200b}x", "\u{3000}\u{4e2d}\u{3000}", "", "a", "\u{180e}"] {
        assert_eq!(trim(s), s.trim());
        assert_eq!(trim(&trim(s)), trim(s));
    }
    for n in 0..=0xffff {
        if let Some(c) = char::from_u32(n) {
            let s = c.to_string();
            assert_eq!(trim(&s), s.trim());
        }
    }
    assert_eq!(strip_ends("\"\"a\"b\"", Strip::DoubleQuote), "a\"b");
    assert_eq!(strip_ends("''a\"", Strip::SingleQuote), "a\"");
}

#[test]
fn searching() {
    assert!(contains_text("abcabd", "abd") && contains_text("", "") && contains_text("a", ""));
    assert!(!contains_text("ab", "abc") && !contains_text("abcab", "abd"));
    assert!(starts_with_text("2026-05-27", "2026-05"));
    assert!(!starts_with_text("2026", "2026-05") && !starts_with_text("x2026", "2026"));
}

#[test]
fn decimal_notation() {
    for n in [0, 9, 10, 99, 1_000_000, u64::MAX] {
        let mut out = "n=".to_string();
        push_decimal(&mut out, n);
        assert_eq!(out, format!("n={n}"));
    }
    for n in [0, -1, 7, i64::MIN, i64::MAX] {
        let mut out = String::new();
        push_signed_decimal(&mut out, n);
        assert_eq!(out, n.to_string());
    }
    let mut out = String::new();
    push_padded_decimal(&mut out, 7, 4);
    push_padded_decimal(&mut out, 12345, 4);
    assert_eq!(out, "000712345");
    assert_eq!(read_number_or_zero("0042"), 42);
    assert_eq!(read_number_or_zero("4294967295"), u32::MAX);
    assert_eq!(read_number_or_zero("4294967296"), 0);
    assert_eq!(read_number_or_zero(""), 0);
    assert_eq!(read_number_or_zero("-1"), 0);
}
