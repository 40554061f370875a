//! Recognising the Codex window among the windows of the desktop.
//!
//! Windows are known by their handles, as numbers. Of a window only its
//! existence, its rectangle, its title, its process and whether it is minimised
//! are looked at.

use std::collections::HashMap;

use vstd::prelude::*;

use crate::text::{contains_text, has_part, law_part_is_found, occurs_at, same_text, texts};
use crate::utf16::{buffer_text, decoded_lossy, filled_part};

verus! {

/// The title of the widget's own window.
pub const WIDGET_TITLE: &'static str = "DeepSeek Status Widget";

// ---------------------------------------------------------------------------
// Rectangles
// ---------------------------------------------------------------------------

/// A rectangle on the screen, in physical pixels.
#[derive(Clone, Copy, Debug, PartialEq, Eq, Structural)]
pub struct WinRect {
    pub left: i32,
    pub top: i32,
    pub right: i32,
    pub bottom: i32,
}

/// A rectangle as the system reports it.
#[derive(Clone, Copy, Debug, PartialEq, Eq, Structural)]
pub struct NativeRect {
    pub left: i32,
    pub top: i32,
    pub right: i32,
    pub bottom: i32,
}

/// A point as the system reports it.
#[derive(Clone, Copy, Debug, PartialEq, Eq, Structural)]
pub struct Point {
    pub x: i32,
    pub y: i32,
}

impl Default for WinRect {
    /// The empty rectangle at the origin.
    fn default() -> (r: WinRect)
        ensures
            r == (WinRect { left: 0, top: 0, right: 0, bottom: 0 }),
    {
        WinRect { left: 0, top: 0, right: 0, bottom: 0 }
    }
}

impl From<NativeRect> for WinRect {
    fn from(r: NativeRect) -> (w: WinRect) {
        WinRect { left: r.left, top: r.top, right: r.right, bottom: r.bottom }
    }
}

impl vstd::std_specs::convert::FromSpecImpl<NativeRect> for WinRect {
    open spec fn obeys_from_spec() -> bool {
        true
    }

    open spec fn from_spec(r: NativeRect) -> WinRect {
        WinRect { left: r.left, top: r.top, right: r.right, bottom: r.bottom }
    }
}

impl WinRect {
    /// The width times the height, without regard to a limit of the machine.
    pub open spec fn area(self) -> int {
        (self.right - self.left) * (self.bottom - self.top)
    }

    fn measure(&self) -> (r: i128)
        ensures
            r == self.area(),
    {
        let width: i128 = self.right as i128 - self.left as i128;
        let height: i128 = self.bottom as i128 - self.top as i128;
        proof {
            assert(-0x1_0000_0000_0000_0000 <= width * height <= 0x1_0000_0000_0000_0000)
                by (nonlinear_arith)
                requires
                    -0xffff_ffff <= width <= 0xffff_ffff,
                    -0xffff_ffff <= height <= 0xffff_ffff,
            ;
        }
        width * height
    }
}

/// The rectangle of the content of a window on the screen, from the client
/// rectangle and the screen position of its origin, as far as the system could
/// tell them.
pub fn window_content_rect(client: Option<NativeRect>, origin: Option<Point>) -> (r: Option<
    WinRect,
>)
    requires
        client matches Some(c) ==> origin matches Some(o) ==> {
            &&& i32::MIN <= o.x + c.right <= i32::MAX
            &&& i32::MIN <= o.y + c.bottom <= i32::MAX
        },
    ensures
        r == match (client, origin) {
            (Some(c), Some(o)) => Some(
                WinRect {
                    left: o.x,
                    top: o.y,
                    right: (o.x + c.right) as i32,
                    bottom: (o.y + c.bottom) as i32,
                },
            ),
            _ => None,
        },
{
    match client {
        Some(c) => match origin {
            Some(o) => Some(
                WinRect { left: o.x, top: o.y, right: o.x + c.right, bottom: o.y + c.bottom },
            ),
            None => None,
        },
        None => None,
    }
}

/// The rectangle of a window, where the system reports one with a status other
/// than 0.
pub fn get_rect(status: i32, rect: NativeRect) -> (r: Option<WinRect>)
    ensures
        r == if status != 0 {
            Some(
                WinRect {
                    left: rect.left,
                    top: rect.top,
                    right: rect.right,
                    bottom: rect.bottom,
                },
            )
        } else {
            None
        },
{
    if status != 0 {
        Some(WinRect::from(rect))
    } else {
        None
    }
}

// ---------------------------------------------------------------------------
// Names
// ---------------------------------------------------------------------------

/// What `str::to_lowercase` makes of a text.
pub uninterp spec fn lowercase(s: Seq<char>) -> Seq<char>;

/// Whether all characters are of ASCII.
pub open spec fn is_ascii_text(s: Seq<char>) -> bool {
    forall|i: int| 0 <= i < s.len() ==> (#[trigger] s[i] as u32) < 128
}

/// A character of ASCII in lower case.
pub open spec fn ascii_lower(c: char) -> char {
    if 'A' <= c <= 'Z' {
        (c as u32 + 32) as char
    } else {
        c
    }
}

/// A text of ASCII in lower case.
pub open spec fn ascii_lowered(s: Seq<char>) -> Seq<char> {
    s.map_values(|c: char| ascii_lower(c))
}

/// `str::to_lowercase`: the text in lower case by the tables of Unicode; a text
/// of ASCII has its letters A to Z replaced by a to z.
pub assume_specification[ str::to_lowercase ](s: &str) -> (r: String)
    ensures
        r@ == lowercase(s@),
        is_ascii_text(s@) ==> r@ == ascii_lowered(s@),
;

/// Whether a path is nothing but a file name on every system.
pub open spec fn is_plain_name(path: Seq<char>) -> bool {
    &&& path.len() > 0
    &&& path != seq!['.']
    &&& path != seq!['.', '.']
    &&& forall|i: int|
        0 <= i < path.len() ==> {
            &&& #[trigger] path[i] != '/'
            &&& path[i] != '\\'
            &&& path[i] != ':'
        }
}

/// The position of the last dot, and -1 where there is none.
pub open spec fn last_dot(name: Seq<char>) -> int
    decreases name.len(),
{
    if name.len() == 0 {
        -1
    } else if name.last() == '.' {
        name.len() - 1
    } else {
        last_dot(name.drop_last())
    }
}

proof fn lemma_last_dot(name: Seq<char>)
    ensures
        -1 <= last_dot(name) < name.len(),
    decreases name.len(),
{
    if name.len() > 0 && name.last() != '.' {
        lemma_last_dot(name.drop_last());
    }
}

/// A file name without its extension: the part before the last dot, unless that
/// dot is its first character.
pub open spec fn name_stem(name: Seq<char>) -> Seq<char> {
    if last_dot(name) > 0 {
        name.take(last_dot(name))
    } else {
        name
    }
}

/// Whether `c` separates the components of a path: the slash does, and with
/// `both` the backslash too.
pub open spec fn is_separator(c: char, both: bool) -> bool {
    c == '/' || (both && c == '\\')
}

/// The part of a path behind its last separator.
pub open spec fn behind_last(path: Seq<char>, both: bool) -> Seq<char>
    decreases path.len(),
{
    if path.len() == 0 || is_separator(path.last(), both) {
        Seq::empty()
    } else {
        behind_last(path.drop_last(), both).push(path.last())
    }
}

proof fn lemma_behind_last(path: Seq<char>, both: bool)
    ensures
        behind_last(path, both).len() <= path.len(),
        behind_last(path, both) == path.skip(path.len() - behind_last(path, both).len()),
        forall|i: int|
            0 <= i < behind_last(path, both).len() ==> !is_separator(
                #[trigger] behind_last(path, both)[i],
                both,
            ),
    decreases path.len(),
{
    if path.len() > 0 && !is_separator(path.last(), both) {
        lemma_behind_last(path.drop_last(), both);
        let tail = behind_last(path.drop_last(), both);
        assert(tail.push(path.last()) == path.skip(path.len() - tail.len() - 1));
    }
}

/// The file name behind the last separator, without its extension.
pub open spec fn stem_behind(path: Seq<char>, both: bool) -> Seq<char> {
    name_stem(behind_last(path, both))
}

/// Whether a path has slashes only, names no server and ends in a file name, so
/// that every system splits it in one way.
pub open spec fn is_slash_path(path: Seq<char>) -> bool {
    &&& !path.contains('\\')
    &&& !(path.len() >= 2 && path[0] == '/' && path[1] == '/')
    &&& is_plain_name(behind_last(path, false))
}

/// Whether a path begins with a drive and a backslash and ends in a file name.
pub open spec fn is_drive_path(path: Seq<char>) -> bool {
    &&& path.len() >= 3
    &&& path[1] == ':'
    &&& path[2] == '\\'
    &&& is_plain_name(behind_last(path, true))
}

/// Whether a path has separators of one kind only and ends in a file name.
pub open spec fn is_uniform_path(path: Seq<char>) -> bool {
    &&& !(path.contains('/') && path.contains('\\'))
    &&& is_plain_name(behind_last(path, true))
}

/// Whether `stem` is the file name of the path without its extension, by the
/// separators of one system or the other.
pub open spec fn is_either_stem(path: Seq<char>, stem: Seq<char>) -> bool {
    stem == stem_behind(path, true) || stem == stem_behind(path, false)
}

/// `Path::file_stem`: the last component of the path without its extension, and
/// `None` where the path ends in no file name. It is a part of the path, and not
/// empty.
///
/// The slash separates components on Unix and on Windows, the backslash on
/// Windows only. So a path with slashes has one result. A path with a drive and
/// backslashes has the result of Windows, behind the last separator of either
/// kind, or that of Unix, behind the last slash. A path that names a server may
/// on Windows have no file name; where it has one, the result is one of these.
/// Nothing more is stated of paths that mix both separators without a drive, or
/// whose last component is no plain file name.
#[verifier::external_body]
fn file_stem(path: &str) -> (r: Option<String>)
    ensures
        r matches Some(s) ==> s@.len() > 0 && has_part(path@, s@),
        is_plain_name(path@) ==> r is Some && r->0@ == name_stem(path@),
        is_slash_path(path@) ==> r is Some && r->0@ == stem_behind(path@, false),
        is_drive_path(path@) ==> r is Some && is_either_stem(path@, r->0@),
        is_uniform_path(path@) && r is Some ==> is_either_stem(path@, r->0@),
{
    std::path::Path::new(path).file_stem().and_then(|s| s.to_str()).map(|s| s.to_owned())
}

/// Whether `name` can be the process name of a program at the path `exe`: the
/// stem of its file name, or the empty text where it has none.
pub open spec fn names_process(exe: Seq<char>, name: Seq<char>) -> bool {
    &&& has_part(exe, name)
    &&& is_plain_name(exe) ==> name == name_stem(exe)
    &&& is_slash_path(exe) ==> name == stem_behind(exe, false)
    &&& is_drive_path(exe) ==> is_either_stem(exe, name)
    &&& is_uniform_path(exe) ==> name.len() == 0 || is_either_stem(exe, name)
}

/// The process name of a program: the stem of its path, or the empty text.
pub fn process_name(exe: &str) -> (r: String)
    ensures
        names_process(exe@, r@),
{
    match file_stem(exe) {
        Some(s) => s,
        None => {
            assert(occurs_at(exe@, Seq::empty(), 0)) by {
                assert(exe@.subrange(0, 0) == Seq::<char>::empty());
            }
            String::new()
        },
    }
}

proof fn lemma_stem_behind_is_ascii(path: Seq<char>, both: bool)
    ensures
        is_ascii_text(path) ==> is_ascii_text(stem_behind(path, both)),
{
    lemma_behind_last(path, both);
    lemma_last_dot(behind_last(path, both));
    if is_ascii_text(path) {
        let k = path.len() - behind_last(path, both).len();
        assert forall|i: int| 0 <= i < stem_behind(path, both).len() implies (
        #[trigger] stem_behind(path, both)[i] as u32) < 128 by {
            assert(stem_behind(path, both)[i] == path[k + i]);
        }
    }
}

/// A folder is no process name: in a path with slashes the process name is the
/// stem of what stands behind the last one, whatever folders come before.
pub proof fn law_folder_is_no_process_name(folder: Seq<char>, file: Seq<char>, name: Seq<char>)
    requires
        is_plain_name(file),
        is_slash_path(folder.push('/') + file),
        names_process(folder.push('/') + file, name),
    ensures
        name == name_stem(file),
{
    lemma_behind_separator(folder.push('/'), file, false);
}

/// In a path with a drive and backslashes the name of Windows is the stem of what
/// stands behind the last separator, whatever folders come before.
pub proof fn law_drive_folder_is_no_process_name(folder: Seq<char>, file: Seq<char>)
    requires
        is_plain_name(file),
    ensures
        stem_behind(folder.push('\\') + file, true) == name_stem(file),
{
    lemma_behind_separator(folder.push('\\'), file, true);
}

proof fn lemma_behind_separator(folder: Seq<char>, file: Seq<char>, both: bool)
    requires
        folder.len() > 0,
        is_separator(folder.last(), both),
        forall|i: int| 0 <= i < file.len() ==> !is_separator(#[trigger] file[i], both),
    ensures
        behind_last(folder + file, both) == file,
    decreases file.len(),
{
    if file.len() > 0 {
        lemma_behind_separator(folder, file.drop_last(), both);
        assert((folder + file).drop_last() == folder + file.drop_last());
        assert(!is_separator(file[file.len() - 1], both));
        assert(file.drop_last().push(file.last()) == file);
    } else {
        assert(folder + file == folder);
    }
}

/// Whether one of `keys` stands in `s`.
pub open spec fn has_any(s: Seq<char>, keys: Seq<Seq<char>>) -> bool {
    exists|i: int| 0 <= i < keys.len() && has_part(s, #[trigger] keys[i])
}

fn contains_any(s: &str, keys: &Vec<String>) -> (r: bool)
    ensures
        r == has_any(s@, texts(keys@)),
{
    let ghost all = texts(keys@);
    let mut i: usize = 0;
    while i < keys.len()
        invariant
            i <= keys@.len(),
            all == texts(keys@),
            forall|j: int| 0 <= j < i ==> !has_part(s@, #[trigger] all[j]),
        decreases keys@.len() - i,
    {
        assert(all[i as int] == keys@[i as int]@);
        if contains_text(s, keys[i].as_str()) {
            return true;
        }
        i += 1;
    }
    false
}

// ---------------------------------------------------------------------------
// Candidates
// ---------------------------------------------------------------------------

/// A window that may be the Codex window.
#[derive(Debug)]
pub struct Candidate {
    pub hwnd: usize,
    pub pid: u32,
    pub title: String,
    pub rect: WinRect,
}

/// What the system tells of a window.
#[derive(Debug)]
pub struct WindowReport {
    pub hwnd: usize,
    /// Other than 0 where the window is visible.
    pub visible: i32,
    /// The process of the window, 0 where there is none.
    pub pid: u32,
    /// The buffer that the title was written to.
    pub title: Vec<u16>,
    /// The number of units that were written.
    pub title_len: i32,
    /// The rectangle of the content, if it is known.
    pub rect: Option<WinRect>,
}

/// The title in a report: empty where no units were written.
pub open spec fn report_title(w: WindowReport) -> Seq<char> {
    if w.title_len > 0 {
        decoded_lossy(filled_part(w.title@, w.title_len as int))
    } else {
        Seq::empty()
    }
}

/// Whether `c` is the candidate that `w` reports.
pub open spec fn reports(w: WindowReport, c: Candidate) -> bool {
    &&& c.hwnd == w.hwnd
    &&& c.pid == w.pid
    &&& c.title@ == report_title(w)
    &&& c.rect == match w.rect {
        Some(r) => r,
        None => WinRect { left: 0, top: 0, right: 0, bottom: 0 },
    }
}

/// Adds a visible window that belongs to a process to the candidates.
pub fn collect_window(list: &mut Vec<Candidate>, w: &WindowReport)
    ensures
        w.visible == 0 || w.pid == 0 ==> final(list)@ == old(list)@,
        w.visible != 0 && w.pid != 0 ==> {
            &&& final(list)@.len() == old(list)@.len() + 1
            &&& final(list)@.drop_last() == old(list)@
            &&& reports(*w, final(list)@.last())
        },
{
    if w.visible == 0 || w.pid == 0 {
        return;
    }
    let title: String = if w.title_len > 0 {
        buffer_text(&w.title, w.title_len as i64)
    } else {
        String::new()
    };
    let rect: WinRect = match w.rect {
        Some(r) => r,
        None => WinRect { left: 0, top: 0, right: 0, bottom: 0 },
    };
    let ghost before = list@;
    list.push(Candidate { hwnd: w.hwnd, pid: w.pid, title, rect });
    assert(list@.drop_last() == before);
}

/// Whether candidate `i` is chosen: it is kept, no kept one is larger, and no
/// kept one before it is as large.
pub open spec fn is_chosen(list: Seq<Candidate>, kept: Seq<bool>, i: int) -> bool {
    &&& 0 <= i < list.len()
    &&& kept[i]
    &&& forall|j: int| 0 <= j < list.len() && #[trigger] kept[j] ==> list[j].rect.area()
        <= list[i].rect.area()
    &&& forall|j: int| 0 <= j < i && #[trigger] kept[j] ==> list[j].rect.area()
        < list[i].rect.area()
}

/// Whether `r` is the handle of the main window: that of the chosen candidate,
/// and none where no candidate is kept.
pub open spec fn is_main_window(
    list: Seq<Candidate>,
    kept: Seq<bool>,
    r: Option<usize>,
) -> bool {
    match r {
        Some(hwnd) => exists|i: int| is_chosen(list, kept, i) && list[i].hwnd == hwnd,
        None => forall|j: int| 0 <= j < list.len() ==> !#[trigger] kept[j],
    }
}

/// The main window among the candidates that are kept: a process may have
/// several windows, and the largest is the main one; among equals the first.
pub fn largest_window(list: &Vec<Candidate>, kept: &Vec<bool>) -> (r: Option<usize>)
    requires
        kept@.len() == list@.len(),
    ensures
        is_main_window(list@, kept@, r),
{
    let mut best: Option<usize> = None;
    let mut i: usize = 0;
    while i < list.len()
        invariant
            kept@.len() == list@.len(),
            i <= list@.len(),
            match best {
                None => forall|j: int| 0 <= j < i ==> !#[trigger] kept@[j],
                Some(b) => {
                    &&& b < i
                    &&& kept@[b as int]
                    &&& forall|j: int| 0 <= j < i && #[trigger] kept@[j] ==> list@[j].rect.area()
                        <= list@[b as int].rect.area()
                    &&& forall|j: int| 0 <= j < b && #[trigger] kept@[j] ==> list@[j].rect.area()
                        < list@[b as int].rect.area()
                },
            },
        decreases list@.len() - i,
    {
        if kept[i] {
            match best {
                Some(b) => {
                    if list[i].rect.measure() > list[b].rect.measure() {
                        best = Some(i);
                    }
                },
                None => {
                    best = Some(i);
                },
            }
        }
        i += 1;
    }
    match best {
        Some(b) => {
            assert(is_chosen(list@, kept@, b as int));
            Some(list[b].hwnd)
        },
        None => None,
    }
}

// ---------------------------------------------------------------------------
// The detector
// ---------------------------------------------------------------------------

/// The Codex window as it was found.
#[derive(Clone, Copy, Debug, PartialEq, Eq, Structural)]
pub struct DetectedCodex {
    pub rect: WinRect,
    pub minimized: bool,
}

/// What the system tells of the program of a process.
#[derive(Debug)]
pub struct ProcessImage {
    /// The buffer that the path was written to.
    pub path: Vec<u16>,
    /// The number of units that were written.
    pub size: u32,
}

/// The path in a report on a process: empty where there is no report.
pub open spec fn image_path(image: Option<ProcessImage>) -> Seq<char> {
    match image {
        Some(p) => decoded_lossy(
            filled_part(p.path@, p.size as int),
        ),
        None => Seq::empty(),
    }
}

/// What to do next to find the Codex window.
#[derive(Clone, Copy, Debug, PartialEq, Eq, Structural)]
pub enum Lookup {
    /// Look at the window that was found before.
    Inspect(usize),
    /// Go through all windows.
    Enumerate,
}

/// What to do next: as long as the window that was found last exists, only that
/// one is looked at.
pub open spec fn next_lookup(cached: Option<usize>, alive: bool) -> Lookup {
    match cached {
        Some(hwnd) => if alive {
            Lookup::Inspect(hwnd)
        } else {
            Lookup::Enumerate
        },
        None => Lookup::Enumerate,
    }
}

/// The rules by which the Codex window is known, and what was found before.
///
/// A window matches where one of the three groups of rules does: the name of its
/// process, its title or the path of its program has one of the group's texts in
/// it, without regard to case.
#[derive(Debug)]
pub struct CodexWindowDetector {
    pub process_name_contains: Vec<String>,
    pub title_contains: Vec<String>,
    pub exe_path_contains: Vec<String>,
    /// The paths of programs that are known, by process.
    pub cache: HashMap<u32, String>,
    /// The window that was found last.
    pub cached_hwnd: Option<usize>,
}

impl Default for CodexWindowDetector {
    /// A detector without rules, which nothing matches.
    fn default() -> (r: CodexWindowDetector)
        ensures
            r.process_name_contains@.len() == 0,
            r.title_contains@.len() == 0,
            r.exe_path_contains@.len() == 0,
            r.cache@ == Map::<u32, String>::empty(),
            r.cached_hwnd is None,
    {
        CodexWindowDetector {
            process_name_contains: Vec::new(),
            title_contains: Vec::new(),
            exe_path_contains: Vec::new(),
            cache: HashMap::new(),
            cached_hwnd: None,
        }
    }
}

impl CodexWindowDetector {
    /// Whether two detectors have the same rules.
    pub open spec fn same_rules(&self, other: &CodexWindowDetector) -> bool {
        &&& self.process_name_contains == other.process_name_contains
        &&& self.title_contains == other.title_contains
        &&& self.exe_path_contains == other.exe_path_contains
    }

    /// Whether a window matches, by the name of its process, its title and the
    /// path of its program, all in lower case.
    pub open spec fn admits(&self, name: Seq<char>, title: Seq<char>, exe: Seq<char>) -> bool {
        ||| has_any(name, texts(self.process_name_contains@))
        ||| has_any(title, texts(self.title_contains@))
        ||| has_any(exe, texts(self.exe_path_contains@))
    }

    /// Whether `hit` is right for a window with the title `title` of the program
    /// at `exe`.
    pub open spec fn judges(&self, exe: Seq<char>, title: Seq<char>, hit: bool) -> bool {
        exists|name: Seq<char>| #[trigger]
            names_process(exe, name) && hit == self.admits(
                lowercase(name),
                lowercase(title),
                lowercase(exe),
            )
    }

    /// The detector for the Codex desktop program. It is installed as the
    /// package `OpenAI.Codex`.
    pub fn new() -> (r: CodexWindowDetector)
        ensures
            texts(r.process_name_contains@) == seq!["chatgpt"@],
            texts(r.title_contains@) == seq!["chatgpt"@],
            texts(r.exe_path_contains@) == seq!["openai.codex"@],
            r.cache@ == Map::<u32, String>::empty(),
            r.cached_hwnd is None,
    {
        let r: CodexWindowDetector = CodexWindowDetector {
            process_name_contains: vec!["chatgpt".to_owned()],
            title_contains: vec!["chatgpt".to_owned()],
            exe_path_contains: vec!["openai.codex".to_owned()],
            cache: HashMap::new(),
            cached_hwnd: None,
        };
        assert(texts(r.process_name_contains@) =~= seq!["chatgpt"@]);
        assert(texts(r.title_contains@) =~= seq!["chatgpt"@]);
        assert(texts(r.exe_path_contains@) =~= seq!["openai.codex"@]);
        r
    }

    /// Whether a window matches, by the name of its process, its title and the
    /// path of its program, all in lower case.
    pub fn matches_lowered(&self, name: &str, title: &str, exe: &str) -> (r: bool)
        ensures
            r == self.admits(name@, title@, exe@),
    {
        contains_any(name, &self.process_name_contains) || contains_any(
            title,
            &self.title_contains,
        ) || contains_any(exe, &self.exe_path_contains)
    }

    /// Whether a window with the title `title` of the program at `exe_path`
    /// matches.
    pub fn matches(&self, exe_path: &str, title: &str) -> (r: bool)
        ensures
            self.judges(exe_path@, title@, r),
            is_ascii_text(title@) && has_any(
                ascii_lowered(title@),
                texts(self.title_contains@),
            ) ==> r,
            is_ascii_text(exe_path@) && has_any(
                ascii_lowered(exe_path@),
                texts(self.exe_path_contains@),
            ) ==> r,
            is_plain_name(exe_path@) && is_ascii_text(exe_path@) && is_ascii_text(title@) ==> r
                == self.admits(
                ascii_lowered(name_stem(exe_path@)),
                ascii_lowered(title@),
                ascii_lowered(exe_path@),
            ),
            is_slash_path(exe_path@) && is_ascii_text(exe_path@) && is_ascii_text(title@) ==> r
                == self.admits(
                ascii_lowered(stem_behind(exe_path@, false)),
                ascii_lowered(title@),
                ascii_lowered(exe_path@),
            ),
            is_drive_path(exe_path@) && is_ascii_text(exe_path@) && is_ascii_text(title@) ==> {
                ||| r == self.admits(
                    ascii_lowered(stem_behind(exe_path@, true)),
                    ascii_lowered(title@),
                    ascii_lowered(exe_path@),
                )
                ||| r == self.admits(
                    ascii_lowered(stem_behind(exe_path@, false)),
                    ascii_lowered(title@),
                    ascii_lowered(exe_path@),
                )
            },
    {
        let exe: String = exe_path.to_lowercase();
        let stem: String = process_name(exe_path);
        let name: String = stem.as_str().to_lowercase();
        let low_title: String = title.to_lowercase();
        let hit: bool = self.matches_lowered(name.as_str(), low_title.as_str(), exe.as_str());
        assert(names_process(exe_path@, stem@));
        proof {
            lemma_last_dot(exe_path@);
            lemma_stem_behind_is_ascii(exe_path@, false);
            lemma_stem_behind_is_ascii(exe_path@, true);
            if is_plain_name(exe_path@) && is_ascii_text(exe_path@) {
                assert(is_ascii_text(stem@));
            }
        }
        hit
    }

    /// The path of the program of a process, where it is known.
    pub fn known_path(&self, pid: u32) -> (r: Option<String>)
        ensures
            match r {
                Some(p) => self.cache@.contains_key(pid) && p == self.cache@[pid],
                None => !self.cache@.contains_key(pid),
            },
    {
        match self.cache.get(&pid) {
            Some(p) => Some(p.clone()),
            None => None,
        }
    }

    /// The path of the program of a process: the known one, or the one that the
    /// system reports, which is known from then on.
    pub fn exe_path(&mut self, pid: u32, image: &Option<ProcessImage>) -> (r: String)
        ensures
            final(self).same_rules(old(self)),
            final(self).cached_hwnd == old(self).cached_hwnd,
            old(self).cache@.contains_key(pid) ==> {
                &&& final(self).cache@ == old(self).cache@
                &&& r == old(self).cache@[pid]
            },
            !old(self).cache@.contains_key(pid) ==> {
                &&& r@ == image_path(*image)
                &&& final(self).cache@ == old(self).cache@.insert(pid, r)
            },
    {
        match self.known_path(pid) {
            Some(p) => {
                return p;
            },
            None => {},
        }
        let path: String = match image {
            Some(p) => buffer_text(&p.path, p.size as i64),
            None => String::new(),
        };
        self.cache.insert(pid, path.clone());
        path
    }

    /// The window that was found last, to ask whether it still exists.
    pub fn cached(&self) -> (r: Option<usize>)
        ensures
            r == self.cached_hwnd,
    {
        self.cached_hwnd
    }

    /// What to do next, where `alive` says whether the window that was found last
    /// still exists.
    pub fn find(&self, alive: bool) -> (r: Lookup)
        ensures
            r == next_lookup(self.cached_hwnd, alive),
    {
        match self.cached_hwnd {
            Some(hwnd) => if alive {
                Lookup::Inspect(hwnd)
            } else {
                Lookup::Enumerate
            },
            None => Lookup::Enumerate,
        }
    }

    /// The handle of the largest candidate that matches. What is remembered stays
    /// as it is.
    pub fn enumerate_best(&mut self, list: &Vec<Candidate>) -> (r: Option<usize>)
        requires
            forall|i: int|
                0 <= i < list@.len() ==> old(self).cache@.contains_key((#[trigger] list@[i]).pid),
        ensures
            final(self).same_rules(old(self)),
            final(self).cache@ == old(self).cache@,
            final(self).cached_hwnd == old(self).cached_hwnd,
            exists|kept: Seq<bool>|
                {
                    &&& kept.len() == list@.len()
                    &&& forall|i: int|
                        0 <= i < list@.len() ==> old(self).judges(
                            old(self).cache@[list@[i].pid]@,
                            list@[i].title@,
                            #[trigger] kept[i],
                        )
                    &&& #[trigger] is_main_window(list@, kept, r)
                },
    {
        let mut kept: Vec<bool> = Vec::new();
        let mut i: usize = 0;
        while i < list.len()
            invariant
                i <= list@.len(),
                kept@.len() == i,
                *self == *old(self),
                forall|j: int|
                    0 <= j < list@.len() ==> self.cache@.contains_key(
                        (#[trigger] list@[j]).pid,
                    ),
                forall|j: int|
                    0 <= j < i ==> self.judges(
                        self.cache@[list@[j].pid]@,
                        list@[j].title@,
                        #[trigger] kept@[j],
                    ),
            decreases list@.len() - i,
        {
            assert(self.cache@.contains_key(list@[i as int].pid));
            let hit: bool = match self.known_path(list[i].pid) {
                Some(path) => self.matches(path.as_str(), list[i].title.as_str()),
                None => false,
            };
            kept.push(hit);
            i += 1;
        }
        let found: Option<usize> = largest_window(list, &kept);
        assert(is_main_window(list@, kept@, found));
        found
    }

    /// Remembers the window that going through all windows gave; where it gave
    /// none, what was remembered stays.
    pub fn remember(&mut self, found: Option<usize>)
        ensures
            final(self).same_rules(old(self)),
            final(self).cache@ == old(self).cache@,
            final(self).cached_hwnd == (match found {
                Some(hwnd) => Some(hwnd),
                None => old(self).cached_hwnd,
            }),
    {
        match found {
            Some(hwnd) => {
                self.cached_hwnd = Some(hwnd);
            },
            None => {},
        }
    }
}

/// The Codex window as it was found, from the rectangle of its content and
/// whether it is minimised, which a status other than 0 says.
pub fn detected(rect: Option<WinRect>, iconic: i32) -> (r: Option<DetectedCodex>)
    ensures
        r == match rect {
            Some(rect) => Some(DetectedCodex { rect, minimized: iconic != 0 }),
            None => None,
        },
{
    match rect {
        Some(rect) => Some(DetectedCodex { rect, minimized: iconic != 0 }),
        None => None,
    }
}

/// One group of rules suffices: where the title or the path of the program has a
/// text of its group in it, the window matches whatever the other groups say.
pub proof fn law_one_group_suffices(
    d: CodexWindowDetector,
    exe: Seq<char>,
    title: Seq<char>,
    hit: bool,
)
    requires
        d.judges(exe, title, hit),
        has_any(lowercase(title), texts(d.title_contains@)) || has_any(
            lowercase(exe),
            texts(d.exe_path_contains@),
        ),
    ensures
        hit,
{
}

/// Without rules nothing matches.
pub proof fn law_no_rules_no_match(
    d: CodexWindowDetector,
    exe: Seq<char>,
    title: Seq<char>,
    hit: bool,
)
    requires
        d.judges(exe, title, hit),
        d.process_name_contains@.len() == 0,
        d.title_contains@.len() == 0,
        d.exe_path_contains@.len() == 0,
    ensures
        !hit,
{
}

/// There is one main window: the candidates and what is kept of them determine
/// it.
pub proof fn law_main_window_is_unique(
    list: Seq<Candidate>,
    kept: Seq<bool>,
    a: Option<usize>,
    b: Option<usize>,
)
    requires
        is_main_window(list, kept, a),
        is_main_window(list, kept, b),
    ensures
        a == b,
{
    if a is Some && b is Some {
        let i = choose|i: int| is_chosen(list, kept, i) && list[i].hwnd == a->0;
        let j = choose|j: int| is_chosen(list, kept, j) && list[j].hwnd == b->0;
        assert(kept[i] && kept[j]);
        assert(i == j);
    } else if a is Some {
        let i = choose|i: int| is_chosen(list, kept, i) && list[i].hwnd == a->0;
        assert(kept[i]);
    } else if b is Some {
        let j = choose|j: int| is_chosen(list, kept, j) && list[j].hwnd == b->0;
        assert(kept[j]);
    }
}

/// A window that was found is looked at without going through all windows again
/// for as long as it exists.
pub proof fn law_found_window_is_kept(cached: Option<usize>, hwnd: usize)
    requires
        cached == Some(hwnd),
    ensures
        next_lookup(cached, true) == Lookup::Inspect(hwnd),
        next_lookup(cached, false) == Lookup::Enumerate,
{
}

// ---------------------------------------------------------------------------
// The widget's own window
// ---------------------------------------------------------------------------

/// The search for the widget's own window.
#[derive(Clone, Copy, Debug, PartialEq, Eq, Structural)]
pub struct SelfFind {
    /// The widget's process.
    pub pid: u32,
    pub found: Option<usize>,
}

/// Whether a window of the process `pid` with the title in `title`, of which
/// `len` units were written, is the widget's own.
pub open spec fn is_own_window(find: SelfFind, pid: u32, title: Seq<u16>, len: i32) -> bool {
    &&& pid == find.pid
    &&& decoded_lossy(filled_part(title, len as int)) == WIDGET_TITLE@
}

/// Looks at one window; returns whether to go on with the next.
pub fn self_window_probe(
    find: &mut SelfFind,
    hwnd: usize,
    pid: u32,
    title: &Vec<u16>,
    len: i32,
) -> (go_on: bool)
    ensures
        go_on == !is_own_window(*old(find), pid, title@, len),
        final(find).pid == old(find).pid,
        final(find).found == if go_on {
            old(find).found
        } else {
            Some(hwnd)
        },
{
    if pid == find.pid {
        let text: String = buffer_text(title, len as i64);
        if same_text(text.as_str(), WIDGET_TITLE) {
            find.found = Some(hwnd);
            return false;
        }
    }
    true
}

/// The search for the window of the process `pid`, before any window was looked
/// at.
pub fn self_main_hwnd(pid: u32) -> (r: SelfFind)
    ensures
        r == (SelfFind { pid, found: None }),
{
    SelfFind { pid, found: None }
}

// ---------------------------------------------------------------------------
// What the rules come to
// ---------------------------------------------------------------------------

/// A rectangle is taken over edge by edge.
pub proof fn law_edges_are_taken_over(r: NativeRect)
    ensures
        ({
            let w = <WinRect as vstd::std_specs::convert::FromSpec<NativeRect>>::from_spec(r);
            &&& w.left == r.left
            &&& w.top == r.top
            &&& w.right == r.right
            &&& w.bottom == r.bottom
        }),
{
}

/// A text is of ASCII where all its characters have numbers below 128. In lower
/// case its capital letters are replaced by the small ones, 32 further on, and all
/// else stays.
pub proof fn law_ascii_text_and_its_lower_case(s: Seq<char>, c: char)
    ensures
        is_ascii_text(Seq::empty()),
        is_ascii_text(s.push(c)) <==> is_ascii_text(s) && (c as u32) < 128,
        ascii_lowered(Seq::empty()) == Seq::<char>::empty(),
        'A' <= c <= 'Z' ==> ascii_lowered(s.push(c)) == ascii_lowered(s).push(
            (c as u32 + 32) as char,
        ),
        !('A' <= c <= 'Z') ==> ascii_lowered(s.push(c)) == ascii_lowered(s).push(c),
{
    assert(s.push(c)[s.len() as int] == c);
    if is_ascii_text(s.push(c)) {
        assert forall|i: int| 0 <= i < s.len() implies (#[trigger] s[i] as u32) < 128 by {
            assert(s.push(c)[i] == s[i]);
        }
    }
    assert(ascii_lowered(Seq::empty()) == Seq::<char>::empty());
    assert(ascii_lowered(s.push(c)) == ascii_lowered(s).push(ascii_lower(c)));
}

proof fn lemma_no_dot(name: Seq<char>)
    requires
        !name.contains('.'),
    ensures
        last_dot(name) == -1,
    decreases name.len(),
{
    if name.len() > 0 {
        assert(name[name.len() - 1] != '.');
        assert forall|i: int| 0 <= i < name.drop_last().len() implies name.drop_last()[i]
            != '.' by {
            assert(name.drop_last()[i] == name[i]);
        }
        lemma_no_dot(name.drop_last());
    }
}

proof fn lemma_dot_before(base: Seq<char>, extension: Seq<char>)
    requires
        !extension.contains('.'),
    ensures
        last_dot(base.push('.') + extension) == base.len(),
    decreases extension.len(),
{
    let name = base.push('.') + extension;
    if extension.len() > 0 {
        assert(extension[extension.len() - 1] != '.');
        assert(name.last() == extension[extension.len() - 1]);
        assert(name.drop_last() == base.push('.') + extension.drop_last());
        assert forall|i: int| 0 <= i < extension.drop_last().len() implies extension.drop_last()[i]
            != '.' by {
            assert(extension.drop_last()[i] == extension[i]);
        }
        lemma_dot_before(base, extension.drop_last());
    } else {
        assert(name == base.push('.'));
    }
}

/// A name loses its last dot and what comes behind it; a name without a dot, or
/// with none but in front, keeps all.
pub proof fn law_stem_of_a_name(base: Seq<char>, extension: Seq<char>)
    requires
        !extension.contains('.'),
    ensures
        base.len() > 0 ==> name_stem(base.push('.') + extension) == base,
        name_stem(seq!['.'] + extension) == seq!['.'] + extension,
        name_stem(extension) == extension,
{
    lemma_dot_before(base, extension);
    assert((base.push('.') + extension).take(base.len() as int) == base);
    lemma_dot_before(Seq::empty(), extension);
    assert(Seq::<char>::empty().push('.') + extension == seq!['.'] + extension);
    lemma_no_dot(extension);
}

/// What stands behind the last separator is the file name: behind the last slash,
/// and where backslashes separate too, behind the last of either kind.
pub proof fn law_file_name_is_behind_the_last_separator(
    folder: Seq<char>,
    separator: char,
    file: Seq<char>,
    both: bool,
)
    requires
        separator == '/' || (both && separator == '\\'),
        !file.contains('/'),
        both ==> !file.contains('\\'),
    ensures
        behind_last(folder.push(separator) + file, both) == file,
        behind_last(file, both) == file,
{
    assert forall|i: int| 0 <= i < file.len() implies !is_separator(#[trigger] file[i], both) by {
        assert(file.contains(file[i]));
    }
    lemma_behind_separator(folder.push(separator), file, both);
    lemma_no_separator(file, both);
}

proof fn lemma_no_separator(file: Seq<char>, both: bool)
    requires
        forall|i: int| 0 <= i < file.len() ==> !is_separator(#[trigger] file[i], both),
    ensures
        behind_last(file, both) == file,
    decreases file.len(),
{
    if file.len() > 0 {
        assert(!is_separator(file[file.len() - 1], both));
        assert forall|i: int| 0 <= i < file.drop_last().len() implies !is_separator(
            #[trigger] file.drop_last()[i],
            both,
        ) by {
            assert(file.drop_last()[i] == file[i]);
        }
        lemma_no_separator(file.drop_last(), both);
        assert(file.drop_last().push(file.last()) == file);
    }
}

/// A plain file name is any text but the empty one, one dot and two dots, with
/// neither separators nor colons in it.
pub proof fn law_plain_names(name: Seq<char>)
    ensures
        is_plain_name(name) <==> {
            &&& name != Seq::<char>::empty()
            &&& name != seq!['.']
            &&& name != seq!['.', '.']
            &&& !name.contains('/')
            &&& !name.contains('\\')
            &&& !name.contains(':')
        },
{
    if is_plain_name(name) {
        assert(name.len() > 0);
        assert(forall|i: int| 0 <= i < name.len() ==> #[trigger] name[i] != '/');
    }
    if name != Seq::<char>::empty() && !name.contains('/') && !name.contains('\\')
        && !name.contains(':') {
        assert(name.len() > 0) by {
            if name.len() == 0 {
                assert(name == Seq::<char>::empty());
            }
        }
        assert forall|i: int| 0 <= i < name.len() implies {
            &&& #[trigger] name[i] != '/'
            &&& name[i] != '\\'
            &&& name[i] != ':'
        } by {
            assert(name.contains(name[i]));
        }
    }
}

/// The process name is a part of the path. For a program that is given by its file
/// name alone it is that name without its extension. With folders before it,
/// behind slashes, it is the same, unless the path begins like that of a server.
pub proof fn law_process_name_is_the_stem(folder: Seq<char>, file: Seq<char>, name: Seq<char>)
    requires
        is_plain_name(file),
        !folder.contains('\\'),
        folder != seq!['/'],
        !(folder.len() >= 2 && folder[0] == '/' && folder[1] == '/'),
    ensures
        names_process(file, name) ==> has_part(file, name) && name == name_stem(file),
        names_process(folder.push('/') + file, name) ==> name == name_stem(file),
{
    let path = folder.push('/') + file;
    assert forall|i: int| 0 <= i < path.len() implies path[i] != '\\' by {
        if i < folder.len() {
            assert(folder.contains(folder[i]));
        } else if i > folder.len() {
            assert(path[i] == file[i - folder.len() - 1]);
        }
    }
    lemma_behind_separator(folder.push('/'), file, false);
    if path.len() >= 2 && path[0] == '/' && path[1] == '/' {
        if folder.len() == 0 {
            assert(path[1] == file[0]);
        } else if folder.len() == 1 {
            assert(path[0] == folder[0]);
            assert(folder == seq!['/']);
        } else {
            assert(path[0] == folder[0] && path[1] == folder[1]);
        }
    }
    assert(is_slash_path(path));
    if names_process(path, name) {
        law_folder_is_no_process_name(folder, file, name);
    }
}

/// The process name of a program on a drive is the stem of its file name where
/// backslashes separate, and the stem of what stands behind the last slash where
/// they do not.
pub proof fn law_process_name_on_a_drive(
    drive: char,
    folder: Seq<char>,
    file: Seq<char>,
    name: Seq<char>,
)
    requires
        is_plain_name(file),
        folder.len() > 0 ==> folder.last() == '\\' || folder.last() == '/',
    ensures
        ({
            let path = seq![drive, ':', '\\'] + folder + file;
            names_process(path, name) ==> name == name_stem(file) || name == name_stem(
                behind_last(path, false),
            )
        }),
{
    let front = seq![drive, ':', '\\'] + folder;
    let path = front + file;
    assert(path[1] == ':' && path[2] == '\\');
    assert(front.last() == if folder.len() > 0 {
        folder.last()
    } else {
        '\\'
    });
    lemma_behind_separator(front, file, true);
    assert(is_drive_path(path));
}

/// With separators of one kind only, as in the path of a server, the process name
/// is one of those two as well, or empty.
pub proof fn law_process_name_with_one_separator(
    folder: Seq<char>,
    file: Seq<char>,
    name: Seq<char>,
)
    requires
        is_plain_name(file),
        folder.len() > 0 ==> folder.last() == '\\' || folder.last() == '/',
        !(folder.contains('/') && folder.contains('\\')),
    ensures
        names_process(folder + file, name) ==> name == Seq::<char>::empty() || name == name_stem(
            file,
        ) || name == name_stem(behind_last(folder + file, false)),
{
    let path = folder + file;
    if folder.len() > 0 {
        lemma_behind_separator(folder, file, true);
    } else {
        lemma_no_separator(file, true);
        assert(path == file);
    }
    if path.contains('/') && path.contains('\\') {
        let i = choose|i: int| 0 <= i < path.len() && path[i] == '/';
        let j = choose|j: int| 0 <= j < path.len() && path[j] == '\\';
        assert(i < folder.len()) by {
            if i >= folder.len() {
                assert(path[i] == file[i - folder.len()]);
            }
        }
        assert(j < folder.len()) by {
            if j >= folder.len() {
                assert(path[j] == file[j - folder.len()]);
            }
        }
        assert(folder[i] == '/' && folder[j] == '\\');
    }
    assert(is_uniform_path(path));
    if names_process(path, name) && name.len() == 0 {
        assert(name == Seq::<char>::empty());
    }
}

/// One key that stands in a text suffices, and one is needed.
pub proof fn law_any_key_suffices(
    before: Seq<char>,
    after: Seq<char>,
    s: Seq<char>,
    keys: Seq<Seq<char>>,
    i: int,
)
    requires
        0 <= i < keys.len(),
    ensures
        has_any(before + keys[i] + after, keys),
        (forall|k: int| 0 <= k < keys.len() ==> !has_part(s, #[trigger] keys[k])) ==> !has_any(
            s,
            keys,
        ),
        !has_any(s, Seq::empty()),
{
    law_part_is_found(before, keys[i], after);
}

/// A window matches exactly where one of the three groups of rules finds a text of
/// its own: the first in the process name, the second in the title, the third in
/// the path of the program.
pub proof fn law_each_group_looks_at_its_own_text(
    d: CodexWindowDetector,
    name: Seq<char>,
    title: Seq<char>,
    exe: Seq<char>,
)
    ensures
        d.admits(name, title, exe) <==> {
            ||| exists|i: int|
                0 <= i < d.process_name_contains@.len() && has_part(
                    name,
                    (#[trigger] d.process_name_contains@[i])@,
                )
            ||| exists|i: int|
                0 <= i < d.title_contains@.len() && has_part(
                    title,
                    (#[trigger] d.title_contains@[i])@,
                )
            ||| exists|i: int|
                0 <= i < d.exe_path_contains@.len() && has_part(
                    exe,
                    (#[trigger] d.exe_path_contains@[i])@,
                )
        },
{
    lemma_any_of_texts(name, d.process_name_contains@);
    lemma_any_of_texts(title, d.title_contains@);
    lemma_any_of_texts(exe, d.exe_path_contains@);
}

proof fn lemma_any_of_texts(s: Seq<char>, keys: Seq<String>)
    ensures
        has_any(s, texts(keys)) <==> exists|i: int|
            0 <= i < keys.len() && has_part(s, (#[trigger] keys[i])@),
{
    if has_any(s, texts(keys)) {
        let i = choose|i: int| 0 <= i < texts(keys).len() && has_part(s, #[trigger] texts(keys)[i]);
        assert(has_part(s, keys[i]@));
    }
    if exists|i: int| 0 <= i < keys.len() && has_part(s, (#[trigger] keys[i])@) {
        let i = choose|i: int| 0 <= i < keys.len() && has_part(s, (#[trigger] keys[i])@);
        assert(texts(keys)[i] == keys[i]@);
    }
}

/// A window is judged in lower case, by the process name, by its title and by the
/// path of its program, wherever the path leaves one process name only.
pub proof fn law_window_is_judged_in_lower_case(
    d: CodexWindowDetector,
    exe: Seq<char>,
    name: Seq<char>,
    title: Seq<char>,
    hit: bool,
)
    requires
        forall|other: Seq<char>| #[trigger] names_process(exe, other) ==> other == name,
        d.judges(exe, title, hit),
    ensures
        hit == d.admits(lowercase(name), lowercase(title), lowercase(exe)),
{
}

/// Two detectors have the same rules where all three groups are the same.
pub proof fn law_rules_are_the_three_groups(a: CodexWindowDetector, b: CodexWindowDetector)
    ensures
        a.same_rules(&b) <==> a.process_name_contains == b.process_name_contains
            && a.title_contains == b.title_contains && a.exe_path_contains
            == b.exe_path_contains,
{
}

/// A candidate has the handle, the process and the rectangle of its report, the
/// empty rectangle at the origin where none is known, and the title that was
/// written: none where nothing was.
pub proof fn law_candidate_is_as_reported(w: WindowReport, c: Candidate)
    requires
        reports(w, c),
    ensures
        c.hwnd == w.hwnd,
        c.pid == w.pid,
        w.rect is Some ==> c.rect == w.rect->0,
        w.rect is None ==> c.rect.left == 0 && c.rect.top == 0 && c.rect.right == 0
            && c.rect.bottom == 0,
        w.title_len <= 0 ==> c.title@ == Seq::<char>::empty(),
        0 < w.title_len <= w.title@.len() ==> c.title@ == decoded_lossy(
            w.title@.take(w.title_len as int),
        ),
        w.title_len > w.title@.len() ==> c.title@ == decoded_lossy(w.title@),
{
}

/// The path of a program is what was written of it, as far as the buffer goes;
/// without a report it is empty.
pub proof fn law_path_is_as_reported(image: ProcessImage)
    ensures
        image.size <= image.path@.len() ==> image_path(Some(image)) == decoded_lossy(
            image.path@.take(image.size as int),
        ),
        image.size > image.path@.len() ==> image_path(Some(image)) == decoded_lossy(image.path@),
        image_path(None) == Seq::<char>::empty(),
{
}

/// The main window is a kept one, no kept one has a larger area, and of those as
/// large it is the first; there is none exactly where none is kept.
pub proof fn law_main_window_is_the_first_of_the_largest(
    list: Seq<Candidate>,
    kept: Seq<bool>,
    r: Option<usize>,
)
    requires
        is_main_window(list, kept, r),
    ensures
        r is None <==> forall|j: int| 0 <= j < list.len() ==> !#[trigger] kept[j],
        r matches Some(hwnd) ==> exists|i: int|
            {
                &&& 0 <= i < list.len()
                &&& #[trigger] kept[i]
                &&& list[i].hwnd == hwnd
                &&& forall|j: int|
                    0 <= j < list.len() && #[trigger] kept[j] ==> (list[j].rect.right
                        - list[j].rect.left) * (list[j].rect.bottom - list[j].rect.top) <= (
                    list[i].rect.right - list[i].rect.left) * (list[i].rect.bottom
                        - list[i].rect.top)
                &&& forall|j: int|
                    0 <= j < i && #[trigger] kept[j] ==> (list[j].rect.right
                        - list[j].rect.left) * (list[j].rect.bottom - list[j].rect.top) < (
                    list[i].rect.right - list[i].rect.left) * (list[i].rect.bottom
                        - list[i].rect.top)
            },
{
    if r is Some {
        let i = choose|i: int| is_chosen(list, kept, i) && list[i].hwnd == r->0;
        assert(kept[i]);
    }
}

/// Without a window that was found before, all windows are gone through.
pub proof fn law_nothing_found_yet(alive: bool)
    ensures
        next_lookup(None, alive) == Lookup::Enumerate,
{
}

/// The widget's own window is one of its process whose title, as far as it was
/// written, is the widget's.
pub proof fn law_own_window_has_process_and_title(
    find: SelfFind,
    pid: u32,
    title: Seq<u16>,
    unused: Seq<u16>,
    len: i32,
)
    requires
        title.len() <= i32::MAX,
    ensures
        is_own_window(find, pid, title + unused, title.len() as i32) <==> pid == find.pid
            && decoded_lossy(title) == "DeepSeek Status Widget"@,
        len < 0 || len > title.len() ==> (is_own_window(find, pid, title, len) <==> pid
            == find.pid && decoded_lossy(title) == "DeepSeek Status Widget"@),
{
    assert((title + unused).take(title.len() as int) == title);
}

// ---------------------------------------------------------------------------
// What the operations do
// ---------------------------------------------------------------------------

/// The content of a window goes from the screen position of its origin as far as
/// the client rectangle is wide and high; `get_rect` takes a rectangle over edge
/// by edge where the status is not 0; and `detected` keeps the rectangle and says
/// that the window is minimised where that status is not 0.
pub proof fn law_rectangles_of_windows(
    client: NativeRect,
    origin: Point,
    content: Option<WinRect>,
    status: i32,
    rect: Option<WinRect>,
    iconic: i32,
    found: Option<DetectedCodex>,
)
    requires
        i32::MIN <= origin.x + client.right <= i32::MAX,
        i32::MIN <= origin.y + client.bottom <= i32::MAX,
        call_ensures(window_content_rect, (Some(client), Some(origin)), content),
        call_ensures(get_rect, (status, client), rect),
        call_ensures(detected, (rect, iconic), found),
    ensures
        content is Some,
        content->0.left == origin.x,
        content->0.top == origin.y,
        content->0.right == origin.x + client.right,
        content->0.bottom == origin.y + client.bottom,
        rect is Some <==> status != 0,
        rect is Some ==> rect->0.left == client.left && rect->0.top == client.top && rect->0.right
            == client.right && rect->0.bottom == client.bottom,
        found is Some <==> rect is Some,
        found is Some ==> found->0.rect == rect->0 && (found->0.minimized <==> iconic != 0),
{
}

/// What the system cannot tell of a window's content leaves its rectangle unknown.
pub proof fn law_unknown_content(
    client: Option<NativeRect>,
    origin: Option<Point>,
    content: Option<WinRect>,
)
    requires
        client is None || origin is None,
        call_ensures(window_content_rect, (client, origin), content),
    ensures
        content is None,
{
}

/// `collect_window` adds a visible window of a process behind all others, as it is
/// reported, and passes over any other.
pub proof fn law_collect_window_adds_visible_windows(list: &mut Vec<Candidate>, w: &WindowReport)
    requires
        call_ensures(collect_window, (list, w), ()),
    ensures
        w.visible == 0 || w.pid == 0 ==> final(list)@ == old(list)@,
        w.visible != 0 && w.pid != 0 ==> {
            &&& final(list)@.len() == old(list)@.len() + 1
            &&& final(list)@.drop_last() == old(list)@
            &&& final(list)@.last().hwnd == w.hwnd
            &&& final(list)@.last().pid == w.pid
            &&& w.rect is Some ==> final(list)@.last().rect == w.rect->0
            &&& w.title_len <= 0 ==> final(list)@.last().title@.len() == 0
            &&& 0 < w.title_len <= w.title@.len() ==> final(list)@.last().title@ == decoded_lossy(
                w.title@.take(w.title_len as int),
            )
        },
{
}

/// `largest_window` gives a kept window, and none that is kept is larger; it gives
/// none exactly where none is kept.
pub proof fn law_largest_window_is_the_largest(
    list: &Vec<Candidate>,
    kept: &Vec<bool>,
    r: Option<usize>,
    j: int,
)
    requires
        kept@.len() == list@.len(),
        call_ensures(largest_window, (list, kept), r),
        0 <= j < list@.len(),
        kept@[j],
    ensures
        r is Some,
        exists|i: int|
            {
                &&& 0 <= i < list@.len()
                &&& #[trigger] kept@[i]
                &&& list@[i].hwnd == r->0
                &&& (list@[j].rect.right - list@[j].rect.left) * (list@[j].rect.bottom
                    - list@[j].rect.top) <= (list@[i].rect.right - list@[i].rect.left) * (
                list@[i].rect.bottom - list@[i].rect.top)
            },
{
    let i = choose|i: int| is_chosen(list@, kept@, i) && list@[i].hwnd == r->0;
    assert(kept@[i]);
}

/// `matches_lowered` finds a text of each group in the place of that group, and
/// needs one of them.
pub proof fn law_matches_lowered_asks_each_group(
    d: &CodexWindowDetector,
    name: &str,
    title: &str,
    exe: &str,
    hit: bool,
    before: Seq<char>,
    after: Seq<char>,
    i: int,
)
    requires
        call_ensures(CodexWindowDetector::matches_lowered, (d, name, title, exe), hit),
    ensures
        0 <= i < d.process_name_contains@.len() && name@ == before + d.process_name_contains@[i]@
            + after ==> hit,
        0 <= i < d.title_contains@.len() && title@ == before + d.title_contains@[i]@ + after ==> hit,
        0 <= i < d.exe_path_contains@.len() && exe@ == before + d.exe_path_contains@[i]@ + after
            ==> hit,
        hit ==> {
            ||| exists|k: int|
                0 <= k < d.process_name_contains@.len() && has_part(
                    name@,
                    (#[trigger] d.process_name_contains@[k])@,
                )
            ||| exists|k: int|
                0 <= k < d.title_contains@.len() && has_part(
                    title@,
                    (#[trigger] d.title_contains@[k])@,
                )
            ||| exists|k: int|
                0 <= k < d.exe_path_contains@.len() && has_part(
                    exe@,
                    (#[trigger] d.exe_path_contains@[k])@,
                )
        },
{
    law_each_group_looks_at_its_own_text(*d, name@, title@, exe@);
    if 0 <= i < d.process_name_contains@.len() {
        law_part_is_found(before, d.process_name_contains@[i]@, after);
    }
    if 0 <= i < d.title_contains@.len() {
        law_part_is_found(before, d.title_contains@[i]@, after);
    }
    if 0 <= i < d.exe_path_contains@.len() {
        law_part_is_found(before, d.exe_path_contains@[i]@, after);
    }
}

/// `matches` finds a capital or small text of the rules in the title, in the path
/// of the program and in the stem of its file name, for texts of ASCII, and needs
/// one of them.
pub proof fn law_matches_disregards_case(
    d: &CodexWindowDetector,
    file: &str,
    title: &str,
    hit: bool,
)
    requires
        call_ensures(CodexWindowDetector::matches, (d, file, title), hit),
        is_plain_name(file@),
        is_ascii_text(file@),
        is_ascii_text(title@),
    ensures
        hit <==> {
            ||| exists|i: int|
                0 <= i < d.process_name_contains@.len() && has_part(
                    ascii_lowered(name_stem(file@)),
                    (#[trigger] d.process_name_contains@[i])@,
                )
            ||| exists|i: int|
                0 <= i < d.title_contains@.len() && has_part(
                    ascii_lowered(title@),
                    (#[trigger] d.title_contains@[i])@,
                )
            ||| exists|i: int|
                0 <= i < d.exe_path_contains@.len() && has_part(
                    ascii_lowered(file@),
                    (#[trigger] d.exe_path_contains@[i])@,
                )
        },
{
    law_each_group_looks_at_its_own_text(
        *d,
        ascii_lowered(name_stem(file@)),
        ascii_lowered(title@),
        ascii_lowered(file@),
    );
}

/// `new` has the rules of the Codex program: `chatgpt` in the process name or in
/// the title, or `openai.codex` in the path; `default` has none, and neither has
/// found anything yet.
pub proof fn law_rules_of_a_new_detector(d: CodexWindowDetector, e: CodexWindowDetector)
    requires
        call_ensures(CodexWindowDetector::new, (), d),
        call_ensures(CodexWindowDetector::default, (), e),
    ensures
        d.process_name_contains@.len() == 1 && d.process_name_contains@[0]@ == "chatgpt"@,
        d.title_contains@.len() == 1 && d.title_contains@[0]@ == "chatgpt"@,
        d.exe_path_contains@.len() == 1 && d.exe_path_contains@[0]@ == "openai.codex"@,
        d.cached_hwnd is None,
        d.cache@ == Map::<u32, String>::empty(),
        e.process_name_contains@.len() == 0,
        e.title_contains@.len() == 0,
        e.exe_path_contains@.len() == 0,
        e.cached_hwnd is None,
        e.cache@ == Map::<u32, String>::empty(),
{
    assert(texts(d.process_name_contains@)[0] == "chatgpt"@);
    assert(texts(d.title_contains@)[0] == "chatgpt"@);
    assert(texts(d.exe_path_contains@)[0] == "openai.codex"@);
    assert(texts(d.process_name_contains@).len() == 1);
    assert(texts(d.title_contains@).len() == 1);
    assert(texts(d.exe_path_contains@).len() == 1);
}

/// The path of a process is asked for once: what `exe_path` gave for it, it gives
/// again, whatever is reported then, and it forgets no other path.
pub proof fn law_path_is_known_from_then_on(
    d: &mut CodexWindowDetector,
    pid: u32,
    image: &Option<ProcessImage>,
    path: String,
    next: &mut CodexWindowDetector,
    other: &Option<ProcessImage>,
    again: String,
    another: u32,
)
    requires
        call_ensures(CodexWindowDetector::exe_path, (d, pid, image), path),
        *old(next) == *final(d),
        call_ensures(CodexWindowDetector::exe_path, (next, pid, other), again),
    ensures
        again == path,
        !old(d).cache@.contains_key(pid) && *image is None ==> path@.len() == 0,
        !old(d).cache@.contains_key(pid) && *image is Some && image->0.size
            <= image->0.path@.len() ==> path@ == decoded_lossy(
            image->0.path@.take(image->0.size as int),
        ),
        old(d).cache@.contains_key(another) ==> final(d).cache@.contains_key(another)
            && final(d).cache@[another] == old(d).cache@[another],
        final(d).process_name_contains == old(d).process_name_contains,
        final(d).title_contains == old(d).title_contains,
        final(d).exe_path_contains == old(d).exe_path_contains,
        final(d).cached_hwnd == old(d).cached_hwnd,
{
}

/// A window that `remember` was told is looked at by `find` for as long as it
/// exists; without one, or where it is gone, all windows are gone through. Being
/// told of none changes nothing.
pub proof fn law_remembered_window_is_looked_at(
    d: &mut CodexWindowDetector,
    found: Option<usize>,
    after: &CodexWindowDetector,
    alive: bool,
    lookup: Lookup,
    cached: Option<usize>,
)
    requires
        call_ensures(CodexWindowDetector::remember, (d, found), ()),
        *after == *final(d),
        call_ensures(CodexWindowDetector::find, (after, alive), lookup),
        call_ensures(CodexWindowDetector::cached, (after,), cached),
    ensures
        found is Some ==> cached == found,
        found is None ==> cached == old(d).cached_hwnd,
        cached is Some && alive ==> lookup == Lookup::Inspect(cached->0),
        cached is None || !alive ==> lookup == Lookup::Enumerate,
        final(d).process_name_contains == old(d).process_name_contains,
        final(d).title_contains == old(d).title_contains,
        final(d).exe_path_contains == old(d).exe_path_contains,
        final(d).cache@ == old(d).cache@,
{
}

/// `enumerate_best` gives one of the candidates, and only one that matches; it
/// changes neither the rules nor what is known and remembered.
pub proof fn law_enumerate_best_gives_a_match(
    d: &mut CodexWindowDetector,
    list: &Vec<Candidate>,
    r: Option<usize>,
)
    requires
        call_ensures(CodexWindowDetector::enumerate_best, (d, list), r),
    ensures
        r is Some ==> exists|i: int|
            {
                &&& 0 <= i < list@.len()
                &&& (#[trigger] list@[i]).hwnd == r->0
                &&& old(d).judges(old(d).cache@[list@[i].pid]@, list@[i].title@, true)
            },
        r is None ==> forall|i: int|
            0 <= i < list@.len() ==> old(d).judges(
                old(d).cache@[(#[trigger] list@[i]).pid]@,
                list@[i].title@,
                false,
            ),
        final(d).cached_hwnd == old(d).cached_hwnd,
        final(d).cache@ == old(d).cache@,
        final(d).process_name_contains == old(d).process_name_contains,
        final(d).title_contains == old(d).title_contains,
        final(d).exe_path_contains == old(d).exe_path_contains,
{
    let kept = choose|kept: Seq<bool>|
        {
            &&& kept.len() == list@.len()
            &&& forall|i: int|
                0 <= i < list@.len() ==> old(d).judges(
                    old(d).cache@[list@[i].pid]@,
                    list@[i].title@,
                    #[trigger] kept[i],
                )
            &&& #[trigger] is_main_window(list@, kept, r)
        };
    if r is Some {
        let i = choose|i: int| is_chosen(list@, kept, i) && list@[i].hwnd == r->0;
        assert(kept[i]);
        assert(old(d).judges(old(d).cache@[list@[i].pid]@, list@[i].title@, kept[i]));
    } else {
        assert forall|i: int| 0 <= i < list@.len() implies old(d).judges(
            old(d).cache@[(#[trigger] list@[i]).pid]@,
            list@[i].title@,
            false,
        ) by {
            assert(!kept[i]);
        }
    }
}

/// The search for the widget's own window begins with nothing found, goes on past
/// every other window, and ends with the first of its process that has its title.
pub proof fn law_own_window_is_found(
    pid: u32,
    start: SelfFind,
    find: &mut SelfFind,
    hwnd: usize,
    of: u32,
    title: &Vec<u16>,
    len: i32,
    go_on: bool,
    written: Seq<u16>,
    unused: Seq<u16>,
)
    requires
        call_ensures(self_main_hwnd, (pid,), start),
        *old(find) == start,
        call_ensures(self_window_probe, (find, hwnd, of, title, len), go_on),
        title@ == written + unused,
        len == written.len(),
    ensures
        start.found is None,
        go_on <==> of != pid || decoded_lossy(written) != "DeepSeek Status Widget"@,
        go_on ==> final(find).found is None,
        !go_on ==> final(find).found == Some(hwnd),
        final(find).pid == pid,
{
    assert((written + unused).take(written.len() as int) == written);
}

/// `process_name` gives the stem of a file name, also with folders before it,
/// behind slashes.
pub proof fn law_process_name_gives_the_stem(
    exe: &str,
    name: String,
    folder: Seq<char>,
    file: Seq<char>,
)
    requires
        call_ensures(process_name, (exe,), name),
        is_plain_name(file),
        !folder.contains('\\'),
        folder != seq!['/'],
        !(folder.len() >= 2 && folder[0] == '/' && folder[1] == '/'),
    ensures
        exe@ == file ==> name@ == name_stem(file),
        exe@ == folder.push('/') + file ==> name@ == name_stem(file),
{
    law_process_name_is_the_stem(folder, file, name@);
}

/// `enumerate_best` gives a window that is at least as large as every candidate
/// that matches for certain.
pub proof fn law_enumerate_best_gives_the_largest(
    d: &mut CodexWindowDetector,
    list: &Vec<Candidate>,
    r: Option<usize>,
    j: int,
)
    requires
        call_ensures(CodexWindowDetector::enumerate_best, (d, list), r),
        0 <= j < list@.len(),
        forall|hit: bool| #[trigger]
            old(d).judges(old(d).cache@[list@[j].pid]@, list@[j].title@, hit) ==> hit,
    ensures
        r is Some,
        exists|i: int|
            {
                &&& 0 <= i < list@.len()
                &&& (#[trigger] list@[i]).hwnd == r->0
                &&& (list@[j].rect.right - list@[j].rect.left) * (list@[j].rect.bottom
                    - list@[j].rect.top) <= (list@[i].rect.right - list@[i].rect.left) * (
                list@[i].rect.bottom - list@[i].rect.top)
            },
{
    let kept = choose|kept: Seq<bool>|
        {
            &&& kept.len() == list@.len()
            &&& forall|i: int|
                0 <= i < list@.len() ==> old(d).judges(
                    old(d).cache@[list@[i].pid]@,
                    list@[i].title@,
                    #[trigger] kept[i],
                )
            &&& #[trigger] is_main_window(list@, kept, r)
        };
    assert(kept[j]);
    let i = choose|i: int| is_chosen(list@, kept, i) && list@[i].hwnd == r->0;
    assert(kept[i]);
    assert(list@[i].hwnd == r->0);
}

} // verus!
