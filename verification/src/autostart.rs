//! Starting with the session of the user: what is written to the registry, and
//! what is made of its answers.

use vstd::prelude::*;
use vstd::string::StringExecFns;

use crate::utf16::{decoded, law_utf16_round_trip, units_of, wide_of, wide_utf16};

verus! {

/// The key of the programs that start with the session.
pub const RUN_PATH: &'static str = "Software\\Microsoft\\Windows\\CurrentVersion\\Run";

/// The name of the widget's value under that key.
pub const RUN_NAME: &'static str = "DeepSeekStatusWidget";

/// The kind of a value that is a text.
pub const REG_SZ: u32 = 1;

/// A change of the registry.
#[derive(Debug)]
pub enum RunChange {
    /// Write a value.
    Write {
        /// The name, with the terminating zero.
        name: Vec<u16>,
        ty: u32,
        /// The text, with the terminating zero.
        data: Vec<u16>,
        /// The number of bytes of the text, in 32 bits.
        size: u32,
    },
    /// Remove a value.
    Remove {
        /// The name, with the terminating zero.
        name: Vec<u16>,
    },
}

/// The path of a program in quotes.
pub open spec fn quoted(exe: Seq<char>) -> Seq<char> {
    seq!['"'] + exe + seq!['"']
}

/// The name of the key, with the terminating zero.
pub fn run_key() -> (r: Vec<u16>)
    ensures
        r@ == wide_of(RUN_PATH@),
{
    wide_utf16(RUN_PATH)
}

/// What opening the key came to: a status other than 0 is a failure.
pub fn open_outcome(status: i32) -> (r: Result<(), String>)
    ensures
        r is Ok <==> status == 0,
        r matches Err(m) ==> m@ == "无法打开注册表启动项"@,
{
    if status != 0 {
        Err("无法打开注册表启动项".to_owned())
    } else {
        Ok(())
    }
}

/// The change that makes the program at `exe` start with the session, or without
/// a path the one that ends that.
pub fn apply_autostart(exe: Option<&str>) -> (r: RunChange)
    ensures
        match exe {
            Some(path) => {
                &&& r matches RunChange::Write { name, ty, data, size }
                &&& name@ == wide_of(RUN_NAME@)
                &&& ty == REG_SZ
                &&& data@ == wide_of(quoted(path@))
                &&& size == (2 * data@.len()) as u32
            },
            None => r matches RunChange::Remove { name } && name@ == wide_of(
                RUN_NAME@,
            ),
        },
{
    match exe {
        Some(path) => {
            let mut text: String = String::new();
            text.push('"');
            text.append(path);
            text.push('"');
            assert(text@ == quoted(path@));
            let data: Vec<u16> = wide_utf16(text.as_str());
            let size: u32 = (2 * (data.len() as u128)) as u32;
            RunChange::Write { name: wide_utf16(RUN_NAME), ty: REG_SZ, data, size }
        },
        None => RunChange::Remove { name: wide_utf16(RUN_NAME) },
    }
}

/// What a change came to. A removal always counts as done: the value may not
/// have been there.
pub fn change_outcome(status: i32, enabled: bool) -> (r: Result<(), String>)
    ensures
        r is Err <==> status != 0 && enabled,
        r matches Err(m) ==> m@ == "写入登录启动项失败"@,
{
    if status != 0 && enabled {
        Err("写入登录启动项失败".to_owned())
    } else {
        Ok(())
    }
}

/// The registry gives back the path that was written: the text of the value is
/// the path in quotes.
pub proof fn law_written_path_reads_back(exe: Seq<char>, change: RunChange)
    requires
        change matches RunChange::Write { data, .. } && data@ == wide_of(quoted(exe)),
    ensures
        change matches RunChange::Write { data, .. } && decoded(data@.drop_last())
            == Some(quoted(exe)) && data@.last() == 0,
{
    let data = change->data;
    assert(data@.drop_last() == units_of(quoted(exe)));
    law_utf16_round_trip(quoted(exe));
}

/// A path in quotes is the path with one quote before and one behind it.
pub proof fn law_quotes_stand_around_the_path(exe: Seq<char>)
    ensures
        quoted(exe).len() == exe.len() + 2,
        quoted(exe).first() == '"',
        quoted(exe).last() == '"',
        quoted(exe).subrange(1, 1 + exe.len() as int) == exe,
{
    assert(quoted(exe).subrange(1, 1 + exe.len() as int) == exe);
}

/// The value that starts the program is a text under the widget's name, and all of
/// it is written, as far as 32 bits count its bytes.
pub proof fn law_what_starts_the_program(exe: Seq<char>, change: RunChange)
    requires
        change matches RunChange::Write { name, ty, data, size } && name@ == wide_of(RUN_NAME@)
            && ty == REG_SZ && data@ == wide_of(quoted(exe)) && size == (2 * data@.len()) as u32,
    ensures
        change matches RunChange::Write { name, ty, data, size } && name@ == wide_of(
            "DeepSeekStatusWidget"@,
        ) && ty == 1 && data@ == units_of(seq!['"'] + exe + seq!['"']).push(0) && (2
            * data@.len() <= u32::MAX ==> size == 2 * data@.len()),
        RUN_PATH@ == "Software\\Microsoft\\Windows\\CurrentVersion\\Run"@,
{
}

// ---------------------------------------------------------------------------
// What the operations do
// ---------------------------------------------------------------------------

/// `apply_autostart` writes the path in quotes, as a text under the widget's name,
/// and without a path removes what stands under that name.
pub proof fn law_apply_autostart_writes_or_removes(
    path: &str,
    written: RunChange,
    none: Option<&str>,
    removed: RunChange,
    key: Vec<u16>,
)
    requires
        call_ensures(apply_autostart, (Some(path),), written),
        none is None,
        call_ensures(apply_autostart, (none,), removed),
        call_ensures(run_key, (), key),
    ensures
        written matches RunChange::Write { name, ty, data, size } && name@ == wide_of(
            "DeepSeekStatusWidget"@,
        ) && ty == 1 && data@ == wide_of(seq!['"'] + path@ + seq!['"']) && (2 * data@.len()
            <= u32::MAX ==> size == 2 * data@.len()),
        removed matches RunChange::Remove { name } && name@ == wide_of("DeepSeekStatusWidget"@),
        key@ == wide_of("Software\\Microsoft\\Windows\\CurrentVersion\\Run"@),
{
}

/// Opening the key has failed where the status is not 0; so has a change, but only
/// one that writes.
pub proof fn law_outcomes_of_the_registry(
    status: i32,
    enabled: bool,
    opened: Result<(), String>,
    changed: Result<(), String>,
)
    requires
        call_ensures(open_outcome, (status,), opened),
        call_ensures(change_outcome, (status, enabled), changed),
    ensures
        opened is Ok <==> status == 0,
        opened is Err ==> opened->Err_0@ == "无法打开注册表启动项"@,
        changed is Ok <==> status == 0 || !enabled,
        changed is Err ==> changed->Err_0@ == "写入登录启动项失败"@,
{
}

} // verus!
