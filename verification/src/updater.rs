//! Update decisions: whether the latest release is new, which release file
//! to download, and the script that swaps the program file.

use vstd::prelude::*;
use vstd::string::{StrSliceExecFns, StringExecFns};
use crate::text::push_str;

verus! {

/// Start of the swap script, up to the downloaded file's path.
pub const SCRIPT_HEAD: &'static str = "@echo off\r\necho 正在更新 faster-chant-300-hero-rust...\r\ntimeout /t 2 /nobreak > nul\r\nmove /Y \"";

/// Between the downloaded file's path and the program's path.
pub const SCRIPT_MOVE_TO: &'static str = "\" \"";

/// After the move: on success, start the program again (its path follows).
pub const SCRIPT_RESTART: &'static str = "\"\r\nif %errorlevel% equ 0 (\r\necho 更新完成，正在启动...\r\nstart \"\" \"";

/// End of the swap script: report a failure, then delete the script itself.
pub const SCRIPT_TAIL: &'static str = "\"\r\n) else (\r\necho 更新失败，请手动替换\r\npause\r\n)\r\ndel \"%~f0\"\r\n";

/// Suffix of the release file to download.
pub const EXE_SUFFIX: &'static str = ".exe";

/// A release tag without its leading `v`s.
pub open spec fn trim_v(tag: Seq<char>) -> Seq<char>
    decreases tag.len(),
{
    if tag.len() > 0 && tag[0] == 'v' {
        trim_v(tag.drop_first())
    } else {
        tag
    }
}

/// `s` ends with `suffix`.
pub open spec fn ends_with(s: Seq<char>, suffix: Seq<char>) -> bool {
    suffix.len() <= s.len() && s.subrange(s.len() - suffix.len(), s.len() as int) == suffix
}

/// The version a release tag names (the tag without leading `v`s).
pub fn release_version(tag_name: &str) -> (r: &str)
    ensures
        r@ == trim_v(tag_name@),
{
    let n = tag_name.unicode_len();
    let mut i: usize = 0;
    assert(tag_name@.skip(0) =~= tag_name@);
    while i < n && tag_name.get_char(i) == 'v'
        invariant
            n == tag_name@.len(),
            i <= n,
            trim_v(tag_name@.skip(i as int)) == trim_v(tag_name@),
        decreases n - i,
    {
        assert(tag_name@.skip(i as int).drop_first() =~= tag_name@.skip(i + 1));
        i = i + 1;
    }
    assert(tag_name@.skip(i as int) =~= tag_name@.subrange(i as int, n as int));
    tag_name.substring_char(i, n)
}

/// Whether the latest release (tag `tag_name`) differs from the running version `current`.
pub fn release_is_new(tag_name: &str, current: &str) -> (r: bool)
    ensures
        r == (trim_v(tag_name@) != current@),
{
    let latest = release_version(tag_name);
    let n = latest.unicode_len();
    if n != current.unicode_len() {
        assert(latest@.len() != current@.len());
        return true;
    }
    let mut i: usize = 0;
    while i < n
        invariant
            latest@ == trim_v(tag_name@),
            n == latest@.len(),
            n == current@.len(),
            i <= n,
            forall|j: int| 0 <= j < i ==> latest@[j] == current@[j],
        decreases n - i,
    {
        if latest.get_char(i) != current.get_char(i) {
            assert(latest@[i as int] != current@[i as int]);
            assert(latest@ != current@);
            return true;
        }
        i = i + 1;
    }
    assert(latest@ =~= current@);
    false
}

/// Whether `s` ends with `suffix`.
pub fn str_ends_with(s: &str, suffix: &str) -> (r: bool)
    ensures
        r == ends_with(s@, suffix@),
{
    let n = s.unicode_len();
    let k = suffix.unicode_len();
    if k > n {
        return false;
    }
    let start = n - k;
    let mut i: usize = 0;
    while i < k
        invariant
            n == s@.len(),
            k == suffix@.len(),
            start == n - k,
            i <= k,
            forall|j: int| 0 <= j < i ==> s@[start + j] == suffix@[j],
        decreases k - i,
    {
        if s.get_char(start + i) != suffix.get_char(i) {
            assert(s@.subrange(start as int, n as int)[i as int] != suffix@[i as int]);
            return false;
        }
        i = i + 1;
    }
    assert(s@.subrange(start as int, n as int) =~= suffix@);
    true
}

/// The first release file whose name ends with `.exe`.
pub fn find_exe_asset(names: &Vec<String>) -> (r: Option<usize>)
    ensures
        match r {
            Some(i) => i < names@.len() && ends_with(names@[i as int]@, EXE_SUFFIX@) && forall|j: int|
                0 <= j < i ==> !ends_with(#[trigger] names@[j]@, EXE_SUFFIX@),
            None => forall|j: int| 0 <= j < names@.len() ==> !ends_with(#[trigger] names@[j]@, EXE_SUFFIX@),
        },
{
    let mut i: usize = 0;
    while i < names.len()
        invariant
            i <= names@.len(),
            forall|j: int| 0 <= j < i ==> !ends_with(#[trigger] names@[j]@, EXE_SUFFIX@),
        decreases names@.len() - i,
    {
        if str_ends_with(names[i].as_str(), EXE_SUFFIX) {
            return Some(i);
        }
        i = i + 1;
    }
    None
}

/// The script that waits, moves the downloaded file `new_exe` over the
/// program file `current_exe`, restarts it, and deletes itself.
pub open spec fn script_text(new_exe: Seq<char>, current_exe: Seq<char>) -> Seq<char> {
    SCRIPT_HEAD@ + new_exe + SCRIPT_MOVE_TO@ + current_exe + SCRIPT_RESTART@ + current_exe + SCRIPT_TAIL@
}

/// The swap script for the downloaded file `new_exe` and the program file `current_exe`.
pub fn update_script(new_exe: &str, current_exe: &str) -> (r: String)
    ensures
        r@ == script_text(new_exe@, current_exe@),
{
    let mut s = String::from_str(SCRIPT_HEAD);
    push_str(&mut s, new_exe);
    push_str(&mut s, SCRIPT_MOVE_TO);
    push_str(&mut s, current_exe);
    push_str(&mut s, SCRIPT_RESTART);
    push_str(&mut s, current_exe);
    push_str(&mut s, SCRIPT_TAIL);
    s
}

} // verus!
