//! Recognising the game window: by the file name of its process, or by its title.

use vstd::prelude::*;
use vstd::string::StrSliceExecFns;
use crate::text::{occurs_in, str_contains};

verus! {

/// What a game process's file name or a game window's title contains.
pub const GAME_MARK: &'static str = "300";

/// The lower-case form of a text, as `str::to_lowercase` computes it.
pub uninterp spec fn lowercase_of(s: Seq<char>) -> Seq<char>;

/// Lower-case form of a text.
///
/// Trusted: calls `str::to_lowercase` (Unicode case mapping). Its result
/// depends on the text alone; the contract names it.
#[verifier::external_body]
fn to_lower(s: &str) -> (r: String)
    ensures
        r@ == lowercase_of(s@),
{
    s.to_lowercase()
}

/// The part of a Windows path after its last backslash (all of it when it has none).
pub open spec fn file_name_of(path: Seq<char>) -> Seq<char>
    decreases path.len(),
{
    if path.len() == 0 || path.last() == '\\' {
        Seq::empty()
    } else {
        file_name_of(path.drop_last()).push(path.last())
    }
}

/// The file name of a Windows path: the part after its last backslash.
pub fn file_name(path: &str) -> (r: &str)
    ensures
        r@ == file_name_of(path@),
{
    let n = path.unicode_len();
    let mut i = n;
    assert(path@.take(n as int) =~= path@);
    while i > 0 && path.get_char(i - 1) != '\\'
        invariant
            n == path@.len(),
            i <= n,
            file_name_of(path@) == file_name_of(path@.take(i as int)) + path@.subrange(i as int, n as int),
        decreases i,
    {
        let ghost p = path@.take(i as int);
        assert(p.drop_last() =~= path@.take(i - 1));
        assert(path@.subrange(i - 1, n as int) =~= seq![p.last()] + path@.subrange(i as int, n as int));
        i = i - 1;
    }
    assert(file_name_of(path@.take(i as int)) =~= Seq::<char>::empty());
    path.substring_char(i, n)
}

/// The process with image path `path` is the game: its file name, in lower
/// case, contains "300".
pub open spec fn is_game_path(path: Seq<char>) -> bool {
    occurs_in(GAME_MARK@, lowercase_of(file_name_of(path)))
}

/// Whether the process with image path `path` is the game.
pub fn is_game_process(path: &str) -> (r: bool)
    ensures
        r == is_game_path(path@),
{
    let name = file_name(path);
    let lower = to_lower(name);
    str_contains(lower.as_str(), GAME_MARK)
}

/// Whether a window title is the game's: it contains "300".
pub fn is_game_title(title: &str) -> (r: bool)
    ensures
        r == occurs_in(GAME_MARK@, title@),
{
    str_contains(title, GAME_MARK)
}

} // verus!
