//! State and list logic of the settings window.

use vstd::prelude::*;
use vstd::string::StrSliceExecFns;
use crate::logger::{pad_number, padded};
use crate::scheme::{SchemeManager, SchemeTable, any_filter, can_rename, lemma_matching_ids, lists_schemes, matching_ids, rename_table};
use crate::search::spell_of;
use crate::text::{is_prefix_str, occurs_in, push_char, push_str, str_contains, to_upper, uppercase_of};

verus! {

/// Tabs of the settings window.
#[derive(Debug, Clone, Copy, PartialEq, Eq, Structural)]
pub enum Tab {
    Settings,
    Styles,
    Schemes,
    About,
}

/// State of the settings window.
#[derive(Debug)]
pub struct MainApp {
    pub tab: Tab,
    /// Scheme being edited.
    pub selected_scheme: Option<u8>,
    /// Filter of the scheme list.
    pub scheme_filter: String,
}

/// Whether `c` has the Unicode property White_Space.
pub open spec fn is_white_space(c: char) -> bool {
    let u = c as u32;
    ||| 0x9 <= u <= 0xD
    ||| u == 0x20 || u == 0x85 || u == 0xA0 || u == 0x1680
    ||| 0x2000 <= u <= 0x200A
    ||| u == 0x2028 || u == 0x2029 || u == 0x202F || u == 0x205F || u == 0x3000
}

/// `s` without its leading white space.
pub open spec fn trim_start_of(s: Seq<char>) -> Seq<char>
    decreases s.len(),
{
    if s.len() > 0 && is_white_space(s[0]) {
        trim_start_of(s.drop_first())
    } else {
        s
    }
}

/// `s` without its trailing white space.
pub open spec fn trim_end_of(s: Seq<char>) -> Seq<char>
    decreases s.len(),
{
    if s.len() > 0 && is_white_space(s.last()) {
        trim_end_of(s.drop_last())
    } else {
        s
    }
}

/// The text `s` without leading and trailing white space.
pub open spec fn trimmed_of(s: Seq<char>) -> Seq<char> {
    trim_end_of(trim_start_of(s))
}

/// Whether `c` is white space (Unicode property White_Space).
fn is_space(c: char) -> (r: bool)
    ensures
        r == is_white_space(c),
{
    let u = c as u32;
    (0x9 <= u && u <= 0xD) || u == 0x20 || u == 0x85 || u == 0xA0 || u == 0x1680 || (0x2000 <= u
        && u <= 0x200A) || u == 0x2028 || u == 0x2029 || u == 0x202F || u == 0x205F || u == 0x3000
}

/// `s` without leading and trailing white space (what `str::trim` gives).
fn trim_text(s: &str) -> (r: &str)
    ensures
        r@ == trimmed_of(s@),
{
    let n = s.unicode_len();
    let mut a: usize = 0;
    assert(s@.subrange(0, n as int) =~= s@);
    while a < n && is_space(s.get_char(a))
        invariant
            n == s@.len(),
            a <= n,
            trim_start_of(s@) == trim_start_of(s@.subrange(a as int, n as int)),
        decreases n - a,
    {
        assert(s@.subrange(a as int, n as int).drop_first() =~= s@.subrange(a + 1, n as int));
        a = a + 1;
    }
    assert(trim_start_of(s@) == s@.subrange(a as int, n as int));
    let mut b: usize = n;
    while b > a && is_space(s.get_char(b - 1))
        invariant
            n == s@.len(),
            a <= b <= n,
            trim_start_of(s@) == s@.subrange(a as int, n as int),
            trim_end_of(s@.subrange(a as int, n as int)) == trim_end_of(s@.subrange(a as int, b as int)),
        decreases b - a,
    {
        assert(s@.subrange(a as int, b as int).drop_last() =~= s@.subrange(a as int, b - 1));
        b = b - 1;
    }
    assert(trim_end_of(s@.subrange(a as int, b as int)) == s@.subrange(a as int, b as int));
    s.substring_char(a, b)
}

/// A scheme is listed under filter `f` (trimmed, upper case) when `f` is
/// empty, starts its pinyin initials, or occurs in its two-digit number.
pub open spec fn listed(book: SchemeTable, id: u8, f: Seq<char>) -> bool {
    f.len() == 0 || f.is_prefix_of(spell_of(book.schemes[id].name@)) || occurs_in(f, padded(id as nat, 2))
}

/// Number and name of the schemes listed under filter `f`, in number order.
pub open spec fn listed_entries(book: SchemeTable, f: Seq<char>) -> Seq<(u8, Seq<char>)> {
    matching_ids(book.schemes, any_filter()).filter(|k: u8| listed(book, k, f)).map_values(
        |k: u8| (k, book.schemes[k].name@),
    )
}

/// The scheme list for a filter that is already trimmed and in upper case.
pub fn entries_for_filter(mgr: &SchemeManager, filter: &str) -> (r: Vec<(u8, String)>)
    ensures
        r@.map_values(|e: (u8, String)| (e.0, e.1@)) == listed_entries(mgr@, filter@),
{
    let all = mgr.list();
    let ghost ids = matching_ids(mgr@.schemes, any_filter());
    let ghost keep = |k: u8| listed(mgr@, k, filter@);
    let ghost view = |k: u8| (k, mgr@.schemes[k].name@);
    let mut out: Vec<(u8, String)> = Vec::new();
    let mut i: usize = 0;
    while i < all.len()
        invariant
            lists_schemes(all@, mgr@.schemes, ids),
            ids == matching_ids(mgr@.schemes, any_filter()),
            keep == (|k: u8| listed(mgr@, k, filter@)),
            view == (|k: u8| (k, mgr@.schemes[k].name@)),
            i <= all@.len(),
            out@.map_values(|e: (u8, String)| (e.0, e.1@)) == ids.take(i as int).filter(keep).map_values(view),
        decreases all@.len() - i,
    {
        let (id, s) = all[i];
        let spell = s.spell();
        let num = pad_number(id as u64, 2);
        let shown = filter.unicode_len() == 0 || is_prefix_str(filter, spell.as_str())
            || str_contains(num.as_str(), filter);
        assert(ids.take(i + 1).drop_last() =~= ids.take(i as int));
        assert(ids.take(i + 1).last() == id);
        let ghost before = out@;
        if shown {
            out.push((id, s.name.clone()));
            assert(out@.map_values(|e: (u8, String)| (e.0, e.1@)) =~= before.map_values(
                |e: (u8, String)| (e.0, e.1@),
            ).push(view(id)));
        }
        proof {
            reveal_with_fuel(Seq::<_>::filter, 1);
            assert(keep(id) == shown);
            let prev = ids.take(i as int).filter(keep);
            if shown {
                assert(ids.take(i + 1).filter(keep) == prev.push(id));
                assert(prev.push(id).map_values(view) =~= prev.map_values(view).push(view(id)));
            } else {
                assert(ids.take(i + 1).filter(keep) == prev);
            }
        }
        i = i + 1;
    }
    assert(ids.take(all@.len() as int) =~= ids);
    out
}

/// The scheme list for what the user typed as filter: the filter is
/// trimmed and put in upper case first.
pub fn scheme_entries(mgr: &SchemeManager, typed: &str) -> (r: Vec<(u8, String)>)
    ensures
        r@.map_values(|e: (u8, String)| (e.0, e.1@)) == listed_entries(mgr@, uppercase_of(trimmed_of(typed@))),
{
    let trimmed = trim_text(typed);
    let upper = to_upper(trimmed);
    entries_for_filter(mgr, upper.as_str())
}

/// Moves scheme `id` to the smallest unused number below 100, if there is
/// one; returns the new number when the scheme moved. It moves exactly when
/// scheme `id` exists and some number below 100 is unused.
pub fn rename_scheme(mgr: &mut SchemeManager, id: u8) -> (r: Option<u8>)
    ensures
        r is Some <==> (old(mgr)@.schemes.contains_key(id) && exists|j: u8|
            j < 100 && !(#[trigger] old(mgr)@.schemes.contains_key(j))),
        match r {
            Some(b) => b < 100 && !old(mgr)@.schemes.contains_key(b) && can_rename(old(mgr)@, id, b)
                && (forall|j: u8| j < b ==> #[trigger] old(mgr)@.schemes.contains_key(j))
                && final(mgr)@ == rename_table(old(mgr)@, id, b),
            None => final(mgr)@ == old(mgr)@,
        },
{
    match mgr.blank_id() {
        Some(blank) => {
            if mgr.rename(id, blank) {
                Some(blank)
            } else {
                None
            }
        },
        None => None,
    }
}

/// The text of a row of the scheme list: the two-digit number, two spaces
/// and the name, followed by two spaces and a check mark for the active scheme.
pub open spec fn entry_label_text(id: u8, name: Seq<char>, active: u8) -> Seq<char> {
    padded(id as nat, 2) + seq![' ', ' '] + name + if id == active {
        seq![' ', ' ', '\u{2713}']
    } else {
        Seq::<char>::empty()
    }
}

/// The text shown for scheme `id` named `name` in the scheme list.
pub fn entry_label(id: u8, name: &str, active: u8) -> (r: String)
    ensures
        r@ == entry_label_text(id, name@, active),
{
    let mut s = pad_number(id as u64, 2);
    push_char(&mut s, ' ');
    push_char(&mut s, ' ');
    push_str(&mut s, name);
    if id == active {
        push_char(&mut s, ' ');
        push_char(&mut s, ' ');
        push_char(&mut s, '\u{2713}');
    }
    assert(s@ =~= entry_label_text(id, name@, active));
    s
}

impl MainApp {
    /// The "new scheme" button: adds a blank scheme under the smallest unused
    /// number below 100 and selects it for editing; does nothing when every
    /// number below 100 is in use.
    pub fn add_scheme(&mut self, mgr: &mut SchemeManager) -> (r: Option<u8>)
        ensures
            final(self).tab == old(self).tab,
            final(self).scheme_filter == old(self).scheme_filter,
            match r {
                Some(b) => {
                    &&& b < 100
                    &&& !old(mgr)@.schemes.contains_key(b)
                    &&& forall|j: u8| j < b ==> #[trigger] old(mgr)@.schemes.contains_key(j)
                    &&& final(mgr)@.schemes == old(mgr)@.schemes.insert(b, final(mgr)@.schemes[b])
                    &&& final(mgr)@.schemes[b].is_blank()
                    &&& final(mgr)@.active == old(mgr)@.active
                    &&& final(self).selected_scheme == Some(b)
                },
                None => {
                    &&& forall|j: u8| j < 100 ==> #[trigger] old(mgr)@.schemes.contains_key(j)
                    &&& final(mgr)@ == old(mgr)@
                    &&& final(self).selected_scheme == old(self).selected_scheme
                },
            },
    {
        match mgr.blank_id() {
            Some(b) => {
                let _added = mgr.append(b);
                self.selected_scheme = Some(b);
                Some(b)
            },
            None => None,
        }
    }
}

/// Whether `f` occurs somewhere in `d`.
pub open spec fn appears_in(f: Seq<char>, d: Seq<char>) -> bool {
    exists|j: int| 0 <= j && j + f.len() <= d.len() && #[trigger] d.subrange(j, j + f.len()) == f
}

/// Scheme-list filter law: under filter `f`, the list shows exactly the
/// schemes for which `f` is empty, starts their pinyin initials (a match
/// elsewhere in the initials does not count), or occurs in their two-digit
/// number; each with its number and name, in increasing number order.
pub proof fn lemma_listed_entries(book: SchemeTable, f: Seq<char>)
    ensures
        forall|i: int| 0 <= i < listed_entries(book, f).len() ==> {
            let e = #[trigger] listed_entries(book, f)[i];
            &&& book.schemes.contains_key(e.0)
            &&& e.1 == book.schemes[e.0].name@
            &&& f.len() == 0 || f.is_prefix_of(spell_of(e.1)) || appears_in(f, padded(e.0 as nat, 2))
        },
        forall|k: u8|
            book.schemes.contains_key(k) && (f.len() == 0 || f.is_prefix_of(spell_of(book.schemes[k].name@))
                || appears_in(f, padded(k as nat, 2))) ==> exists|i: int|
                0 <= i < listed_entries(book, f).len() && (#[trigger] listed_entries(book, f)[i]).0 == k,
        forall|i: int, j: int|
            0 <= i < j < listed_entries(book, f).len() ==> (#[trigger] listed_entries(book, f)[i]).0
                < (#[trigger] listed_entries(book, f)[j]).0,
{
    let m = book.schemes;
    let ids = matching_ids(m, any_filter());
    let keep = |k: u8| listed(book, k, f);
    let view = |k: u8| (k, m[k].name@);
    let fl = ids.filter(keep);
    lemma_matching_ids(m, any_filter());
    assert(listed_entries(book, f) == fl.map_values(view));
    assert forall|i: int| 0 <= i < fl.len() implies m.contains_key(#[trigger] fl[i]) && keep(fl[i]) by {
        ids.lemma_filter_pred(keep, i);
        assert(fl.contains(fl[i]));
        ids.lemma_filter_contains_rev(keep, fl[i]);
    }
    assert forall|k: u8|
        m.contains_key(k) && (f.len() == 0 || f.is_prefix_of(spell_of(m[k].name@)) || appears_in(f, padded(k as nat, 2)))
        implies exists|i: int|
            0 <= i < listed_entries(book, f).len() && (#[trigger] listed_entries(book, f)[i]).0 == k by {
        assert(ids.contains(k));
        let j = choose|j: int| 0 <= j < ids.len() && ids[j] == k;
        assert(keep(ids[j]));
        ids.lemma_filter_contains(keep, j);
        let i = choose|i: int| 0 <= i < fl.len() && fl[i] == k;
        assert(listed_entries(book, f)[i].0 == k);
    }
    lemma_filter_keeps_order(ids, keep);
}

/// Filtering keeps a strictly increasing list strictly increasing.
proof fn lemma_filter_keeps_order(ids: Seq<u8>, keep: spec_fn(u8) -> bool)
    requires
        forall|i: int, j: int| 0 <= i < j < ids.len() ==> #[trigger] ids[i] < #[trigger] ids[j],
    ensures
        forall|i: int, j: int|
            0 <= i < j < ids.filter(keep).len() ==> #[trigger] ids.filter(keep)[i] < #[trigger] ids.filter(keep)[j],
    decreases ids.len(),
{
    reveal_with_fuel(Seq::<_>::filter, 1);
    if ids.len() > 0 {
        let rest = ids.drop_last();
        lemma_filter_keeps_order(rest, keep);
        let fr = rest.filter(keep);
        assert forall|i: int| 0 <= i < fr.len() implies #[trigger] fr[i] < ids.last() by {
            assert(fr.contains(fr[i]));
            rest.lemma_filter_contains_rev(keep, fr[i]);
            let k = choose|k: int| 0 <= k < rest.len() && rest[k] == fr[i];
            assert(ids[k] < ids[ids.len() - 1]);
        }
    }
}

} // verus!
