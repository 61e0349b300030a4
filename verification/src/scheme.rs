//! Scheme storage: up to a hundred numbered schemes, each with nine primary
//! messages and nine secondary panels of ten messages.

use std::collections::BTreeMap;
use vstd::prelude::*;
use crate::search::{spell_of, to_spell};
use crate::text::{ascii_upper_text, ascii_lower_text, is_ascii_text, is_prefix_str, to_upper, uppercase_of};

verus! {

/// Number of primary messages of a scheme (keys 1-9).
pub const PRIMARY_LEN: usize = 9;

/// Number of messages of one secondary panel (keys 0-9).
pub const SECONDARY_LEN: usize = 10;

/// Number of scheme numbers handed out by [`SchemeManager::blank_id`].
pub const SCHEME_SLOTS: u8 = 100;

/// One scheme.
#[derive(Debug, Clone)]
pub struct Scheme {
    /// Display name.
    pub name: String,
    /// Whether keys 1-9 open a secondary panel instead of sending directly.
    pub use_secondary: bool,
    /// Primary panel, keys 1-9.
    pub primary: [String; 9],
    /// Secondary panels 1-9, keys 0-9 each.
    pub secondary: [[String; 10]; 9],
}

/// Ten empty messages.
fn blank_row() -> (r: [String; 10])
    ensures
        forall|j: int| 0 <= j < 10 ==> (#[trigger] r[j])@ == Seq::<char>::empty(),
{
    [
        String::new(),
        String::new(),
        String::new(),
        String::new(),
        String::new(),
        String::new(),
        String::new(),
        String::new(),
        String::new(),
        String::new(),
    ]
}

impl Scheme {
    /// A scheme with an empty name, no secondary panel and only empty messages.
    pub open spec fn is_blank(&self) -> bool {
        &&& self.name@ == Seq::<char>::empty()
        &&& !self.use_secondary
        &&& forall|i: int| 0 <= i < 9 ==> (#[trigger] self.primary[i])@ == Seq::<char>::empty()
        &&& forall|i: int, j: int|
            0 <= i < 9 && 0 <= j < 10 ==> (#[trigger] self.secondary[i][j])@ == Seq::<char>::empty()
    }

    /// Pinyin initials of the scheme's name (its search key).
    pub fn spell(&self) -> (r: String)
        ensures
            r@ == spell_of(self.name@),
    {
        to_spell(self.name.as_str())
    }
}

impl Default for Scheme {
    fn default() -> (s: Self)
        ensures
            s.is_blank(),
    {
        Scheme {
            name: String::new(),
            use_secondary: false,
            primary: [
                String::new(),
                String::new(),
                String::new(),
                String::new(),
                String::new(),
                String::new(),
                String::new(),
                String::new(),
                String::new(),
            ],
            secondary: [
                blank_row(),
                blank_row(),
                blank_row(),
                blank_row(),
                blank_row(),
                blank_row(),
                blank_row(),
                blank_row(),
                blank_row(),
            ],
        }
    }
}

/// What a [`SchemeManager`] holds: the active scheme number and the schemes by number.
#[verifier::ext_equal]
pub struct SchemeTable {
    pub active: u8,
    pub schemes: Map<u8, Scheme>,
}

/// The ids `0..n` (in increasing order) of the schemes of `m` that `keep` accepts.
pub open spec fn matching_ids_below(m: Map<u8, Scheme>, keep: spec_fn(u8, Scheme) -> bool, n: int) -> Seq<u8>
    decreases n,
{
    if n <= 0 {
        Seq::empty()
    } else {
        let before = matching_ids_below(m, keep, n - 1);
        let k = (n - 1) as u8;
        if m.contains_key(k) && keep(k, m[k]) {
            before.push(k)
        } else {
            before
        }
    }
}

/// All ids of the schemes of `m` that `keep` accepts, in increasing order.
pub open spec fn matching_ids(m: Map<u8, Scheme>, keep: spec_fn(u8, Scheme) -> bool) -> Seq<u8> {
    matching_ids_below(m, keep, 256)
}

/// `v` lists exactly the schemes of `m` whose ids are `ids`, in that order.
pub open spec fn lists_schemes(v: Seq<(u8, &Scheme)>, m: Map<u8, Scheme>, ids: Seq<u8>) -> bool {
    &&& v.len() == ids.len()
    &&& forall|i: int| 0 <= i < v.len() ==> (#[trigger] v[i]).0 == ids[i] && *v[i].1 == m[ids[i]]
}

/// The schemes whose number has tens digit `tens`.
pub open spec fn tens_filter(tens: u8) -> spec_fn(u8, Scheme) -> bool {
    |k: u8, s: Scheme| k / 10 == tens
}

/// The schemes whose pinyin initials start with `prefix`.
pub open spec fn spell_filter(prefix: Seq<char>) -> spec_fn(u8, Scheme) -> bool {
    |k: u8, s: Scheme| prefix.is_prefix_of(spell_of(s.name@))
}

/// Every scheme.
pub open spec fn any_filter() -> spec_fn(u8, Scheme) -> bool {
    |k: u8, s: Scheme| true
}

/// The smallest scheme number of `m`, if any.
pub open spec fn is_front(m: Map<u8, Scheme>, r: Option<u8>) -> bool {
    match r {
        Some(k) => m.contains_key(k) && forall|j: u8| #[trigger] m.contains_key(j) ==> k <= j,
        None => m.dom().is_empty(),
    }
}

/// The active number after removing `id` from `old`: unchanged unless the
/// active scheme itself was removed, then the smallest number left, or 0.
pub open spec fn active_after_remove(old: SchemeTable, id: u8, new_schemes: Map<u8, Scheme>, r: u8) -> bool {
    if old.active == id {
        if new_schemes.dom().is_empty() {
            r == 0
        } else {
            is_front(new_schemes, Some(r))
        }
    } else {
        r == old.active
    }
}

/// The map built by inserting `entries` in order (later entries win).
pub open spec fn map_of_entries(entries: Seq<(u8, Scheme)>) -> Map<u8, Scheme>
    decreases entries.len(),
{
    if entries.len() == 0 {
        Map::empty()
    } else {
        map_of_entries(entries.drop_last()).insert(entries.last().0, entries.last().1)
    }
}

/// Which schemes a listing keeps.
enum Selection<'a> {
    All,
    Tens(u8),
    SpellPrefix(&'a str),
}

impl<'a> Selection<'a> {
    spec fn keep(&self) -> spec_fn(u8, Scheme) -> bool {
        match *self {
            Selection::All => any_filter(),
            Selection::Tens(t) => tens_filter(t),
            Selection::SpellPrefix(p) => spell_filter(p@),
        }
    }

    fn accepts(&self, id: u8, s: &Scheme) -> (r: bool)
        ensures
            r == (self.keep())(id, *s),
    {
        match self {
            Selection::All => true,
            Selection::Tens(t) => id / 10 == *t,
            Selection::SpellPrefix(p) => {
                let spell = s.spell();
                is_prefix_str(p, spell.as_str())
            },
        }
    }
}

/// Whether scheme `a` of `t` can be renumbered `b`: `a` is used, `b` is not.
pub open spec fn can_rename(t: SchemeTable, a: u8, b: u8) -> bool {
    a != b && t.schemes.contains_key(a) && !t.schemes.contains_key(b)
}

/// `t` with scheme `a` renumbered `b`; the active number follows the scheme.
pub open spec fn rename_table(t: SchemeTable, a: u8, b: u8) -> SchemeTable {
    SchemeTable {
        active: if t.active == a { b } else { t.active },
        schemes: t.schemes.remove(a).insert(b, t.schemes[a]),
    }
}

/// The entries `(number, scheme)` of `m` for the numbers `ids`, in that order.
pub open spec fn entries_of(m: Map<u8, Scheme>, ids: Seq<u8>) -> Seq<(u8, Scheme)> {
    ids.map_values(|k: u8| (k, m[k]))
}

/// The set of schemes and the active scheme number.
pub struct SchemeManager {
    active: u8,
    schemes: BTreeMap<u8, Scheme>,
}

impl View for SchemeManager {
    type V = SchemeTable;

    closed spec fn view(&self) -> SchemeTable {
        SchemeTable { active: self.active, schemes: self.schemes@ }
    }
}

/// Trusted: a mutable reference to the scheme stored under `id`.
///
/// Calls `BTreeMap::get_mut`, documented to return a mutable reference to the
/// value of the key; writing through it changes that value and nothing else.
#[verifier::external_body]
fn slot_mut(schemes: &mut BTreeMap<u8, Scheme>, id: u8) -> (r: &mut Scheme)
    requires
        old(schemes)@.contains_key(id),
    ensures
        *r == old(schemes)@[id],
        final(schemes)@ == old(schemes)@.insert(id, *final(r)),
{
    schemes.get_mut(&id).unwrap()
}

impl SchemeManager {
    /// An empty set of schemes with active number 0.
    pub fn new() -> (r: Self)
        ensures
            r@.active == 0,
            r@.schemes == Map::<u8, Scheme>::empty(),
    {
        SchemeManager { active: 0, schemes: BTreeMap::new() }
    }

    /// Builds the set from stored parts; a later entry for a number replaces an earlier one.
    pub fn from_parts(active: u8, entries: Vec<(u8, Scheme)>) -> (r: Self)
        ensures
            r@.active == active,
            r@.schemes == map_of_entries(entries@),
    {
        let mut schemes: BTreeMap<u8, Scheme> = BTreeMap::new();
        let mut rest = entries;
        let ghost all = rest@;
        let ghost mut done: int = 0;
        while rest.len() > 0
            invariant
                0 <= done <= all.len(),
                rest@ == all.skip(done),
                schemes@ == map_of_entries(all.take(done)),
            decreases rest.len(),
        {
            let (k, v) = rest.remove(0);
            schemes.insert(k, v);
            proof {
                assert(all.take(done + 1).drop_last() =~= all.take(done));
                assert(all.take(done + 1).last() == all[done]);
                done = done + 1;
                assert(rest@ =~= all.skip(done));
            }
        }
        assert(all.take(done) =~= all);
        SchemeManager { active, schemes }
    }

    /// The scheme numbered `id`.
    pub fn get(&self, id: u8) -> (r: Option<&Scheme>)
        ensures
            match r {
                Some(s) => self@.schemes.contains_key(id) && *s == self@.schemes[id],
                None => !self@.schemes.contains_key(id),
            },
    {
        self.schemes.get(&id)
    }

    /// Whether a scheme is numbered `id`.
    pub fn contains(&self, id: u8) -> (r: bool)
        ensures
            r == self@.schemes.contains_key(id),
    {
        self.schemes.contains_key(&id)
    }

    /// The active scheme number.
    pub fn active(&self) -> (r: u8)
        ensures
            r == self@.active,
    {
        self.active
    }

    /// Whether there is no scheme.
    pub fn is_empty(&self) -> (r: bool)
        ensures
            r == self@.schemes.dom().is_empty(),
    {
        self.schemes.is_empty()
    }

    /// The number of schemes (the set of numbers in use is finite).
    pub fn len(&self) -> (r: usize)
        ensures
            self@.schemes.dom().finite(),
            r == self@.schemes.dom().len(),
    {
        self.schemes.len()
    }

    /// The smallest scheme number.
    pub fn front_id(&self) -> (r: Option<u8>)
        ensures
            is_front(self@.schemes, r),
    {
        let mut i: u16 = 0;
        while i < 256
            invariant
                i <= 256,
                forall|j: u8| j < i ==> !self@.schemes.contains_key(j),
            decreases 256 - i,
        {
            if self.schemes.contains_key(&(i as u8)) {
                return Some(i as u8);
            }
            i = i + 1;
        }
        assert(self@.schemes.dom() =~= Set::<u8>::empty());
        None
    }

    /// The smallest unused number below 100, or `None` when 0-99 are all used.
    pub fn blank_id(&self) -> (r: Option<u8>)
        ensures
            match r {
                Some(b) => b < SCHEME_SLOTS && !self@.schemes.contains_key(b) && forall|j: u8|
                    j < b ==> #[trigger] self@.schemes.contains_key(j),
                None => forall|j: u8| j < SCHEME_SLOTS ==> #[trigger] self@.schemes.contains_key(j),
            },
    {
        let mut i: u8 = 0;
        while i < SCHEME_SLOTS
            invariant
                i <= SCHEME_SLOTS,
                forall|j: u8| j < i ==> #[trigger] self@.schemes.contains_key(j),
            decreases SCHEME_SLOTS - i,
        {
            if !self.schemes.contains_key(&i) {
                return Some(i);
            }
            i = i + 1;
        }
        None
    }

    /// The schemes that `sel` keeps, in increasing number order.
    fn select<'a>(&'a self, sel: &Selection) -> (r: Vec<(u8, &'a Scheme)>)
        ensures
            lists_schemes(r@, self@.schemes, matching_ids(self@.schemes, sel.keep())),
    {
        let mut out: Vec<(u8, &'a Scheme)> = Vec::new();
        let mut i: u16 = 0;
        while i < 256
            invariant
                i <= 256,
                lists_schemes(out@, self@.schemes, matching_ids_below(self@.schemes, sel.keep(), i as int)),
            decreases 256 - i,
        {
            let k = i as u8;
            match self.schemes.get(&k) {
                Some(s) => {
                    if sel.accepts(k, s) {
                        out.push((k, s));
                    }
                },
                None => {},
            }
            i = i + 1;
        }
        out
    }

    /// Every scheme, in increasing number order.
    pub fn list(&self) -> (r: Vec<(u8, &Scheme)>)
        ensures
            lists_schemes(r@, self@.schemes, matching_ids(self@.schemes, any_filter())),
    {
        self.select(&Selection::All)
    }

    /// Adds a blank scheme numbered `id` unless one exists, and hands it out for editing.
    pub fn append(&mut self, id: u8) -> (r: &mut Scheme)
        ensures
            old(self)@.schemes.contains_key(id) ==> *r == old(self)@.schemes[id],
            !old(self)@.schemes.contains_key(id) ==> r.is_blank(),
            final(self)@.schemes == old(self)@.schemes.insert(id, *final(r)),
            final(self)@.active == old(self)@.active,
    {
        if !self.schemes.contains_key(&id) {
            self.schemes.insert(id, Scheme::default());
        }
        slot_mut(&mut self.schemes, id)
    }

    /// Stores `scheme` under `id`, replacing any scheme there.
    pub fn update(&mut self, id: u8, scheme: Scheme)
        ensures
            final(self)@.schemes == old(self)@.schemes.insert(id, scheme),
            final(self)@.active == old(self)@.active,
    {
        self.schemes.insert(id, scheme);
    }

    /// Deletes the scheme numbered `id`; `true` when there was one. When the
    /// active scheme is deleted, the smallest remaining number (or 0) becomes active.
    pub fn remove(&mut self, id: u8) -> (r: bool)
        ensures
            r == old(self)@.schemes.contains_key(id),
            final(self)@.schemes == old(self)@.schemes.remove(id),
            r ==> active_after_remove(old(self)@, id, final(self)@.schemes, final(self)@.active),
            !r ==> final(self)@.active == old(self)@.active,
    {
        let existed = match self.schemes.remove(&id) {
            Some(_) => true,
            None => false,
        };
        if existed && self.active == id {
            self.active = match self.front_id() {
                Some(f) => f,
                None => 0,
            };
        }
        existed
    }

    /// Moves the scheme numbered `old_id` to the unused number `new_id`; the
    /// active number follows it. Fails (and changes nothing) when the numbers
    /// are equal, `old_id` is unused or `new_id` is used.
    pub fn rename(&mut self, old_id: u8, new_id: u8) -> (r: bool)
        ensures
            r == can_rename(old(self)@, old_id, new_id),
            r ==> final(self)@ == rename_table(old(self)@, old_id, new_id),
            !r ==> final(self)@ == old(self)@,
    {
        if old_id == new_id || !self.contains(old_id) || self.contains(new_id) {
            return false;
        }
        match self.schemes.remove(&old_id) {
            Some(scheme) => {
                self.schemes.insert(new_id, scheme);
                if self.active == old_id {
                    self.active = new_id;
                }
                true
            },
            None => false,
        }
    }

    /// Makes the scheme numbered `id` active; `false` (and no change) when there is none.
    pub fn set_active(&mut self, id: u8) -> (r: bool)
        ensures
            r == old(self)@.schemes.contains_key(id),
            final(self)@.schemes == old(self)@.schemes,
            final(self)@.active == (if r {
                id
            } else {
                old(self)@.active
            }),
    {
        if self.contains(id) {
            self.active = id;
            true
        } else {
            false
        }
    }

    /// The schemes whose number has tens digit `tens`, in increasing number order.
    pub fn find_by_tens(&self, tens: u8) -> (r: Vec<(u8, &Scheme)>)
        ensures
            lists_schemes(r@, self@.schemes, matching_ids(self@.schemes, tens_filter(tens))),
    {
        self.select(&Selection::Tens(tens))
    }

    /// The schemes whose pinyin initials start with `prefix` exactly, in
    /// increasing number order.
    pub fn find_by_spell_prefix(&self, prefix: &str) -> (r: Vec<(u8, &Scheme)>)
        ensures
            lists_schemes(r@, self@.schemes, matching_ids(self@.schemes, spell_filter(prefix@))),
    {
        self.select(&Selection::SpellPrefix(prefix))
    }

    /// The schemes whose pinyin initials start with the upper-case form of
    /// `spell`, in increasing number order. For an ASCII query the
    /// upper-case form is the query with `a`-`z` made `A`-`Z`.
    pub fn find_by_spell(&self, spell: &str) -> (r: Vec<(u8, &Scheme)>)
        ensures
            lists_schemes(
                r@,
                self@.schemes,
                matching_ids(self@.schemes, spell_filter(uppercase_of(spell@))),
            ),
            is_ascii_text(spell@) ==> lists_schemes(
                r@,
                self@.schemes,
                matching_ids(self@.schemes, spell_filter(ascii_upper_text(spell@))),
            ),
            forall|i: int| 0 <= i < r@.len() ==> {
                let k = (#[trigger] r@[i]).0;
                &&& self@.schemes.contains_key(k)
                &&& *r@[i].1 == self@.schemes[k]
                &&& uppercase_of(spell@).is_prefix_of(spell_of(self@.schemes[k].name@))
            },
            forall|k: u8|
                self@.schemes.contains_key(k) && uppercase_of(spell@).is_prefix_of(spell_of(self@.schemes[k].name@))
                    ==> exists|i: int| 0 <= i < r@.len() && (#[trigger] r@[i]).0 == k,
    {
        let upper = to_upper(spell);
        let r = self.find_by_spell_prefix(upper.as_str());
        proof {
            let q = uppercase_of(spell@);
            let ids = matching_ids(self@.schemes, spell_filter(q));
            lemma_spell_search_is_prefix(self@.schemes, q);
            assert forall|k: u8|
                self@.schemes.contains_key(k) && q.is_prefix_of(spell_of(self@.schemes[k].name@))
                implies exists|i: int| 0 <= i < r@.len() && (#[trigger] r@[i]).0 == k by {
                assert(ids.contains(k));
                let j = choose|j: int| 0 <= j < ids.len() && ids[j] == k;
                assert(r@[j].0 == ids[j]);
            }
            assert forall|i: int| 0 <= i < r@.len() implies {
                let k = (#[trigger] r@[i]).0;
                &&& self@.schemes.contains_key(k)
                &&& *r@[i].1 == self@.schemes[k]
                &&& q.is_prefix_of(spell_of(self@.schemes[k].name@))
            } by {
                assert(r@[i].0 == ids[i]);
            }
        }
        r
    }
}


/// The ids listed for `keep` below `n` are the accepted schemes' ids below
/// `n`, each once, in increasing order.
proof fn lemma_matching_ids_below(m: Map<u8, Scheme>, keep: spec_fn(u8, Scheme) -> bool, n: int)
    requires
        0 <= n <= 256,
    ensures
        forall|i: int| 0 <= i < matching_ids_below(m, keep, n).len() ==> {
            let k = #[trigger] matching_ids_below(m, keep, n)[i];
            m.contains_key(k) && keep(k, m[k]) && k < n
        },
        forall|i: int, j: int|
            0 <= i < j < matching_ids_below(m, keep, n).len() ==> #[trigger] matching_ids_below(m, keep, n)[i]
                < #[trigger] matching_ids_below(m, keep, n)[j],
        forall|k: u8|
            k < n && m.contains_key(k) && keep(k, m[k]) ==> #[trigger] matching_ids_below(m, keep, n).contains(k),
    decreases n,
{
    if n > 0 {
        lemma_matching_ids_below(m, keep, n - 1);
        let before = matching_ids_below(m, keep, n - 1);
        let k = (n - 1) as u8;
        if m.contains_key(k) && keep(k, m[k]) {
            let now = before.push(k);
            assert forall|j: u8| j < n && m.contains_key(j) && keep(j, m[j]) implies now.contains(j) by {
                if j == k {
                    assert(now[now.len() - 1] == j);
                } else {
                    assert(before.contains(j));
                    let w = choose|w: int| 0 <= w < before.len() && before[w] == j;
                    assert(now[w] == j);
                }
            }
        }
    }
}

/// Listing law: `matching_ids(m, keep)` holds the number of every scheme of
/// `m` that `keep` accepts, each exactly once, and no other, in increasing order.
pub proof fn lemma_matching_ids(m: Map<u8, Scheme>, keep: spec_fn(u8, Scheme) -> bool)
    ensures
        forall|i: int| 0 <= i < matching_ids(m, keep).len() ==> {
            let k = #[trigger] matching_ids(m, keep)[i];
            m.contains_key(k) && keep(k, m[k])
        },
        forall|i: int, j: int|
            0 <= i < j < matching_ids(m, keep).len() ==> #[trigger] matching_ids(m, keep)[i]
                < #[trigger] matching_ids(m, keep)[j],
        forall|k: u8| m.contains_key(k) && keep(k, m[k]) ==> #[trigger] matching_ids(m, keep).contains(k),
{
    lemma_matching_ids_below(m, keep, 256);
}

/// Renaming law: renumbering a scheme from `a` to `b` and then back from `b`
/// to `a` restores the schemes, and the active number unless it was `b`
/// (an unused number, which the first step makes the renamed scheme's).
pub proof fn lemma_rename_round_trip(t: SchemeTable, a: u8, b: u8)
    requires
        can_rename(t, a, b),
        t.active != b,
    ensures
        can_rename(rename_table(t, a, b), b, a),
        rename_table(rename_table(t, a, b), b, a) == t,
{
    let t1 = rename_table(t, a, b);
    let t2 = rename_table(t1, b, a);
    assert(t2.schemes =~= t.schemes);
}

/// Read-after-write law: after storing `s` under `id`, the scheme under `id`
/// is `s`, and every other number keeps its scheme (or its absence).
pub proof fn lemma_update_then_get(t: SchemeTable, id: u8, s: Scheme, other: u8)
    requires
        other != id,
    ensures
        t.schemes.insert(id, s).contains_key(id),
        t.schemes.insert(id, s)[id] == s,
        t.schemes.insert(id, s).contains_key(other) == t.schemes.contains_key(other),
        t.schemes.contains_key(other) ==> t.schemes.insert(id, s)[other] == t.schemes[other],
{
}

proof fn lemma_reload_below(m: Map<u8, Scheme>, n: int)
    requires
        0 <= n <= 256,
    ensures
        map_of_entries(entries_of(m, matching_ids_below(m, any_filter(), n)))
            == m.restrict(Set::new(|k: u8| k < n && m.contains_key(k))),
    decreases n,
{
    let below = Set::new(|k: u8| k < n && m.contains_key(k));
    if n == 0 {
        assert(m.restrict(below) =~= Map::empty());
    } else {
        lemma_reload_below(m, n - 1);
        let ids = matching_ids_below(m, any_filter(), n - 1);
        let k = (n - 1) as u8;
        let prev = Set::new(|j: u8| j < n - 1 && m.contains_key(j));
        if m.contains_key(k) {
            let e = entries_of(m, ids.push(k));
            assert(e.drop_last() =~= entries_of(m, ids));
            assert(m.restrict(prev).insert(k, m[k]) =~= m.restrict(below));
        } else {
            assert(m.restrict(prev) =~= m.restrict(below));
        }
    }
}

/// Storage law: rebuilding the schemes from the listing of all of them (what
/// is stored) gives back the same schemes.
pub proof fn lemma_reload(m: Map<u8, Scheme>)
    ensures
        map_of_entries(entries_of(m, matching_ids(m, any_filter()))) == m,
{
    lemma_reload_below(m, 256);
    assert(m.restrict(Set::new(|k: u8| k < 256 && m.contains_key(k))) =~= m);
}

} // verus!

verus! {

/// Search by pinyin initials ignores the case of an ASCII query: the query
/// and its lower-case form find the same schemes.
pub proof fn lemma_spell_search_ignores_case(m: Map<u8, Scheme>, q: Seq<char>)
    requires
        is_ascii_text(q),
    ensures
        is_ascii_text(ascii_lower_text(q)),
        matching_ids(m, spell_filter(ascii_upper_text(ascii_lower_text(q)))) == matching_ids(
            m,
            spell_filter(ascii_upper_text(q)),
        ),
{
    let l = ascii_lower_text(q);
    assert forall|i: int| 0 <= i < l.len() implies (#[trigger] l[i] as u32) < 128 by {
        assert((q[i] as u32) < 128);
    }
    assert(ascii_upper_text(l) =~= ascii_upper_text(q));
}

/// The empty query finds every scheme.
pub proof fn lemma_empty_spell_finds_all(m: Map<u8, Scheme>)
    ensures
        is_ascii_text(Seq::<char>::empty()),
        matching_ids(m, spell_filter(ascii_upper_text(Seq::<char>::empty()))) == matching_ids(m, any_filter()),
{
    assert(ascii_upper_text(Seq::<char>::empty()) =~= Seq::<char>::empty());
    assert(spell_filter(Seq::<char>::empty()) =~= any_filter());
}

/// Prefix search law: the numbers a pinyin search for `q` lists are exactly
/// the schemes whose initials start with `q` (a match elsewhere in the
/// initials does not count), each once, in increasing order.
pub proof fn lemma_spell_search_is_prefix(m: Map<u8, Scheme>, q: Seq<char>)
    ensures
        forall|i: int| 0 <= i < matching_ids(m, spell_filter(q)).len() ==> {
            let k = #[trigger] matching_ids(m, spell_filter(q))[i];
            m.contains_key(k) && q.is_prefix_of(spell_of(m[k].name@))
        },
        forall|k: u8| m.contains_key(k) && q.is_prefix_of(spell_of(m[k].name@)) ==> #[trigger] matching_ids(
            m,
            spell_filter(q),
        ).contains(k),
        forall|i: int, j: int|
            0 <= i < j < matching_ids(m, spell_filter(q)).len() ==> #[trigger] matching_ids(m, spell_filter(q))[i]
                < #[trigger] matching_ids(m, spell_filter(q))[j],
{
    lemma_matching_ids(m, spell_filter(q));
}

} // verus!
