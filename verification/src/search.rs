//! Pinyin-initial search keys: every CJK ideograph of a text is mapped to the
//! upper-case initial of its pinyin reading, every other character is dropped.

use vstd::prelude::*;
use crate::pinyin_table::{CJK_FIRST, CJK_LAST, ROW_LEN, PINYIN_0, PINYIN_1, PINYIN_2, PINYIN_3, PINYIN_4, PINYIN_5};
use crate::pinyin_table::{lemma_row_0, lemma_row_1, lemma_row_2, lemma_row_3, lemma_row_4, lemma_row_5, upper_letters};
use crate::text::push_char;
use vstd::string::{StrSliceExecFns, StringSliceAdditionalSpecFns, is_ascii, is_ascii_spec_bytes};

verus! {

/// The bytes of one row of the initials table (empty past the last row).
pub open spec fn row_bytes(row: int) -> Seq<u8> {
    if row == 0 {
        PINYIN_0.spec_bytes()
    } else if row == 1 {
        PINYIN_1.spec_bytes()
    } else if row == 2 {
        PINYIN_2.spec_bytes()
    } else if row == 3 {
        PINYIN_3.spec_bytes()
    } else if row == 4 {
        PINYIN_4.spec_bytes()
    } else if row == 5 {
        PINYIN_5.spec_bytes()
    } else {
        Seq::empty()
    }
}

/// The table entry at offset `idx` from `CJK_FIRST`, if the table has one.
pub open spec fn table_entry(idx: int) -> Option<u8> {
    let row = row_bytes(idx / (ROW_LEN as int));
    let off = idx % (ROW_LEN as int);
    if off < row.len() {
        Some(row[off])
    } else {
        None
    }
}

/// The pinyin initial of one character: the table entry of a CJK ideograph
/// in `CJK_FIRST..=CJK_LAST`, and nothing for any other character.
pub open spec fn pinyin_initial(c: char) -> Option<char> {
    let code = c as int;
    if CJK_FIRST <= code <= CJK_LAST {
        match table_entry(code - CJK_FIRST) {
            Some(b) => Some(b as char),
            None => None,
        }
    } else {
        None
    }
}

/// The initials of a whole text, in text order.
pub open spec fn spell_of(text: Seq<char>) -> Seq<char>
    decreases text.len(),
{
    if text.len() == 0 {
        Seq::empty()
    } else {
        let rest = spell_of(text.drop_last());
        match pinyin_initial(text.last()) {
            Some(c) => rest.push(c),
            None => rest,
        }
    }
}

/// Pinyin initial of a single character (`None` outside the CJK block).
pub fn pinyin_first(c: char) -> (r: Option<char>)
    ensures
        r == pinyin_initial(c),
{
    let code = c as u32;
    if CJK_FIRST <= code && code <= CJK_LAST {
        let idx = code - CJK_FIRST;
        let row = idx / ROW_LEN;
        let off = (idx % ROW_LEN) as usize;
        let bytes = if row == 0 {
            PINYIN_0.as_bytes()
        } else if row == 1 {
            PINYIN_1.as_bytes()
        } else if row == 2 {
            PINYIN_2.as_bytes()
        } else if row == 3 {
            PINYIN_3.as_bytes()
        } else if row == 4 {
            PINYIN_4.as_bytes()
        } else {
            PINYIN_5.as_bytes()
        };
        assert(row <= 5) by {
            assert(idx <= CJK_LAST - CJK_FIRST);
        };
        if off < bytes.len() {
            Some(bytes[off] as char)
        } else {
            None
        }
    } else {
        None
    }
}

/// Pinyin initials of `text`; characters outside the CJK block are ignored.
pub fn to_spell(text: &str) -> (r: String)
    ensures
        r@ == spell_of(text@),
{
    let mut out = String::new();
    let n = text.unicode_len();
    let mut i: usize = 0;
    while i < n
        invariant
            n == text@.len(),
            i <= n,
            out@ == spell_of(text@.take(i as int)),
        decreases n - i,
    {
        let c = text.get_char(i);
        assert(text@.take(i + 1).drop_last() =~= text@.take(i as int));
        match pinyin_first(c) {
            Some(p) => push_char(&mut out, p),
            None => {},
        }
        i = i + 1;
    }
    assert(text@.take(n as int) =~= text@);
    out
}

} // verus!

verus! {

/// Concatenation law: the initials of a concatenation are the initials of
/// each part, one after the other.
pub proof fn lemma_spell_of_concat(a: Seq<char>, b: Seq<char>)
    ensures
        spell_of(a + b) == spell_of(a) + spell_of(b),
    decreases b.len(),
{
    if b.len() == 0 {
        assert(a + b =~= a);
        assert(spell_of(a) + spell_of(b) =~= spell_of(a));
    } else {
        lemma_spell_of_concat(a, b.drop_last());
        assert((a + b).drop_last() =~= a + b.drop_last());
        assert((a + b).last() == b.last());
        match pinyin_initial(b.last()) {
            Some(c) => {
                assert(spell_of(a) + spell_of(b.drop_last()).push(c) =~= (spell_of(a) + spell_of(
                    b.drop_last(),
                )).push(c));
            },
            None => {},
        }
    }
}

/// A text without CJK ideographs has no initials (non-CJK characters are ignored).
pub proof fn lemma_spell_of_non_cjk(text: Seq<char>)
    requires
        forall|i: int| 0 <= i < text.len() ==> !(CJK_FIRST <= #[trigger] (text[i] as int) <= CJK_LAST),
    ensures
        spell_of(text) == Seq::<char>::empty(),
    decreases text.len(),
{
    if text.len() > 0 {
        let rest = text.drop_last();
        assert forall|i: int| 0 <= i < rest.len() implies !(CJK_FIRST <= #[trigger] (rest[i] as int) <= CJK_LAST) by {
            assert(rest[i] == text[i]);
        }
        lemma_spell_of_non_cjk(rest);
        assert(text.last() == text[text.len() - 1]);
    }
}

/// Every initial comes from a CJK ideograph: the initials are never longer than the text.
pub proof fn lemma_spell_of_len(text: Seq<char>)
    ensures
        spell_of(text).len() <= text.len(),
    decreases text.len(),
{
    if text.len() > 0 {
        lemma_spell_of_len(text.drop_last());
    }
}

} // verus!

verus! {

/// The number of CJK ideographs (`CJK_FIRST..=CJK_LAST`) in a text.
pub open spec fn cjk_count(text: Seq<char>) -> nat
    decreases text.len(),
{
    if text.len() == 0 {
        0
    } else {
        let last = text.last() as int;
        cjk_count(text.drop_last()) + if CJK_FIRST <= last <= CJK_LAST { 1nat } else { 0nat }
    }
}

/// The bytes of a row of letters are those letters, one byte each.
proof fn lemma_row_bytes_letters(s: &str)
    requires
        upper_letters(s@),
    ensures
        s.spec_bytes().len() == s@.len(),
        forall|i: int| 0 <= i < s@.len() ==> 65 <= #[trigger] s.spec_bytes()[i] <= 90,
{
    assert(is_ascii(s)) by {
        assert forall|i: int| 0 <= i < s@.len() implies '\0' <= #[trigger] s@[i] <= '\u{7f}' by {
            assert('A' <= s@[i] <= 'Z');
        }
    }
    is_ascii_spec_bytes(s);
    assert forall|i: int| 0 <= i < s@.len() implies 65 <= #[trigger] s.spec_bytes()[i] <= 90 by {
        assert('A' <= s@[i] <= 'Z');
    }
}

/// The table has an entry for every ideograph of the block, and every entry
/// is an upper-case letter.
proof fn lemma_table_entry(idx: int)
    requires
        0 <= idx <= CJK_LAST - CJK_FIRST,
    ensures
        table_entry(idx) is Some,
        65 <= table_entry(idx)->0 <= 90,
{
    let row = idx / (ROW_LEN as int);
    let off = idx % (ROW_LEN as int);
    if row == 0 {
        lemma_row_0();
        lemma_row_bytes_letters(PINYIN_0);
    } else if row == 1 {
        lemma_row_1();
        lemma_row_bytes_letters(PINYIN_1);
    } else if row == 2 {
        lemma_row_2();
        lemma_row_bytes_letters(PINYIN_2);
    } else if row == 3 {
        lemma_row_3();
        lemma_row_bytes_letters(PINYIN_3);
    } else if row == 4 {
        lemma_row_4();
        lemma_row_bytes_letters(PINYIN_4);
    } else {
        lemma_row_5();
        lemma_row_bytes_letters(PINYIN_5);
    }
}

/// Exactly the ideographs of the block have an initial, and every initial is
/// an upper-case letter.
pub proof fn lemma_pinyin_initial(c: char)
    ensures
        pinyin_initial(c) is Some <==> CJK_FIRST <= c as int <= CJK_LAST,
        pinyin_initial(c) is Some ==> 'A' <= pinyin_initial(c)->0 <= 'Z',
{
    let code = c as int;
    if CJK_FIRST <= code <= CJK_LAST {
        lemma_table_entry(code - CJK_FIRST);
    }
}

/// The initials of a text have one letter per CJK ideograph of the text
/// (all other characters are ignored), and each is an upper-case letter.
pub proof fn lemma_spell_of_counts_cjk(text: Seq<char>)
    ensures
        spell_of(text).len() == cjk_count(text),
        upper_letters(spell_of(text)),
    decreases text.len(),
{
    if text.len() > 0 {
        lemma_spell_of_counts_cjk(text.drop_last());
        lemma_pinyin_initial(text.last());
    }
}

} // verus!
