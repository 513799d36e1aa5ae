//! Recovering an inning number from free text: an exact ordinal token
//! (`"1st"` through `"15th"`) wins, otherwise a whitespace token that reads
//! as a number and stands next to a token mentioning an inning.

use vstd::prelude::*;
use vstd::string::*;
use crate::text::{contains_ci, contains_sub, seq_views, str_contains};

verus! {

/// The ordinal token for inning `k`, `1 <= k <= 15`.
pub open spec fn ordinal_text(k: int) -> Seq<char> {
    if k == 1 {
        "1st"@
    } else if k == 2 {
        "2nd"@
    } else if k == 3 {
        "3rd"@
    } else if k == 4 {
        "4th"@
    } else if k == 5 {
        "5th"@
    } else if k == 6 {
        "6th"@
    } else if k == 7 {
        "7th"@
    } else if k == 8 {
        "8th"@
    } else if k == 9 {
        "9th"@
    } else if k == 10 {
        "10th"@
    } else if k == 11 {
        "11th"@
    } else if k == 12 {
        "12th"@
    } else if k == 13 {
        "13th"@
    } else if k == 14 {
        "14th"@
    } else {
        "15th"@
    }
}

/// The lowest `k` at or above the given one whose ordinal token occurs in
/// `text` (case-sensitively), up to the table's ceiling of fifteen.
pub open spec fn ordinal_from(text: Seq<char>, k: int) -> Option<u32>
    decreases 16 - k,
{
    if k < 1 || k > 15 {
        None
    } else if contains_sub(text, ordinal_text(k), false) {
        Some(k as u32)
    } else {
        ordinal_from(text, k + 1)
    }
}

/// First pass: the lowest inning whose ordinal token occurs in `text`.
pub open spec fn spec_find_ordinal(text: Seq<char>) -> Option<u32> {
    ordinal_from(text, 1)
}

fn ordinal_str(k: u32) -> (r: &'static str)
    requires
        1 <= k <= 15,
    ensures
        r@ == ordinal_text(k as int),
{
    match k {
        1 => "1st",
        2 => "2nd",
        3 => "3rd",
        4 => "4th",
        5 => "5th",
        6 => "6th",
        7 => "7th",
        8 => "8th",
        9 => "9th",
        10 => "10th",
        11 => "11th",
        12 => "12th",
        13 => "13th",
        14 => "14th",
        _ => "15th",
    }
}

/// First pass over the text: ascending ordinal table, first hit wins.
pub fn find_ordinal(text: &str) -> (r: Option<u32>)
    ensures
        r == spec_find_ordinal(text@),
{
    let mut k: u32 = 1;
    while k <= 15
        invariant
            1 <= k <= 16,
            spec_find_ordinal(text@) == ordinal_from(text@, k as int),
        decreases 16 - k,
    {
        if str_contains(text, ordinal_str(k), false) {
            return Some(k);
        }
        k += 1;
    }
    None
}

/// ASCII whitespace, the separators tokenization splits on.
pub open spec fn is_space(c: char) -> bool {
    c == ' ' || c == '\t' || c == '\n' || c == '\r'
}

/// The whitespace tokens of `s` after the partial token `cur` collected so
/// far: `cur` closes at the next separator or at the end.
pub open spec fn tok_rec(s: Seq<char>, cur: Seq<char>) -> Seq<Seq<char>>
    decreases s.len(),
{
    if s.len() == 0 {
        if cur.len() == 0 {
            Seq::empty()
        } else {
            seq![cur]
        }
    } else if is_space(s[0]) {
        if cur.len() == 0 {
            tok_rec(s.drop_first(), Seq::empty())
        } else {
            seq![cur] + tok_rec(s.drop_first(), Seq::empty())
        }
    } else {
        tok_rec(s.drop_first(), cur.push(s[0]))
    }
}

/// The maximal runs of non-whitespace characters of `s`, in order.
pub open spec fn spec_tokens(s: Seq<char>) -> Seq<Seq<char>> {
    tok_rec(s, Seq::empty())
}

fn is_space_exec(c: char) -> (r: bool)
    ensures
        r == is_space(c),
{
    c == ' ' || c == '\t' || c == '\n' || c == '\r'
}

/// Splits `text` into its whitespace-separated tokens.
pub fn tokenize(text: &str) -> (r: Vec<String>)
    ensures
        seq_views(r@) == spec_tokens(text@),
{
    let n = text.unicode_len();
    let mut out: Vec<String> = Vec::new();
    let mut start: usize = 0;
    let mut i: usize = 0;
    proof {
        assert(text@.skip(0) =~= text@);
        assert(text@.subrange(0, 0) =~= Seq::<char>::empty());
        assert(seq_views(out@) =~= Seq::<Seq<char>>::empty());
        assert(seq_views(out@) + tok_rec(text@, Seq::empty()) =~= tok_rec(text@, Seq::empty()));
    }
    while i < n
        invariant
            n == text@.len(),
            0 <= start <= i <= n,
            spec_tokens(text@) == seq_views(out@) + tok_rec(
                text@.skip(i as int),
                text@.subrange(start as int, i as int),
            ),
        decreases n - i,
    {
        let ghost rest = text@.skip(i as int);
        let ghost cur = text@.subrange(start as int, i as int);
        proof {
            assert(rest.len() == n - i);
            assert(rest[0] == text@[i as int]);
            assert(rest.drop_first() =~= text@.skip(i as int + 1));
        }
        let c = text.get_char(i);
        if is_space_exec(c) {
            if start < i {
                let token = String::from_str(text.substring_char(start, i));
                proof {
                    assert(seq_views(out@.push(token)) =~= seq_views(out@) + seq![cur]);
                    assert(seq_views(out@) + (seq![cur] + tok_rec(rest.drop_first(), Seq::empty()))
                        =~= (seq_views(out@) + seq![cur]) + tok_rec(
                        rest.drop_first(),
                        Seq::empty(),
                    ));
                }
                out.push(token);
            }
            start = i + 1;
            proof {
                assert(text@.subrange(start as int, start as int) =~= Seq::<char>::empty());
            }
        } else {
            proof {
                assert(cur.push(text@[i as int]) =~= text@.subrange(start as int, i as int + 1));
            }
        }
        i += 1;
    }
    proof {
        assert(text@.skip(n as int) =~= Seq::<char>::empty());
    }
    if start < n {
        let token = String::from_str(text.substring_char(start, n));
        proof {
            let ghost cur = text@.subrange(start as int, n as int);
            assert(seq_views(out@.push(token)) =~= seq_views(out@) + seq![cur]);
        }
        out.push(token);
    }
    out
}

/// `c` is a decimal digit.
pub open spec fn is_digit(c: char) -> bool {
    48 <= c as int <= 57
}

/// The value of a decimal digit.
pub open spec fn digit_val(c: char) -> int {
    c as int - 48
}

/// Every character of `t` is a decimal digit.
pub open spec fn all_digits(t: Seq<char>) -> bool {
    forall|j: int| 0 <= j < t.len() ==> is_digit(#[trigger] t[j])
}

/// The number the characters of `t` spell in decimal (junk characters give
/// a meaningless value; callers guard with `all_digits`).
pub open spec fn digits_val(t: Seq<char>) -> int
    decreases t.len(),
{
    if t.len() == 0 {
        0
    } else {
        digits_val(t.drop_last()) * 10 + digit_val(t.last())
    }
}

/// `t` reads as an unsigned 32-bit number: nonempty, all digits, in range.
pub open spec fn spec_parse_u32(t: Seq<char>) -> Option<u32> {
    if t.len() > 0 && all_digits(t) && digits_val(t) <= u32::MAX {
        Some(digits_val(t) as u32)
    } else {
        None
    }
}

proof fn lemma_digits_val_nonneg(t: Seq<char>)
    requires
        all_digits(t),
    ensures
        digits_val(t) >= 0,
    decreases t.len(),
{
    if t.len() > 0 {
        assert(all_digits(t.drop_last()));
        lemma_digits_val_nonneg(t.drop_last());
    }
}

proof fn lemma_digits_val_prefix(t: Seq<char>, i: int)
    requires
        0 <= i <= t.len(),
        all_digits(t),
    ensures
        digits_val(t.take(i)) <= digits_val(t),
    decreases t.len() - i,
{
    if i < t.len() {
        assert(t.take(i + 1).drop_last() =~= t.take(i));
        assert(t.take(i + 1).last() == t[i]);
        assert(all_digits(t.take(i)));
        lemma_digits_val_nonneg(t.take(i));
        lemma_digits_val_prefix(t, i + 1);
    } else {
        assert(t.take(i) =~= t);
    }
}

/// Parses `t` as an unsigned 32-bit decimal number.
pub fn parse_u32(t: &str) -> (r: Option<u32>)
    ensures
        r == spec_parse_u32(t@),
{
    let n = t.unicode_len();
    if n == 0 {
        return None;
    }
    let mut acc: u32 = 0;
    let mut i: usize = 0;
    while i < n
        invariant
            n == t@.len(),
            0 < n,
            i <= n,
            all_digits(t@.take(i as int)),
            acc == digits_val(t@.take(i as int)),
        decreases n - i,
    {
        let ghost prefix = t@.take(i as int);
        proof {
            assert(t@.take(i as int + 1).drop_last() =~= prefix);
            assert(t@.take(i as int + 1).last() == t@[i as int]);
        }
        let c = t.get_char(i);
        let u = c as u32;
        if u < 48 || u > 57 {
            assert(!is_digit(t@[i as int]));
            assert(!all_digits(t@));
            return None;
        }
        let d = u - 48;
        if acc > (u32::MAX - d) / 10 {
            proof {
                assert(digits_val(t@.take(i as int + 1)) > u32::MAX);
                if all_digits(t@) {
                    lemma_digits_val_prefix(t@, i as int + 1);
                    assert(digits_val(t@) > u32::MAX);
                }
            }
            return None;
        }
        acc = acc * 10 + d;
        i += 1;
    }
    proof {
        assert(t@.take(n as int) =~= t@);
    }
    Some(acc)
}

/// A token next to position `i` mentions an inning (`"inning"` or its stem
/// `"inn"`, case-insensitively).
pub open spec fn neighbor_mentions_inning(toks: Seq<Seq<char>>, i: int) -> bool {
    ||| (i > 0 && (contains_ci(toks[i - 1], "inning"@) || contains_ci(toks[i - 1], "inn"@)))
    ||| (i + 1 < toks.len() && (contains_ci(toks[i + 1], "inning"@) || contains_ci(
        toks[i + 1],
        "inn"@,
    )))
}

/// Second pass from position `i`: the first token that reads as a number
/// and stands next to a token mentioning an inning.
pub open spec fn scan_from(toks: Seq<Seq<char>>, i: int) -> Option<u32>
    decreases toks.len() - i,
{
    if i < 0 || i >= toks.len() {
        None
    } else if spec_parse_u32(toks[i]) is Some && neighbor_mentions_inning(toks, i) {
        spec_parse_u32(toks[i])
    } else {
        scan_from(toks, i + 1)
    }
}

fn mentions_inning(tok: &String) -> (r: bool)
    ensures
        r == (contains_ci(tok@, "inning"@) || contains_ci(tok@, "inn"@)),
{
    str_contains(tok.as_str(), "inning", true) || str_contains(tok.as_str(), "inn", true)
}

fn scan_tokens(toks: &Vec<String>) -> (r: Option<u32>)
    ensures
        r == scan_from(seq_views(toks@), 0),
{
    let ghost views = seq_views(toks@);
    let mut i: usize = 0;
    while i < toks.len()
        invariant
            views == seq_views(toks@),
            views.len() == toks@.len(),
            i <= toks@.len(),
            scan_from(views, 0) == scan_from(views, i as int),
        decreases toks@.len() - i,
    {
        proof {
            assert(views[i as int] == toks@[i as int]@);
            assert(i > 0 ==> views[i as int - 1] == toks@[i as int - 1]@);
            assert(i + 1 < toks@.len() ==> views[i as int + 1] == toks@[i as int + 1]@);
        }
        let number = parse_u32(toks[i].as_str());
        if number.is_some() {
            let prev_hit = if i > 0 {
                mentions_inning(&toks[i - 1])
            } else {
                false
            };
            let next_hit = if i + 1 < toks.len() {
                mentions_inning(&toks[i + 1])
            } else {
                false
            };
            if prev_hit || next_hit {
                return number;
            }
        }
        i += 1;
    }
    None
}

/// The inning number `text` yields: an exact ordinal token `"1st"` through
/// `"15th"` (ascending table, first hit wins), else the first whitespace
/// token that reads as an unsigned number with a neighbour mentioning an
/// inning, else nothing. Absence is not an error.
pub open spec fn spec_extract_inning(text: Seq<char>) -> Option<u32> {
    match spec_find_ordinal(text) {
        Some(k) => Some(k),
        None => scan_from(spec_tokens(text), 0),
    }
}

/// Recovers an inning number from free text.
pub fn extract_inning(text: &str) -> (r: Option<u32>)
    ensures
        r == spec_extract_inning(text@),
{
    match find_ordinal(text) {
        Some(k) => Some(k),
        None => {
            let tokens = tokenize(text);
            scan_tokens(&tokens)
        },
    }
}

} // verus!
