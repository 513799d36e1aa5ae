//! Verified text helpers: ASCII-case-insensitive substring search and
//! equality, and rendering of an unsigned number as decimal digits.
//!
//! Case folding here is the ASCII one (`'A'..='Z'` map to `'a'..='z'`,
//! every other character is left alone). All the fixed tokens this library
//! ever searches for or compares against are plain ASCII, so this agrees
//! with any fuller Unicode folding on every input that can match at all.

use vstd::prelude::*;
use vstd::string::*;

verus! {

/// Code point of `c`, with an ASCII capital letter mapped to its
/// lower-case form.
pub open spec fn lower_code(c: char) -> int {
    if 65 <= c as int && c as int <= 90 {
        c as int + 32
    } else {
        c as int
    }
}

/// Two characters count as equal: exactly (`ci == false`) or up to ASCII
/// case (`ci == true`).
pub open spec fn chars_match(a: char, b: char, ci: bool) -> bool {
    if ci {
        lower_code(a) == lower_code(b)
    } else {
        a == b
    }
}

/// `needle` occurs in `hay` starting at position `i`.
pub open spec fn matches_at(hay: Seq<char>, needle: Seq<char>, i: int, ci: bool) -> bool {
    &&& 0 <= i
    &&& i + needle.len() <= hay.len()
    &&& forall|j: int| 0 <= j < needle.len() ==> chars_match(hay[i + j], #[trigger] needle[j], ci)
}

/// `needle` occurs somewhere in `hay`.
pub open spec fn contains_sub(hay: Seq<char>, needle: Seq<char>, ci: bool) -> bool {
    exists|i: int| matches_at(hay, needle, i, ci)
}

/// Case-insensitive containment, the form most contracts use.
pub open spec fn contains_ci(hay: Seq<char>, needle: Seq<char>) -> bool {
    contains_sub(hay, needle, true)
}

/// The two strings are equal up to ASCII case.
pub open spec fn eq_ci(a: Seq<char>, b: Seq<char>) -> bool {
    &&& a.len() == b.len()
    &&& forall|j: int| 0 <= j < b.len() ==> chars_match(a[j], #[trigger] b[j], true)
}

fn lower_code_of(c: char) -> (r: u32)
    ensures
        r == lower_code(c),
{
    let u = c as u32;
    if 65 <= u && u <= 90 {
        u + 32
    } else {
        u
    }
}

fn chars_eq(a: char, b: char, ci: bool) -> (r: bool)
    ensures
        r == chars_match(a, b, ci),
{
    if ci {
        lower_code_of(a) == lower_code_of(b)
    } else {
        a == b
    }
}

/// Naive substring search, exact or ASCII-case-insensitive.
pub fn str_contains(hay: &str, needle: &str, ci: bool) -> (r: bool)
    ensures
        r == contains_sub(hay@, needle@, ci),
{
    let hlen = hay.unicode_len();
    let nlen = needle.unicode_len();
    if nlen == 0 {
        assert(matches_at(hay@, needle@, 0, ci));
        return true;
    }
    if nlen > hlen {
        assert(forall|i: int| !matches_at(hay@, needle@, i, ci));
        return false;
    }
    let lim = hlen - nlen;
    let mut i: usize = 0;
    while i <= lim
        invariant
            hlen == hay@.len(),
            nlen == needle@.len(),
            0 < nlen <= hlen,
            lim == hlen - nlen,
            i <= lim + 1,
            forall|k: int| 0 <= k < i ==> !matches_at(hay@, needle@, k, ci),
        decreases lim + 1 - i,
    {
        let mut j: usize = 0;
        let mut ok: bool = true;
        while ok && j < nlen
            invariant
                hlen == hay@.len(),
                nlen == needle@.len(),
                i + nlen <= hlen,
                j <= nlen,
                ok ==> forall|k: int| 0 <= k < j ==> chars_match(hay@[i + k], #[trigger] needle@[k], ci),
                !ok ==> !matches_at(hay@, needle@, i as int, ci),
            decreases nlen - j, (if ok { 1int } else { 0int }),
        {
            if chars_eq(hay.get_char(i + j), needle.get_char(j), ci) {
                j += 1;
            } else {
                ok = false;
            }
        }
        if ok {
            assert(matches_at(hay@, needle@, i as int, ci));
            return true;
        }
        i += 1;
    }
    assert(forall|k: int| !matches_at(hay@, needle@, k, ci)) by {
        assert(forall|k: int| k > lim ==> !matches_at(hay@, needle@, k, ci));
    }
    false
}

/// Equality of two strings up to ASCII case.
pub fn str_eq_ci(a: &str, b: &str) -> (r: bool)
    ensures
        r == eq_ci(a@, b@),
{
    let alen = a.unicode_len();
    let blen = b.unicode_len();
    if alen != blen {
        return false;
    }
    let mut j: usize = 0;
    while j < blen
        invariant
            alen == a@.len(),
            blen == b@.len(),
            alen == blen,
            j <= blen,
            forall|k: int| 0 <= k < j ==> chars_match(a@[k], #[trigger] b@[k], true),
        decreases blen - j,
    {
        if !chars_eq(a.get_char(j), b.get_char(j), true) {
            return false;
        }
        j += 1;
    }
    true
}

/// The views of a sequence of strings.
pub open spec fn seq_views(ss: Seq<String>) -> Seq<Seq<char>> {
    ss.map_values(|s: String| s@)
}

/// The character for one decimal digit.
pub open spec fn digit_char(d: int) -> char {
    if d == 0 {
        '0'
    } else if d == 1 {
        '1'
    } else if d == 2 {
        '2'
    } else if d == 3 {
        '3'
    } else if d == 4 {
        '4'
    } else if d == 5 {
        '5'
    } else if d == 6 {
        '6'
    } else if d == 7 {
        '7'
    } else if d == 8 {
        '8'
    } else {
        '9'
    }
}

/// The decimal digits of `n`, most significant first, no leading zeros
/// (a single `'0'` for zero itself).
pub open spec fn dec_digits(n: nat) -> Seq<char>
    decreases n,
{
    if n < 10 {
        seq![digit_char(n as int)]
    } else {
        dec_digits(n / 10) + seq![digit_char((n % 10) as int)]
    }
}

fn digit_str(d: u32) -> (r: &'static str)
    requires
        d < 10,
    ensures
        r@ == seq![digit_char(d as int)],
{
    match d {
        0 => {
            proof {
                reveal_strlit("0");
                assert("0"@ =~= seq![digit_char(0)]);
            }
            "0"
        },
        1 => {
            proof {
                reveal_strlit("1");
                assert("1"@ =~= seq![digit_char(1)]);
            }
            "1"
        },
        2 => {
            proof {
                reveal_strlit("2");
                assert("2"@ =~= seq![digit_char(2)]);
            }
            "2"
        },
        3 => {
            proof {
                reveal_strlit("3");
                assert("3"@ =~= seq![digit_char(3)]);
            }
            "3"
        },
        4 => {
            proof {
                reveal_strlit("4");
                assert("4"@ =~= seq![digit_char(4)]);
            }
            "4"
        },
        5 => {
            proof {
                reveal_strlit("5");
                assert("5"@ =~= seq![digit_char(5)]);
            }
            "5"
        },
        6 => {
            proof {
                reveal_strlit("6");
                assert("6"@ =~= seq![digit_char(6)]);
            }
            "6"
        },
        7 => {
            proof {
                reveal_strlit("7");
                assert("7"@ =~= seq![digit_char(7)]);
            }
            "7"
        },
        8 => {
            proof {
                reveal_strlit("8");
                assert("8"@ =~= seq![digit_char(8)]);
            }
            "8"
        },
        _ => {
            proof {
                reveal_strlit("9");
                assert("9"@ =~= seq![digit_char(9)]);
            }
            "9"
        },
    }
}

/// Renders `n` in decimal.
pub fn u32_to_string(n: u32) -> (r: String)
    ensures
        r@ == dec_digits(n as nat),
    decreases n,
{
    if n < 10 {
        String::from_str(digit_str(n))
    } else {
        let mut s = u32_to_string(n / 10);
        s.append(digit_str(n % 10));
        s
    }
}

} // verus!
