//! Reading the version of a build toolchain from its version banner.

use vstd::prelude::*;

use crate::text::chars_of;

verus! {

/// Unicode white space (the characters `char::is_whitespace` accepts).
pub open spec fn is_space(c: char) -> bool {
    ||| c == '\t' || c == '\n' || c == '\u{0B}' || c == '\u{0C}' || c == '\r' || c == ' '
    ||| c == '\u{85}' || c == '\u{A0}' || c == '\u{1680}'
    ||| ('\u{2000}' as u32 <= c as u32 <= '\u{200A}' as u32)
    ||| c == '\u{2028}' || c == '\u{2029}' || c == '\u{202F}' || c == '\u{205F}' || c == '\u{3000}'
}

/// Whether `c` is white space.
fn space(c: char) -> (r: bool)
    ensures
        r == is_space(c),
{
    c == '\t' || c == '\n' || c == '\u{0B}' || c == '\u{0C}' || c == '\r' || c == ' '
        || c == '\u{85}' || c == '\u{A0}' || c == '\u{1680}'
        || ('\u{2000}' <= c && c <= '\u{200A}')
        || c == '\u{2028}' || c == '\u{2029}' || c == '\u{202F}' || c == '\u{205F}' || c == '\u{3000}'
}

/// Length of the leading run of characters of `s` that are not white space.
pub open spec fn word_len(s: Seq<char>) -> nat
    decreases s.len(),
{
    if s.len() == 0 || is_space(s[0]) { 0 } else { 1 + word_len(s.drop_first()) }
}

/// The words of `s`: its maximal runs of characters that are not white
/// space, in order (what `str::split_whitespace` yields).
pub open spec fn words(s: Seq<char>) -> Seq<Seq<char>>
    decreases s.len(),
{
    if s.len() == 0 {
        Seq::empty()
    } else if is_space(s[0]) {
        words(s.drop_first())
    } else {
        let n = word_len(s);
        proof { lemma_word_len_bound(s); }
        seq![s.take(n as int)] + words(s.skip(n as int))
    }
}

/// A word is no longer than the text and, for a text that does not start
/// with white space, not empty.
pub proof fn lemma_word_len_bound(s: Seq<char>)
    ensures
        word_len(s) <= s.len(),
        s.len() > 0 && !is_space(s[0]) ==> word_len(s) > 0,
    decreases s.len(),
{
    if s.len() > 0 && !is_space(s[0]) {
        lemma_word_len_bound(s.drop_first());
    }
}

/// The pieces of `s` between occurrences of `sep` (what `str::split` yields
/// for a character separator): at least one piece, possibly empty.
pub open spec fn pieces(s: Seq<char>, sep: char) -> Seq<Seq<char>>
    decreases s.len(),
{
    if s.len() == 0 {
        seq![Seq::empty()]
    } else if s[0] == sep {
        seq![Seq::empty()] + pieces(s.drop_first(), sep)
    } else {
        let rest = pieces(s.drop_first(), sep);
        rest.update(0, seq![s[0]] + rest[0])
    }
}

/// The value of a run of decimal digits.
pub open spec fn digits_value(d: Seq<char>) -> nat
    decreases d.len(),
{
    if d.len() == 0 {
        0
    } else {
        digits_value(d.drop_last()) * 10 + ((d.last() as u32) - ('0' as u32)) as nat
    }
}

/// An ASCII decimal digit.
pub open spec fn is_digit(c: char) -> bool {
    '0' as u32 <= c as u32 <= '9' as u32
}

/// What `str::parse::<u32>` gives: an optional '+', then one or more ASCII
/// digits whose value fits in 32 bits.
pub open spec fn u32_of(s: Seq<char>) -> Option<u32> {
    let d = unsigned_digits(s);
    if d.len() > 0 && all_digits(d) && digits_value(d) <= u32::MAX {
        Some(digits_value(d) as u32)
    } else {
        None
    }
}

/// The text after an optional leading '+'.
pub open spec fn unsigned_digits(s: Seq<char>) -> Seq<char> {
    if s.len() > 0 && s[0] == '+' { s.drop_first() } else { s }
}

/// Every character is an ASCII digit.
pub open spec fn all_digits(d: Seq<char>) -> bool {
    forall|i: int| 0 <= i < d.len() ==> is_digit(#[trigger] d[i])
}

/// The (major, minor) version named in a version banner such as
/// "tinygo version 0.32.0 linux/amd64": the word after the first word
/// "version", read as "major.minor...".
pub open spec fn banner_version(s: Seq<char>) -> Option<(u32, u32)> {
    let ws = words(s);
    if exists|i: int| 0 <= i < ws.len() && ws[i] == "version"@ {
        let i = choose|i: int| 0 <= i < ws.len() && ws[i] == "version"@
            && forall|j: int| 0 <= j < i ==> ws[j] != "version"@;
        if i + 1 < ws.len() {
            let nums = pieces(ws[i + 1], '.');
            if nums.len() >= 2 {
                match (u32_of(nums[0]), u32_of(nums[1])) {
                    (Some(major), Some(minor)) => Some((major, minor)),
                    _ => None,
                }
            } else {
                None
            }
        } else {
            None
        }
    } else {
        None
    }
}

/// A run of non-space characters from `i` up to `j`, ended by white space
/// or the end of the text, is the word starting at `i`.
proof fn lemma_word_len_run(s: Seq<char>, i: int, j: int)
    requires
        0 <= i <= j <= s.len(),
        forall|k: int| i <= k < j ==> !is_space(#[trigger] s[k]),
        j < s.len() ==> is_space(s[j]),
    ensures
        word_len(s.skip(i)) == j - i,
    decreases j - i,
{
    if i == j {
    } else {
        lemma_word_len_run(s, i + 1, j);
        assert(s.skip(i).drop_first() =~= s.skip(i + 1));
    }
}

/// The words of a text, in order.
pub fn split_words(s: &str) -> (r: Vec<Vec<char>>)
    ensures
        r@.map_values(|w: Vec<char>| w@) == words(s@),
{
    let cs = chars_of(s);
    let mut out: Vec<Vec<char>> = Vec::new();
    let mut i: usize = 0;
    proof { assert(cs@.skip(0) =~= cs@); }
    while i < cs.len()
        invariant
            cs@ == s@,
            i <= cs.len(),
            out@.map_values(|w: Vec<char>| w@) + words(cs@.skip(i as int)) == words(s@),
        decreases cs.len() - i,
    {
        if space(cs[i]) {
            proof {
                assert(cs@.skip(i as int).drop_first() =~= cs@.skip(i + 1));
            }
            i = i + 1;
        } else {
            let start = i;
            let mut word: Vec<char> = Vec::new();
            while i < cs.len() && !space(cs[i])
                invariant
                    cs@ == s@,
                    start <= i <= cs.len(),
                    word@ == cs@.subrange(start as int, i as int),
                    forall|k: int| start <= k < i ==> !is_space(#[trigger] cs@[k]),
                decreases cs.len() - i,
            {
                word.push(cs[i]);
                proof { assert(word@ =~= cs@.subrange(start as int, i + 1)); }
                i = i + 1;
            }
            proof {
                lemma_word_len_run(cs@, start as int, i as int);
                let t = cs@.skip(start as int);
                assert(t[0] == cs@[start as int]);
                assert(t.take((i - start) as int) =~= word@);
                assert(t.skip((i - start) as int) =~= cs@.skip(i as int));
                let before = out@.map_values(|w: Vec<char>| w@);
                assert(words(t) == seq![word@] + words(cs@.skip(i as int)));
                assert(before.push(word@) + words(cs@.skip(i as int)) =~= before + words(t));
            }
            let ghost before = out@;
            out.push(word);
            proof {
                assert(out@.map_values(|w: Vec<char>| w@) =~= before.map_values(|w: Vec<char>| w@).push(word@));
            }
        }
    }
    proof {
        assert(cs@.skip(cs.len() as int) =~= Seq::<char>::empty());
        assert(out@.map_values(|w: Vec<char>| w@) + Seq::<Seq<char>>::empty() =~= out@.map_values(|w: Vec<char>| w@));
    }
    out
}

/// The pieces of a text between occurrences of `sep`.
pub fn split_pieces(cs: &Vec<char>, sep: char) -> (r: Vec<Vec<char>>)
    ensures
        r@.map_values(|w: Vec<char>| w@) == pieces(cs@, sep),
{
    let mut out: Vec<Vec<char>> = Vec::new();
    out.push(Vec::new());
    let mut i: usize = cs.len();
    proof {
        assert(cs@.skip(cs.len() as int) =~= Seq::<char>::empty());
        assert(out@.map_values(|w: Vec<char>| w@) =~= seq![Seq::<char>::empty()]);
    }
    while i > 0
        invariant
            i <= cs.len(),
            out@.len() > 0,
            out@.map_values(|w: Vec<char>| w@) == pieces(cs@.skip(i as int), sep),
        decreases i,
    {
        let c = cs[i - 1];
        let ghost rest = cs@.skip(i as int);
        let ghost p0 = out@.map_values(|w: Vec<char>| w@);
        proof {
            assert(cs@.skip(i - 1).drop_first() =~= rest);
            assert(cs@.skip(i - 1)[0] == c);
        }
        if c == sep {
            out.insert(0, Vec::new());
            proof {
                assert(out@.map_values(|w: Vec<char>| w@) =~= seq![Seq::<char>::empty()] + p0);
            }
        } else {
            let mut first = out.remove(0);
            first.insert(0, c);
            out.insert(0, first);
            proof {
                assert(first@ =~= seq![c] + p0[0]);
                assert(out@.map_values(|w: Vec<char>| w@) =~= p0.update(0, seq![c] + p0[0]));
            }
        }
        i = i - 1;
    }
    proof { assert(cs@.skip(0) =~= cs@); }
    out
}

/// Parses an unsigned 32-bit number as `str::parse::<u32>` does.
pub fn parse_u32(s: &Vec<char>) -> (r: Option<u32>)
    ensures
        r == u32_of(s@),
{
    let start: usize = if s.len() > 0 && s[0] == '+' { 1 } else { 0 };
    let ghost d = unsigned_digits(s@);
    proof { assert(d =~= s@.skip(start as int)); }
    if start >= s.len() {
        return None;
    }
    let cap: u64 = 0x1_0000_0000;
    let mut acc: u64 = 0;
    let mut i: usize = start;
    proof { assert(d.take(0) =~= Seq::<char>::empty()); }
    while i < s.len()
        invariant
            start <= i <= s.len(),
            d == s@.skip(start as int),
            d == unsigned_digits(s@),
            cap == 0x1_0000_0000,
            forall|k: int| 0 <= k < i - start ==> is_digit(#[trigger] d[k]),
            acc == (if digits_value(d.take(i - start)) < cap { digits_value(d.take(i - start)) } else { cap as nat }),
        decreases s.len() - i,
    {
        let c = s[i];
        let cu = c as u32;
        if !('0' as u32 <= cu && cu <= '9' as u32) {
            proof {
                assert(d[i - start] == c);
                assert(!is_digit(d[i - start]));
                assert(!all_digits(d));
            }
            return None;
        }
        let digit = (cu - '0' as u32) as u64;
        let ghost prev = digits_value(d.take(i - start));
        proof {
            assert(d.take(i - start + 1).drop_last() =~= d.take(i - start));
            assert(d.take(i - start + 1).last() == c);
            assert(digits_value(d.take(i - start + 1)) == prev * 10 + digit);
        }
        if acc >= cap {
            acc = cap;
        } else {
            let next = acc * 10 + digit;
            acc = if next >= cap { cap } else { next };
        }
        proof {
            assert(d[i - start] == c);
        }
        i = i + 1;
    }
    proof { assert(d.take(s.len() - start) =~= d); }
    if acc >= cap {
        None
    } else {
        Some(acc as u32)
    }
}

/// Whether a word is exactly "version".
fn is_version_word(w: &Vec<char>) -> (r: bool)
    ensures
        r == (w@ == "version"@),
{
    proof { reveal_strlit("version"); }
    if w.len() != 7 {
        return false;
    }
    let r = w[0] == 'v' && w[1] == 'e' && w[2] == 'r' && w[3] == 's' && w[4] == 'i' && w[5] == 'o' && w[6] == 'n';
    proof {
        if r {
            assert(w@ =~= "version"@);
        }
    }
    r
}

/// Reads the (major, minor) version from a version banner such as
/// "tinygo version 0.32.0 linux/amd64".
pub fn parse_tinygo_version(version_str: &str) -> (r: Option<(u32, u32)>)
    ensures
        r == banner_version(version_str@),
{
    let ws = split_words(version_str);
    let ghost wv = ws@.map_values(|w: Vec<char>| w@);
    let mut i: usize = 0;
    while i < ws.len()
        invariant
            wv == ws@.map_values(|w: Vec<char>| w@),
            wv == words(version_str@),
            i <= ws.len(),
            forall|j: int| 0 <= j < i ==> wv[j] != "version"@,
        ensures
            i <= ws.len(),
            forall|j: int| 0 <= j < i ==> wv[j] != "version"@,
            i < ws.len() ==> ws@[i as int]@ == "version"@,
        decreases ws.len() - i,
    {
        if is_version_word(&ws[i]) {
            break;
        }
        i = i + 1;
    }
    if i == ws.len() {
        proof {
            assert(!(exists|k: int| 0 <= k < wv.len() && wv[k] == "version"@));
        }
        return None;
    }
    proof {
        assert(wv[i as int] == ws@[i as int]@);
        assert(wv[i as int] == "version"@);
        let c = choose|k: int| 0 <= k < wv.len() && wv[k] == "version"@
            && forall|j: int| 0 <= j < k ==> wv[j] != "version"@;
        assert(c == i);
    }
    if i + 1 >= ws.len() {
        return None;
    }
    let nums = split_pieces(&ws[i + 1], '.');
    proof {
        assert(wv[i + 1] == ws@[i + 1]@);
    }
    if nums.len() < 2 {
        return None;
    }
    let major = parse_u32(&nums[0]);
    let minor = parse_u32(&nums[1]);
    proof {
        let pv = nums@.map_values(|w: Vec<char>| w@);
        assert(pv[0] == nums@[0]@);
        assert(pv[1] == nums@[1]@);
    }
    match (major, minor) {
        (Some(a), Some(b)) => Some((a, b)),
        _ => None,
    }
}

} // verus!
