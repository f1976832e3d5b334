use vstd::prelude::*;

verus! {

// ---------------------------------------------------------------------------
// Character classes
// ---------------------------------------------------------------------------

/// ASCII lower-casing of a single character; everything outside `'A'..'Z'`
/// is left alone.  It is used to recognize the ASCII labels of the lenient
/// reply parse, so no Unicode folding is needed here.
pub open spec fn ascii_lower_char(c: char) -> char {
    match c {
        'A' => 'a',
        'B' => 'b',
        'C' => 'c',
        'D' => 'd',
        'E' => 'e',
        'F' => 'f',
        'G' => 'g',
        'H' => 'h',
        'I' => 'i',
        'J' => 'j',
        'K' => 'k',
        'L' => 'l',
        'M' => 'm',
        'N' => 'n',
        'O' => 'o',
        'P' => 'p',
        'Q' => 'q',
        'R' => 'r',
        'S' => 's',
        'T' => 't',
        'U' => 'u',
        'V' => 'v',
        'W' => 'w',
        'X' => 'x',
        'Y' => 'y',
        'Z' => 'z',
        _ => c,
    }
}

pub fn ascii_lower(c: char) -> (r: char)
    ensures
        r == ascii_lower_char(c),
{
    match c {
        'A' => 'a',
        'B' => 'b',
        'C' => 'c',
        'D' => 'd',
        'E' => 'e',
        'F' => 'f',
        'G' => 'g',
        'H' => 'h',
        'I' => 'i',
        'J' => 'j',
        'K' => 'k',
        'L' => 'l',
        'M' => 'm',
        'N' => 'n',
        'O' => 'o',
        'P' => 'p',
        'Q' => 'q',
        'R' => 'r',
        'S' => 's',
        'T' => 't',
        'U' => 'u',
        'V' => 'v',
        'W' => 'w',
        'X' => 'x',
        'Y' => 'y',
        'Z' => 'z',
        _ => c,
    }
}

/// Per-character ASCII lower-casing of a sequence.
pub open spec fn lower_ascii(s: Seq<char>) -> Seq<char> {
    s.map_values(|c: char| ascii_lower_char(c))
}

/// The whitespace characters that trimming removes.
pub open spec fn is_space(c: char) -> bool {
    c == ' ' || c == '\t' || c == '\n' || c == '\r'
}

pub fn is_space_char(c: char) -> (r: bool)
    ensures
        r == is_space(c),
{
    c == ' ' || c == '\t' || c == '\n' || c == '\r'
}

// ---------------------------------------------------------------------------
// Finding a character
// ---------------------------------------------------------------------------

/// Index of the first occurrence of `c` in `s` at or after `from`, or
/// `s.len()` if there is none.
pub open spec fn find_char_from(s: Seq<char>, c: char, from: int) -> int
    recommends
        0 <= from <= s.len(),
    decreases s.len() - from,
{
    if from < 0 || from >= s.len() {
        s.len() as int
    } else if s[from] == c {
        from
    } else {
        find_char_from(s, c, from + 1)
    }
}

pub proof fn lemma_find_char_from(s: Seq<char>, c: char, from: int)
    requires
        0 <= from <= s.len(),
    ensures
        from <= find_char_from(s, c, from) <= s.len(),
        find_char_from(s, c, from) < s.len() ==> s[find_char_from(s, c, from)] == c,
        forall|j: int| from <= j < find_char_from(s, c, from) ==> s[j] != c,
    decreases s.len() - from,
{
    if from < s.len() && s[from] != c {
        lemma_find_char_from(s, c, from + 1);
    }
}

pub fn find_char(s: &str, c: char, from: usize) -> (r: usize)
    requires
        from <= s@.len(),
    ensures
        r == find_char_from(s@, c, from as int),
{
    let n = s.unicode_len();
    let mut i = from;
    while i < n
        invariant
            from <= i <= n,
            n == s@.len(),
            find_char_from(s@, c, from as int) == find_char_from(s@, c, i as int),
        decreases n - i,
    {
        if s.get_char(i) == c {
            return i;
        }
        i = i + 1;
    }
    i
}

// ---------------------------------------------------------------------------
// Finding a label (ASCII case-insensitive substring search)
// ---------------------------------------------------------------------------

/// Position of the first occurrence of `needle` in `s` at or after `from`,
/// if there is one.
pub open spec fn find_sub_from(s: Seq<char>, needle: Seq<char>, from: int) -> Option<int>
    recommends
        0 <= from,
    decreases s.len() + 1 - from,
{
    if from < 0 || from + needle.len() > s.len() {
        None
    } else if s.subrange(from, from + needle.len()) == needle {
        Some(from)
    } else {
        find_sub_from(s, needle, from + 1)
    }
}

/// Position of the first occurrence of the (lower-case) `needle` in `s`,
/// compared after ASCII lower-casing of `s`.
pub open spec fn find_label(s: Seq<char>, needle: Seq<char>) -> Option<int> {
    find_sub_from(lower_ascii(s), needle, 0)
}

/// Does the lower-cased `s` carry `needle` at position `at`?
fn matches_lower_at(s: &str, needle: &Vec<char>, at: usize) -> (r: bool)
    requires
        at + needle@.len() <= s@.len(),
        s@.len() <= usize::MAX,
    ensures
        r == (lower_ascii(s@).subrange(at as int, at as int + needle@.len()) == needle@),
{
    let ghost low = lower_ascii(s@);
    let mut k: usize = 0;
    while k < needle.len()
        invariant
            0 <= k <= needle@.len(),
            at + needle@.len() <= s@.len(),
            s@.len() <= usize::MAX,
            low == lower_ascii(s@),
            forall|j: int| 0 <= j < k ==> low[at + j] == needle@[j],
        decreases needle@.len() - k,
    {
        let c = ascii_lower(s.get_char(at + k));
        if c != needle[k] {
            assert(low[at + k] != needle@[k as int]);
            assert(low.subrange(at as int, at as int + needle@.len()) != needle@) by {
                if low.subrange(at as int, at as int + needle@.len()) == needle@ {
                    assert(low.subrange(at as int, at as int + needle@.len())[k as int] == low[at + k]);
                }
            }
            return false;
        }
        k = k + 1;
    }
    assert(low.subrange(at as int, at as int + needle@.len()) =~= needle@);
    true
}

/// First position where the lower-cased `s` carries `needle`, scanning
/// left to right.
pub fn find_label_exec(s: &str, needle: &Vec<char>) -> (r: Option<usize>)
    requires
        needle@.len() >= 1,
    ensures
        (match r {
            Some(i) => find_label(s@, needle@) == Some(i as int),
            None => find_label(s@, needle@) is None,
        }),
{
    let ghost low = lower_ascii(s@);
    let n = s.unicode_len();
    if needle.len() > n {
        return None;
    }
    let mut i: usize = 0;
    while i <= n - needle.len()
        invariant
            0 <= i <= n - needle@.len() + 1,
            needle@.len() >= 1,
            needle@.len() <= n,
            n == s@.len(),
            low == lower_ascii(s@),
            find_sub_from(low, needle@, 0) == find_sub_from(low, needle@, i as int),
        decreases n - i,
    {
        if matches_lower_at(s, needle, i) {
            return Some(i);
        }
        i = i + 1;
    }
    None
}

// ---------------------------------------------------------------------------
// Trimming
// ---------------------------------------------------------------------------

/// First index in `[i, j)` that does not carry whitespace, or `j`.
pub open spec fn skip_spaces(s: Seq<char>, i: int, j: int) -> int
    recommends
        0 <= i <= j <= s.len(),
    decreases j - i,
{
    if i >= j {
        i
    } else if is_space(s[i]) {
        skip_spaces(s, i + 1, j)
    } else {
        i
    }
}

/// Index just past the last non-whitespace character in `[i, j)`, or `i`.
pub open spec fn rskip_spaces(s: Seq<char>, i: int, j: int) -> int
    recommends
        0 <= i <= j <= s.len(),
    decreases j - i,
{
    if j <= i {
        j
    } else if is_space(s[j - 1]) {
        rskip_spaces(s, i, j - 1)
    } else {
        j
    }
}

/// The `[from, to)` region of `s` with surrounding whitespace removed.
pub open spec fn trimmed_range(s: Seq<char>, from: int, to: int) -> Seq<char>
    recommends
        0 <= from <= to <= s.len(),
{
    let a = skip_spaces(s, from, to);
    let b = rskip_spaces(s, a, to);
    s.subrange(a, b)
}

/// `s` with leading and trailing whitespace removed.
pub open spec fn trim_spec(s: Seq<char>) -> Seq<char> {
    trimmed_range(s, 0, s.len() as int)
}

/// The slice of `s` between `from` and `to` with surrounding whitespace
/// removed.
pub fn trim_substring<'a>(s: &'a str, from: usize, to: usize) -> (r: &'a str)
    requires
        from <= to <= s@.len(),
    ensures
        r@ == trimmed_range(s@, from as int, to as int),
{
    let mut a = from;
    while a < to && is_space_char(s.get_char(a))
        invariant
            from <= a <= to <= s@.len(),
            skip_spaces(s@, from as int, to as int) == skip_spaces(s@, a as int, to as int),
        decreases to - a,
    {
        a = a + 1;
    }
    assert(skip_spaces(s@, a as int, to as int) == a as int);
    let mut b = to;
    while b > a && is_space_char(s.get_char(b - 1))
        invariant
            a <= b <= to <= s@.len(),
            rskip_spaces(s@, a as int, to as int) == rskip_spaces(s@, a as int, b as int),
        decreases b,
    {
        b = b - 1;
    }
    assert(rskip_spaces(s@, a as int, b as int) == b as int);
    s.substring_char(a, b)
}

/// `s` with surrounding whitespace removed.
pub fn trim_str<'a>(s: &'a str) -> (r: &'a str)
    ensures
        r@ == trim_spec(s@),
{
    let n = s.unicode_len();
    trim_substring(s, 0, n)
}

// ---------------------------------------------------------------------------
// Labeled-line values
// ---------------------------------------------------------------------------

/// The value of a labeled line that starts at `at`: the text between the
/// first `':'` of the line and the next `':'` or the line's end
/// (whichever comes first), trimmed.  Empty when the line has no `':'`.
pub open spec fn label_value(s: Seq<char>, at: int) -> Seq<char>
    recommends
        0 <= at <= s.len(),
{
    let e = find_char_from(s, '\n', at);
    let k = find_char_from(s, ':', at);
    if k >= e {
        Seq::<char>::empty()
    } else {
        let m = find_char_from(s, ':', k + 1);
        let end = if m < e { m } else { e };
        trimmed_range(s, k + 1, end)
    }
}

/// The value of the labeled line that starts at `at`.
pub fn label_value_at<'a>(s: &'a str, at: usize) -> (r: &'a str)
    requires
        at <= s@.len(),
    ensures
        r@ == label_value(s@, at as int),
{
    proof {
        lemma_find_char_from(s@, '\n', at as int);
        lemma_find_char_from(s@, ':', at as int);
    }
    let e = find_char(s, '\n', at);
    let k = find_char(s, ':', at);
    if k >= e {
        let r = s.substring_char(0, 0);
        assert(r@ =~= Seq::<char>::empty());
        r
    } else {
        proof {
            lemma_find_char_from(s@, ':', k as int + 1);
        }
        let m = find_char(s, ':', k + 1);
        let end = if m < e { m } else { e };
        trim_substring(s, k + 1, end)
    }
}

} // verus!
