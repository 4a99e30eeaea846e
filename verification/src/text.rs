use vstd::prelude::*;

verus! {

/// Relies on String::push: appends the given character at the end.
pub assume_specification[ String::push ](s: &mut String, ch: char)
    ensures
        final(s)@ == old(s)@.push(ch),
;

/// Relies on String::pop: removes and returns the last character, or
/// returns nothing when the text is empty.
pub assume_specification[ String::pop ](s: &mut String) -> (r: Option<char>)
    ensures
        old(s)@.len() > 0 ==> final(s)@ == old(s)@.drop_last() && r == Some(
            old(s)@.last(),
        ),
        old(s)@.len() == 0 ==> final(s)@ == old(s)@ && r is None,
;

/// The decimal digit character for a value below ten.
pub open spec fn spec_digit_char(d: int) -> char {
    if d == 0 {
        '0'
    } else if d == 1 {
        '1'
    } else if d == 2 {
        '2'
    } else if d == 3 {
        '3'
    } else if d == 4 {
        '4'
    } else if d == 5 {
        '5'
    } else if d == 6 {
        '6'
    } else if d == 7 {
        '7'
    } else if d == 8 {
        '8'
    } else {
        '9'
    }
}

/// The decimal rendering of a non-negative integer, most significant digit first.
pub open spec fn spec_dec(n: int) -> Seq<char>
    decreases n,
{
    if n < 10 {
        seq![spec_digit_char(n)]
    } else {
        spec_dec(n / 10).push(spec_digit_char(n % 10))
    }
}

fn digit_str(d: u64) -> (r: &'static str)
    requires
        d < 10,
    ensures
        r@ == seq![spec_digit_char(d as int)],
{
    proof {
        reveal_strlit("0");
        reveal_strlit("1");
        reveal_strlit("2");
        reveal_strlit("3");
        reveal_strlit("4");
        reveal_strlit("5");
        reveal_strlit("6");
        reveal_strlit("7");
        reveal_strlit("8");
        reveal_strlit("9");
    }
    let r = if d == 0 {
        "0"
    } else if d == 1 {
        "1"
    } else if d == 2 {
        "2"
    } else if d == 3 {
        "3"
    } else if d == 4 {
        "4"
    } else if d == 5 {
        "5"
    } else if d == 6 {
        "6"
    } else if d == 7 {
        "7"
    } else if d == 8 {
        "8"
    } else {
        "9"
    };
    proof {
        assert(r@ =~= seq![spec_digit_char(d as int)]);
    }
    r
}

/// Renders an unsigned integer in decimal.
pub fn u64_to_string(n: u64) -> (r: String)
    ensures
        r@ == spec_dec(n as int),
    decreases n,
{
    if n < 10 {
        String::from_str(digit_str(n))
    } else {
        let mut s = u64_to_string(n / 10);
        s.append(digit_str(n % 10));
        proof {
            assert(s@ =~= spec_dec(n as int));
        }
        s
    }
}

/// Whether a character has the White_Space property that `str::trim` removes.
pub open spec fn spec_is_space(c: char) -> bool {
    let u = c as u32;
    (9 <= u && u <= 13) || u == 32 || u == 133 || u == 160 || u == 0x1680 || (0x2000 <= u && u
        <= 0x200A) || u == 0x2028 || u == 0x2029 || u == 0x202F || u == 0x205F || u == 0x3000
}

/// Tests for the whitespace characters that trimming removes.
pub fn is_space(c: char) -> (r: bool)
    ensures
        r == spec_is_space(c),
{
    let u = c as u32;
    (9 <= u && u <= 13) || u == 32 || u == 133 || u == 160 || u == 0x1680 || (0x2000 <= u && u
        <= 0x200A) || u == 0x2028 || u == 0x2029 || u == 0x202F || u == 0x205F || u == 0x3000
}

/// The text with leading whitespace removed.
pub open spec fn spec_trim_front(s: Seq<char>) -> Seq<char>
    decreases s.len(),
{
    if s.len() > 0 && spec_is_space(s[0]) {
        spec_trim_front(s.drop_first())
    } else {
        s
    }
}

/// The text with trailing whitespace removed.
pub open spec fn spec_trim_back(s: Seq<char>) -> Seq<char>
    decreases s.len(),
{
    if s.len() > 0 && spec_is_space(s.last()) {
        spec_trim_back(s.drop_last())
    } else {
        s
    }
}

/// The text with leading and trailing whitespace removed.
pub open spec fn spec_trim(s: Seq<char>) -> Seq<char> {
    spec_trim_back(spec_trim_front(s))
}

proof fn lemma_trim_front_prefix(s: Seq<char>, k: int)
    requires
        0 <= k <= s.len(),
        forall|j: int| 0 <= j < k ==> spec_is_space(s[j]),
        k == s.len() || !spec_is_space(s[k]),
    ensures
        spec_trim_front(s) =~= s.subrange(k, s.len() as int),
    decreases k,
{
    if k == 0 {
        if s.len() > 0 && spec_is_space(s[0]) {
            assert(false);
        }
        assert(s.subrange(0, s.len() as int) =~= s);
    } else {
        assert(spec_is_space(s[0]));
        let t = s.drop_first();
        assert(forall|j: int| 0 <= j < k - 1 ==> spec_is_space(t[j]));
        lemma_trim_front_prefix(t, k - 1);
        assert(t.subrange(k - 1, t.len() as int) =~= s.subrange(k, s.len() as int));
    }
}

proof fn lemma_trim_back_suffix(s: Seq<char>, k: int)
    requires
        0 <= k <= s.len(),
        forall|j: int| k <= j < s.len() ==> spec_is_space(s[j]),
        k == 0 || !spec_is_space(s[k - 1]),
    ensures
        spec_trim_back(s) =~= s.subrange(0, k),
    decreases s.len() - k,
{
    if k == s.len() {
        if s.len() > 0 && spec_is_space(s.last()) {
            assert(false);
        }
        assert(s.subrange(0, s.len() as int) =~= s);
    } else {
        assert(spec_is_space(s.last()));
        let t = s.drop_last();
        lemma_trim_back_suffix(t, k);
        assert(t.subrange(0, k) =~= s.subrange(0, k));
    }
}

/// Trimming leaves no whitespace at either end.
proof fn lemma_trim_front_no_leading_space(s: Seq<char>)
    ensures
        spec_trim_front(s).len() > 0 ==> !spec_is_space(spec_trim_front(s)[0]),
    decreases s.len(),
{
    if s.len() > 0 && spec_is_space(s[0]) {
        lemma_trim_front_no_leading_space(s.drop_first());
    }
}

proof fn lemma_trim_back_no_trailing_space(s: Seq<char>)
    ensures
        spec_trim_back(s).len() > 0 ==> !spec_is_space(spec_trim_back(s).last()),
        spec_trim_back(s).len() > 0 ==> spec_trim_back(s)[0] == s[0],
    decreases s.len(),
{
    if s.len() > 0 && spec_is_space(s.last()) {
        lemma_trim_back_no_trailing_space(s.drop_last());
    }
}

proof fn lemma_trim_back_of_clean(s: Seq<char>)
    requires
        s.len() == 0 || !spec_is_space(s[0]),
    ensures
        spec_trim_back(s).len() == 0 || !spec_is_space(spec_trim_back(s)[0]),
    decreases s.len(),
{
    if s.len() > 0 && spec_is_space(s.last()) {
        if s.len() > 1 {
            lemma_trim_back_of_clean(s.drop_last());
        }
    }
}

/// Trimming twice gives the same text as trimming once.
pub proof fn lemma_trim_idempotent(s: Seq<char>)
    ensures
        spec_trim(spec_trim(s)) == spec_trim(s),
{
    let t = spec_trim(s);
    lemma_trim_front_no_leading_space(s);
    lemma_trim_back_of_clean(spec_trim_front(s));
    // The head of t is not whitespace, so trim_front leaves t unchanged.
    assert(spec_trim_front(t) == t);
    lemma_trim_back_no_trailing_space(spec_trim_front(s));
    // The tail of t is not whitespace, so trim_back leaves t unchanged.
    assert(spec_trim_back(t) == t);
}

/// Removes leading and trailing whitespace, as `str::trim` does.
pub fn trim(s: &str) -> (r: String)
    ensures
        r@ == spec_trim(s@),
{
    let len = s.unicode_len();
    let mut lo: usize = 0;
    while lo < len && is_space(s.get_char(lo))
        invariant
            0 <= lo <= len,
            len == s@.len(),
            forall|j: int| 0 <= j < lo ==> spec_is_space(s@[j]),
        decreases len - lo,
    {
        lo = lo + 1;
    }
    let mut hi: usize = len;
    while hi > lo && is_space(s.get_char(hi - 1))
        invariant
            lo <= hi <= len,
            len == s@.len(),
            forall|j: int| 0 <= j < lo ==> spec_is_space(s@[j]),
            lo == len || !spec_is_space(s@[lo as int]),
            forall|j: int| hi <= j < len ==> spec_is_space(s@[j]),
        decreases hi,
    {
        hi = hi - 1;
    }
    let out = s.substring_char(lo, hi).to_owned();
    proof {
        lemma_trim_front_prefix(s@, lo as int);
        let f = s@.subrange(lo as int, len as int);
        if hi == lo {
            lemma_trim_back_suffix(f, 0);
        } else {
            lemma_trim_back_suffix(f, hi - lo);
        }
        assert(f.subrange(0, hi - lo) =~= s@.subrange(lo as int, hi as int));
        assert(out@ =~= spec_trim(s@));
    }
    out
}

/// The truncated rendering of a text: unchanged when it fits, otherwise cut
/// down with a trailing ellipsis.
pub open spec fn spec_truncated(s: Seq<char>, max_len: int) -> Seq<char> {
    if s.len() <= max_len {
        s
    } else if max_len >= 3 {
        s.subrange(0, max_len - 3) + "..."@
    } else {
        s.subrange(0, 0) + "..."@
    }
}

/// Shortens a text to at most `max_len` characters, appending `...` when cut.
pub fn truncate(s: &str, max_len: usize) -> (r: String)
    ensures
        r@ == spec_truncated(s@, max_len as int),
{
    let len = s.unicode_len();
    if len <= max_len {
        s.to_owned()
    } else {
        let keep = if max_len >= 3 {
            max_len - 3
        } else {
            0
        };
        let head = s.substring_char(0, keep);
        let r = head.to_owned().concat("...");
        proof {
            assert(r@ =~= spec_truncated(s@, max_len as int));
        }
        r
    }
}

/// The blank lines that center `text_lines` rows inside a bordered area of
/// the given height.
pub open spec fn spec_padding_count(area_height: int, text_lines: int) -> int {
    let inner = if area_height >= 2 {
        area_height - 2
    } else {
        0
    };
    let gap = if inner >= text_lines {
        inner - text_lines
    } else {
        0
    };
    gap / 2
}

/// Builds a run of newlines that vertically centers text within an area.
pub fn vertical_padding(area_height: u16, text_lines: u16) -> (r: String)
    ensures
        r@.len() == spec_padding_count(area_height as int, text_lines as int),
        forall|i: int| 0 <= i < r@.len() ==> r@[i] == '\n',
{
    let inner = if area_height >= 2 {
        area_height - 2
    } else {
        0
    };
    let gap = if inner >= text_lines {
        inner - text_lines
    } else {
        0
    };
    let padding = gap / 2;
    let mut r = String::new();
    let mut i: u16 = 0;
    proof {
        reveal_strlit("\n");
    }
    while i < padding
        invariant
            0 <= i <= padding,
            r@.len() == i as int,
            forall|j: int| 0 <= j < r@.len() ==> r@[j] == '\n',
            "\n"@.len() == 1 && "\n"@[0] == '\n',
        decreases padding - i,
    {
        r.append("\n");
        i = i + 1;
    }
    r
}

/// Compares two text slices for character-for-character equality.
pub fn str_eq(a: &str, b: &str) -> (r: bool)
    ensures
        r == (a@ == b@),
{
    let sa = a.to_owned();
    let sb = b.to_owned();
    sa == sb
}

} // verus!
