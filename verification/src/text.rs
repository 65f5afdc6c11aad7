//! Base-URL normalization and small text helpers.

use vstd::prelude::*;

verus! {

/// One character of the Unicode `White_Space` class: the set of
/// characters that trimming removes at either end of a string.
pub open spec fn is_space_char(c: char) -> bool {
    c == ' ' || c == '\t' || c == '\n' || c == '\u{b}' || c == '\u{c}' || c == '\r'
        || c == '\u{85}' || c == '\u{a0}' || c == '\u{1680}' || c == '\u{2000}'
        || c == '\u{2001}' || c == '\u{2002}' || c == '\u{2003}' || c == '\u{2004}'
        || c == '\u{2005}' || c == '\u{2006}' || c == '\u{2007}' || c == '\u{2008}'
        || c == '\u{2009}' || c == '\u{200a}' || c == '\u{2028}' || c == '\u{2029}'
        || c == '\u{202f}' || c == '\u{205f}' || c == '\u{3000}'
}

fn space_char(c: char) -> (r: bool)
    ensures
        r == is_space_char(c),
{
    c == ' ' || c == '\t' || c == '\n' || c == '\u{b}' || c == '\u{c}' || c == '\r'
        || c == '\u{85}' || c == '\u{a0}' || c == '\u{1680}' || c == '\u{2000}'
        || c == '\u{2001}' || c == '\u{2002}' || c == '\u{2003}' || c == '\u{2004}'
        || c == '\u{2005}' || c == '\u{2006}' || c == '\u{2007}' || c == '\u{2008}'
        || c == '\u{2009}' || c == '\u{200a}' || c == '\u{2028}' || c == '\u{2029}'
        || c == '\u{202f}' || c == '\u{205f}' || c == '\u{3000}'
}

/// The string with its leading whitespace removed.
pub open spec fn trim_left_spec(s: Seq<char>) -> Seq<char>
    decreases s.len(),
{
    if s.len() == 0 {
        s
    } else if is_space_char(s.first()) {
        trim_left_spec(s.drop_first())
    } else {
        s
    }
}

/// The string with its trailing whitespace removed.
pub open spec fn trim_right_spec(s: Seq<char>) -> Seq<char>
    decreases s.len(),
{
    if s.len() == 0 {
        s
    } else if is_space_char(s.last()) {
        trim_right_spec(s.drop_last())
    } else {
        s
    }
}

/// The string with whitespace removed at both ends.
pub open spec fn trim_spec(s: Seq<char>) -> Seq<char> {
    trim_right_spec(trim_left_spec(s))
}

/// A normalized base URL: trimmed, and either empty or ending in
/// exactly one trailing `/` (one is appended only when missing).
pub open spec fn normalize_spec(s: Seq<char>) -> Seq<char> {
    let t = trim_spec(s);
    if t.len() == 0 {
        t
    } else if t.last() == '/' {
        t
    } else {
        t.push('/')
    }
}

proof fn lemma_trim_left_skip(s: Seq<char>, i: int)
    requires
        0 <= i <= s.len(),
        forall|j: int| 0 <= j < i ==> is_space_char(s[j]),
    ensures
        trim_left_spec(s) == trim_left_spec(s.skip(i)),
    decreases i,
{
    if i > 0 {
        assert(is_space_char(s.first()));
        lemma_trim_left_skip(s.drop_first(), i - 1);
        assert(s.drop_first().skip(i - 1) =~= s.skip(i));
    } else {
        assert(s.skip(0) =~= s);
    }
}

proof fn lemma_trim_right_take(s: Seq<char>, i: int)
    requires
        0 <= i <= s.len(),
        forall|j: int| i <= j < s.len() ==> is_space_char(s[j]),
    ensures
        trim_right_spec(s) == trim_right_spec(s.take(i)),
    decreases s.len() - i,
{
    if i < s.len() {
        assert(is_space_char(s.last()));
        assert(s.drop_last() =~= s.take(s.len() - 1));
        lemma_trim_right_take(s.take(s.len() - 1), i);
        assert(s.take(s.len() - 1).take(i) =~= s.take(i));
    } else {
        assert(s.take(s.len() as int) =~= s);
    }
}

/// Removes the whitespace at both ends of `s`.
pub fn trim_str(s: &str) -> (r: &str)
    ensures
        r@ == trim_spec(s@),
{
    let n = s.unicode_len();
    let mut start: usize = 0;
    while start < n && space_char(s.get_char(start))
        invariant
            n == s@.len(),
            0 <= start <= n,
            forall|j: int| 0 <= j < start ==> is_space_char(s@[j]),
        decreases n - start,
    {
        start = start + 1;
    }
    proof {
        lemma_trim_left_skip(s@, start as int);
    }
    if start == n {
        proof {
            assert(s@.skip(start as int) =~= Seq::<char>::empty());
            assert(trim_left_spec(s@) =~= Seq::<char>::empty());
            reveal_strlit("");
            assert(""@ =~= Seq::<char>::empty());
        }
        ""
    } else {
        proof {
            assert(s@.skip(start as int).first() == s@[start as int]);
            assert(trim_left_spec(s@) == s@.skip(start as int));
        }
        let mut end: usize = n;
        while end > start + 1 && space_char(s.get_char(end - 1))
            invariant
                n == s@.len(),
                start < end <= n,
                forall|j: int| end <= j < n ==> is_space_char(s@[j]),
            decreases end,
        {
            end = end - 1;
        }
        if space_char(s.get_char(end - 1)) {
            // Only possible when `end == start + 1`, yet `s@[start]` is
            // not whitespace; rule the branch out.
            proof {
                assert(end == start + 1);
                assert(false);
            }
        }
        let r = s.substring_char(start, end);
        proof {
            let t = s@.skip(start as int);
            lemma_trim_right_take(t, end - start as int);
            assert(t.take(end - start as int) =~= s@.subrange(start as int, end as int));
            let u = s@.subrange(start as int, end as int);
            assert(u.last() == s@[end - 1]);
            assert(!is_space_char(u.last()));
            assert(trim_right_spec(u) == u);
        }
        r
    }
}

proof fn lemma_trim_left_first(s: Seq<char>)
    ensures
        trim_left_spec(s).len() <= s.len(),
        trim_left_spec(s).len() > 0 ==> !is_space_char(trim_left_spec(s).first()),
    decreases s.len(),
{
    if s.len() > 0 && is_space_char(s.first()) {
        lemma_trim_left_first(s.drop_first());
    }
}

proof fn lemma_trim_right_prefix(s: Seq<char>)
    ensures
        trim_right_spec(s).len() <= s.len(),
        trim_right_spec(s) == s.take(trim_right_spec(s).len() as int),
        trim_right_spec(s).len() > 0 ==> !is_space_char(trim_right_spec(s).last()),
    decreases s.len(),
{
    if s.len() == 0 {
        assert(s.take(0) =~= s);
    } else if is_space_char(s.last()) {
        lemma_trim_right_prefix(s.drop_last());
        assert(s.drop_last().take(trim_right_spec(s).len() as int) =~= s.take(
            trim_right_spec(s).len() as int,
        ));
    } else {
        assert(s.take(s.len() as int) =~= s);
    }
}

/// A non-empty trimmed string neither starts nor ends in whitespace.
pub proof fn lemma_trim_ends(s: Seq<char>)
    ensures
        trim_spec(s).len() > 0 ==> !is_space_char(trim_spec(s).first()),
        trim_spec(s).len() > 0 ==> !is_space_char(trim_spec(s).last()),
{
    let tl = trim_left_spec(s);
    let t = trim_spec(s);
    lemma_trim_left_first(s);
    lemma_trim_right_prefix(tl);
    if t.len() > 0 {
        assert(t.first() == tl.take(t.len() as int)[0]);
        assert(t.first() == tl.first());
    }
}

/// What normalization does, case by case: whitespace-only input
/// (empty included) becomes the empty string; a trimmed input that
/// already ends in the separator is unchanged; one that does not
/// gains exactly one.
pub proof fn lemma_normalize_cases(s: Seq<char>)
    ensures
        (forall|i: int| 0 <= i < s.len() ==> is_space_char(s[i])) ==> normalize_spec(s)
            == Seq::<char>::empty(),
        trim_spec(s).len() > 0 && trim_spec(s).last() == '/' ==> normalize_spec(s)
            == trim_spec(s),
        trim_spec(s).len() > 0 && trim_spec(s).last() != '/' ==> normalize_spec(s) == trim_spec(
            s,
        ).push('/'),
{
    if forall|i: int| 0 <= i < s.len() ==> is_space_char(s[i]) {
        lemma_trim_left_skip(s, s.len() as int);
        assert(s.skip(s.len() as int) =~= Seq::<char>::empty());
        assert(trim_left_spec(s) =~= Seq::<char>::empty());
        assert(trim_spec(s) =~= Seq::<char>::empty());
    }
}

/// Normalization is idempotent: running it on its own output changes
/// nothing.
pub proof fn lemma_normalize_idempotent(s: Seq<char>)
    ensures
        normalize_spec(normalize_spec(s)) == normalize_spec(s),
{
    let t = trim_spec(s);
    let r = normalize_spec(s);
    lemma_trim_ends(s);
    if t.len() == 0 {
        assert(trim_spec(r) =~= r);
    } else {
        assert(!is_space_char('/'));
        if t.last() == '/' {
            assert(r == t);
        } else {
            assert(r == t.push('/'));
            assert(r.first() == t.first());
            assert(r.last() == '/');
        }
        assert(r.len() > 0 && !is_space_char(r.first()) && !is_space_char(r.last()));
        assert(trim_left_spec(r) == r);
        assert(trim_right_spec(r) == r);
        assert(r.last() == '/');
    }
}

/// Trims `url` and, when the result is non-empty, makes sure it ends
/// in exactly one trailing `/`; whitespace-only input becomes the
/// empty string.
pub fn normalize_base_url(url: &str) -> (r: String)
    ensures
        r@ == normalize_spec(url@),
{
    let t = trim_str(url);
    let n = t.unicode_len();
    if n == 0 {
        let r = String::new();
        proof {
            assert(r@ =~= normalize_spec(url@));
        }
        r
    } else if t.get_char(n - 1) == '/' {
        proof {
            assert(t@.last() == '/');
        }
        t.to_owned()
    } else {
        proof {
            reveal_strlit("/");
        }
        let r = String::from_str(t).concat("/");
        proof {
            assert("/"@.len() == 1);
            assert(r@ =~= trim_spec(url@).push('/'));
        }
        r
    }
}

/// `needle` occurs somewhere in `hay` as a contiguous run of
/// characters.
pub open spec fn contains_substr(hay: Seq<char>, needle: Seq<char>) -> bool {
    exists|i: int|
        0 <= i && i + needle.len() <= hay.len() && #[trigger] hay.subrange(
            i,
            i + needle.len() as int,
        ) == needle
}

/// Substring search over the characters of the two strings.
pub fn str_contains(hay: &str, needle: &str) -> (r: bool)
    ensures
        r == contains_substr(hay@, needle@),
{
    let n = hay.unicode_len();
    let m = needle.unicode_len();
    if m > n {
        return false;
    }
    if m == 0 {
        proof {
            assert(hay@.subrange(0, 0 + needle@.len() as int) =~= needle@);
        }
        return true;
    }
    let mut i: usize = 0;
    while i <= n - m
        invariant
            0 < m <= n,
            n == hay@.len(),
            m == needle@.len(),
            i <= n - m + 1,
            forall|k: int| 0 <= k < i ==> #[trigger] hay@.subrange(k, k + m as int) != needle@,
        decreases n - m + 1 - i,
    {
        let mut j: usize = 0;
        while j < m && hay.get_char(i + j) == needle.get_char(j)
            invariant
                0 < m <= n,
                n == hay@.len(),
                m == needle@.len(),
                i + m <= n,
                j <= m,
                forall|l: int| 0 <= l < j ==> hay@[i + l] == needle@[l],
            decreases m - j,
        {
            j = j + 1;
        }
        if j == m {
            proof {
                assert(hay@.subrange(i as int, i + m as int) =~= needle@);
            }
            return true;
        }
        proof {
            assert(hay@.subrange(i as int, i + m as int)[j as int] == hay@[i + j]);
        }
        i = i + 1;
    }
    proof {
        assert forall|k: int| 0 <= k && k + m <= n implies #[trigger] hay@.subrange(
            k,
            k + m as int,
        ) != needle@ by {
            assert(k < i);
        }
    }
    false
}

/// The character for one decimal digit.
pub open spec fn digit_char(d: int) -> char {
    if d == 0 {
        '0'
    } else if d == 1 {
        '1'
    } else if d == 2 {
        '2'
    } else if d == 3 {
        '3'
    } else if d == 4 {
        '4'
    } else if d == 5 {
        '5'
    } else if d == 6 {
        '6'
    } else if d == 7 {
        '7'
    } else if d == 8 {
        '8'
    } else {
        '9'
    }
}

/// The decimal digits of a non-negative number, most significant
/// first.
pub open spec fn dec_digits(n: int) -> Seq<char>
    decreases n,
{
    if n < 10 {
        seq![digit_char(n)]
    } else {
        dec_digits(n / 10).push(digit_char(n % 10))
    }
}

fn digit_str(d: u16) -> (r: &'static str)
    requires
        d < 10,
    ensures
        r@ == seq![digit_char(d as int)],
{
    if d == 0 {
        proof {
            reveal_strlit("0");
            assert("0"@ =~= seq!['0']);
        }
        "0"
    } else if d == 1 {
        proof {
            reveal_strlit("1");
            assert("1"@ =~= seq!['1']);
        }
        "1"
    } else if d == 2 {
        proof {
            reveal_strlit("2");
            assert("2"@ =~= seq!['2']);
        }
        "2"
    } else if d == 3 {
        proof {
            reveal_strlit("3");
            assert("3"@ =~= seq!['3']);
        }
        "3"
    } else if d == 4 {
        proof {
            reveal_strlit("4");
            assert("4"@ =~= seq!['4']);
        }
        "4"
    } else if d == 5 {
        proof {
            reveal_strlit("5");
            assert("5"@ =~= seq!['5']);
        }
        "5"
    } else if d == 6 {
        proof {
            reveal_strlit("6");
            assert("6"@ =~= seq!['6']);
        }
        "6"
    } else if d == 7 {
        proof {
            reveal_strlit("7");
            assert("7"@ =~= seq!['7']);
        }
        "7"
    } else if d == 8 {
        proof {
            reveal_strlit("8");
            assert("8"@ =~= seq!['8']);
        }
        "8"
    } else {
        proof {
            reveal_strlit("9");
            assert("9"@ =~= seq!['9']);
        }
        "9"
    }
}

/// Formats a number as its decimal digits.
pub fn u16_to_string(n: u16) -> (r: String)
    ensures
        r@ == dec_digits(n as int),
    decreases n,
{
    if n < 10 {
        String::from_str(digit_str(n))
    } else {
        let prefix = u16_to_string(n / 10);
        let r = prefix.concat(digit_str(n % 10));
        proof {
            assert(r@ =~= dec_digits(n as int));
        }
        r
    }
}

} // verus!
