//! Character- and string-level helpers shared by the rest of the crate.

use vstd::prelude::*;
use vstd::string::*;

verus! {

// ----------------------------------------------------------------------------
// Outside character and string functions of std
// ----------------------------------------------------------------------------

/// Whether `c` carries the Unicode `White_Space` property (what `char::is_whitespace`
/// reports): tab, line feed, vertical tab, form feed, carriage return, space, next line,
/// no-break space, ogham space mark, the spaces U+2000 to U+200A, line and paragraph
/// separators, narrow no-break space, medium mathematical space and ideographic space.
pub open spec fn unicode_whitespace(c: char) -> bool {
    let v = c as u32;
    ||| 9 <= v <= 13
    ||| v == 0x20
    ||| v == 0x85
    ||| v == 0xA0
    ||| v == 0x1680
    ||| 0x2000 <= v <= 0x200A
    ||| v == 0x2028
    ||| v == 0x2029
    ||| v == 0x202F
    ||| v == 0x205F
    ||| v == 0x3000
}

/// Calls `char::is_whitespace`. Claimed: the result is `unicode_whitespace(c)`.
#[verifier::external_body]
pub(crate) fn is_whitespace(c: char) -> (r: bool)
    ensures
        r == unicode_whitespace(c),
{
    c.is_whitespace()
}

/// The characters that `char::to_uppercase` yields for `c` (one or more).
pub uninterp spec fn uppercase_of(c: char) -> Seq<char>;

/// Calls `char::to_uppercase` and collects the characters it yields. Claimed: the result
/// is `uppercase_of(c)`; an ASCII lowercase letter maps to its ASCII capital, and any
/// other ASCII character maps to itself.
#[verifier::external_body]
pub(crate) fn to_uppercase(c: char) -> (r: String)
    ensures
        r@ == uppercase_of(c),
        is_ascii_lower(c) ==> r@ == seq![ascii_upper(c)],
        (c as u32) < 128 && !is_ascii_lower(c) ==> r@ == seq![c],
{
    c.to_uppercase().collect()
}

/// The string that `str::to_lowercase` returns for `s`.
pub uninterp spec fn lowercase_of(s: Seq<char>) -> Seq<char>;

/// Calls `str::to_lowercase`. Claimed: the result is `lowercase_of(s)`, and for an all-ASCII
/// string it is the ASCII lowercase mapping of each character.
#[verifier::external_body]
pub(crate) fn to_lowercase(s: &str) -> (r: String)
    ensures
        r@ == lowercase_of(s@),
        all_ascii(s@) ==> r@ == ascii_lowercase(s@),
{
    s.to_lowercase()
}

/// Calls `String::push`. Claimed: the character is appended.
#[verifier::external_body]
pub(crate) fn push_char(s: &mut String, c: char)
    ensures
        final(s)@ == old(s)@.push(c),
{
    s.push(c)
}

// ----------------------------------------------------------------------------
// ASCII case
// ----------------------------------------------------------------------------

pub open spec fn is_ascii_lower(c: char) -> bool {
    97 <= c as u32 && c as u32 <= 122
}

pub open spec fn is_ascii_upper(c: char) -> bool {
    65 <= c as u32 && c as u32 <= 90
}

pub open spec fn all_ascii(s: Seq<char>) -> bool {
    forall|i: int| 0 <= i < s.len() ==> (#[trigger] s[i] as u32) < 128
}

pub open spec fn ascii_upper(c: char) -> char {
    if is_ascii_lower(c) {
        (c as u32 - 32) as char
    } else {
        c
    }
}

pub open spec fn ascii_lower(c: char) -> char {
    if is_ascii_upper(c) {
        (c as u32 + 32) as char
    } else {
        c
    }
}

pub open spec fn ascii_lowercase(s: Seq<char>) -> Seq<char> {
    s.map_values(|c: char| ascii_lower(c))
}

/// `char::to_ascii_lowercase`.
pub fn char_ascii_lower(c: char) -> (r: char)
    ensures
        r == ascii_lower(c),
{
    if 'A' <= c && c <= 'Z' {
        let b: u8 = c as u8;
        (b + 32) as char
    } else {
        c
    }
}

/// `str::to_ascii_lowercase`.
pub fn to_ascii_lowercase(s: &str) -> (r: String)
    ensures
        r@ == ascii_lowercase(s@),
{
    let v = chars_of(s);
    let mut out = String::new();
    let mut i: usize = 0;
    while i < v.len()
        invariant
            i <= v.len(),
            out@ == ascii_lowercase(v@.take(i as int)),
        decreases v.len() - i,
    {
        let c = char_ascii_lower(v[i]);
        push_char(&mut out, c);
        assert(v@.take(i + 1) == v@.take(i as int).push(v@[i as int]));
        i = i + 1;
    }
    assert(v@.take(v.len() as int) == v@);
    out
}

/// `str::eq_ignore_ascii_case`.
pub fn eq_ignore_ascii_case(a: &str, b: &str) -> (r: bool)
    ensures
        r == (ascii_lowercase(a@) == ascii_lowercase(b@)),
{
    let x = chars_of(a);
    let y = chars_of(b);
    if x.len() != y.len() {
        assert(ascii_lowercase(a@).len() != ascii_lowercase(b@).len());
        return false;
    }
    let mut i: usize = 0;
    while i < x.len()
        invariant
            i <= x.len(),
            x.len() == y.len(),
            x@ == a@,
            y@ == b@,
            forall|k: int| 0 <= k < i ==> ascii_lower(#[trigger] x@[k]) == ascii_lower(y@[k]),
        decreases x.len() - i,
    {
        if char_ascii_lower(x[i]) != char_ascii_lower(y[i]) {
            assert(ascii_lowercase(a@)[i as int] != ascii_lowercase(b@)[i as int]);
            return false;
        }
        i = i + 1;
    }
    assert(ascii_lowercase(a@) =~= ascii_lowercase(b@));
    true
}

/// Whether two strings hold the same characters.
pub fn same_text(a: &str, b: &str) -> (r: bool)
    ensures
        r == (a@ == b@),
{
    let x = chars_of(a);
    let y = chars_of(b);
    if x.len() != y.len() {
        return false;
    }
    let mut i: usize = 0;
    while i < x.len()
        invariant
            i <= x.len(),
            x.len() == y.len(),
            x@ == a@,
            y@ == b@,
            forall|k: int| 0 <= k < i ==> x@[k] == y@[k],
        decreases x.len() - i,
    {
        if x[i] != y[i] {
            return false;
        }
        i = i + 1;
    }
    assert(x@ =~= y@);
    true
}

pub open spec fn is_ascii_digit(c: char) -> bool {
    48 <= c as u32 && c as u32 <= 57
}

pub open spec fn is_ascii_alpha(c: char) -> bool {
    is_ascii_lower(c) || is_ascii_upper(c)
}

// ----------------------------------------------------------------------------
// Building strings
// ----------------------------------------------------------------------------

/// The characters of `s`, in order.
pub fn chars_of(s: &str) -> (v: Vec<char>)
    ensures
        v@ == s@,
{
    let mut v: Vec<char> = Vec::new();
    for c in it: s.chars()
        invariant
            v@ == it.seq().take(it.index() as int),
            it.seq() == s@,
    {
        v.push(c);
    }
    v
}

/// Appends the characters `v[from..to]` to `out`.
pub fn push_chars(out: &mut String, v: &Vec<char>, from: usize, to: usize)
    requires
        from <= to <= v.len(),
    ensures
        final(out)@ == old(out)@ + v@.subrange(from as int, to as int),
{
    let mut i = from;
    while i < to
        invariant
            from <= i <= to,
            to <= v.len(),
            out@ == old(out)@ + v@.subrange(from as int, i as int),
        decreases to - i,
    {
        push_char(out, v[i]);
        assert(v@.subrange(from as int, i + 1) == v@.subrange(from as int, i as int).push(
            v@[i as int],
        ));
        i = i + 1;
    }
}

/// A new string holding `a` followed by `b`.
pub fn concat_str(a: &str, b: &str) -> (r: String)
    ensures
        r@ == a@ + b@,
{
    let mut r = a.to_owned();
    r.append(b);
    r
}

// ----------------------------------------------------------------------------
// Decimal numerals
// ----------------------------------------------------------------------------

pub open spec fn digit_char(d: nat) -> char {
    (48 + d) as char
}

/// The decimal numeral of `n`, without sign or leading zeros.
pub open spec fn decimal(n: nat) -> Seq<char>
    decreases n,
{
    if n < 10 {
        seq![digit_char(n)]
    } else {
        decimal(n / 10).push(digit_char(n % 10))
    }
}

fn digit(d: u64) -> (c: char)
    requires
        d < 10,
    ensures
        c == digit_char(d as nat),
{
    let b: u8 = d as u8;
    (48u8 + b) as char
}

/// Appends the decimal numeral of `n` to `out`.
pub fn push_decimal(out: &mut String, n: u64)
    ensures
        final(out)@ == old(out)@ + decimal(n as nat),
    decreases n,
{
    if n >= 10 {
        push_decimal(out, n / 10);
    }
    let c = digit(n % 10);
    push_char(out, c);
}

/// The decimal numeral of `n` as a string.
pub fn decimal_string(n: u64) -> (r: String)
    ensures
        r@ == decimal(n as nat),
{
    let mut r = String::new();
    push_decimal(&mut r, n);
    r
}

// ----------------------------------------------------------------------------
// Trimming
// ----------------------------------------------------------------------------

/// `s` without its leading whitespace.
pub open spec fn trim_start(s: Seq<char>) -> Seq<char>
    decreases s.len(),
{
    if s.len() > 0 && unicode_whitespace(s[0]) {
        trim_start(s.drop_first())
    } else {
        s
    }
}

/// `s` without its trailing whitespace.
pub open spec fn trim_end(s: Seq<char>) -> Seq<char>
    decreases s.len(),
{
    if s.len() > 0 && unicode_whitespace(s.last()) {
        trim_end(s.drop_last())
    } else {
        s
    }
}

/// `s` without leading and trailing whitespace (what `str::trim` returns).
pub open spec fn trimmed(s: Seq<char>) -> Seq<char> {
    trim_end(trim_start(s))
}

/// `str::trim`, as an owned string.
pub fn trim(s: &str) -> (r: String)
    ensures
        r@ == trimmed(s@),
{
    let v = chars_of(s);
    let n = v.len();
    let mut i: usize = 0;
    assert(v@.skip(0) == v@);
    while i < n && is_whitespace(v[i])
        invariant
            i <= n,
            n == v.len(),
            trim_start(v@) == trim_start(v@.skip(i as int)),
            forall|k: int| 0 <= k < i ==> unicode_whitespace(#[trigger] v@[k]),
        decreases n - i,
    {
        assert(v@.skip(i as int).drop_first() == v@.skip(i + 1));
        i = i + 1;
    }
    assert(trim_start(v@) == v@.subrange(i as int, n as int)) by {
        assert(v@.skip(i as int) == v@.subrange(i as int, n as int));
    }
    let mut j: usize = n;
    while j > i && is_whitespace(v[j - 1])
        invariant
            i <= j <= n,
            n == v.len(),
            trim_end(v@.subrange(i as int, n as int)) == trim_end(v@.subrange(i as int, j as int)),
        decreases j - i,
    {
        assert(v@.subrange(i as int, j as int).drop_last() == v@.subrange(i as int, j - 1));
        j = j - 1;
    }
    let mut r = String::new();
    push_chars(&mut r, &v, i, j);
    r
}

/// True when `s` is empty or made only of whitespace.
pub fn is_blank(s: &str) -> (r: bool)
    ensures
        r == (trimmed(s@).len() == 0),
{
    let t = trim(s);
    t.as_str().is_empty()
}

// ----------------------------------------------------------------------------
// Words
// ----------------------------------------------------------------------------

/// The maximal runs of non-whitespace characters of `s`, in order (what
/// `str::split_whitespace` yields).
pub open spec fn words(s: Seq<char>) -> Seq<Seq<char>>
    decreases s.len(),
{
    if s.len() == 0 {
        seq![]
    } else {
        let prev = words(s.drop_last());
        let c = s.last();
        if unicode_whitespace(c) {
            prev
        } else if s.len() == 1 || unicode_whitespace(s[s.len() - 2]) {
            prev.push(seq![c])
        } else {
            prev.update(prev.len() - 1, prev.last().push(c))
        }
    }
}

/// The pieces of `parts` joined with `sep` between consecutive pieces (what
/// `[String]::join` returns).
pub open spec fn join(parts: Seq<Seq<char>>, sep: Seq<char>) -> Seq<char>
    decreases parts.len(),
{
    if parts.len() == 0 {
        seq![]
    } else if parts.len() == 1 {
        parts[0]
    } else {
        join(parts.drop_last(), sep) + sep + parts.last()
    }
}

/// Ending in a non-whitespace character, `s` has at least one word.
pub proof fn lemma_words_nonempty(s: Seq<char>)
    requires
        s.len() > 0,
        !unicode_whitespace(s.last()),
    ensures
        words(s).len() > 0,
    decreases s.len(),
{
    if s.len() > 1 && !unicode_whitespace(s[s.len() - 2]) {
        lemma_words_nonempty(s.drop_last());
    }
}

proof fn lemma_join_push(parts: Seq<Seq<char>>, sep: Seq<char>, w: Seq<char>)
    ensures
        join(parts.push(w), sep) == if parts.len() == 0 {
            w
        } else {
            join(parts, sep) + sep + w
        },
{
    assert(parts.push(w).drop_last() == parts);
}

proof fn lemma_join_extend_last(parts: Seq<Seq<char>>, sep: Seq<char>, c: char)
    requires
        parts.len() > 0,
    ensures
        join(parts.update(parts.len() - 1, parts.last().push(c)), sep) == join(parts, sep).push(c),
{
    let q = parts.update(parts.len() - 1, parts.last().push(c));
    if parts.len() == 1 {
    } else {
        assert(q.drop_last() == parts.drop_last());
        assert(join(q, sep) == join(parts.drop_last(), sep) + sep + parts.last().push(c));
        assert(join(q, sep) =~= join(parts, sep).push(c));
    }
}

/// Every piece is non-empty and holds no whitespace.
pub open spec fn solid(parts: Seq<Seq<char>>) -> bool {
    forall|k: int|
        0 <= k < parts.len() ==> (#[trigger] parts[k]).len() > 0 && forall|j: int|
            0 <= j < parts[k].len() ==> !unicode_whitespace(#[trigger] parts[k][j])
}

/// No whitespace at either end of `t`, and never two whitespace characters in a row.
pub open spec fn tidy(t: Seq<char>) -> bool {
    forall|i: int|
        0 <= i < t.len() && unicode_whitespace(#[trigger] t[i]) ==> 0 < i < t.len() - 1 && !unicode_whitespace(
            t[i - 1],
        ) && !unicode_whitespace(t[i + 1])
}

/// The words of any text are non-empty runs without whitespace.
pub proof fn lemma_words_solid(s: Seq<char>)
    ensures
        solid(words(s)),
    decreases s.len(),
{
    if s.len() > 0 {
        lemma_words_solid(s.drop_last());
        let prev = words(s.drop_last());
        let c = s.last();
        if unicode_whitespace(c) {
        } else if s.len() == 1 || unicode_whitespace(s[s.len() - 2]) {
            let w = prev.push(seq![c]);
            assert forall|k: int| 0 <= k < w.len() implies (#[trigger] w[k]).len() > 0 && forall|j: int|
                0 <= j < w[k].len() ==> !unicode_whitespace(#[trigger] w[k][j]) by {
                if k < prev.len() {
                    assert(w[k] == prev[k]);
                }
            }
        } else {
            lemma_words_nonempty(s.drop_last());
            let last = prev.last().push(c);
            let w = prev.update(prev.len() - 1, last);
            assert forall|k: int| 0 <= k < w.len() implies (#[trigger] w[k]).len() > 0 && forall|j: int|
                0 <= j < w[k].len() ==> !unicode_whitespace(#[trigger] w[k][j]) by {
                if k < prev.len() - 1 {
                    assert(w[k] == prev[k]);
                } else {
                    assert(w[k] == last);
                    assert(prev[prev.len() - 1] == prev.last());
                    assert forall|j: int| 0 <= j < last.len() implies !unicode_whitespace(#[trigger] last[j]) by {
                        if j < last.len() - 1 {
                            assert(last[j] == prev.last()[j]);
                        }
                    }
                }
            }
        }
    }
}

/// Joining solid pieces with single spaces gives a tidy text that starts and ends with
/// a non-whitespace character.
pub proof fn lemma_join_tidy(parts: Seq<Seq<char>>)
    requires
        solid(parts),
    ensures
        tidy(join(parts, seq![' '])),
        parts.len() > 0 ==> join(parts, seq![' ']).len() > 0 && !unicode_whitespace(join(parts, seq![' '])[0])
            && !unicode_whitespace(join(parts, seq![' ']).last()),
    decreases parts.len(),
{
    let t = join(parts, seq![' ']);
    if parts.len() == 0 {
    } else if parts.len() == 1 {
        assert(parts[0].len() > 0);
        assert(t == parts[0]);
        assert(!unicode_whitespace(t[0]));
        assert(!unicode_whitespace(t[t.len() - 1]));
    } else {
        let init = parts.drop_last();
        assert forall|k: int| 0 <= k < init.len() implies (#[trigger] init[k]).len() > 0 && forall|j: int|
            0 <= j < init[k].len() ==> !unicode_whitespace(#[trigger] init[k][j]) by {
            assert(init[k] == parts[k]);
        }
        lemma_join_tidy(init);
        let a = join(init, seq![' ']);
        let w = parts.last();
        assert(w == parts[parts.len() - 1]);
        assert(w.len() > 0);
        assert(t == a + seq![' '] + w);
        let n = a.len();
        assert forall|i: int| 0 <= i < t.len() && unicode_whitespace(#[trigger] t[i]) implies 0 < i < t.len() - 1
            && !unicode_whitespace(t[i - 1]) && !unicode_whitespace(t[i + 1]) by {
            if i < n {
                assert(t[i] == a[i]);
                assert(0 < i < n - 1);
                assert(t[i - 1] == a[i - 1]);
                assert(t[i + 1] == a[i + 1]);
            } else if i == n {
                assert(t[i - 1] == a[n - 1]);
                assert(t[i + 1] == w[0]);
            } else {
                assert(t[i] == w[i - n - 1]);
                assert(!unicode_whitespace(w[i - n - 1]));
            }
        }
        assert(t[0] == a[0]);
        assert(t.last() == w[w.len() - 1]);
    }
}

/// The words of `s` separated by single spaces (what
/// `s.split_whitespace().collect::<Vec<_>>().join(" ")` returns).
pub fn collapse_whitespace(s: &str) -> (r: String)
    ensures
        r@ == join(words(s@), seq![' ']),
        tidy(r@),
{
    let v = chars_of(s);
    let mut out = String::new();
    let mut has_word = false;
    let mut i: usize = 0;
    while i < v.len()
        invariant
            i <= v.len(),
            out@ == join(words(v@.take(i as int)), seq![' ']),
            has_word == (words(v@.take(i as int)).len() > 0),
        decreases v.len() - i,
    {
        let c = v[i];
        let ghost prefix = v@.take(i as int);
        let ghost next = v@.take(i + 1);
        assert(next.drop_last() == prefix);
        assert(next.last() == c);
        if is_whitespace(c) {
        } else if i == 0 || is_whitespace(v[i - 1]) {
            proof {
                if i > 0 {
                    assert(next[next.len() - 2] == v@[i - 1]);
                }
                lemma_join_push(words(prefix), seq![' '], seq![c]);
            }
            if has_word {
                push_char(&mut out, ' ');
            }
            push_char(&mut out, c);
            assert(out@ =~= join(words(next), seq![' ']));
            has_word = true;
        } else {
            proof {
                assert(next[next.len() - 2] == v@[i - 1]);
                assert(prefix.last() == v@[i - 1]);
                lemma_words_nonempty(prefix);
                lemma_join_extend_last(words(prefix), seq![' '], c);
            }
            push_char(&mut out, c);
        }
        i = i + 1;
    }
    assert(v@.take(v.len() as int) == v@);
    proof {
        lemma_words_solid(s@);
        lemma_join_tidy(words(s@));
    }
    out
}

/// The character sequences of a list of strings.
pub open spec fn string_views(v: Seq<String>) -> Seq<Seq<char>> {
    v.map_values(|m: String| m@)
}

/// The strings of `parts` joined with `sep` (what `parts.join(sep)` returns).
pub fn join_strings(parts: &Vec<String>, sep: &str) -> (r: String)
    ensures
        r@ == join(string_views(parts@), sep@),
{
    let ghost views = string_views(parts@);
    let mut out = String::new();
    let mut i: usize = 0;
    while i < parts.len()
        invariant
            i <= parts.len(),
            views == string_views(parts@),
            out@ == join(views.take(i as int), sep@),
        decreases parts.len() - i,
    {
        proof {
            assert(views.take(i + 1) == views.take(i as int).push(views[i as int]));
            lemma_join_push(views.take(i as int), sep@, views[i as int]);
        }
        if i > 0 {
            out.append(sep);
        }
        out.append(parts[i].as_str());
        i = i + 1;
    }
    assert(views.take(parts.len() as int) == views);
    out
}

// ----------------------------------------------------------------------------
// Lines and prefixes
// ----------------------------------------------------------------------------

/// Index of the first line feed of `s`, or `s.len()` when there is none.
pub open spec fn first_newline(s: Seq<char>) -> int
    decreases s.len(),
{
    if s.len() == 0 {
        0
    } else if s[0] == '\n' {
        0
    } else {
        1 + first_newline(s.drop_first())
    }
}

/// The first line of `s` as `str::lines` yields it: up to the first line feed, without a
/// carriage return that directly precedes that line feed.
pub open spec fn first_line(s: Seq<char>) -> Seq<char> {
    let k = first_newline(s);
    if k < s.len() && k > 0 && s[k - 1] == '\r' {
        s.take(k - 1)
    } else {
        s.take(k)
    }
}

/// The first line feed of `s` is found where it is: no line feed comes before it.
pub proof fn lemma_first_newline(s: Seq<char>)
    ensures
        0 <= first_newline(s) <= s.len(),
        first_newline(s) < s.len() ==> s[first_newline(s)] == '\n',
        forall|i: int| 0 <= i < first_newline(s) ==> s[i] != '\n',
    decreases s.len(),
{
    if s.len() > 0 && s[0] != '\n' {
        lemma_first_newline(s.drop_first());
        assert forall|i: int| 0 <= i < first_newline(s) implies s[i] != '\n' by {
            if i > 0 {
                assert(s[i] == s.drop_first()[i - 1]);
            }
        }
    }
}

/// The prefix of `s` up to (not including) its first line feed and without the carriage
/// return that precedes it.
pub fn first_line_of(s: &str) -> (r: String)
    ensures
        r@ == first_line(s@),
{
    let v = chars_of(s);
    let mut k: usize = 0;
    while k < v.len() && v[k] != '\n'
        invariant
            k <= v.len(),
            forall|i: int| 0 <= i < k ==> v@[i] != '\n',
        decreases v.len() - k,
    {
        k = k + 1;
    }
    proof {
        lemma_first_newline(v@);
        if first_newline(v@) < k {
            assert(v@[first_newline(v@)] == '\n');
        }
        if k < first_newline(v@) {
            assert(v@[k as int] == '\n');
        }
    }
    let end = if k < v.len() && k > 0 && v[k - 1] == '\r' {
        k - 1
    } else {
        k
    };
    let mut r = String::new();
    push_chars(&mut r, &v, 0, end);
    r
}

/// The first `n` characters of `s` (all of them when it is shorter).
pub fn take_chars(s: &str, n: usize) -> (r: String)
    ensures
        r@ == if s@.len() <= n {
            s@
        } else {
            s@.take(n as int)
        },
{
    let v = chars_of(s);
    let end = if v.len() <= n {
        v.len()
    } else {
        n
    };
    let mut r = String::new();
    push_chars(&mut r, &v, 0, end);
    assert(v@.subrange(0, v.len() as int) == v@);
    r
}

/// The prefix of `s` before its first occurrence of `sep` (all of `s` when `sep` does not
/// occur); what `s.split(sep).next().unwrap()` returns.
pub open spec fn before_first(s: Seq<char>, sep: char) -> Seq<char>
    decreases s.len(),
{
    if s.len() == 0 {
        s
    } else if s[0] == sep {
        seq![]
    } else {
        seq![s[0]] + before_first(s.drop_first(), sep)
    }
}

/// The part of `s` before the first `sep`.
pub fn prefix_before(s: &str, sep: char) -> (r: String)
    ensures
        r@ == before_first(s@, sep),
{
    let v = chars_of(s);
    let mut k: usize = 0;
    assert(v@.skip(0) == v@);
    assert(v@.take(0) + before_first(v@, sep) == before_first(v@, sep));
    while k < v.len() && v[k] != sep
        invariant
            k <= v.len(),
            before_first(v@, sep) == v@.take(k as int) + before_first(v@.skip(k as int), sep),
        decreases v.len() - k,
    {
        assert(v@.skip(k as int).drop_first() == v@.skip(k + 1));
        assert(v@.take(k + 1) == v@.take(k as int) + seq![v@[k as int]]);
        k = k + 1;
    }
    assert(v@.skip(k as int).len() == 0 ==> v@.take(k as int) == v@);
    let mut r = String::new();
    push_chars(&mut r, &v, 0, k);
    r
}

} // verus!
