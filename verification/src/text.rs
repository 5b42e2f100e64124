//! Character-level text handling shared by the rest of the library.

use vstd::prelude::*;

verus! {

/// The characters of a string slice, as a vector.
pub fn chars_of(s: &str) -> (v: Vec<char>)
    ensures
        v@ == s@,
{
    let n = s.unicode_len();
    let mut v: Vec<char> = Vec::new();
    let mut i: usize = 0;
    while i < n
        invariant
            n == s@.len(),
            i <= n,
            v@ == s@.subrange(0, i as int),
        decreases n - i,
    {
        let c = s.get_char(i);
        v.push(c);
        i = i + 1;
        assert(v@ =~= s@.subrange(0, i as int));
    }
    assert(v@ =~= s@);
    v
}

/// Appends one character to a string with `String::push`, which adds exactly that character
/// at the end.
#[verifier::external_body]
fn push_char(s: &mut String, c: char)
    ensures
        final(s)@ == old(s)@.push(c),
{
    s.push(c)
}

/// A string holding exactly the given characters.
pub fn string_of(v: &Vec<char>) -> (s: String)
    ensures
        s@ == v@,
{
    let mut s = String::new();
    let mut i: usize = 0;
    while i < v.len()
        invariant
            i <= v.len(),
            s@ == v@.subrange(0, i as int),
        decreases v.len() - i,
    {
        push_char(&mut s, v[i]);
        i = i + 1;
        assert(s@ =~= v@.subrange(0, i as int));
    }
    assert(v@ =~= v@.subrange(0, v@.len() as int));
    s
}

/// Whether two string slices hold the same characters.
pub fn same_chars(a: &str, b: &str) -> (r: bool)
    ensures
        r == (a@ == b@),
{
    let x = chars_of(a);
    let y = chars_of(b);
    if x.len() != y.len() {
        return false;
    }
    let mut i: usize = 0;
    while i < x.len()
        invariant
            x@ == a@,
            y@ == b@,
            x.len() == y.len(),
            i <= x.len(),
            forall|j: int| 0 <= j < i ==> x@[j] == y@[j],
        decreases x.len() - i,
    {
        if x[i] != y[i] {
            return false;
        }
        i = i + 1;
    }
    assert(x@ =~= y@);
    true
}


/// The decimal digit character for a value below ten.
pub open spec fn digit_char(d: nat) -> char {
    if d == 0 { '0' }
    else if d == 1 { '1' }
    else if d == 2 { '2' }
    else if d == 3 { '3' }
    else if d == 4 { '4' }
    else if d == 5 { '5' }
    else if d == 6 { '6' }
    else if d == 7 { '7' }
    else if d == 8 { '8' }
    else { '9' }
}

/// The decimal representation of a natural number, without leading zeros.
pub open spec fn decimal(n: nat) -> Seq<char>
    decreases n,
{
    if n < 10 {
        seq![digit_char(n)]
    } else {
        decimal(n / 10).push(digit_char(n % 10))
    }
}

/// A number below one hundred written with at least two digits.
pub open spec fn two_digits(n: nat) -> Seq<char> {
    if n < 10 {
        seq!['0', digit_char(n)]
    } else {
        decimal(n)
    }
}

fn digit(d: u64) -> (c: char)
    requires
        d < 10,
    ensures
        c == digit_char(d as nat),
{
    if d == 0 { '0' }
    else if d == 1 { '1' }
    else if d == 2 { '2' }
    else if d == 3 { '3' }
    else if d == 4 { '4' }
    else if d == 5 { '5' }
    else if d == 6 { '6' }
    else if d == 7 { '7' }
    else if d == 8 { '8' }
    else { '9' }
}

/// Writes a number in decimal.
pub fn decimal_string(n: u64) -> (s: String)
    ensures
        s@ == decimal(n as nat),
{
    let mut digits: Vec<char> = Vec::new();
    let mut m: u64 = n;
    // digits holds the low-order digits of n, least significant first
    while m >= 10
        invariant
            decimal(n as nat) == decimal(m as nat) + digits@.reverse(),
        decreases m,
    {
        let d = m % 10;
        digits.push(digit(d));
        proof {
            assert(decimal(m as nat) == decimal((m / 10) as nat).push(digit_char((m % 10) as nat)));
            assert(digits@.reverse() =~= seq![digit_char(d as nat)] + digits@.drop_last().reverse());
        }
        m = m / 10;
        assert(decimal(n as nat) =~= decimal(m as nat) + digits@.reverse());
    }
    let mut out: Vec<char> = Vec::new();
    out.push(digit(m));
    let mut i: usize = digits.len();
    while i > 0
        invariant
            i <= digits.len(),
            decimal(n as nat) == out@ + digits@.subrange(0, i as int).reverse(),
        decreases i,
    {
        i = i - 1;
        out.push(digits[i]);
        assert(digits@.subrange(0, i + 1).reverse() =~= seq![digits@[i as int]] + digits@.subrange(0, i as int).reverse());
        assert(decimal(n as nat) =~= out@ + digits@.subrange(0, i as int).reverse());
    }
    assert(out@ =~= decimal(n as nat));
    string_of(&out)
}

/// Writes a number below one hundred with at least two digits.
pub fn two_digit_string(n: u64) -> (s: String)
    requires
        n < 100,
    ensures
        s@ == two_digits(n as nat),
{
    if n < 10 {
        let mut v: Vec<char> = Vec::new();
        v.push('0');
        v.push(digit(n));
        assert(v@ =~= seq!['0', digit_char(n as nat)]);
        string_of(&v)
    } else {
        decimal_string(n)
    }
}


/// Whether a character has the Unicode White_Space property.
pub open spec fn is_white(c: char) -> bool {
    let u = c as u32;
    ||| 0x09 <= u <= 0x0D
    ||| u == 0x20
    ||| u == 0x85
    ||| u == 0xA0
    ||| u == 0x1680
    ||| 0x2000 <= u <= 0x200A
    ||| u == 0x2028
    ||| u == 0x2029
    ||| u == 0x202F
    ||| u == 0x205F
    ||| u == 0x3000
}

/// Tests a character for the Unicode White_Space property, as `char::is_whitespace` does.
pub fn is_whitespace(c: char) -> (r: bool)
    ensures
        r == is_white(c),
{
    let u = c as u32;
    (0x09 <= u && u <= 0x0D) || u == 0x20 || u == 0x85 || u == 0xA0 || u == 0x1680 || (0x2000
        <= u && u <= 0x200A) || u == 0x2028 || u == 0x2029 || u == 0x202F || u == 0x205F || u
        == 0x3000
}

/// Number of bytes in the UTF-8 encoding of a character.
pub open spec fn char_width(c: char) -> nat {
    let u = c as u32;
    if u < 0x80 {
        1
    } else if u < 0x800 {
        2
    } else if u < 0x10000 {
        3
    } else {
        4
    }
}

/// Number of bytes in the UTF-8 encoding of a character sequence.
pub open spec fn byte_len(s: Seq<char>) -> nat
    decreases s.len(),
{
    if s.len() == 0 {
        0
    } else {
        byte_len(s.drop_last()) + char_width(s.last())
    }
}

/// Encoded width of one character.
pub fn char_byte_width(c: char) -> (w: usize)
    ensures
        w == char_width(c),
        1 <= w <= 4,
{
    let u = c as u32;
    if u < 0x80 {
        1
    } else if u < 0x800 {
        2
    } else if u < 0x10000 {
        3
    } else {
        4
    }
}

/// A prefix never encodes to more bytes than the whole sequence.
pub proof fn lemma_byte_len_prefix(s: Seq<char>, k: int)
    requires
        0 <= k <= s.len(),
    ensures
        byte_len(s.subrange(0, k)) <= byte_len(s),
        byte_len(s) >= s.len(),
    decreases s.len(),
{
    if s.len() > 0 {
        if k < s.len() {
            lemma_byte_len_prefix(s.drop_last(), k);
            assert(s.drop_last().subrange(0, k) =~= s.subrange(0, k));
        } else {
            assert(s.subrange(0, k) =~= s);
            lemma_byte_len_prefix(s.drop_last(), 0);
        }
    }
}

/// Encoded length of a character sequence, saturating at the largest `usize`.
pub fn byte_length(v: &Vec<char>) -> (n: usize)
    ensures
        byte_len(v@) <= usize::MAX ==> n == byte_len(v@),
        byte_len(v@) > usize::MAX ==> n == usize::MAX,
{
    let mut n: usize = 0;
    let mut i: usize = 0;
    while i < v.len()
        invariant
            i <= v.len(),
            byte_len(v@.subrange(0, i as int)) <= usize::MAX ==> n == byte_len(v@.subrange(0, i as int)),
            byte_len(v@.subrange(0, i as int)) > usize::MAX ==> n == usize::MAX,
        decreases v.len() - i,
    {
        let w = char_byte_width(v[i]);
        assert(v@.subrange(0, i + 1).drop_last() =~= v@.subrange(0, i as int));
        if n > usize::MAX - w {
            n = usize::MAX;
        } else {
            n = n + w;
        }
        i = i + 1;
    }
    assert(v@.subrange(0, v@.len() as int) =~= v@);
    n
}

/// The words of a text: its maximal runs of non-whitespace characters,
/// computed left to right as the finished words and the word in progress.
pub open spec fn words_scan(s: Seq<char>) -> (Seq<Seq<char>>, Seq<char>)
    decreases s.len(),
{
    if s.len() == 0 {
        (seq![], seq![])
    } else {
        let (done, cur) = words_scan(s.drop_last());
        let c = s.last();
        if is_white(c) {
            if cur.len() > 0 {
                (done.push(cur), seq![])
            } else {
                (done, cur)
            }
        } else {
            (done, cur.push(c))
        }
    }
}

/// The whitespace-separated words of a text, in order, none of them empty.
pub open spec fn words(s: Seq<char>) -> Seq<Seq<char>> {
    let (done, cur) = words_scan(s);
    if cur.len() > 0 {
        done.push(cur)
    } else {
        done
    }
}

/// Splits a text at whitespace, dropping empty pieces.
pub fn split_whitespace(text: &Vec<char>) -> (ws: Vec<Vec<char>>)
    ensures
        ws@.len() == words(text@).len(),
        forall|i: int| 0 <= i < ws@.len() ==> #[trigger] ws@[i]@ == words(text@)[i],
{
    let mut done: Vec<Vec<char>> = Vec::new();
    let mut cur: Vec<char> = Vec::new();
    let mut i: usize = 0;
    while i < text.len()
        invariant
            i <= text.len(),
            done@.len() == words_scan(text@.subrange(0, i as int)).0.len(),
            forall|j: int| 0 <= j < done@.len() ==> #[trigger] done@[j]@ == words_scan(text@.subrange(0, i as int)).0[j],
            cur@ == words_scan(text@.subrange(0, i as int)).1,
        decreases text.len() - i,
    {
        let c = text[i];
        assert(text@.subrange(0, i + 1).drop_last() =~= text@.subrange(0, i as int));
        if is_whitespace(c) {
            if cur.len() > 0 {
                done.push(cur);
                cur = Vec::new();
            }
        } else {
            cur.push(c);
        }
        i = i + 1;
    }
    assert(text@.subrange(0, text@.len() as int) =~= text@);
    if cur.len() > 0 {
        done.push(cur);
    }
    done
}


/// The result of `char::is_alphanumeric`: the Unicode Alphabetic or Numeric property.
pub uninterp spec fn alphanumeric(c: char) -> bool;

/// Calls `char::is_alphanumeric`, which tests Unicode tables; its result is named, not stated.
#[verifier::external_body]
pub(crate) fn is_alphanumeric(c: char) -> (r: bool)
    ensures
        r == alphanumeric(c),
{
    c.is_alphanumeric()
}

/// The result of `str::to_lowercase` on a text: its Unicode lowercase mapping.
pub uninterp spec fn lowercase(s: Seq<char>) -> Seq<char>;

/// Calls `str::to_lowercase`, which applies the Unicode lowercase mapping; its result is named,
/// not stated.
#[verifier::external_body]
pub(crate) fn to_lowercase(s: &str) -> (r: String)
    ensures
        r@ == lowercase(s@),
{
    s.to_lowercase()
}

/// Drops leading characters that are not alphanumeric.
pub open spec fn trim_front(w: Seq<char>) -> Seq<char>
    decreases w.len(),
{
    if w.len() > 0 && !alphanumeric(w[0]) {
        trim_front(w.drop_first())
    } else {
        w
    }
}

/// Drops trailing characters that are not alphanumeric.
pub open spec fn trim_back(w: Seq<char>) -> Seq<char>
    decreases w.len(),
{
    if w.len() > 0 && !alphanumeric(w.last()) {
        trim_back(w.drop_last())
    } else {
        w
    }
}

/// A word with the non-alphanumeric characters at both ends removed.
pub open spec fn trim_non_alnum(w: Seq<char>) -> Seq<char> {
    trim_back(trim_front(w))
}

proof fn lemma_trim_front_at(w: Seq<char>, i: int)
    requires
        0 <= i <= w.len(),
        forall|j: int| 0 <= j < i ==> !alphanumeric(#[trigger] w[j]),
        i == w.len() || alphanumeric(w[i]),
    ensures
        trim_front(w) == w.subrange(i, w.len() as int),
    decreases i,
{
    if i == 0 {
        assert(w.subrange(0, w.len() as int) =~= w);
    } else {
        let t = w.drop_first();
        assert forall|j: int| 0 <= j < i - 1 implies !alphanumeric(#[trigger] t[j]) by {
            assert(t[j] == w[j + 1]);
        }
        lemma_trim_front_at(t, i - 1);
        assert(t.subrange(i - 1, t.len() as int) =~= w.subrange(i, w.len() as int));
    }
}

proof fn lemma_trim_back_at(w: Seq<char>, k: int)
    requires
        0 <= k <= w.len(),
        forall|j: int| k <= j < w.len() ==> !alphanumeric(#[trigger] w[j]),
        k == 0 || alphanumeric(w[k - 1]),
    ensures
        trim_back(w) == w.subrange(0, k),
    decreases w.len() - k,
{
    if k == w.len() {
        assert(w.subrange(0, k) =~= w);
    } else {
        let t = w.drop_last();
        assert forall|j: int| k <= j < t.len() implies !alphanumeric(#[trigger] t[j]) by {
            assert(t[j] == w[j]);
        }
        lemma_trim_back_at(t, k);
        assert(t.subrange(0, k) =~= w.subrange(0, k));
    }
}

/// Removes the non-alphanumeric characters at both ends of a word.
pub fn trim_non_alphanumeric(w: &Vec<char>) -> (r: Vec<char>)
    ensures
        r@ == trim_non_alnum(w@),
{
    let mut i: usize = 0;
    while i < w.len() && !is_alphanumeric(w[i])
        invariant
            i <= w.len(),
            forall|j: int| 0 <= j < i ==> !alphanumeric(#[trigger] w@[j]),
        decreases w.len() - i,
    {
        i = i + 1;
    }
    proof {
        lemma_trim_front_at(w@, i as int);
    }
    let mut k: usize = w.len();
    while k > i && !is_alphanumeric(w[k - 1])
        invariant
            i <= k <= w.len(),
            forall|j: int| k <= j < w.len() ==> !alphanumeric(#[trigger] w@[j]),
        decreases k,
    {
        k = k - 1;
    }
    let ghost front = w@.subrange(i as int, w@.len() as int);
    proof {
        assert forall|j: int| k - i <= j < front.len() implies !alphanumeric(#[trigger] front[j]) by {
            assert(front[j] == w@[j + i]);
        }
        if k > i {
            assert(front[k - i - 1] == w@[k - 1]);
        }
        lemma_trim_back_at(front, k - i);
    }
    let mut r: Vec<char> = Vec::new();
    let mut j: usize = i;
    while j < k
        invariant
            i <= j <= k <= w.len(),
            r@ == w@.subrange(i as int, j as int),
        decreases k - j,
    {
        r.push(w[j]);
        j = j + 1;
        assert(r@ =~= w@.subrange(i as int, j as int));
    }
    assert(r@ =~= front.subrange(0, k - i));
    r
}

/// The tokens of a sequence of words: each word trimmed of non-alphanumeric ends and lowercased,
/// keeping only those that encode to at least three bytes.
pub open spec fn tokens_of(ws: Seq<Seq<char>>) -> Seq<Seq<char>>
    decreases ws.len(),
{
    if ws.len() == 0 {
        seq![]
    } else {
        let rest = tokens_of(ws.drop_last());
        let t = lowercase(trim_non_alnum(ws.last()));
        if byte_len(t) >= 3 {
            rest.push(t)
        } else {
            rest
        }
    }
}

/// Every token encodes to at least three bytes, and there are never more tokens than words.
pub proof fn lemma_tokens_long(ws: Seq<Seq<char>>)
    ensures
        tokens_of(ws).len() <= ws.len(),
        forall|i: int| 0 <= i < tokens_of(ws).len() ==> byte_len(#[trigger] tokens_of(ws)[i]) >= 3,
    decreases ws.len(),
{
    if ws.len() > 0 {
        lemma_tokens_long(ws.drop_last());
        let r = tokens_of(ws);
        let p = tokens_of(ws.drop_last());
        assert forall|i: int| 0 <= i < r.len() implies byte_len(#[trigger] r[i]) >= 3 by {
            if i < p.len() {
                assert(r[i] == p[i]);
            }
        }
    }
}

/// The tokens of a text (see `tokens_of`).
pub open spec fn tokens(text: Seq<char>) -> Seq<Seq<char>> {
    tokens_of(words(text))
}

/// The lowercased, trimmed form of a word.
pub fn normalize_word(w: &Vec<char>) -> (r: String)
    ensures
        r@ == lowercase(trim_non_alnum(w@)),
{
    let t = trim_non_alphanumeric(w);
    let ts = string_of(&t);
    to_lowercase(ts.as_str())
}

/// Splits a title into lowercase tokens of at least three bytes, with non-alphanumeric
/// characters trimmed from both ends of each word.
pub fn tokenize(text: &str) -> (r: Vec<String>)
    ensures
        r@.len() == tokens(text@).len(),
        forall|i: int| 0 <= i < r@.len() ==> #[trigger] r@[i]@ == tokens(text@)[i],
{
    let cs = chars_of(text);
    let ws = split_whitespace(&cs);
    let ghost wv = words(text@);
    let mut r: Vec<String> = Vec::new();
    let mut i: usize = 0;
    while i < ws.len()
        invariant
            i <= ws.len(),
            ws@.len() == wv.len(),
            forall|j: int| 0 <= j < ws@.len() ==> #[trigger] ws@[j]@ == wv[j],
            r@.len() == tokens_of(wv.subrange(0, i as int)).len(),
            forall|j: int| 0 <= j < r@.len() ==> #[trigger] r@[j]@ == tokens_of(wv.subrange(0, i as int))[j],
        decreases ws.len() - i,
    {
        let t = normalize_word(&ws[i]);
        let tc = chars_of(t.as_str());
        let n = byte_length(&tc);
        proof {
            assert(wv.subrange(0, i + 1).drop_last() =~= wv.subrange(0, i as int));
            assert(wv.subrange(0, i + 1).last() == wv[i as int]);
        }
        if n >= 3 {
            r.push(t);
        }
        i = i + 1;
    }
    assert(wv.subrange(0, wv.len() as int) =~= wv);
    r
}

/// The lines of a text, scanned left to right as the finished lines and the line in progress.
pub open spec fn lines_scan(s: Seq<char>) -> (Seq<Seq<char>>, Seq<char>)
    decreases s.len(),
{
    if s.len() == 0 {
        (seq![], seq![])
    } else {
        let (done, cur) = lines_scan(s.drop_last());
        let c = s.last();
        if c == '\n' {
            (done.push(strip_cr(cur)), seq![])
        } else {
            (done, cur.push(c))
        }
    }
}

/// A line ended by a newline loses one carriage return before it.
pub open spec fn strip_cr(line: Seq<char>) -> Seq<char> {
    if line.len() > 0 && line.last() == '\r' {
        line.drop_last()
    } else {
        line
    }
}

/// The lines of a text: split after each newline, a carriage return just before a newline
/// dropped, and a last piece kept only when it is not empty.
pub open spec fn lines(s: Seq<char>) -> Seq<Seq<char>> {
    let (done, cur) = lines_scan(s);
    if cur.len() > 0 {
        done.push(cur)
    } else {
        done
    }
}

/// Splits a text into its lines (see `lines`).
pub fn split_lines(text: &str) -> (r: Vec<String>)
    ensures
        r@.len() == lines(text@).len(),
        forall|i: int| 0 <= i < r@.len() ==> #[trigger] r@[i]@ == lines(text@)[i],
{
    let cs = chars_of(text);
    let mut done: Vec<String> = Vec::new();
    let mut cur: Vec<char> = Vec::new();
    let mut i: usize = 0;
    while i < cs.len()
        invariant
            cs@ == text@,
            i <= cs.len(),
            done@.len() == lines_scan(cs@.subrange(0, i as int)).0.len(),
            forall|j: int| 0 <= j < done@.len() ==> #[trigger] done@[j]@ == lines_scan(cs@.subrange(0, i as int)).0[j],
            cur@ == lines_scan(cs@.subrange(0, i as int)).1,
        decreases cs.len() - i,
    {
        let c = cs[i];
        assert(cs@.subrange(0, i + 1).drop_last() =~= cs@.subrange(0, i as int));
        if c == '\n' {
            if cur.len() > 0 && cur[cur.len() - 1] == '\r' {
                cur.pop();
            }
            done.push(string_of(&cur));
            cur = Vec::new();
        } else {
            cur.push(c);
        }
        i = i + 1;
    }
    assert(cs@.subrange(0, cs@.len() as int) =~= cs@);
    if cur.len() > 0 {
        done.push(string_of(&cur));
    }
    done
}


/// Encoding one more character of a prefix adds that character's width.
pub proof fn lemma_byte_len_step(s: Seq<char>, k: int)
    requires
        0 <= k < s.len(),
    ensures
        byte_len(s.subrange(0, k + 1)) == byte_len(s.subrange(0, k)) + char_width(s[k]),
{
    assert(s.subrange(0, k + 1).drop_last() =~= s.subrange(0, k));
}

/// Longer prefixes encode to strictly more bytes.
pub proof fn lemma_byte_len_strict(s: Seq<char>, j: int, k: int)
    requires
        0 <= j < k <= s.len(),
    ensures
        byte_len(s.subrange(0, j)) < byte_len(s.subrange(0, k)),
    decreases k - j,
{
    lemma_byte_len_step(s, k - 1);
    if j < k - 1 {
        lemma_byte_len_strict(s, j, k - 1);
    }
}

/// Whether a byte offset falls between two characters of the text (or at either end).
pub open spec fn is_boundary(s: Seq<char>, b: int) -> bool {
    exists|k: int| 0 <= k <= s.len() && #[trigger] byte_len(s.subrange(0, k)) == b
}

/// The number of characters before a byte offset that falls between characters.
pub open spec fn boundary_index(s: Seq<char>, b: int) -> int {
    choose|k: int| 0 <= k <= s.len() && #[trigger] byte_len(s.subrange(0, k)) == b
}

/// Only one prefix encodes to a given number of bytes.
pub proof fn lemma_boundary_unique(s: Seq<char>, k: int)
    requires
        0 <= k <= s.len(),
    ensures
        is_boundary(s, byte_len(s.subrange(0, k)) as int),
        boundary_index(s, byte_len(s.subrange(0, k)) as int) == k,
{
    let b = byte_len(s.subrange(0, k)) as int;
    assert(is_boundary(s, b));
    let m = boundary_index(s, b);
    if m < k {
        lemma_byte_len_strict(s, m, k);
    } else if m > k {
        lemma_byte_len_strict(s, k, m);
    }
}

/// Finds how many characters precede a byte offset that falls between characters.
pub fn char_index_at(v: &Vec<char>, b: usize) -> (k: usize)
    requires
        is_boundary(v@, b as int),
    ensures
        k == boundary_index(v@, b as int),
        k <= v@.len(),
        byte_len(v@.subrange(0, k as int)) == b,
{
    let ghost target = boundary_index(v@, b as int);
    let mut i: usize = 0;
    let mut acc: usize = 0;
    assert(v@.subrange(0, 0) =~= Seq::<char>::empty());
    while acc < b
        invariant
            0 <= target <= v@.len(),
            v@.len() == v.len(),
            byte_len(v@.subrange(0, target)) == b,
            i <= target,
            acc == byte_len(v@.subrange(0, i as int)),
            acc <= b,
        decreases target - i,
    {
        proof {
            if i == target {
                assert(false);
            }
            lemma_byte_len_step(v@, i as int);
            if i + 1 < target {
                lemma_byte_len_strict(v@, i + 1, target);
            }
        }
        let w = char_byte_width(v[i]);
        acc = acc + w;
        i = i + 1;
    }
    proof {
        if i < target {
            lemma_byte_len_strict(v@, i as int, target);
        }
    }
    i
}


/// The text `String::from_utf8_lossy` makes of a byte string: invalid sequences replaced by
/// U+FFFD.
pub uninterp spec fn lossy_utf8(bytes: Seq<u8>) -> Seq<char>;

/// Decodes bytes as UTF-8 with `String::from_utf8_lossy`; bytes that are valid UTF-8 decode to
/// exactly their characters, and what invalid input gives is the named result `lossy_utf8`.
#[verifier::external_body]
pub(crate) fn utf8_lossy(bytes: &[u8]) -> (s: String)
    ensures
        s@ == lossy_utf8(bytes@),
        vstd::utf8::valid_utf8(bytes@) ==> s@ == vstd::utf8::decode_utf8(bytes@),
{
    String::from_utf8_lossy(bytes).into_owned()
}

/// Drops leading whitespace.
pub open spec fn trim_white_front(w: Seq<char>) -> Seq<char>
    decreases w.len(),
{
    if w.len() > 0 && is_white(w[0]) {
        trim_white_front(w.drop_first())
    } else {
        w
    }
}

/// Drops trailing whitespace.
pub open spec fn trim_white_back(w: Seq<char>) -> Seq<char>
    decreases w.len(),
{
    if w.len() > 0 && is_white(w.last()) {
        trim_white_back(w.drop_last())
    } else {
        w
    }
}

/// A text without whitespace at either end.
pub open spec fn trimmed(w: Seq<char>) -> Seq<char> {
    trim_white_back(trim_white_front(w))
}

proof fn lemma_trim_white_front_at(w: Seq<char>, i: int)
    requires
        0 <= i <= w.len(),
        forall|j: int| 0 <= j < i ==> is_white(#[trigger] w[j]),
        i == w.len() || !is_white(w[i]),
    ensures
        trim_white_front(w) == w.subrange(i, w.len() as int),
    decreases i,
{
    if i == 0 {
        assert(w.subrange(0, w.len() as int) =~= w);
    } else {
        let t = w.drop_first();
        assert forall|j: int| 0 <= j < i - 1 implies is_white(#[trigger] t[j]) by {
            assert(t[j] == w[j + 1]);
        }
        lemma_trim_white_front_at(t, i - 1);
        assert(t.subrange(i - 1, t.len() as int) =~= w.subrange(i, w.len() as int));
    }
}

proof fn lemma_trim_white_back_at(w: Seq<char>, k: int)
    requires
        0 <= k <= w.len(),
        forall|j: int| k <= j < w.len() ==> is_white(#[trigger] w[j]),
        k == 0 || !is_white(w[k - 1]),
    ensures
        trim_white_back(w) == w.subrange(0, k),
    decreases w.len() - k,
{
    if k == w.len() {
        assert(w.subrange(0, k) =~= w);
    } else {
        let t = w.drop_last();
        assert forall|j: int| k <= j < t.len() implies is_white(#[trigger] t[j]) by {
            assert(t[j] == w[j]);
        }
        lemma_trim_white_back_at(t, k);
        assert(t.subrange(0, k) =~= w.subrange(0, k));
    }
}

/// Removes whitespace from both ends of a text.
pub fn trim_whitespace(text: &str) -> (r: String)
    ensures
        r@ == trimmed(text@),
{
    let w = chars_of(text);
    let mut i: usize = 0;
    while i < w.len() && is_whitespace(w[i])
        invariant
            i <= w.len(),
            forall|j: int| 0 <= j < i ==> is_white(#[trigger] w@[j]),
        decreases w.len() - i,
    {
        i = i + 1;
    }
    proof {
        lemma_trim_white_front_at(w@, i as int);
    }
    let mut k: usize = w.len();
    while k > i && is_whitespace(w[k - 1])
        invariant
            i <= k <= w.len(),
            forall|j: int| k <= j < w.len() ==> is_white(#[trigger] w@[j]),
        decreases k,
    {
        k = k - 1;
    }
    let ghost front = w@.subrange(i as int, w@.len() as int);
    proof {
        assert forall|j: int| k - i <= j < front.len() implies is_white(#[trigger] front[j]) by {
            assert(front[j] == w@[j + i]);
        }
        if k > i {
            assert(front[k - i - 1] == w@[k - 1]);
        }
        lemma_trim_white_back_at(front, k - i);
    }
    let mut r: Vec<char> = Vec::new();
    let mut j: usize = i;
    while j < k
        invariant
            i <= j <= k <= w.len(),
            r@ == w@.subrange(i as int, j as int),
        decreases k - j,
    {
        r.push(w[j]);
        j = j + 1;
        assert(r@ =~= w@.subrange(i as int, j as int));
    }
    assert(r@ =~= front.subrange(0, k - i));
    string_of(&r)
}

} // verus!
