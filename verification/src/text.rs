//! Text operations shared by the parsers and request builders.
//!
//! A `String` is described by its view, a sequence of characters. Every function here states its
//! result over that view.
use vstd::prelude::*;

verus! {

/// `String::push` appends one character to the end of the string.
pub assume_specification[ String::push ](s: &mut String, c: char)
    ensures
        final(s)@ == old(s)@.push(c),
;

/// The characters of each string of a sequence.
pub open spec fn texts(v: Seq<String>) -> Seq<Seq<char>> {
    v.map_values(|s: String| s@)
}

/// The characters of an optional string.
pub open spec fn opt_text(o: Option<String>) -> Option<Seq<char>> {
    match o {
        Some(s) => Some(s@),
        None => None,
    }
}

/// The characters of an optional string slice.
pub open spec fn opt_str(o: Option<&str>) -> Option<Seq<char>> {
    match o {
        Some(s) => Some(s@),
        None => None,
    }
}

/// Lowercases an ASCII letter and leaves every other character alone.
pub open spec fn lower(c: char) -> char {
    if 'A' <= c && c <= 'Z' {
        ((c as u32 + 32) as u32) as char
    } else {
        c
    }
}

/// Lowercases the ASCII letters of a text.
pub open spec fn lowercase(s: Seq<char>) -> Seq<char> {
    s.map_values(|c: char| lower(c))
}

/// The White_Space property of Unicode.
pub open spec fn whitespace(c: char) -> bool {
    ||| '\u{9}' <= c <= '\u{d}'
    ||| c == ' '
    ||| c == '\u{85}'
    ||| c == '\u{a0}'
    ||| c == '\u{1680}'
    ||| '\u{2000}' <= c <= '\u{200a}'
    ||| c == '\u{2028}'
    ||| c == '\u{2029}'
    ||| c == '\u{202f}'
    ||| c == '\u{205f}'
    ||| c == '\u{3000}'
}

/// The position of the first `c` in `s`, or the length of `s` where there is none.
pub open spec fn find(s: Seq<char>, c: char) -> nat
    decreases s.len(),
{
    if s.len() == 0 || s[0] == c {
        0
    } else {
        1 + find(s.skip(1), c)
    }
}

/// The pieces of `s` between the separators `c`; a text without `c` is one piece.
pub open spec fn split(s: Seq<char>, c: char) -> Seq<Seq<char>>
    decreases s.len(),
{
    let k = find(s, c);
    if k < s.len() {
        seq![s.take(k as int)] + split(s.skip(k as int + 1), c)
    } else {
        seq![s]
    }
}

/// What stands before and after the first `c`.
pub open spec fn split_once(s: Seq<char>, c: char) -> Option<(Seq<char>, Seq<char>)> {
    let k = find(s, c);
    if k < s.len() {
        Some((s.take(k as int), s.skip(k as int + 1)))
    } else {
        None
    }
}

/// `s` without its leading white space.
pub open spec fn trim_start(s: Seq<char>) -> Seq<char>
    decreases s.len(),
{
    if s.len() > 0 && whitespace(s[0]) {
        trim_start(s.skip(1))
    } else {
        s
    }
}

/// `s` without its trailing white space.
pub open spec fn trim_end(s: Seq<char>) -> Seq<char>
    decreases s.len(),
{
    if s.len() > 0 && whitespace(s.last()) {
        trim_end(s.drop_last())
    } else {
        s
    }
}

/// `s` without its leading and trailing white space.
pub open spec fn trim(s: Seq<char>) -> Seq<char> {
    trim_end(trim_start(s))
}

/// `s` without the run of `c` at its end.
pub open spec fn trim_end_of(s: Seq<char>, c: char) -> Seq<char>
    decreases s.len(),
{
    if s.len() > 0 && s.last() == c {
        trim_end_of(s.drop_last(), c)
    } else {
        s
    }
}

/// The length of the run without white space at the start of `s`.
pub open spec fn word_len(s: Seq<char>) -> nat
    decreases s.len(),
{
    if s.len() == 0 || whitespace(s[0]) {
        0
    } else {
        1 + word_len(s.skip(1))
    }
}

pub proof fn lemma_word_len(s: Seq<char>)
    ensures
        word_len(s) <= s.len(),
        s.len() > 0 && !whitespace(s[0]) ==> word_len(s) > 0,
    decreases s.len(),
{
    if s.len() > 0 && !whitespace(s[0]) {
        lemma_word_len(s.skip(1));
    }
}

pub proof fn lemma_trim_start_len(s: Seq<char>)
    ensures
        trim_start(s).len() <= s.len(),
        trim_start(s).len() > 0 ==> !whitespace(trim_start(s)[0]),
    decreases s.len(),
{
    if s.len() > 0 && whitespace(s[0]) {
        lemma_trim_start_len(s.skip(1));
    }
}

/// The words of `s`: its maximal runs without white space.
pub open spec fn words(s: Seq<char>) -> Seq<Seq<char>>
    decreases s.len(),
{
    let t = trim_start(s);
    if t.len() == 0 {
        Seq::empty()
    } else {
        proof {
            lemma_trim_start_len(s);
            lemma_word_len(t);
        }
        seq![t.take(word_len(t) as int)] + words(t.skip(word_len(t) as int))
    }
}

/// The pieces in order, with `sep` between every two.
pub open spec fn join(pieces: Seq<Seq<char>>, sep: Seq<char>) -> Seq<char>
    decreases pieces.len(),
{
    if pieces.len() == 0 {
        Seq::empty()
    } else if pieces.len() == 1 {
        pieces[0]
    } else {
        join(pieces.drop_last(), sep) + sep + pieces.last()
    }
}

/// The digit `d` as a character.
pub open spec fn digit(d: nat) -> char {
    if d == 0 {
        '0'
    } else if d == 1 {
        '1'
    } else if d == 2 {
        '2'
    } else if d == 3 {
        '3'
    } else if d == 4 {
        '4'
    } else if d == 5 {
        '5'
    } else if d == 6 {
        '6'
    } else if d == 7 {
        '7'
    } else if d == 8 {
        '8'
    } else {
        '9'
    }
}

/// The decimal digits of `n`, without leading zeros.
pub open spec fn digits(n: nat) -> Seq<char>
    decreases n,
{
    if n < 10 {
        seq![digit(n)]
    } else {
        digits(n / 10).push(digit(n % 10))
    }
}

/// The decimal text of `n`.
pub open spec fn int_text(n: int) -> Seq<char> {
    if n < 0 {
        seq!['-'] + digits((-n) as nat)
    } else {
        digits(n as nat)
    }
}

/// Whether `c` is an ASCII digit.
pub open spec fn is_digit(c: char) -> bool {
    '0' <= c && c <= '9'
}

/// Whether `s` is a run of one or more digits.
pub open spec fn all_digits(s: Seq<char>) -> bool {
    s.len() > 0 && forall|i: int| 0 <= i < s.len() ==> is_digit(#[trigger] s[i])
}

/// The number that a run of digits denotes.
pub open spec fn digits_value(s: Seq<char>) -> nat
    decreases s.len(),
{
    if s.len() == 0 {
        0
    } else {
        10 * digits_value(s.drop_last()) + (s.last() as u32 - '0' as u32) as nat
    }
}

/// What a decimal integer denotes: an optional sign and one or more digits, in the range
/// `min..=max`. A minus sign is accepted only where the range has negative numbers.
pub open spec fn parsed_int(s: Seq<char>, min: int, max: int) -> Option<int> {
    let body = if s.len() > 0 && (s[0] == '+' || (s[0] == '-' && min < 0)) {
        s.skip(1)
    } else {
        s
    };
    let value = if s.len() > 0 && s[0] == '-' {
        -(digits_value(body) as int)
    } else {
        digits_value(body) as int
    };
    if all_digits(body) && min <= value <= max {
        Some(value)
    } else {
        None
    }
}

/// The characters of `s`.
pub fn chars_of(s: &str) -> (r: Vec<char>)
    ensures
        r@ == s@,
{
    let mut out: Vec<char> = Vec::new();
    for c in it: s.chars()
        invariant
            out@ == it.seq().take(it.index()),
            it.seq() == s@,
    {
        out.push(c);
    }
    proof {
        assert(s@.take(s@.len() as int) =~= s@);
    }
    out
}

/// The text made of the characters from `from` up to but not including `to`.
pub fn text_range(cs: &[char], from: usize, to: usize) -> (r: String)
    requires
        from <= to <= cs.len(),
    ensures
        r@ == cs@.subrange(from as int, to as int),
{
    let mut out = String::new();
    let mut i: usize = from;
    while i < to
        invariant
            from <= i <= to <= cs.len(),
            out@ == cs@.subrange(from as int, i as int),
        decreases to - i,
    {
        out.push(cs[i]);
        proof {
            assert(cs@.subrange(from as int, i as int + 1) =~= cs@.subrange(from as int, i as int).push(cs@[i as int]));
        }
        i += 1;
    }
    out
}

/// Whether two texts are the same.
pub fn same(a: &str, b: &str) -> (r: bool)
    ensures
        r == (a@ == b@),
{
    let x = chars_of(a);
    let y = chars_of(b);
    same_chars(&x, &y)
}

/// Whether two sequences of characters are the same.
pub fn same_chars(x: &[char], y: &[char]) -> (r: bool)
    ensures
        r == (x@ == y@),
{
    if x.len() != y.len() {
        return false;
    }
    let mut i: usize = 0;
    while i < x.len()
        invariant
            i <= x.len(),
            x.len() == y.len(),
            x@.take(i as int) == y@.take(i as int),
        decreases x.len() - i,
    {
        if x[i] != y[i] {
            proof {
                assert(x@[i as int] != y@[i as int]);
            }
            return false;
        }
        proof {
            assert(x@.take(i as int + 1) =~= x@.take(i as int).push(x@[i as int]));
            assert(y@.take(i as int + 1) =~= y@.take(i as int).push(y@[i as int]));
        }
        i += 1;
    }
    proof {
        assert(x@.take(x@.len() as int) =~= x@);
        assert(y@.take(y@.len() as int) =~= y@);
    }
    true
}

/// A copy of a string slice.
pub fn owned(s: &str) -> (r: String)
    ensures
        r@ == s@,
{
    let mut out = String::new();
    out.append(s);
    proof {
        assert(Seq::<char>::empty() + s@ =~= s@);
    }
    out
}

/// `a` followed by `b`.
pub fn concat2(a: &str, b: &str) -> (r: String)
    ensures
        r@ == a@ + b@,
{
    let mut out = owned(a);
    out.append(b);
    out
}

/// `a`, `b` and `c` in order.
pub fn concat3(a: &str, b: &str, c: &str) -> (r: String)
    ensures
        r@ == a@ + b@ + c@,
{
    let mut out = concat2(a, b);
    out.append(c);
    out
}

/// Lowercases an ASCII letter.
pub fn lower_char(c: char) -> (r: char)
    ensures
        r == lower(c),
{
    if 'A' <= c && c <= 'Z' {
        let code: u32 = c as u32;
        let b: u8 = (code + 32) as u8;
        b as char
    } else {
        c
    }
}

/// A copy of `s` with its ASCII letters lowercased.
pub fn to_lowercase(s: &str) -> (r: String)
    ensures
        r@ == lowercase(s@),
{
    let cs = chars_of(s);
    let mut out = String::new();
    let mut i: usize = 0;
    while i < cs.len()
        invariant
            i <= cs.len(),
            cs@ == s@,
            out@ == lowercase(s@.take(i as int)),
        decreases cs.len() - i,
    {
        out.push(lower_char(cs[i]));
        proof {
            assert(lowercase(s@.take(i as int + 1)) =~= lowercase(s@.take(i as int)).push(lower(s@[i as int])));
        }
        i += 1;
    }
    proof {
        assert(s@.take(s@.len() as int) =~= s@);
    }
    out
}

/// Whether two texts are the same up to the case of ASCII letters.
pub fn same_ignoring_case(a: &str, b: &str) -> (r: bool)
    ensures
        r == (lowercase(a@) == lowercase(b@)),
{
    let x = to_lowercase(a);
    let y = to_lowercase(b);
    same(&x, &y)
}

/// The first position of `c` is the one before which `c` does not occur.
pub proof fn lemma_find(s: Seq<char>, c: char, k: nat)
    requires
        k <= s.len(),
        forall|i: int| 0 <= i < k ==> s[i] != c,
        k < s.len() ==> s[k as int] == c,
    ensures
        find(s, c) == k,
    decreases s.len(),
{
    if k > 0 {
        assert(s[0] != c);
        assert forall|i: int| 0 <= i < k - 1 implies s.skip(1)[i] != c by {
            assert(s.skip(1)[i] == s[i + 1]);
        }
        lemma_find(s.skip(1), c, (k - 1) as nat);
    }
}

pub proof fn lemma_find_bound(s: Seq<char>, c: char)
    ensures
        find(s, c) <= s.len(),
        find(s, c) < s.len() ==> s[find(s, c) as int] == c,
        forall|i: int| 0 <= i < find(s, c) ==> s[i] != c,
    decreases s.len(),
{
    if s.len() > 0 && s[0] != c {
        lemma_find_bound(s.skip(1), c);
        assert forall|i: int| 0 <= i < find(s, c) implies s[i] != c by {
            if i > 0 {
                assert(s.skip(1)[i - 1] == s[i]);
            }
        }
    }
}

/// Whether a character does not occur in a text.
pub open spec fn lacks(s: Seq<char>, c: char) -> bool {
    forall|i: int| 0 <= i < s.len() ==> #[trigger] s[i] != c
}

/// A text is divided at its first separator.
pub proof fn lemma_split_once(a: Seq<char>, c: char, b: Seq<char>)
    requires
        lacks(a, c),
    ensures
        split_once(a + seq![c] + b, c) == Some((a, b)),
{
    let s = a + seq![c] + b;
    lemma_find(s, c, a.len());
    assert(s.take(a.len() as int) =~= a);
    assert(s.skip(a.len() as int + 1) =~= b);
}

/// A text with one separator has two pieces.
pub proof fn lemma_split_in_two(a: Seq<char>, c: char, b: Seq<char>)
    requires
        lacks(a, c),
        lacks(b, c),
    ensures
        split(a + seq![c] + b, c) == seq![a, b],
{
    let s = a + seq![c] + b;
    lemma_find(s, c, a.len());
    assert(s.take(a.len() as int) =~= a);
    assert(s.skip(a.len() as int + 1) =~= b);
    lemma_unsplit(b, c);
    assert(split(s, c) =~= seq![a, b]);
}

/// A text without a separator is one piece.
pub proof fn lemma_unsplit(s: Seq<char>, c: char)
    requires
        lacks(s, c),
    ensures
        split(s, c) == seq![s],
{
    lemma_find(s, c, s.len());
}

/// The position of the first `c` at or after `from`, or the length where there is none.
pub fn find_from(cs: &[char], c: char, from: usize) -> (r: usize)
    requires
        from <= cs.len(),
    ensures
        from <= r <= cs.len(),
        r == from + find(cs@.skip(from as int), c),
{
    let mut i: usize = from;
    while i < cs.len() && cs[i] != c
        invariant
            from <= i <= cs.len(),
            forall|j: int| from <= j < i ==> cs@[j] != c,
        decreases cs.len() - i,
    {
        i += 1;
    }
    proof {
        let t = cs@.skip(from as int);
        assert forall|j: int| 0 <= j < i - from implies t[j] != c by {
            assert(t[j] == cs@[j + from]);
        }
        lemma_find(t, c, (i - from) as nat);
    }
    i
}

/// The pieces of `s` between the separators `c`.
pub fn split_text(s: &str, c: char) -> (r: Vec<String>)
    ensures
        texts(r@) == split(s@, c),
{
    let cs = chars_of(s);
    let mut out: Vec<String> = Vec::new();
    let mut start: usize = 0;
    proof {
        assert(cs@.skip(0) =~= s@);
        assert(texts(out@) + split(s@, c) =~= split(s@, c));
    }
    loop
        invariant
            start <= cs.len(),
            cs@ == s@,
            texts(out@) + split(cs@.skip(start as int), c) == split(s@, c),
        decreases cs.len() - start,
    {
        let k: usize = find_from(&cs, c, start);
        let ghost before = texts(out@);
        let ghost rest = cs@.skip(start as int);
        out.push(text_range(&cs, start, k));
        proof {
            assert(cs@.subrange(start as int, k as int) =~= rest.take(k - start));
            assert(texts(out@) =~= before.push(rest.take(k - start)));
            if k < cs.len() {
                assert(rest.skip(k - start + 1) =~= cs@.skip(k + 1));
                assert(before + (seq![rest.take(k - start)] + split(cs@.skip(k + 1), c))
                    =~= texts(out@) + split(cs@.skip(k + 1), c));
            } else {
                assert(rest.take(k - start) =~= rest);
                assert(before + seq![rest] =~= texts(out@));
            }
        }
        if k == cs.len() {
            return out;
        }
        start = k + 1;
    }
}

/// What stands before and after the first `c` of `s`, or `None` where there is no `c`.
pub fn split_once_text(s: &str, c: char) -> (r: Option<(String, String)>)
    ensures
        match r {
            Some((a, b)) => split_once(s@, c) == Some((a@, b@)),
            None => split_once(s@, c) is None,
        },
{
    let cs = chars_of(s);
    let k: usize = find_from(&cs, c, 0);
    proof {
        assert(cs@.skip(0) =~= s@);
    }
    if k == cs.len() {
        return None;
    }
    let a = text_range(&cs, 0, k);
    let b = text_range(&cs, k + 1, cs.len());
    proof {
        assert(a@ =~= s@.take(k as int));
        assert(b@ =~= s@.skip(k as int + 1));
    }
    Some((a, b))
}

/// Whether a character is white space.
pub fn is_whitespace(c: char) -> (r: bool)
    ensures
        r == whitespace(c),
{
    ('\u{9}' <= c && c <= '\u{d}') || c == ' ' || c == '\u{85}' || c == '\u{a0}' || c == '\u{1680}' || (
    '\u{2000}' <= c && c <= '\u{200a}') || c == '\u{2028}' || c == '\u{2029}' || c == '\u{202f}' || c
        == '\u{205f}' || c == '\u{3000}'
}

/// The position of the first character at or after `from` that is not white space.
fn skip_whitespace(cs: &[char], from: usize) -> (r: usize)
    requires
        from <= cs.len(),
    ensures
        from <= r <= cs.len(),
        cs@.skip(r as int) == trim_start(cs@.skip(from as int)),
{
    let mut i: usize = from;
    while i < cs.len() && is_whitespace(cs[i])
        invariant
            from <= i <= cs.len(),
            trim_start(cs@.skip(i as int)) == trim_start(cs@.skip(from as int)),
        decreases cs.len() - i,
    {
        proof {
            assert(cs@.skip(i as int).skip(1) =~= cs@.skip(i as int + 1));
        }
        i += 1;
    }
    i
}

/// `s` without its leading and trailing white space.
pub fn trim_text(s: &str) -> (r: String)
    ensures
        r@ == trim(s@),
{
    let cs = chars_of(s);
    let from: usize = skip_whitespace(&cs, 0);
    let mut to: usize = cs.len();
    proof {
        assert(cs@.skip(0) =~= s@);
        assert(cs@.subrange(from as int, cs@.len() as int) =~= cs@.skip(from as int));
    }
    while to > from && is_whitespace(cs[to - 1])
        invariant
            from <= to <= cs.len(),
            trim_end(cs@.subrange(from as int, to as int)) == trim(s@),
        decreases to,
    {
        proof {
            let t = cs@.subrange(from as int, to as int);
            assert(t.last() == cs@[to - 1]);
            assert(t.drop_last() =~= cs@.subrange(from as int, to - 1));
        }
        to -= 1;
    }
    proof {
        let t = cs@.subrange(from as int, to as int);
        if to > from {
            assert(t.last() == cs@[to - 1]);
        }
    }
    text_range(&cs, from, to)
}

/// `s` without the run of `c` at its end.
pub fn trim_end_of_text(s: &str, c: char) -> (r: String)
    ensures
        r@ == trim_end_of(s@, c),
{
    let cs = chars_of(s);
    let mut to: usize = cs.len();
    proof {
        assert(cs@.subrange(0, cs@.len() as int) =~= s@);
    }
    while to > 0 && cs[to - 1] == c
        invariant
            to <= cs.len(),
            trim_end_of(cs@.subrange(0, to as int), c) == trim_end_of(s@, c),
        decreases to,
    {
        proof {
            let t = cs@.subrange(0, to as int);
            assert(t.last() == cs@[to - 1]);
            assert(t.drop_last() =~= cs@.subrange(0, to - 1));
        }
        to -= 1;
    }
    proof {
        if to > 0 {
            assert(cs@.subrange(0, to as int).last() == cs@[to - 1]);
        }
    }
    text_range(&cs, 0, to)
}

proof fn lemma_word_len_is(s: Seq<char>, k: nat)
    requires
        k <= s.len(),
        forall|i: int| 0 <= i < k ==> !whitespace(#[trigger] s[i]),
        k < s.len() ==> whitespace(s[k as int]),
    ensures
        word_len(s) == k,
    decreases s.len(),
{
    if k > 0 {
        assert(!whitespace(s[0]));
        assert forall|i: int| 0 <= i < k - 1 implies !whitespace(#[trigger] s.skip(1)[i]) by {
            assert(s.skip(1)[i] == s[i + 1]);
        }
        lemma_word_len_is(s.skip(1), (k - 1) as nat);
    }
}

/// The words of `s`.
pub fn words_of(s: &str) -> (r: Vec<String>)
    ensures
        texts(r@) == words(s@),
{
    let cs = chars_of(s);
    let mut out: Vec<String> = Vec::new();
    let mut at: usize = 0;
    proof {
        assert(cs@.skip(0) =~= s@);
        assert(texts(out@) + words(s@) =~= words(s@));
    }
    loop
        invariant
            at <= cs.len(),
            cs@ == s@,
            texts(out@) + words(cs@.skip(at as int)) == words(s@),
        decreases cs.len() - at,
    {
        let from: usize = skip_whitespace(&cs, at);
        let ghost t = cs@.skip(from as int);
        let ghost before = texts(out@);
        if from == cs.len() {
            proof {
                assert(t.len() == 0);
                assert(before + words(cs@.skip(at as int)) =~= before);
            }
            return out;
        }
        proof {
            lemma_trim_start_len(cs@.skip(at as int));
            assert(t[0] == cs@[from as int]);
        }
        let mut to: usize = from;
        while to < cs.len() && !is_whitespace(cs[to])
            invariant
                from <= to <= cs.len(),
                t == cs@.skip(from as int),
                forall|i: int| 0 <= i < to - from ==> !whitespace(#[trigger] t[i]),
            decreases cs.len() - to,
        {
            proof {
                assert(t[to - from] == cs@[to as int]);
            }
            to += 1;
        }
        proof {
            if to < cs.len() {
                assert(t[to - from] == cs@[to as int]);
            }
            lemma_word_len_is(t, (to - from) as nat);
            assert(to > from);
        }
        out.push(text_range(&cs, from, to));
        proof {
            assert(cs@.subrange(from as int, to as int) =~= t.take(to - from));
            assert(t.skip(to - from) =~= cs@.skip(to as int));
            assert(texts(out@) =~= before.push(t.take(to - from)));
            assert(before + (seq![t.take(to - from)] + words(cs@.skip(to as int)))
                =~= texts(out@) + words(cs@.skip(to as int)));
        }
        at = to;
    }
}

/// The pieces from position `from` on, in order, with `sep` between every two.
pub fn join_from(pieces: &[String], from: usize, sep: &str) -> (r: String)
    requires
        from <= pieces.len(),
    ensures
        r@ == join(texts(pieces@).skip(from as int), sep@),
{
    let mut out = String::new();
    let mut i: usize = from;
    let ghost all = texts(pieces@).skip(from as int);
    proof {
        assert(all.take(0) =~= Seq::<Seq<char>>::empty());
    }
    while i < pieces.len()
        invariant
            from <= i <= pieces.len(),
            all == texts(pieces@).skip(from as int),
            out@ == join(all.take(i - from), sep@),
        decreases pieces.len() - i,
    {
        proof {
            let next = all.take(i - from + 1);
            assert(next.drop_last() =~= all.take(i - from));
            assert(next.last() == pieces@[i as int]@);
        }
        if i > from {
            out.append(sep);
        }
        out.append(&pieces[i]);
        proof {
            let next = all.take(i - from + 1);
            if i == from {
                assert(out@ =~= next[0]);
            }
        }
        i += 1;
    }
    proof {
        assert(all.take(all.len() as int) =~= all);
    }
    out
}

/// The digit `d` as a character.
pub fn digit_char(d: u8) -> (r: char)
    requires
        d < 10,
    ensures
        r == digit(d as nat),
        is_digit(r),
        r as u32 == '0' as u32 + d,
{
    (48 + d) as char
}

/// Appends the decimal digits of `n`.
pub fn push_digits(out: &mut String, n: u64)
    ensures
        final(out)@ == old(out)@ + digits(n as nat),
    decreases n,
{
    if n >= 10 {
        push_digits(out, n / 10);
    }
    out.push(digit_char((n % 10) as u8));
    proof {
        assert(out@ =~= old(out)@ + digits(n as nat));
    }
}

/// The decimal text of an unsigned number.
pub fn unsigned_text(n: u64) -> (r: String)
    ensures
        r@ == int_text(n as int),
{
    let mut out = String::new();
    push_digits(&mut out, n);
    proof {
        assert(out@ =~= digits(n as nat));
    }
    out
}

/// The decimal text of a signed number.
pub fn signed_text(n: i64) -> (r: String)
    ensures
        r@ == int_text(n as int),
{
    let mut out = String::new();
    if n < 0 {
        out.push('-');
        let magnitude: u64 = (-(n as i128)) as u64;
        push_digits(&mut out, magnitude);
        proof {
            assert(out@ =~= int_text(n as int));
        }
    } else {
        push_digits(&mut out, n as u64);
        proof {
            assert(out@ =~= int_text(n as int));
        }
    }
    out
}

proof fn lemma_digits_value_mono(s: Seq<char>, i: int)
    requires
        0 <= i <= s.len(),
        forall|j: int| 0 <= j < s.len() ==> is_digit(#[trigger] s[j]),
    ensures
        digits_value(s.take(i)) <= digits_value(s),
    decreases s.len() - i,
{
    if i < s.len() {
        lemma_digits_value_mono(s, i + 1);
        assert(s.take(i + 1).drop_last() =~= s.take(i));
    } else {
        assert(s.take(i) =~= s);
    }
}

/// Parses a decimal integer in the range `min..=max`.
fn parse_int(s: &str, min: i64, max: i64) -> (r: Option<i64>)
    requires
        min == 0 || min == i64::MIN,
    ensures
        match r {
            Some(v) => parsed_int(s@, min as int, max as int) == Some(v as int),
            None => parsed_int(s@, min as int, max as int) is None,
        },
{
    let cs = chars_of(s);
    let negative: bool = cs.len() > 0 && cs[0] == '-';
    let start: usize = if cs.len() > 0 && (cs[0] == '+' || (cs[0] == '-' && min < 0)) {
        1
    } else {
        0
    };
    let ghost body = if start == 1 { s@.skip(1) } else { s@ };
    proof {
        assert(cs@.skip(start as int) =~= body);
    }
    if cs.len() == start {
        return None;
    }
    let mut value: i128 = 0;
    let mut i: usize = start;
    proof {
        assert(body.take(0) =~= Seq::<char>::empty());
    }
    while i < cs.len()
        invariant
            start <= i <= cs.len(),
            cs@ == s@,
            start < cs.len(),
            start == if s@[0] == '+' || (s@[0] == '-' && min < 0) {
                1int
            } else {
                0int
            },
            body == cs@.skip(start as int),
            value == digits_value(body.take(i - start)),
            0 <= value <= 0x8000_0000_0000_0000,
            forall|j: int| 0 <= j < i - start ==> is_digit(#[trigger] body[j]),
        decreases cs.len() - i,
    {
        let c: char = cs[i];
        proof {
            assert(body[i - start] == c);
            assert(body.take(i - start + 1).drop_last() =~= body.take(i - start));
        }
        if !('0' <= c && c <= '9') {
            proof {
                assert(s@.skip(0) =~= s@);
            }
            return None;
        }
        let d: u32 = c as u32 - '0' as u32;
        let next: i128 = value * 10 + d as i128;
        if next > 0x8000_0000_0000_0000 {
            proof {
                assert(s@.skip(0) =~= s@);
                if all_digits(body) {
                    lemma_digits_value_mono(body, i - start + 1);
                }
            }
            return None;
        }
        value = next;
        i += 1;
    }
    proof {
        assert(body.take(body.len() as int) =~= body);
        assert(all_digits(body));
    }
    let signed: i128 = if negative { -value } else { value };
    if signed < min as i128 || signed > max as i128 {
        return None;
    }
    Some(signed as i64)
}

/// Parses a signed 64-bit decimal integer.
pub fn parse_i64(s: &str) -> (r: Option<i64>)
    ensures
        match r {
            Some(v) => parsed_int(s@, i64::MIN as int, i64::MAX as int) == Some(v as int),
            None => parsed_int(s@, i64::MIN as int, i64::MAX as int) is None,
        },
{
    parse_int(s, i64::MIN, i64::MAX)
}

/// Parses an unsigned 32-bit decimal integer.
pub fn parse_u32(s: &str) -> (r: Option<u32>)
    ensures
        match r {
            Some(v) => parsed_int(s@, 0, u32::MAX as int) == Some(v as int),
            None => parsed_int(s@, 0, u32::MAX as int) is None,
        },
{
    match parse_int(s, 0, u32::MAX as i64) {
        Some(v) => Some(v as u32),
        None => None,
    }
}

/// The digits of a number are digits, and they denote it.
pub proof fn digits_denote(n: nat)
    ensures
        all_digits(digits(n)),
        digits_value(digits(n)) == n,
    decreases n,
{
    if n < 10 {
        assert(digits(n).drop_last() =~= Seq::<char>::empty());
        assert(digits_value(digits(n).drop_last()) == 0);
    } else {
        digits_denote(n / 10);
        let d = digits(n);
        assert(d.drop_last() =~= digits(n / 10));
        assert(d.last() == digit(n % 10));
        assert forall|i: int| 0 <= i < d.len() implies is_digit(#[trigger] d[i]) by {
            if i < d.len() - 1 {
                assert(d[i] == digits(n / 10)[i]);
            }
        }
    }
}

/// Whether `s` has `word` at position `at`.
pub open spec fn word_at(s: Seq<char>, at: int, word: Seq<char>) -> bool {
    0 <= at && at + word.len() <= s.len() && s.subrange(at, at + word.len()) == word
}

/// The last position of `word` in `s` that is not behind `from`, or a negative number where there is
/// none.
pub open spec fn rfind(s: Seq<char>, word: Seq<char>, from: int) -> int
    decreases from + 1,
{
    if from < 0 || word_at(s, from, word) {
        from
    } else {
        rfind(s, word, from - 1)
    }
}

/// What stands after the last `word` in `s`.
pub open spec fn after_last(s: Seq<char>, word: Seq<char>) -> Option<Seq<char>> {
    let k = rfind(s, word, s.len() - word.len());
    if k < 0 {
        None
    } else {
        Some(s.skip(k + word.len()))
    }
}

/// The text of a string as a Rust string literal.
pub uninterp spec fn debug_text(s: Seq<char>) -> Seq<char>;

/// The `Debug` form of a string slice: in quotes, with its special characters escaped. It depends
/// on the characters alone.
#[verifier::external_body]
pub(crate) fn quoted(s: &str) -> (r: String)
    ensures
        r@ == debug_text(s@),
{
    format!("{s:?}")
}

/// Whether `word` stands at position `at`.
pub fn has_word(cs: &[char], at: usize, word: &str) -> (r: bool)
    requires
        at <= cs.len(),
    ensures
        r == word_at(cs@, at as int, word@),
{
    let w = chars_of(word);
    if w.len() > cs.len() - at {
        return false;
    }
    let mut i: usize = 0;
    while i < w.len()
        invariant
            i <= w.len(),
            w@ == word@,
            at + w.len() <= cs.len(),
            forall|j: int| 0 <= j < i ==> cs@[at + j] == w@[j],
        decreases w.len() - i,
    {
        if cs[at + i] != w[i] {
            proof {
                assert(cs@.subrange(at as int, at + w@.len())[i as int] != w@[i as int]);
            }
            return false;
        }
        i += 1;
    }
    proof {
        assert(cs@.subrange(at as int, at + w@.len()) =~= w@);
    }
    true
}

/// What stands after the last `word` of `s`.
pub fn after_last_text(s: &str, word: &str) -> (r: Option<String>)
    ensures
        opt_text(r) == after_last(s@, word@),
{
    let cs = chars_of(s);
    let n: usize = chars_of(word).len();
    if n > cs.len() {
        return None;
    }
    let mut k: usize = cs.len() - n;
    loop
        invariant
            cs@ == s@,
            n == word@.len(),
            k + n <= cs.len(),
            rfind(s@, word@, k as int) == rfind(s@, word@, s@.len() - word@.len()),
        decreases k,
    {
        if has_word(&cs, k, word) {
            let rest = text_range(&cs, k + n, cs.len());
            proof {
                assert(rest@ =~= s@.skip(k + n));
            }
            return Some(rest);
        }
        if k == 0 {
            proof {
                assert(rfind(s@, word@, -1) == -1);
            }
            return None;
        }
        k -= 1;
    }
}

/// Only the capital letters A to Z change in lower case, each to the letter 32 places further on.
pub proof fn lower_moves_capitals_only(c: char)
    ensures
        'A' <= c <= 'Z' ==> 'a' <= lower(c) <= 'z' && lower(c) as u32 == c as u32 + 32,
        !('A' <= c <= 'Z') ==> lower(c) == c,
        lower(lower(c)) == lower(c),
{
}

/// Lowercasing keeps the length, and does no more when done twice.
pub proof fn lowercase_is_stable(s: Seq<char>)
    ensures
        lowercase(s).len() == s.len(),
        lowercase(lowercase(s)) == lowercase(s),
        forall|i: int| 0 <= i < s.len() ==> #[trigger] lowercase(s)[i] == lower(s[i]),
{
    assert forall|i: int| 0 <= i < s.len() implies lowercase(lowercase(s))[i] == #[trigger] lowercase(s)[i] by {
        lower_moves_capitals_only(s[i]);
    }
    assert(lowercase(lowercase(s)) =~= lowercase(s));
}

/// Of the ASCII characters, the space and the five controls from tab to carriage return are white
/// space.
pub proof fn ascii_whitespace(c: char)
    requires
        c <= '\u{7f}',
    ensures
        whitespace(c) <==> c == ' ' || c == '\t' || c == '\n' || c == '\u{b}' || c == '\u{c}' || c == '\r',
{
}

/// Whether a text is all white space.
pub open spec fn blank(s: Seq<char>) -> bool {
    forall|i: int| 0 <= i < s.len() ==> whitespace(#[trigger] s[i])
}

proof fn lemma_trimmed_start(s: Seq<char>) -> (cut: int)
    ensures
        0 <= cut <= s.len(),
        trim_start(s) == s.skip(cut),
        blank(s.take(cut)),
        cut < s.len() ==> !whitespace(s[cut]),
    decreases s.len(),
{
    if s.len() > 0 && whitespace(s[0]) {
        let rest = lemma_trimmed_start(s.skip(1));
        assert(s.skip(1).skip(rest) =~= s.skip(rest + 1));
        assert forall|i: int| 0 <= i < rest + 1 implies whitespace(#[trigger] s.take(rest + 1)[i]) by {
            if i > 0 {
                assert(s.skip(1).take(rest)[i - 1] == s[i]);
            }
        }
        rest + 1
    } else {
        assert(s.skip(0) =~= s);
        0
    }
}

proof fn lemma_trimmed_end(s: Seq<char>) -> (kept: int)
    ensures
        0 <= kept <= s.len(),
        trim_end(s) == s.take(kept),
        blank(s.skip(kept)),
        kept > 0 ==> !whitespace(s[kept - 1]),
    decreases s.len(),
{
    if s.len() > 0 && whitespace(s.last()) {
        let kept = lemma_trimmed_end(s.drop_last());
        assert(s.drop_last().take(kept) =~= s.take(kept));
        assert forall|i: int| 0 <= i < s.len() - kept implies whitespace(#[trigger] s.skip(kept)[i]) by {
            if kept + i < s.len() - 1 {
                assert(s.drop_last().skip(kept)[i] == s[kept + i]);
            }
        }
        kept
    } else {
        assert(s.take(s.len() as int) =~= s);
        s.len() as int
    }
}

/// Trimming takes white space away at both ends, all of it and nothing else.
pub proof fn trim_takes_outer_blanks(s: Seq<char>) -> (ends: (Seq<char>, Seq<char>))
    ensures
        blank(ends.0),
        blank(ends.1),
        s == ends.0 + trim(s) + ends.1,
        trim(s).len() > 0 ==> !whitespace(trim(s)[0]) && !whitespace(trim(s).last()),
{
    let cut = lemma_trimmed_start(s);
    let t = s.skip(cut);
    let kept = lemma_trimmed_end(t);
    assert(s =~= s.take(cut) + t.take(kept) + t.skip(kept));
    if kept > 0 {
        assert(t.take(kept)[0] == s[cut]);
    }
    (s.take(cut), t.skip(kept))
}

/// Trimming one character at the end takes the whole run of it away and nothing else.
pub proof fn trim_takes_the_run(s: Seq<char>, c: char)
    ensures
        trim_end_of(s, c).len() <= s.len(),
        trim_end_of(s, c) == s.take(trim_end_of(s, c).len() as int),
        forall|i: int| trim_end_of(s, c).len() <= i < s.len() ==> #[trigger] s[i] == c,
        trim_end_of(s, c).len() > 0 ==> trim_end_of(s, c).last() != c,
    decreases s.len(),
{
    if s.len() > 0 && s.last() == c {
        let t = s.drop_last();
        trim_takes_the_run(t, c);
        let n = trim_end_of(s, c).len() as int;
        assert(t.take(n) =~= s.take(n));
        assert forall|i: int| n <= i < s.len() implies #[trigger] s[i] == c by {
            if i < s.len() - 1 {
                assert(t[i] == s[i]);
            }
        }
    } else {
        assert(s.take(s.len() as int) =~= s);
    }
}

/// The text of an integer is its digits, behind a minus sign where it is negative, and reads back as
/// the integer.
pub proof fn int_text_reads_back(n: int, min: int, max: int)
    requires
        min <= n <= max,
    ensures
        n >= 0 ==> all_digits(int_text(n)) && digits_value(int_text(n)) == n,
        n < 0 ==> int_text(n)[0] == '-' && all_digits(int_text(n).skip(1)) && digits_value(int_text(n).skip(1)) == -n,
        parsed_int(int_text(n), min, max) == Some(n),
{
    if n < 0 {
        digits_denote((-n) as nat);
        assert(int_text(n).skip(1) =~= digits((-n) as nat));
    } else {
        digits_denote(n as nat);
        assert(is_digit(int_text(n)[0]));
    }
}

/// The digits of a number have no leading zero, except that zero is one.
pub proof fn digits_have_no_leading_zero(n: nat)
    ensures
        digits(n).len() > 0,
        digits(n)[0] == '0' <==> n == 0,
    decreases n,
{
    if n >= 10 {
        digits_have_no_leading_zero(n / 10);
        assert(digits(n)[0] == digits(n / 10)[0]);
    }
}

/// Only a run of digits, with a sign at most in front of it, is read as an integer, and only one
/// within the limits. Where there are no negative numbers, no minus sign is read.
pub proof fn integers_are_signed_digits(s: Seq<char>, min: int, max: int)
    requires
        parsed_int(s, min, max) is Some,
    ensures
        min <= parsed_int(s, min, max)->0 <= max,
        s.len() > 0,
        all_digits(s) ==> parsed_int(s, min, max) == Some(digits_value(s) as int),
        !all_digits(s) ==> all_digits(s.skip(1)) && (s[0] == '+' || (s[0] == '-' && min < 0)),
        !all_digits(s) && s[0] == '+' ==> parsed_int(s, min, max) == Some(digits_value(s.skip(1)) as int),
        !all_digits(s) && s[0] == '-' ==> parsed_int(s, min, max) == Some(-(digits_value(s.skip(1)) as int)),
{
    if all_digits(s) {
        assert(is_digit(s[0]));
    }
}

/// The pieces of a text hold no separator, and joined by it they are the text again.
pub proof fn pieces_join_again(s: Seq<char>, c: char)
    ensures
        split(s, c).len() > 0,
        forall|i: int| 0 <= i < split(s, c).len() ==> lacks(#[trigger] split(s, c)[i], c),
        join(split(s, c), seq![c]) == s,
    decreases s.len(),
{
    let k = find(s, c);
    lemma_find_bound(s, c);
    if k < s.len() {
        let head = s.take(k as int);
        let rest = s.skip(k as int + 1);
        let tail = split(rest, c);
        pieces_join_again(rest, c);
        let all = split(s, c);
        assert forall|i: int| 0 <= i < all.len() implies lacks(#[trigger] all[i], c) by {
            if i > 0 {
                assert(all[i] == tail[i - 1]);
            }
        }
        lemma_join_front(head, tail, seq![c]);
        assert(s =~= head + seq![c] + rest);
    } else {
        assert(split(s, c) =~= seq![s]);
    }
}

proof fn lemma_join_front(head: Seq<char>, tail: Seq<Seq<char>>, sep: Seq<char>)
    requires
        tail.len() > 0,
    ensures
        join(seq![head] + tail, sep) == head + sep + join(tail, sep),
    decreases tail.len(),
{
    let all = seq![head] + tail;
    assert(all.last() == tail.last());
    if tail.len() == 1 {
        assert(all.drop_last() =~= seq![head]);
        assert(join(seq![head], sep) == head);
    } else {
        let short = tail.drop_last();
        lemma_join_front(head, short, sep);
        assert(all.drop_last() =~= seq![head] + short);
        assert(join(all, sep) =~= head + sep + join(tail, sep));
    }
}

/// A text is divided at the first separator, and not at all where it has none.
pub proof fn divided_at_the_first(s: Seq<char>, c: char)
    ensures
        split_once(s, c) is None <==> lacks(s, c),
        split_once(s, c) matches Some((a, b)) ==> lacks(a, c) && s == a + seq![c] + b,
{
    lemma_find_bound(s, c);
    let k = find(s, c) as int;
    if k < s.len() {
        assert(s[k] == c);
        assert(s =~= s.take(k) + seq![c] + s.skip(k + 1));
    }
}

/// Words are not empty and hold no white space.
pub proof fn words_are_solid(s: Seq<char>)
    ensures
        forall|i: int|
            #![trigger words(s)[i]]
            0 <= i < words(s).len() ==> words(s)[i].len() > 0 && forall|j: int|
                0 <= j < words(s)[i].len() ==> !whitespace(#[trigger] words(s)[i][j]),
        words(s).len() == 0 <==> blank(s),
    decreases s.len(),
{
    let t = trim_start(s);
    let cut = lemma_trimmed_start(s);
    lemma_trim_start_len(s);
    if t.len() > 0 {
        lemma_word_len(t);
        let n = word_len(t) as int;
        lemma_word_is_solid(t);
        words_are_solid(t.skip(n));
        let all = words(s);
        let rest = words(t.skip(n));
        assert(all =~= seq![t.take(n)] + rest);
        assert(!whitespace(s[cut]));
        assert forall|i: int|
            #![trigger all[i]]
            0 <= i < all.len() implies all[i].len() > 0 && forall|j: int|
            0 <= j < all[i].len() ==> !whitespace(#[trigger] all[i][j]) by {
            if i > 0 {
                assert(all[i] == rest[i - 1]);
            }
        }
    } else {
        assert(s.take(cut) =~= s);
    }
}

proof fn lemma_word_is_solid(t: Seq<char>)
    ensures
        word_len(t) <= t.len(),
        forall|j: int| 0 <= j < word_len(t) ==> !whitespace(#[trigger] t[j]),
        word_len(t) < t.len() ==> whitespace(t[word_len(t) as int]),
    decreases t.len(),
{
    if t.len() > 0 && !whitespace(t[0]) {
        lemma_word_is_solid(t.skip(1));
        assert forall|j: int| 0 <= j < word_len(t) implies !whitespace(#[trigger] t[j]) by {
            if j > 0 {
                assert(t.skip(1)[j - 1] == t[j]);
            }
        }
    }
}

proof fn lemma_rfind(s: Seq<char>, word: Seq<char>, from: int)
    requires
        from >= -1,
    ensures
        -1 <= rfind(s, word, from) <= from,
        rfind(s, word, from) >= 0 ==> word_at(s, rfind(s, word, from), word),
        forall|k: int| rfind(s, word, from) < k <= from ==> !#[trigger] word_at(s, k, word),
    decreases from + 1,
{
    if from >= 0 && !word_at(s, from, word) {
        lemma_rfind(s, word, from - 1);
    }
}

/// What stands after the last word is the end of the text, right behind a place of the word, and
/// there is no later place of it. Where there is none at all, nothing is found.
pub proof fn last_place_counts(s: Seq<char>, word: Seq<char>)
    ensures
        after_last(s, word) is None ==> forall|k: int| !#[trigger] word_at(s, k, word),
        after_last(s, word) matches Some(rest) ==> {
            let k = s.len() - rest.len() - word.len();
            &&& word_at(s, k, word)
            &&& rest == s.skip(k + word.len())
            &&& forall|j: int| j > k ==> !#[trigger] word_at(s, j, word)
        },
{
    if word.len() <= s.len() {
        lemma_rfind(s, word, s.len() - word.len());
    }
}

/// All that is white space: of the characters beyond ASCII, the next line, the no-break spaces, the
/// spaces of a given width, the two separators and the ideographic space.
pub proof fn white_space_beyond_ascii(c: char)
    requires
        c > '\u{7f}',
    ensures
        whitespace(c) <==> c == '\u{85}' || c == '\u{a0}' || c == '\u{1680}' || '\u{2000}' <= c <= '\u{200a}' || c
            == '\u{2028}' || c == '\u{2029}' || c == '\u{202f}' || c == '\u{205f}' || c == '\u{3000}',
{
}

/// An optional text holds what its string holds, and so does each text of a list.
pub proof fn texts_hold_their_strings(s: String, slice: &str, all: Seq<String>, i: int)
    requires
        0 <= i < all.len(),
    ensures
        opt_text(Some(s)) == Some(s@),
        opt_text(None) is None,
        opt_str(Some(slice)) == Some(slice@),
        opt_str(None) is None,
        texts(all).len() == all.len(),
        texts(all)[i] == all[i]@,
{
}

} // verus!
