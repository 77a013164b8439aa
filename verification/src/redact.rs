//! Redaction of gateway bodies before they enter an error message.
//!
//! A best-effort heuristic: it replaces card-shaped digit runs, secret API tokens, JSON web tokens
//! and the credentials of an `Authorization` header, and clips the result to a bounded snippet.
use crate::text::{self, chars_of, has_word, lower_char, text_range};
use vstd::prelude::*;

verus! {

/// The longest snippet, in characters.
pub const MAX_SNIPPET: usize = 512;

/// The fewest digits of a card number.
pub const MIN_CARD_DIGITS: usize = 13;

/// Whether a character can be part of a token.
pub open spec fn token_char(c: char) -> bool {
    text::is_digit(c) || ('a' <= c && c <= 'z') || ('A' <= c && c <= 'Z') || c == '_' || c == '-' || c == '.'
}

/// Whether a character can be part of a credential.
pub open spec fn credential_char(c: char) -> bool {
    !text::whitespace(c) && c != '"' && c != ','
}

/// Whether a token that must not be shown starts with what stands at `at`.
pub open spec fn secret_prefix(s: Seq<char>, at: int) -> bool {
    ||| text::word_at(s, at, "sk_"@)
    ||| text::word_at(s, at, "rk_"@)
    ||| text::word_at(s, at, "pk_"@)
    ||| text::word_at(s, at, "whsec_"@)
    ||| text::word_at(s, at, "eyJ"@)
}

/// Whether `word` stands before `at`, in any case.
pub open spec fn follows(s: Seq<char>, at: int, word: Seq<char>) -> bool {
    at >= word.len() && at <= s.len() && text::lowercase(s.subrange(at - word.len(), at)) == word
}

/// The position behind the token at `at`.
pub open spec fn token_end(s: Seq<char>, at: int) -> int
    decreases s.len() - at,
{
    if 0 <= at < s.len() && token_char(s[at]) {
        token_end(s, at + 1)
    } else {
        at
    }
}

/// The position behind the credential at `at`.
pub open spec fn credential_end(s: Seq<char>, at: int) -> int
    decreases s.len() - at,
{
    if 0 <= at < s.len() && credential_char(s[at]) {
        credential_end(s, at + 1)
    } else {
        at
    }
}

/// Whether the character at `at` is a digit.
pub open spec fn digit_at(s: Seq<char>, at: int) -> bool {
    0 <= at < s.len() && text::is_digit(s[at])
}

/// The digits from `at` on, each but the last followed by a digit or by one space or hyphen and a
/// digit: how many there are, and the position behind the last.
pub open spec fn digit_group(s: Seq<char>, at: int) -> (nat, int)
    decreases s.len() - at,
{
    if !digit_at(s, at) {
        (0, at)
    } else if digit_at(s, at + 1) {
        let rest = digit_group(s, at + 1);
        (rest.0 + 1, rest.1)
    } else if digit_at(s, at + 2) && (s[at + 1] == ' ' || s[at + 1] == '-') {
        let rest = digit_group(s, at + 2);
        (rest.0 + 1, rest.1)
    } else {
        (1, at + 1)
    }
}

/// The position behind what must not be shown at `at`, or `at` where it may be shown. A token and a
/// digit run are looked for where they begin: `fresh` says that what stood before was not shown.
pub open spec fn hidden_end(s: Seq<char>, at: int, fresh: bool) -> int {
    let begins = fresh || at == 0 || !token_char(s[at - 1]);
    let begins_digits = fresh || !digit_at(s, at - 1);
    if begins && secret_prefix(s, at) {
        token_end(s, at)
    } else if (follows(s, at, "bearer "@) || follows(s, at, "basic "@)) && credential_end(s, at) > at {
        credential_end(s, at)
    } else if begins_digits && digit_group(s, at).0 >= MIN_CARD_DIGITS {
        digit_group(s, at).1
    } else {
        at
    }
}

proof fn lemma_ends(s: Seq<char>, at: int)
    requires
        0 <= at <= s.len(),
    ensures
        at <= token_end(s, at) <= s.len(),
        at <= credential_end(s, at) <= s.len(),
        at <= digit_group(s, at).1 <= s.len(),
        digit_group(s, at).0 > 0 ==> at < digit_group(s, at).1,
        !digit_at(s, token_end(s, at)),
        !digit_at(s, credential_end(s, at)),
        !digit_at(s, digit_group(s, at).1),
    decreases s.len() - at,
{
    if at < s.len() {
        lemma_ends(s, at + 1);
        if at + 2 <= s.len() {
            lemma_ends(s, at + 2);
        }
    }
}

/// The text from `at` on with what must not be shown replaced.
pub open spec fn scrubbed(s: Seq<char>, at: int, fresh: bool) -> Seq<char>
    decreases s.len() - at,
{
    if at < 0 || at >= s.len() {
        Seq::empty()
    } else {
        let end = hidden_end(s, at, fresh);
        if at < end <= s.len() {
            "[redacted]"@ + scrubbed(s, end, true)
        } else {
            seq![s[at]] + scrubbed(s, at + 1, false)
        }
    }
}

/// What is shown of a body.
pub open spec fn sanitized(body: Seq<char>) -> Seq<char> {
    let shown = scrubbed(body, 0, true);
    if shown.len() > MAX_SNIPPET {
        shown.take(MAX_SNIPPET as int)
    } else {
        shown
    }
}

proof fn lemma_group_of_skip(s: Seq<char>, k: int, at: int)
    requires
        0 <= k <= s.len(),
        0 <= at,
    ensures
        digit_group(s.skip(k), at).0 == digit_group(s, at + k).0,
    decreases s.len() - k - at,
{
    let t = s.skip(k);
    if at + k < s.len() {
        assert(t[at] == s[at + k]);
        if at + k + 1 < s.len() {
            assert(t[at + 1] == s[at + k + 1]);
        }
        if at + k + 2 < s.len() {
            assert(t[at + 2] == s[at + k + 2]);
        }
        lemma_group_of_skip(s, k, at + 1);
        if at + k + 1 < s.len() {
            lemma_group_of_skip(s, k, at + 2);
        }
    }
}

proof fn lemma_group_of_take(s: Seq<char>, n: int, at: int)
    requires
        0 <= n <= s.len(),
        0 <= at,
    ensures
        digit_group(s.take(n), at).0 <= digit_group(s, at).0,
    decreases s.len() - at,
{
    if at < n {
        lemma_group_of_take(s, n, at + 1);
        if at + 1 < n {
            lemma_group_of_take(s, n, at + 2);
        }
    }
}

/// The characters of the mark.
proof fn lemma_mark()
    ensures
        "[redacted]"@ == seq!['[', 'r', 'e', 'd', 'a', 'c', 't', 'e', 'd', ']'],
{
    reveal_strlit("[redacted]");
    assert("[redacted]"@ =~= seq!['[', 'r', 'e', 'd', 'a', 'c', 't', 'e', 'd', ']']);
}

/// No more digits stand together in what is shown than in the source, and nowhere those of a card.
proof fn lemma_scrubbed_groups(s: Seq<char>, at: int, fresh: bool)
    requires
        0 <= at,
        !fresh && digit_at(s, at - 1) ==> digit_group(s, at).0 < MIN_CARD_DIGITS,
        fresh ==> at == 0 || !digit_at(s, at),
    ensures
        digit_group(scrubbed(s, at, fresh), 0).0 <= digit_group(s, at).0,
        forall|i: int| 0 <= i ==> (#[trigger] digit_group(scrubbed(s, at, fresh), i)).0 < MIN_CARD_DIGITS,
    decreases s.len() - at,
{
    let out = scrubbed(s, at, fresh);
    if at < s.len() {
        lemma_ends(s, at);
        let end = hidden_end(s, at, fresh);
        if at < end <= s.len() {
            lemma_mark();
            let rest = scrubbed(s, end, true);
            lemma_scrubbed_groups(s, end, true);
            assert(out.skip(10) =~= rest);
            assert forall|i: int| 0 <= i implies (#[trigger] digit_group(out, i)).0 < MIN_CARD_DIGITS by {
                if i < 10 {
                    assert(out[i] == "[redacted]"@[i]);
                } else {
                    lemma_group_of_skip(out, 10, i - 10);
                    assert(digit_group(rest, i - 10).0 < MIN_CARD_DIGITS);
                }
            }
            assert(out[0] == '[');
        } else {
            let rest = scrubbed(s, at + 1, false);
            assert(digit_at(s, at) ==> digit_group(s, at).0 < MIN_CARD_DIGITS);
            lemma_scrubbed_groups(s, at + 1, false);
            assert(out.skip(1) =~= rest);
            assert(out[0] == s[at]);
            lemma_group_of_skip(out, 1, 0);
            lemma_group_of_skip(out, 1, 1);
            lemma_first(s, at + 1, false);
            if digit_at(out, 0) && !digit_at(out, 1) && digit_at(out, 2) && (out[1] == ' ' || out[1] == '-') {
                let beyond = scrubbed(s, at + 2, false);
                assert(rest[0] == out[1]);
                assert(rest.skip(1) =~= beyond);
                lemma_first(s, at + 2, false);
                assert(beyond[0] == out[2]);
                lemma_scrubbed_groups(s, at + 2, false);
                lemma_group_of_skip(rest, 1, 0);
            }
            assert forall|i: int| 0 <= i implies (#[trigger] digit_group(out, i)).0 < MIN_CARD_DIGITS by {
                if i > 0 {
                    lemma_group_of_skip(out, 1, i - 1);
                    assert(digit_group(rest, i - 1).0 < MIN_CARD_DIGITS);
                }
            }
        }
    }
}

/// The scrubbed text begins with the character of the source, or with a mark.
proof fn lemma_first(s: Seq<char>, at: int, fresh: bool)
    requires
        0 <= at,
    ensures
        scrubbed(s, at, fresh).len() > 0 ==> at < s.len() && (scrubbed(s, at, fresh)[0] == '[' || (
        scrubbed(s, at, fresh)[0] == s[at] && scrubbed(s, at, fresh) == seq![s[at]] + scrubbed(s, at + 1, false))),
{
    lemma_mark();
}

/// What a character of the scrubbed text is: one of the source, at its position, with whether what
/// stood before it was not shown; or one of the mark.
enum Origin {
    Source(int, bool),
    Mark(int),
}

spec fn origin(s: Seq<char>, at: int, fresh: bool, i: int) -> Origin
    decreases s.len() - at,
{
    if at < 0 || at >= s.len() {
        Origin::Mark(i)
    } else {
        let end = hidden_end(s, at, fresh);
        if at < end <= s.len() {
            if i < 10 {
                Origin::Mark(i)
            } else {
                origin(s, end, true, i - 10)
            }
        } else if i == 0 {
            Origin::Source(at, fresh)
        } else {
            origin(s, at + 1, false, i - 1)
        }
    }
}

/// What the origin of a character says of the character and of its neighbours. From the source
/// comes only what need not be hidden.
proof fn lemma_origin(s: Seq<char>, at: int, fresh: bool, i: int)
    requires
        0 <= at,
        0 <= i < scrubbed(s, at, fresh).len(),
    ensures
        match origin(s, at, fresh, i) {
            Origin::Source(p, f) => {
                &&& at <= p < s.len()
                &&& scrubbed(s, at, fresh)[i] == s[p]
                &&& !(p < hidden_end(s, p, f) <= s.len())
                &&& i == 0 ==> p == at && f == fresh
                &&& i > 0 ==> match origin(s, at, fresh, i - 1) {
                    Origin::Source(q, g) => !f && q == p - 1,
                    Origin::Mark(k) => f && k == 9,
                }
            },
            Origin::Mark(k) => {
                &&& 0 <= k < 10
                &&& scrubbed(s, at, fresh)[i] == "[redacted]"@[k]
                &&& k < 9 ==> i + 1 < scrubbed(s, at, fresh).len() && origin(s, at, fresh, i + 1) == Origin::Mark(k + 1)
                &&& k > 0 ==> i > 0 && origin(s, at, fresh, i - 1) == Origin::Mark(k - 1)
            },
        },
    decreases s.len() - at,
{
    lemma_mark();
    if at < s.len() {
        let end = hidden_end(s, at, fresh);
        if at < end <= s.len() {
            if i >= 10 {
                lemma_origin(s, end, true, i - 10);
            }
        } else if i > 0 {
            lemma_origin(s, at + 1, false, i - 1);
        }
    }
}

/// From a character of the source on, as long as no mark begins, the source goes on.
proof fn lemma_source_goes_on(s: Seq<char>, i: int, n: nat)
    requires
        n > 0,
        0 <= i,
        i + n <= scrubbed(s, 0, true).len(),
        origin(s, 0, true, i) is Source,
        forall|j: int| i <= j < i + n ==> #[trigger] scrubbed(s, 0, true)[j] != '[',
    ensures
        ({
            let p = origin(s, 0, true, i)->Source_0;
            &&& p + n <= s.len()
            &&& s.subrange(p, p + n) == scrubbed(s, 0, true).subrange(i, i + n)
            &&& origin(s, 0, true, i + n - 1) is Source
            &&& origin(s, 0, true, i + n - 1)->Source_0 == p + n - 1
        }),
    decreases n,
{
    let out = scrubbed(s, 0, true);
    let p = origin(s, 0, true, i)->Source_0;
    lemma_origin(s, 0, true, i);
    if n == 1 {
        assert(s.subrange(p, p + 1) =~= out.subrange(i, i + 1));
    } else {
        let m = (n - 1) as nat;
        lemma_source_goes_on(s, i, m);
        lemma_origin(s, 0, true, i + m);
        lemma_origin(s, 0, true, i + m - 1);
        lemma_mark();
        assert(out[i + m] != '[');
        assert(origin(s, 0, true, i + m) is Source);
        assert(s.subrange(p, p + n) =~= s.subrange(p, p + m).push(s[p + m]));
        assert(out.subrange(i, i + n) =~= out.subrange(i, i + m).push(out[i + m]));
    }
}

/// Back from a character of the source, as long as no mark ends, the source goes back.
proof fn lemma_source_goes_back(s: Seq<char>, i: int, n: nat)
    requires
        n > 0,
        n <= i <= scrubbed(s, 0, true).len(),
        origin(s, 0, true, i - 1) is Source,
        forall|j: int| i - n <= j < i ==> #[trigger] scrubbed(s, 0, true)[j] != ']',
    ensures
        ({
            let p = origin(s, 0, true, i - 1)->Source_0 + 1;
            &&& n <= p <= s.len()
            &&& s.subrange(p - n, p) == scrubbed(s, 0, true).subrange(i - n, i)
            &&& origin(s, 0, true, i - n) is Source
            &&& origin(s, 0, true, i - n)->Source_0 == p - n
        }),
    decreases n,
{
    let out = scrubbed(s, 0, true);
    let p = origin(s, 0, true, i - 1)->Source_0 + 1;
    lemma_origin(s, 0, true, i - 1);
    if n == 1 {
        assert(s.subrange(p - 1, p) =~= out.subrange(i - 1, i));
    } else {
        let m = (n - 1) as nat;
        lemma_source_goes_back(s, i, m);
        lemma_origin(s, 0, true, i - m);
        lemma_origin(s, 0, true, i - n);
        lemma_mark();
        assert(out[i - n] != ']');
        assert(origin(s, 0, true, i - n) is Source);
        assert(s.subrange(p - n, p) =~= seq![s[p - n]] + s.subrange(p - m, p));
        assert(out.subrange(i - n, i) =~= seq![out[i - n]] + out.subrange(i - m, i));
    }
}

/// A snippet is bounded, and no digits stand together in it, or with single spaces or hyphens
/// between them, in the number of a card's digits.
pub proof fn snippet_is_bounded_and_has_no_card_number(body: Seq<char>)
    ensures
        sanitized(body).len() <= MAX_SNIPPET,
        forall|i: int| 0 <= i ==> (#[trigger] digit_group(sanitized(body), i)).0 < MIN_CARD_DIGITS,
{
    let shown = scrubbed(body, 0, true);
    lemma_scrubbed_groups(body, 0, true);
    if shown.len() > MAX_SNIPPET {
        assert forall|i: int| 0 <= i implies (#[trigger] digit_group(sanitized(body), i)).0 < MIN_CARD_DIGITS by {
            lemma_group_of_take(shown, MAX_SNIPPET as int, i);
            assert(digit_group(shown, i).0 < MIN_CARD_DIGITS);
        }
    }
}

/// Whether a token begins at `at`.
pub open spec fn token_begins(s: Seq<char>, at: int) -> bool {
    at == 0 || !token_char(s[at - 1])
}

/// A word of a secret token that stands in the scrubbed text stands in the source.
proof fn lemma_word_from_source(s: Seq<char>, i: int, word: Seq<char>)
    requires
        text::word_at(scrubbed(s, 0, true), i, word),
        word.len() >= 2,
        forall|j: int| 0 <= j < word.len() ==> #[trigger] word[j] != '[',
        word[0] == 's' || word[0] == 'p' || word[0] == 'w' || (word[0] == 'r' && word[1] == 'k') || (word[0] == 'e'
            && word[1] == 'y'),
    ensures
        origin(s, 0, true, i) is Source,
        text::word_at(s, origin(s, 0, true, i)->Source_0, word),
{
    let out = scrubbed(s, 0, true);
    let part = out.subrange(i, i + word.len());
    assert forall|j: int| i <= j < i + word.len() implies #[trigger] out[j] != '[' by {
        assert(out[j] == part[j - i]);
        assert(word[j - i] != '[');
    }
    assert(out[i] == part[0] && out[i + 1] == part[1]);
    lemma_origin(s, 0, true, i);
    lemma_origin(s, 0, true, i + 1);
    lemma_mark();
    lemma_source_goes_on(s, i, word.len());
}

/// A secret token is not empty.
proof fn lemma_secret_token(s: Seq<char>, at: int)
    requires
        0 <= at,
        secret_prefix(s, at),
    ensures
        at < token_end(s, at) <= s.len(),
{
    reveal_strlit("sk_");
    reveal_strlit("rk_");
    reveal_strlit("pk_");
    reveal_strlit("whsec_");
    reveal_strlit("eyJ");
    assert(s.subrange(at, at + 3)[0] == s[at]);
    if text::word_at(s, at, "whsec_"@) {
        assert(s.subrange(at, at + 6)[0] == s[at]);
    }
    lemma_ends(s, at + 1);
    assert(token_end(s, at) == token_end(s, at + 1));
}

/// Where a secret token would begin in the scrubbed text, none does.
proof fn lemma_no_secret(s: Seq<char>, i: int)
    requires
        0 <= i < scrubbed(s, 0, true).len(),
        token_begins(scrubbed(s, 0, true), i),
    ensures
        !secret_prefix(scrubbed(s, 0, true), i),
{
    let out = scrubbed(s, 0, true);
    reveal_strlit("sk_");
    reveal_strlit("rk_");
    reveal_strlit("pk_");
    reveal_strlit("whsec_");
    reveal_strlit("eyJ");
    if secret_prefix(out, i) {
        let word = if text::word_at(out, i, "sk_"@) {
            "sk_"@
        } else if text::word_at(out, i, "rk_"@) {
            "rk_"@
        } else if text::word_at(out, i, "pk_"@) {
            "pk_"@
        } else if text::word_at(out, i, "whsec_"@) {
            "whsec_"@
        } else {
            "eyJ"@
        };
        lemma_word_from_source(s, i, word);
        lemma_origin(s, 0, true, i);
        let p = origin(s, 0, true, i)->Source_0;
        if i > 0 {
            lemma_origin(s, 0, true, i - 1);
        }
        lemma_secret_token(s, p);
        assert(false);
    }
}

/// No secret token begins in a snippet.
pub proof fn snippet_has_no_secret_token(body: Seq<char>, i: int)
    requires
        0 <= i < sanitized(body).len(),
        token_begins(sanitized(body), i),
    ensures
        !secret_prefix(sanitized(body), i),
{
    let shown = scrubbed(body, 0, true);
    let clipped = sanitized(body);
    assert forall|word: Seq<char>| #[trigger] text::word_at(clipped, i, word) implies text::word_at(shown, i, word) by {
        assert(clipped.subrange(i, i + word.len()) =~= shown.subrange(i, i + word.len()));
    }
    lemma_no_secret(body, i);
}

/// Whether the mark stands at `at`, or as much of it as there is room for.
pub open spec fn marked_at(s: Seq<char>, at: int) -> bool {
    forall|j: int| at <= j < s.len() && j < at + 10 ==> #[trigger] s[j] == "[redacted]"@[j - at]
}

/// Where the scrubbed text has a mark, it has all of it.
proof fn lemma_whole_mark(s: Seq<char>, i: int, k: int)
    requires
        0 <= i,
        i + k < scrubbed(s, 0, true).len(),
        0 <= k < 10,
        origin(s, 0, true, i) == Origin::Mark(0),
    ensures
        origin(s, 0, true, i + k) == Origin::Mark(k),
        scrubbed(s, 0, true)[i + k] == "[redacted]"@[k],
    decreases k,
{
    if k > 0 {
        lemma_whole_mark(s, i, k - 1);
        lemma_origin(s, 0, true, i + k - 1);
    }
    lemma_origin(s, 0, true, i + k);
}

/// Behind the name of an authorization scheme in the scrubbed text stands no credential, but the
/// mark.
proof fn lemma_no_credential(s: Seq<char>, i: int, word: Seq<char>)
    requires
        0 <= i < scrubbed(s, 0, true).len(),
        word == "bearer "@ || word == "basic "@,
        follows(scrubbed(s, 0, true), i, word),
        credential_char(scrubbed(s, 0, true)[i]),
    ensures
        marked_at(scrubbed(s, 0, true), i),
{
    let out = scrubbed(s, 0, true);
    let n = word.len();
    reveal_strlit("bearer ");
    reveal_strlit("basic ");
    let part = out.subrange(i - n, i);
    assert forall|j: int| i - n <= j < i implies #[trigger] out[j] != ']' by {
        assert(out[j] == part[j - (i - n)]);
        assert(text::lowercase(part)[j - (i - n)] == word[j - (i - n)]);
    }
    assert(out[i - 1] == ' ') by {
        assert(out[i - 1] == part[n - 1]);
        assert(text::lowercase(part)[n - 1] == word[n - 1]);
    }
    lemma_mark();
    lemma_origin(s, 0, true, i - 1);
    assert(origin(s, 0, true, i - 1) is Source);
    lemma_source_goes_back(s, i, n);
    lemma_origin(s, 0, true, i);
    match origin(s, 0, true, i) {
        Origin::Source(p, f) => {
            assert(follows(s, p, word));
            assert(credential_char(s[p]));
            if secret_prefix(s, p) {
                lemma_secret_token(s, p);
            }
            lemma_ends(s, p + 1);
            assert(credential_end(s, p) == credential_end(s, p + 1));
            assert(false);
        },
        Origin::Mark(k) => {
            assert(k == 0);
            assert forall|j: int| i <= j < out.len() && j < i + 10 implies #[trigger] out[j] == "[redacted]"@[j - i] by {
                lemma_whole_mark(s, i, j - i);
            }
        },
    }
}

/// Behind the name of an authorization scheme in a snippet stands no credential, but the mark.
pub proof fn snippet_has_no_credential(body: Seq<char>, i: int)
    requires
        0 <= i < sanitized(body).len(),
        follows(sanitized(body), i, "bearer "@) || follows(sanitized(body), i, "basic "@),
        credential_char(sanitized(body)[i]),
    ensures
        marked_at(sanitized(body), i),
{
    let shown = scrubbed(body, 0, true);
    let clipped = sanitized(body);
    let word = if follows(clipped, i, "bearer "@) {
        "bearer "@
    } else {
        "basic "@
    };
    assert(clipped.subrange(i - word.len(), i) =~= shown.subrange(i - word.len(), i));
    lemma_no_credential(body, i, word);
    assert forall|j: int| i <= j < clipped.len() && j < i + 10 implies #[trigger] clipped[j] == "[redacted]"@[j - i] by {
        assert(clipped[j] == shown[j]);
    }
}

fn is_token_char(c: char) -> (r: bool)
    ensures
        r == token_char(c),
{
    ('0' <= c && c <= '9') || ('a' <= c && c <= 'z') || ('A' <= c && c <= 'Z') || c == '_' || c == '-' || c == '.'
}

fn is_digit_at(cs: &[char], at: usize) -> (r: bool)
    ensures
        r == digit_at(cs@, at as int),
{
    at < cs.len() && '0' <= cs[at] && cs[at] <= '9'
}

fn comes_after(cs: &[char], at: usize, word: &str) -> (r: bool)
    requires
        at <= cs.len(),
    ensures
        r == follows(cs@, at as int, word@),
{
    let w = chars_of(word);
    if w.len() > at {
        return false;
    }
    let start: usize = at - w.len();
    let ghost part = cs@.subrange(start as int, at as int);
    let mut i: usize = 0;
    while i < w.len()
        invariant
            i <= w.len(),
            w@ == word@,
            start + w.len() == at,
            at <= cs.len(),
            part == cs@.subrange(start as int, at as int),
            forall|j: int| 0 <= j < i ==> #[trigger] text::lowercase(part)[j] == w@[j],
        decreases w.len() - i,
    {
        proof {
            assert(text::lowercase(part)[i as int] == text::lower(cs@[start + i]));
        }
        if lower_char(cs[start + i]) != w[i] {
            return false;
        }
        i += 1;
    }
    proof {
        assert(text::lowercase(part) =~= w@);
    }
    true
}

fn end_of_token(cs: &[char], at: usize) -> (r: usize)
    requires
        at <= cs.len(),
    ensures
        r == token_end(cs@, at as int),
        at <= r <= cs.len(),
{
    let mut i: usize = at;
    while i < cs.len() && is_token_char(cs[i])
        invariant
            at <= i <= cs.len(),
            token_end(cs@, i as int) == token_end(cs@, at as int),
        decreases cs.len() - i,
    {
        i += 1;
    }
    i
}

fn end_of_credential(cs: &[char], at: usize) -> (r: usize)
    requires
        at <= cs.len(),
    ensures
        r == credential_end(cs@, at as int),
        at <= r <= cs.len(),
{
    let mut i: usize = at;
    while i < cs.len() && !text::is_whitespace(cs[i]) && cs[i] != '"' && cs[i] != ','
        invariant
            at <= i <= cs.len(),
            credential_end(cs@, i as int) == credential_end(cs@, at as int),
        decreases cs.len() - i,
    {
        i += 1;
    }
    i
}

fn group_of_digits(cs: &[char], at: usize) -> (r: (usize, usize))
    requires
        at <= cs.len(),
    ensures
        (r.0 as nat, r.1 as int) == digit_group(cs@, at as int),
        at <= r.1 <= cs.len(),
        r.0 <= r.1 - at,
{
    if !is_digit_at(cs, at) {
        return (0, at);
    }
    let mut count: usize = 1;
    let mut i: usize = at;
    loop
        invariant
            at <= i < cs.len(),
            digit_at(cs@, i as int),
            1 <= count <= i - at + 1,
            digit_group(cs@, at as int) == (
                (digit_group(cs@, i as int).0 + count - 1) as nat,
                digit_group(cs@, i as int).1,
            ),
        decreases cs.len() - i,
    {
        if i + 1 < cs.len() && is_digit_at(cs, i + 1) {
            i += 1;
            count += 1;
        } else if i + 1 < cs.len() && i + 2 < cs.len() && is_digit_at(cs, i + 2) && (cs[i + 1] == ' ' || cs[i + 1]
            == '-') {
            i += 2;
            count += 1;
        } else {
            return (count, i + 1);
        }
    }
}

fn end_of_hidden(cs: &[char], at: usize, fresh: bool) -> (r: usize)
    requires
        at < cs.len(),
    ensures
        r == hidden_end(cs@, at as int, fresh),
        at <= r <= cs.len(),
{
    let begins: bool = fresh || at == 0 || !is_token_char(cs[at - 1]);
    let begins_digits: bool = fresh || at == 0 || !is_digit_at(cs, at - 1);
    if begins && (has_word(cs, at, "sk_") || has_word(cs, at, "rk_") || has_word(cs, at, "pk_") || has_word(
        cs,
        at,
        "whsec_",
    ) || has_word(cs, at, "eyJ")) {
        return end_of_token(cs, at);
    }
    if comes_after(cs, at, "bearer ") || comes_after(cs, at, "basic ") {
        let end: usize = end_of_credential(cs, at);
        if end > at {
            return end;
        }
    }
    if begins_digits {
        let (count, end) = group_of_digits(cs, at);
        if count >= MIN_CARD_DIGITS {
            return end;
        }
    }
    at
}

/// What is shown of a body: a bounded snippet with card numbers, secret tokens and credentials
/// replaced by `[redacted]`.
pub fn sanitize_body(body: &str) -> (r: String)
    ensures
        r@ == sanitized(body@),
{
    let cs = chars_of(body);
    let mut out = String::new();
    let mut at: usize = 0;
    let mut fresh: bool = true;
    while at < cs.len()
        invariant
            at <= cs.len(),
            cs@ == body@,
            out@ + scrubbed(cs@, at as int, fresh) == scrubbed(cs@, 0, true),
        decreases cs.len() - at,
    {
        let ghost before = out@;
        let end: usize = end_of_hidden(&cs, at, fresh);
        if end > at {
            out.append("[redacted]");
            proof {
                assert(before + ("[redacted]"@ + scrubbed(cs@, end as int, true)) =~= out@ + scrubbed(
                    cs@,
                    end as int,
                    true,
                ));
            }
            at = end;
            fresh = true;
        } else {
            out.push(cs[at]);
            proof {
                assert(before + (seq![cs@[at as int]] + scrubbed(cs@, at + 1, false)) =~= out@ + scrubbed(
                    cs@,
                    at + 1,
                    false,
                ));
            }
            at += 1;
            fresh = false;
        }
    }
    proof {
        assert(out@ + scrubbed(cs@, at as int, fresh) =~= out@);
    }
    let shown = chars_of(&out);
    if shown.len() > MAX_SNIPPET {
        let clipped = text_range(&shown, 0, MAX_SNIPPET);
        proof {
            assert(clipped@ =~= out@.take(MAX_SNIPPET as int));
        }
        return clipped;
    }
    out
}

/// A snippet has at most 512 characters, and nowhere thirteen digits in a row.
pub proof fn snippet_is_short_and_hides_long_numbers(body: Seq<char>, i: int)
    requires
        0 <= i,
        i + 13 <= sanitized(body).len(),
    ensures
        sanitized(body).len() <= 512,
        exists|j: int| i <= j < i + 13 && !('0' <= #[trigger] sanitized(body)[j] <= '9'),
{
    let shown = sanitized(body);
    snippet_is_bounded_and_has_no_card_number(body);
    if forall|j: int| i <= j < i + 13 ==> '0' <= #[trigger] shown[j] <= '9' {
        lemma_row_of_digits(shown, i, 13);
        assert(digit_group(shown, i).0 < MIN_CARD_DIGITS);
    }
}

proof fn lemma_row_of_digits(s: Seq<char>, at: int, n: nat)
    requires
        0 <= at,
        at + n <= s.len(),
        forall|j: int| at <= j < at + n ==> '0' <= #[trigger] s[j] <= '9',
    ensures
        digit_group(s, at).0 >= n,
    decreases n,
{
    if n > 0 {
        lemma_row_of_digits(s, at + 1, (n - 1) as nat);
        assert(digit_at(s, at));
        if n > 1 {
            assert(digit_at(s, at + 1));
        }
    }
}

/// Digits belong together where they follow each other, or with one space or hyphen between them, and
/// not otherwise.
pub proof fn digits_belong_together(s: Seq<char>, at: int)
    requires
        0 <= at < s.len(),
    ensures
        !('0' <= s[at] <= '9') ==> digit_group(s, at).0 == 0,
        '0' <= s[at] <= '9' && at + 1 < s.len() && '0' <= s[at + 1] <= '9' ==> digit_group(s, at).0 == digit_group(
            s,
            at + 1,
        ).0 + 1,
        '0' <= s[at] <= '9' && at + 2 < s.len() && (s[at + 1] == ' ' || s[at + 1] == '-') && '0' <= s[at + 2] <= '9'
            ==> digit_group(s, at).0 == digit_group(s, at + 2).0 + 1,
        '0' <= s[at] <= '9' && at + 1 == s.len() ==> digit_group(s, at).0 == 1,
        '0' <= s[at] <= '9' && at + 1 < s.len() && !('0' <= s[at + 1] <= '9') && s[at + 1] != ' ' && s[at + 1] != '-'
            ==> digit_group(s, at).0 == 1,
{
}

/// Where a word begins in a snippet, it is none of the words that secret keys and JSON web tokens
/// begin with.
pub proof fn snippet_begins_no_secret(body: Seq<char>, i: int)
    requires
        0 <= i < sanitized(body).len(),
        i > 0 ==> !token_char(sanitized(body)[i - 1]),
    ensures
        !text::word_at(sanitized(body), i, "sk_"@),
        !text::word_at(sanitized(body), i, "rk_"@),
        !text::word_at(sanitized(body), i, "pk_"@),
        !text::word_at(sanitized(body), i, "whsec_"@),
        !text::word_at(sanitized(body), i, "eyJ"@),
{
    snippet_has_no_secret_token(body, i);
}

/// A token is made of letters and digits of ASCII, underscores, hyphens and dots; a credential of all
/// but white space, quotation marks and commas. Each reaches to the first character that it is not
/// made of.
pub proof fn tokens_and_credentials_end_where_they_should(s: Seq<char>, at: int, c: char)
    requires
        0 <= at <= s.len(),
    ensures
        token_char(c) <==> ('0' <= c <= '9' || 'a' <= c <= 'z' || 'A' <= c <= 'Z' || c == '_' || c == '-' || c == '.'),
        credential_char(c) <==> !text::whitespace(c) && c != '"' && c != ',',
        at <= token_end(s, at) <= s.len(),
        forall|j: int| at <= j < token_end(s, at) ==> token_char(#[trigger] s[j]),
        token_end(s, at) < s.len() ==> !token_char(s[token_end(s, at)]),
        at <= credential_end(s, at) <= s.len(),
        forall|j: int| at <= j < credential_end(s, at) ==> credential_char(#[trigger] s[j]),
        credential_end(s, at) < s.len() ==> !credential_char(s[credential_end(s, at)]),
    decreases s.len() - at,
{
    if at < s.len() {
        tokens_and_credentials_end_where_they_should(s, at + 1, c);
    }
}

/// What is hidden is a whole token, a whole credential or a whole number, and leaves a mark in its
/// place; everything else is shown, character by character.
pub proof fn hidden_parts_leave_a_mark(s: Seq<char>, at: int, fresh: bool)
    requires
        0 <= at < s.len(),
    ensures
        ({
            let begins = fresh || at == 0 || !token_char(s[at - 1]);
            let begins_digits = fresh || at == 0 || !('0' <= s[at - 1] <= '9');
            let secret = begins && (text::word_at(s, at, "sk_"@) || text::word_at(s, at, "rk_"@) || text::word_at(
                s,
                at,
                "pk_"@,
            ) || text::word_at(s, at, "whsec_"@) || text::word_at(s, at, "eyJ"@));
            let credential = (follows(s, at, "bearer "@) || follows(s, at, "basic "@)) && credential_char(s[at]);
            let number = begins_digits && digit_group(s, at).0 >= 13;
            &&& secret ==> scrubbed(s, at, fresh) == "[redacted]"@ + scrubbed(s, token_end(s, at), true)
            &&& !secret && credential ==> scrubbed(s, at, fresh) == "[redacted]"@ + scrubbed(
                s,
                credential_end(s, at),
                true,
            )
            &&& !secret && !credential && number ==> scrubbed(s, at, fresh) == "[redacted]"@ + scrubbed(
                s,
                digit_group(s, at).1,
                true,
            )
            &&& !secret && !credential && !number ==> scrubbed(s, at, fresh) == seq![s[at]] + scrubbed(s, at + 1, false)
        }),
{
    lemma_ends(s, at);
    lemma_ends(s, at + 1);
    if secret_prefix(s, at) {
        lemma_secret_token(s, at);
    }
    if credential_char(s[at]) {
        assert(credential_end(s, at) == credential_end(s, at + 1));
    } else {
        assert(credential_end(s, at) == at);
    }
    if digit_group(s, at).0 >= 13 {
        assert(at < digit_group(s, at).1);
    }
}

/// What holds no secret is shown as it is: a body without the beginning of a secret token, without
/// the name of an authorization scheme and without thirteen digits that belong together. Of a long one
/// the first 512 characters are shown.
pub proof fn harmless_body_is_shown_as_it_is(body: Seq<char>)
    requires
        forall|at: int| !#[trigger] text::word_at(body, at, "sk_"@),
        forall|at: int| !#[trigger] text::word_at(body, at, "rk_"@),
        forall|at: int| !#[trigger] text::word_at(body, at, "pk_"@),
        forall|at: int| !#[trigger] text::word_at(body, at, "whsec_"@),
        forall|at: int| !#[trigger] text::word_at(body, at, "eyJ"@),
        forall|at: int| !#[trigger] follows(body, at, "bearer "@),
        forall|at: int| !#[trigger] follows(body, at, "basic "@),
        forall|at: int| (#[trigger] digit_group(body, at)).0 < 13,
    ensures
        body.len() <= 512 ==> sanitized(body) == body,
        body.len() > 512 ==> sanitized(body) == body.take(512),
{
    lemma_harmless(body, 0, true);
    assert(body.skip(0) =~= body);
}

proof fn lemma_harmless(body: Seq<char>, at: int, fresh: bool)
    requires
        0 <= at <= body.len(),
        forall|k: int| !#[trigger] text::word_at(body, k, "sk_"@),
        forall|k: int| !#[trigger] text::word_at(body, k, "rk_"@),
        forall|k: int| !#[trigger] text::word_at(body, k, "pk_"@),
        forall|k: int| !#[trigger] text::word_at(body, k, "whsec_"@),
        forall|k: int| !#[trigger] text::word_at(body, k, "eyJ"@),
        forall|k: int| !#[trigger] follows(body, k, "bearer "@),
        forall|k: int| !#[trigger] follows(body, k, "basic "@),
        forall|k: int| (#[trigger] digit_group(body, k)).0 < 13,
    ensures
        scrubbed(body, at, fresh) == body.skip(at),
    decreases body.len() - at,
{
    if at < body.len() {
        lemma_harmless(body, at + 1, false);
        assert(!secret_prefix(body, at));
        assert(digit_group(body, at).0 < 13);
        assert(hidden_end(body, at, fresh) == at);
        assert(body.skip(at) =~= seq![body[at]] + body.skip(at + 1));
    } else {
        assert(body.skip(at) =~= Seq::<char>::empty());
    }
}

/// The name of an authorization scheme counts in any case, right before what it names.
pub proof fn scheme_counts_in_any_case(s: Seq<char>, at: int, word: Seq<char>)
    ensures
        follows(s, at, word) <==> word.len() <= at <= s.len() && text::lowercase(s.subrange(at - word.len(), at)) == word,
{
}

} // verus!
