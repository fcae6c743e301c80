//! Text helpers: trimming, normalisation, truncation and redaction.
use vstd::prelude::*;
use vstd::string::StringSliceAdditionalSpecFns;

verus! {

/// Whether a character has the Unicode `White_Space` property, the
/// whitespace that `str::trim` removes.
pub open spec fn is_white(c: char) -> bool {
    let n = c as u32;
    (0x9 <= n <= 0xd) || n == 0x20 || n == 0x85 || n == 0xa0 || n == 0x1680 || (0x2000 <= n
        <= 0x200a) || n == 0x2028 || n == 0x2029 || n == 0x202f || n == 0x205f || n == 0x3000
}

/// Tells whether a character is whitespace.
pub fn is_white_char(c: char) -> (r: bool)
    ensures
        r == is_white(c),
{
    let n = c as u32;
    (0x9 <= n && n <= 0xd) || n == 0x20 || n == 0x85 || n == 0xa0 || n == 0x1680 || (0x2000 <= n
        && n <= 0x200a) || n == 0x2028 || n == 0x2029 || n == 0x202f || n == 0x205f || n == 0x3000
}

/// The position of the first character at or after `i` that is not whitespace,
/// or the length of `s`.
pub open spec fn skip_white(s: Seq<char>, i: int) -> int
    decreases s.len() - i,
{
    if i < 0 || i >= s.len() {
        s.len() as int
    } else if is_white(s[i]) {
        skip_white(s, i + 1)
    } else {
        i
    }
}

/// The end of `s[lo .. j]` once trailing whitespace is dropped.
pub open spec fn drop_white_back(s: Seq<char>, lo: int, j: int) -> int
    decreases j - lo,
{
    if j <= lo {
        lo
    } else if is_white(s[j - 1]) {
        drop_white_back(s, lo, j - 1)
    } else {
        j
    }
}

/// A text without its leading and trailing whitespace.
pub open spec fn trim_of(s: Seq<char>) -> Seq<char> {
    let start = skip_white(s, 0);
    s.subrange(start, drop_white_back(s, start, s.len() as int))
}

/// Trims leading and trailing whitespace from a text.
pub fn trim_text(s: &str) -> (r: String)
    ensures
        r@ == trim_of(s@),
{
    let n = s.unicode_len();
    let mut start: usize = 0;
    while start < n && is_white_char(s.get_char(start))
        invariant
            n == s@.len(),
            0 <= start <= n,
            skip_white(s@, 0) == skip_white(s@, start as int),
        decreases n - start,
    {
        start = start + 1;
    }
    let mut end: usize = n;
    while end > start && is_white_char(s.get_char(end - 1))
        invariant
            n == s@.len(),
            0 <= start <= end <= n,
            start == skip_white(s@, 0),
            drop_white_back(s@, start as int, n as int) == drop_white_back(
                s@,
                start as int,
                end as int,
            ),
        decreases end - start,
    {
        end = end - 1;
    }
    s.substring_char(start, end).to_owned()
}

/// A text is blank when nothing is left of it after trimming.
pub open spec fn is_blank(s: Seq<char>) -> bool {
    trim_of(s).len() == 0
}

/// The view of an optional owned text.
pub open spec fn opt_view(o: Option<String>) -> Option<Seq<char>> {
    match o {
        Some(s) => Some(s@),
        None => None,
    }
}

/// A text normalised for storage: its trimmed form, or nothing when blank.
pub open spec fn normalized(s: Seq<char>) -> Option<Seq<char>> {
    if is_blank(s) {
        None
    } else {
        Some(trim_of(s))
    }
}

/// Tells whether a text is blank.
pub fn is_blank_text(s: &str) -> (r: bool)
    ensures
        r == is_blank(s@),
{
    let t = trim_text(s);
    t.as_str().is_empty()
}

/// Trims a text and drops it when nothing is left.
pub fn normalize_owned(value: String) -> (r: Option<String>)
    ensures
        opt_view(r) == normalized(value@),
{
    let trimmed = trim_text(value.as_str());
    if trimmed.as_str().is_empty() {
        None
    } else {
        Some(trimmed)
    }
}

/// Normalises an optional text; an absent one stays absent.
pub fn normalize_option(value: Option<String>) -> (r: Option<String>)
    ensures
        opt_view(r) == match value {
            Some(v) => normalized(v@),
            None => None,
        },
{
    match value {
        Some(v) => normalize_owned(v),
        None => None,
    }
}

/// `s` with every occurrence of `from` replaced by `to`, scanning from the
/// left and never overlapping two occurrences.
pub open spec fn replace_all(s: Seq<char>, from: Seq<char>, to: Seq<char>) -> Seq<char>
    decreases s.len(),
{
    if from.len() == 0 || s.len() < from.len() {
        s
    } else if s.subrange(0, from.len() as int) == from {
        to + replace_all(s.subrange(from.len() as int, s.len() as int), from, to)
    } else {
        seq![s[0]] + replace_all(s.subrange(1, s.len() as int), from, to)
    }
}

/// Relies on `str::replace`: replaces all matches of a non-empty pattern,
/// found left to right without overlap, by the replacement text.
#[verifier::external_body]
fn replace_text(s: &str, from: &str, to: &str) -> (r: String)
    requires
        from@.len() > 0,
    ensures
        r@ == replace_all(s@, from@, to@),
{
    s.replace(from, to)
}

/// The word that stands in for a secret in reported text.
pub open spec fn redacted_word() -> Seq<char> {
    seq!['R', 'E', 'D', 'A', 'C', 'T', 'E', 'D']
}

/// Whether `p` occurs in `s` starting at position `i`.
pub open spec fn occurs_at(s: Seq<char>, p: Seq<char>, i: int) -> bool {
    0 <= i && i + p.len() <= s.len() && s.subrange(i, i + p.len()) == p
}

/// Whether `p` occurs anywhere in `s`.
pub open spec fn occurs(s: Seq<char>, p: Seq<char>) -> bool {
    exists|i: int| occurs_at(s, p, i)
}

/// Tells whether two texts are equal.
pub fn same_text(a: &str, b: &str) -> (r: bool)
    ensures
        r == (a@ == b@),
{
    let x = a.to_owned();
    let y = b.to_owned();
    x == y
}

/// Tells whether `p` occurs in `s`.
pub fn contains_text(s: &str, p: &str) -> (r: bool)
    ensures
        r == occurs(s@, p@),
{
    let n = s.unicode_len();
    let m = p.unicode_len();
    if m > n {
        proof {
            assert forall|i: int| !occurs_at(s@, p@, i) by {}
        }
        return false;
    }
    let last = n - m;
    let mut i: usize = 0;
    loop
        invariant
            n == s@.len(),
            m == p@.len(),
            m <= n,
            last == n - m,
            0 <= i <= last,
            forall|j: int| 0 <= j < i ==> !occurs_at(s@, p@, j),
        ensures
            forall|j: int| 0 <= j <= last ==> !occurs_at(s@, p@, j),
        decreases last - i,
    {
        let w = s.substring_char(i, i + m);
        if same_text(w, p) {
            proof {
                assert(occurs_at(s@, p@, i as int));
            }
            return true;
        }
        if i == last {
            break;
        }
        i = i + 1;
    }
    proof {
        assert forall|j: int| !occurs_at(s@, p@, j) by {
            if 0 <= j <= last {
            }
        }
    }
    false
}

/// What a text becomes once a secret is taken out of it: every occurrence
/// replaced by the redaction word; should the secret still occur after that,
/// the redaction word alone; should even that hold the secret, nothing.
pub open spec fn redacted_text(text: Seq<char>, secret: Seq<char>) -> Seq<char> {
    if secret.len() == 0 {
        text
    } else if !occurs(replace_all(text, secret, redacted_word()), secret) {
        replace_all(text, secret, redacted_word())
    } else if !occurs(redacted_word(), secret) {
        redacted_word()
    } else {
        Seq::empty()
    }
}

/// Removes a secret from a text, so that it can be reported: a non-empty
/// secret occurs nowhere in the result.
pub fn redact_secret(text: &str, secret: &str) -> (r: String)
    ensures
        r@ == redacted_text(text@, secret@),
        secret@.len() > 0 ==> !occurs(r@, secret@),
{
    if secret.is_empty() {
        return text.to_owned();
    }
    let word = "REDACTED";
    proof {
        reveal_strlit("REDACTED");
        assert(word@ =~= redacted_word());
    }
    let replaced = replace_text(text, secret, word);
    if !contains_text(replaced.as_str(), secret) {
        return replaced;
    }
    if !contains_text(word, secret) {
        return word.to_owned();
    }
    let r = String::new();
    proof {
        assert forall|i: int| !occurs_at(r@, secret@, i) by {}
    }
    r
}

/// Turns each escaped line break (a backslash followed by `n`) into a real one.
pub fn unescape_newlines(text: &str) -> (r: String)
    ensures
        r@ == replace_all(text@, seq!['\\', 'n'], seq!['\n']),
{
    let from = "\\n";
    let to = "\n";
    proof {
        reveal_strlit("\\n");
        reveal_strlit("\n");
        assert(from@ =~= seq!['\\', 'n']);
        assert(to@ =~= seq!['\n']);
    }
    replace_text(text, from, to)
}

/// A label cut to at most `max_chars` characters, with an ellipsis when cut.
pub open spec fn truncated(s: Seq<char>, max_chars: nat) -> Seq<char> {
    if s.len() <= max_chars {
        s
    } else {
        s.subrange(0, max_chars as int).push('…')
    }
}

/// Cuts a label to at most `max_chars` characters, marking the cut with an ellipsis.
pub fn truncate_label(label: &str, max_chars: usize) -> (r: String)
    ensures
        r@ == truncated(label@, max_chars as nat),
{
    let n = label.unicode_len();
    if n <= max_chars {
        label.to_owned()
    } else {
        let mut r = label.substring_char(0, max_chars).to_owned();
        let dots = "…";
        proof {
            reveal_strlit("…");
        }
        r.append(dots);
        proof {
            assert(r@ =~= label@.subrange(0, max_chars as int).push('…'));
        }
        r
    }
}

/// What `char::to_uppercase` gives for a character.
pub uninterp spec fn upper_of(c: char) -> Seq<char>;

/// Relies on `char::to_uppercase`: the upper-case mapping of one character,
/// one or more characters long, a function of the character alone.
#[verifier::external_body]
fn upper_char(c: char) -> (r: String)
    ensures
        r@ == upper_of(c),
        r@.len() >= 1,
{
    c.to_uppercase().collect::<String>()
}

/// A text with its first character in upper case.
pub open spec fn capitalized(s: Seq<char>) -> Seq<char> {
    if s.len() == 0 {
        s
    } else {
        upper_of(s[0]) + s.subrange(1, s.len() as int)
    }
}

/// Puts the first character of a text in upper case.
pub fn capitalize(input: &str) -> (r: String)
    ensures
        r@ == capitalized(input@),
{
    let n = input.unicode_len();
    if n == 0 {
        String::new()
    } else {
        let mut r = upper_char(input.get_char(0));
        r.append(input.substring_char(1, n));
        r
    }
}

/// How many bytes of a token stay visible when it is shown.
pub const TOKEN_VISIBLE_BYTES: usize = 10;

/// `n` stars.
pub open spec fn stars(n: nat) -> Seq<char> {
    Seq::new(n, |i: int| '*')
}

/// The last character boundary of `bytes` at or before position `i`.
pub open spec fn boundary_before(bytes: Seq<u8>, i: int) -> int
    decreases i,
{
    if i <= 0 {
        0
    } else if vstd::utf8::is_char_boundary(bytes, i) {
        i
    } else {
        boundary_before(bytes, i - 1)
    }
}

/// A token as it is shown: the word `REDACTED` when it is no longer than ten
/// bytes, else its characters within the first ten bytes and thirty stars.
pub open spec fn shown_token(bytes: Seq<u8>) -> Seq<char> {
    if bytes.len() <= TOKEN_VISIBLE_BYTES {
        redacted_word()
    } else {
        vstd::utf8::decode_utf8(
            bytes.subrange(0, boundary_before(bytes, TOKEN_VISIBLE_BYTES as int)),
        ) + stars(30)
    }
}

/// Masks a token for display.
pub fn redact_token(token: &str) -> (r: String)
    ensures
        r@ == shown_token(token.spec_bytes()),
{
    let n = token.as_bytes().len();
    if n <= TOKEN_VISIBLE_BYTES {
        let w = "REDACTED";
        proof {
            reveal_strlit("REDACTED");
            assert(w@ =~= redacted_word());
        }
        w.to_owned()
    } else {
        let ghost bytes = token.spec_bytes();
        proof {
            vstd::utf8::encode_utf8_valid_utf8(token@);
        }
        let mut k: usize = TOKEN_VISIBLE_BYTES;
        while k > 0 && !token.is_char_boundary(k)
            invariant
                bytes == token.spec_bytes(),
                vstd::utf8::valid_utf8(bytes),
                k <= TOKEN_VISIBLE_BYTES,
                boundary_before(bytes, k as int) == boundary_before(
                    bytes,
                    TOKEN_VISIBLE_BYTES as int,
                ),
            decreases k,
        {
            k = k - 1;
        }
        let (head, _tail) = token.split_at(k);
        let mut r = head.to_owned();
        let star_run = "******************************";
        proof {
            reveal_strlit("******************************");
            vstd::utf8::encode_utf8_decode_utf8(head@);
            assert(head.spec_bytes() == bytes.subrange(0, k as int));
        }
        r.append(star_run);
        proof {
            assert(star_run@ =~= stars(30));
        }
        r
    }
}

} // verus!
