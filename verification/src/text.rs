//! Character-level helpers: Unicode white space, trimming, decimal text,
//! comparison and joining of strings.

use vstd::prelude::*;
use vstd::string::*;
use vstd::utf8::*;

verus! {

broadcast use vstd::utf8::encode_utf8_decode_utf8;

/// The Unicode `White_Space` property: the characters that `str::trim` removes
/// and that the regex class `\s` matches.
pub open spec fn is_white_space(c: char) -> bool {
    let u = c as u32;
    ||| 0x09 <= u <= 0x0d
    ||| u == 0x20
    ||| u == 0x85
    ||| u == 0xa0
    ||| u == 0x1680
    ||| 0x2000 <= u <= 0x200a
    ||| u == 0x2028
    ||| u == 0x2029
    ||| u == 0x202f
    ||| u == 0x205f
    ||| u == 0x3000
}

/// `s` without its leading white space.
pub open spec fn trim_start_spec(s: Seq<char>) -> Seq<char>
    decreases s.len(),
{
    if s.len() > 0 && is_white_space(s[0]) {
        trim_start_spec(s.drop_first())
    } else {
        s
    }
}

/// `s` without its trailing white space.
pub open spec fn trim_end_spec(s: Seq<char>) -> Seq<char>
    decreases s.len(),
{
    if s.len() > 0 && is_white_space(s.last()) {
        trim_end_spec(s.drop_last())
    } else {
        s
    }
}

/// `s` without leading and trailing white space.
pub open spec fn trim_spec(s: Seq<char>) -> Seq<char> {
    trim_end_spec(trim_start_spec(s))
}

/// Every maximal run of white space in `s` replaced by one space.
pub open spec fn collapse_white_space(s: Seq<char>) -> Seq<char>
    decreases s.len(),
{
    if s.len() == 0 {
        s
    } else {
        let prefix = collapse_white_space(s.drop_last());
        if !is_white_space(s.last()) {
            prefix.push(s.last())
        } else if s.len() >= 2 && is_white_space(s[s.len() - 2]) {
            prefix
        } else {
            prefix.push(' ')
        }
    }
}

/// Calls `str::trim`, which removes leading and trailing characters that have
/// the Unicode `White_Space` property.
#[verifier::external_body]
pub(crate) fn str_trim(s: &str) -> (r: &str)
    ensures
        r@ == trim_spec(s@),
{
    s.trim()
}

/// Calls `str::trim_start`, which removes leading characters that have the
/// Unicode `White_Space` property.
#[verifier::external_body]
pub(crate) fn str_trim_start(s: &str) -> (r: &str)
    ensures
        r@ == trim_start_spec(s@),
{
    s.trim_start()
}

/// What `String::from_utf8_lossy` makes of a byte sequence.
pub uninterp spec fn utf8_lossy_text(bytes: Seq<u8>) -> Seq<char>;

/// The text of a byte sequence as `String::from_utf8_lossy` gives it:
/// valid UTF-8 is decoded as it is; other bytes are left to the name
/// `utf8_lossy_text`.
pub open spec fn lossy_text(bytes: Seq<u8>) -> Seq<char> {
    if valid_utf8(bytes) {
        decode_utf8(bytes)
    } else {
        utf8_lossy_text(bytes)
    }
}

/// Calls `String::from_utf8_lossy`. Its documentation states that valid UTF-8
/// comes back unchanged; what it makes of invalid sequences (U+FFFD in their
/// place) is left to the name `utf8_lossy_text`.
#[verifier::external_body]
pub(crate) fn utf8_lossy(bytes: &[u8]) -> (r: String)
    ensures
        r@ == utf8_lossy_text(bytes@),
        valid_utf8(bytes@) ==> r@ == decode_utf8(bytes@),
{
    String::from_utf8_lossy(bytes).into_owned()
}

/// The decimal digit `d` as a character.
pub open spec fn digit_char(d: nat) -> char {
    seq!['0', '1', '2', '3', '4', '5', '6', '7', '8', '9'][d as int]
}

/// The decimal text of `n`, without sign or leading zeros.
pub open spec fn decimal_text(n: nat) -> Seq<char>
    decreases n,
{
    if n < 10 {
        seq![digit_char(n)]
    } else {
        decimal_text(n / 10).push(digit_char(n % 10))
    }
}

proof fn lemma_digit_char_injective(a: nat, b: nat)
    requires
        a < 10,
        b < 10,
        digit_char(a) == digit_char(b),
    ensures
        a == b,
{
    let ds = seq!['0', '1', '2', '3', '4', '5', '6', '7', '8', '9'];
    assert(digit_char(a) == ds[a as int]);
    assert(digit_char(b) == ds[b as int]);
}

proof fn lemma_decimal_text_len(n: nat)
    ensures
        decimal_text(n).len() >= 1,
        n >= 10 ==> decimal_text(n).len() >= 2,
    decreases n,
{
    if n >= 10 {
        lemma_decimal_text_len(n / 10);
    }
}

/// Different numbers have different decimal texts.
pub proof fn lemma_decimal_text_injective(a: nat, b: nat)
    ensures
        decimal_text(a) == decimal_text(b) ==> a == b,
    decreases a,
{
    if decimal_text(a) == decimal_text(b) {
        lemma_decimal_text_len(a);
        lemma_decimal_text_len(b);
        let ta = decimal_text(a);
        if a < 10 && b < 10 {
            assert(ta[0] == digit_char(a) && decimal_text(b)[0] == digit_char(b));
            lemma_digit_char_injective(a, b);
        } else if a >= 10 && b >= 10 {
            assert(ta.last() == digit_char(a % 10));
            assert(decimal_text(b).last() == digit_char(b % 10));
            lemma_digit_char_injective(a % 10, b % 10);
            assert(decimal_text(a / 10) =~= ta.drop_last());
            assert(decimal_text(b / 10) =~= decimal_text(b).drop_last());
            lemma_decimal_text_injective(a / 10, b / 10);
        }
    }
}

/// Calls `ToString::to_string` on a `usize`, whose `Display` writes the
/// decimal digits of the number.
#[verifier::external_body]
pub(crate) fn usize_to_text(n: usize) -> (r: String)
    ensures
        r@ == decimal_text(n as nat),
{
    n.to_string()
}

/// The value of a nonempty string of ASCII decimal digits; `None` for any
/// other text.
pub open spec fn decimal_value(s: Seq<char>) -> Option<nat>
    decreases s.len(),
{
    if s.len() == 0 {
        None
    } else {
        let c = s.last();
        if !('0' <= c && c <= '9') {
            None
        } else if s.len() == 1 {
            Some((c as u32 - '0' as u32) as nat)
        } else {
            match decimal_value(s.drop_last()) {
                Some(v) => Some(v * 10 + (c as u32 - '0' as u32) as nat),
                None => None,
            }
        }
    }
}

proof fn lemma_decimal_value_prefix_none(s: Seq<char>, i: int)
    requires
        1 <= i <= s.len(),
        decimal_value(s.take(i)) is None,
    ensures
        decimal_value(s) is None,
    decreases s.len() - i,
{
    if i < s.len() {
        let t = s.take(i + 1);
        assert(t.drop_last() =~= s.take(i));
        lemma_decimal_value_prefix_none(s, i + 1);
    } else {
        assert(s.take(i) =~= s);
    }
}

proof fn lemma_decimal_value_monotone(s: Seq<char>, i: int)
    requires
        1 <= i <= s.len(),
        decimal_value(s) is Some,
    ensures
        decimal_value(s.take(i)) is Some,
        decimal_value(s.take(i)).unwrap() <= decimal_value(s).unwrap(),
    decreases s.len() - i,
{
    if i < s.len() {
        lemma_decimal_value_monotone(s, i + 1);
        let t = s.take(i + 1);
        assert(t.drop_last() =~= s.take(i));
    } else {
        assert(s.take(i) =~= s);
    }
}

/// Reads `s` as a decimal `u64`: `Some` exactly when `s` is a nonempty string
/// of ASCII digits whose value fits in `u64`.
pub fn parse_decimal_u64(s: &str) -> (r: Option<u64>)
    ensures
        match decimal_value(s@) {
            Some(v) => if v <= u64::MAX { r == Some(v as u64) } else { r is None },
            None => r is None,
        },
{
    let n = s.unicode_len();
    if n == 0 {
        return None;
    }
    let mut acc: u64 = 0;
    let mut i: usize = 0;
    while i < n
        invariant
            n == s@.len(),
            0 <= i <= n,
            i == 0 ==> acc == 0,
            i > 0 ==> decimal_value(s@.take(i as int)) == Some(acc as nat),
        decreases n - i,
    {
        let c = s.get_char(i);
        proof {
            let t = s@.take(i + 1);
            assert(t.drop_last() =~= s@.take(i as int));
            assert(t.last() == c);
        }
        if !('0' <= c && c <= '9') {
            proof {
                lemma_decimal_value_prefix_none(s@, i + 1);
            }
            return None;
        }
        let d = (c as u32 - '0' as u32) as u64;
        if acc > (u64::MAX - d) / 10 {
            proof {
                if decimal_value(s@) is Some {
                    lemma_decimal_value_monotone(s@, i + 1);
                }
            }
            return None;
        }
        acc = acc * 10 + d;
        i = i + 1;
    }
    proof {
        assert(s@.take(n as int) =~= s@);
    }
    Some(acc)
}

/// Whether two strings hold the same characters.
pub fn str_eq(a: &str, b: &str) -> (r: bool)
    ensures
        r == (a@ == b@),
{
    let x = a.as_bytes();
    let y = b.as_bytes();
    if x.len() != y.len() {
        return false;
    }
    let mut i: usize = 0;
    while i < x.len()
        invariant
            x@ == a.spec_bytes(),
            y@ == b.spec_bytes(),
            x@.len() == y@.len(),
            0 <= i <= x@.len(),
            forall|j: int| 0 <= j < i ==> x@[j] == y@[j],
        decreases x@.len() - i,
    {
        if x[i] != y[i] {
            return false;
        }
        i = i + 1;
    }
    proof {
        assert(x@ =~= y@);
        assert(decode_utf8(encode_utf8(a@)) == a@);
        assert(decode_utf8(encode_utf8(b@)) == b@);
    }
    true
}

/// `parts` joined, with `sep` between each two neighbours.
pub open spec fn join_spec(parts: Seq<Seq<char>>, sep: Seq<char>) -> Seq<char>
    decreases parts.len(),
{
    if parts.len() == 0 {
        Seq::empty()
    } else if parts.len() == 1 {
        parts[0]
    } else {
        join_spec(parts.drop_last(), sep) + sep + parts.last()
    }
}

/// Joins `parts` with `sep` between each two neighbours.
pub fn join_strings(parts: &Vec<String>, sep: &str) -> (r: String)
    ensures
        r@ == join_spec(parts.deep_view(), sep@),
{
    let mut out = String::new();
    let mut i: usize = 0;
    while i < parts.len()
        invariant
            0 <= i <= parts@.len(),
            out@ == join_spec(parts.deep_view().take(i as int), sep@),
        decreases parts@.len() - i,
    {
        proof {
            let t = parts.deep_view().take(i + 1);
            assert(t.drop_last() =~= parts.deep_view().take(i as int));
            assert(t.last() == parts@[i as int]@);
        }
        if i > 0 {
            out.append(sep);
        }
        out.append(parts[i].as_str());
        i = i + 1;
    }
    proof {
        assert(parts.deep_view().take(parts@.len() as int) =~= parts.deep_view());
    }
    out
}

/// Calls `regex::Regex::replace_all` with the pattern `\s+` and the
/// replacement `" "`. In the regex crate `\s` is the Unicode `White_Space`
/// class, so each maximal run of white space becomes one space.
#[verifier::external_body]
fn replace_white_space_runs(text: &str) -> (r: String)
    ensures
        r@ == collapse_white_space(text@),
{
    let re = regex::Regex::new(r"\s+").expect("the pattern is valid");
    re.replace_all(text, " ").into_owned()
}

/// The text that embedding requests carry: `text` trimmed, with each run of
/// white space inside it collapsed to one space.
pub open spec fn normalized_spec(text: Seq<char>) -> Seq<char> {
    collapse_white_space(trim_spec(text))
}

/// Trims `text` and collapses each run of white space inside it to one space.
pub fn normalize_for_embedding(text: &str) -> (r: String)
    ensures
        r@ == normalized_spec(text@),
{
    replace_white_space_runs(str_trim(text))
}

/// No two neighbouring characters of `s` are both white space.
pub open spec fn no_white_space_run(s: Seq<char>) -> bool {
    forall|i: int| 0 <= i < s.len() - 1 ==> !(#[trigger] is_white_space(s[i]) && is_white_space(s[i + 1]))
}

/// Every white-space character of `s` is a plain space.
pub open spec fn white_space_is_space(s: Seq<char>) -> bool {
    forall|i: int| 0 <= i < s.len() && #[trigger] is_white_space(s[i]) ==> s[i] == ' '
}

/// `s` neither starts nor ends with white space.
pub open spec fn no_outer_white_space(s: Seq<char>) -> bool {
    s.len() > 0 ==> !is_white_space(s[0]) && !is_white_space(s.last())
}

proof fn lemma_collapse_shape(s: Seq<char>)
    ensures
        no_white_space_run(collapse_white_space(s)),
        white_space_is_space(collapse_white_space(s)),
        (collapse_white_space(s).len() == 0) == (s.len() == 0),
        s.len() > 0 ==> (is_white_space(collapse_white_space(s)[0]) == is_white_space(s[0])),
        s.len() > 0 ==> (is_white_space(collapse_white_space(s).last()) == is_white_space(s.last())),
    decreases s.len(),
{
    if s.len() > 0 {
        let p = s.drop_last();
        lemma_collapse_shape(p);
        let c = collapse_white_space(s);
        let cp = collapse_white_space(p);
        assert(is_white_space(' '));
        if p.len() > 0 {
            assert(p.last() == s[s.len() - 2]);
            assert(p[0] == s[0]);
        }
        if !is_white_space(s.last()) {
            assert(c == cp.push(s.last()));
        } else if s.len() >= 2 && is_white_space(s[s.len() - 2]) {
            assert(c == cp);
        } else {
            assert(c == cp.push(' '));
        }
        assert forall|i: int| 0 <= i < c.len() - 1 implies !(#[trigger] is_white_space(c[i])
            && is_white_space(c[i + 1])) by {
            if i + 1 < cp.len() {
                assert(c[i] == cp[i] && c[i + 1] == cp[i + 1]);
            }
        }
        assert forall|i: int| 0 <= i < c.len() && #[trigger] is_white_space(c[i]) implies c[i]
            == ' ' by {
            if i < cp.len() {
                assert(c[i] == cp[i]);
            }
        }
    }
}

proof fn lemma_collapse_fixed(s: Seq<char>)
    requires
        no_white_space_run(s),
        white_space_is_space(s),
    ensures
        collapse_white_space(s) == s,
    decreases s.len(),
{
    if s.len() > 0 {
        let p = s.drop_last();
        assert forall|i: int| 0 <= i < p.len() - 1 implies !(#[trigger] is_white_space(p[i])
            && is_white_space(p[i + 1])) by {
            assert(p[i] == s[i] && p[i + 1] == s[i + 1]);
        }
        assert forall|i: int| 0 <= i < p.len() && #[trigger] is_white_space(p[i]) implies p[i]
            == ' ' by {
            assert(p[i] == s[i]);
        }
        lemma_collapse_fixed(p);
        if is_white_space(s.last()) {
            assert(s[s.len() - 1] == ' ');
            if s.len() >= 2 {
                assert(!(is_white_space(s[s.len() - 2]) && is_white_space(s[s.len() - 1])));
            }
        }
        assert(p.push(s.last()) =~= s);
    }
}

proof fn lemma_trim_start_shape(s: Seq<char>)
    ensures
        trim_start_spec(s).len() > 0 ==> !is_white_space(trim_start_spec(s)[0]),
    decreases s.len(),
{
    if s.len() > 0 && is_white_space(s[0]) {
        lemma_trim_start_shape(s.drop_first());
    }
}

proof fn lemma_trim_end_shape(s: Seq<char>)
    ensures
        trim_end_spec(s).len() <= s.len(),
        trim_end_spec(s) == s.take(trim_end_spec(s).len() as int),
        trim_end_spec(s).len() > 0 ==> !is_white_space(trim_end_spec(s).last()),
    decreases s.len(),
{
    if s.len() > 0 && is_white_space(s.last()) {
        lemma_trim_end_shape(s.drop_last());
        let r = trim_end_spec(s.drop_last());
        assert(s.drop_last().take(r.len() as int) =~= s.take(r.len() as int));
    } else {
        assert(s.take(s.len() as int) =~= s);
    }
}

proof fn lemma_trim_shape(s: Seq<char>)
    ensures
        no_outer_white_space(trim_spec(s)),
{
    let a = trim_start_spec(s);
    lemma_trim_start_shape(s);
    lemma_trim_end_shape(a);
    let r = trim_end_spec(a);
    if r.len() > 0 {
        assert(r[0] == a[0]);
    }
}

proof fn lemma_trim_fixed(s: Seq<char>)
    requires
        no_outer_white_space(s),
    ensures
        trim_spec(s) == s,
{
}

/// Trimming a trimmed text changes nothing.
pub proof fn lemma_trim_idempotent(s: Seq<char>)
    ensures
        trim_spec(trim_spec(s)) == trim_spec(s),
{
    lemma_trim_shape(s);
    lemma_trim_fixed(trim_spec(s));
}

/// What embedding requests carry has no leading or trailing white space, no
/// two white-space characters in a row, and no white space but plain spaces.
pub proof fn lemma_normalized_shape(text: Seq<char>)
    ensures
        no_outer_white_space(normalized_spec(text)),
        no_white_space_run(normalized_spec(text)),
        white_space_is_space(normalized_spec(text)),
{
    lemma_trim_shape(text);
    lemma_collapse_shape(trim_spec(text));
}

/// Normalizing a text a second time changes nothing.
pub proof fn lemma_normalize_idempotent(text: Seq<char>)
    ensures
        normalized_spec(normalized_spec(text)) == normalized_spec(text),
{
    let n = normalized_spec(text);
    lemma_normalized_shape(text);
    lemma_trim_fixed(n);
    lemma_collapse_fixed(n);
}

/// `s` without its trailing `/` characters.
pub open spec fn trim_end_slashes(s: Seq<char>) -> Seq<char>
    decreases s.len(),
{
    if s.len() > 0 && s.last() == '/' {
        trim_end_slashes(s.drop_last())
    } else {
        s
    }
}

/// The endpoint `path` under `base`: `base` without trailing slashes,
/// followed by `path`.
pub open spec fn join_url_spec(base: Seq<char>, path: Seq<char>) -> Seq<char> {
    trim_end_slashes(base) + path
}

/// Joins a base URL and an endpoint path (which starts with `/`); trailing
/// slashes of the base are dropped first.
pub fn join_url(base: &str, path: &str) -> (r: String)
    ensures
        r@ == join_url_spec(base@, path@),
{
    let n = base.unicode_len();
    let mut k: usize = n;
    proof {
        assert(base@.take(n as int) =~= base@);
    }
    while k > 0 && base.get_char(k - 1) == '/'
        invariant
            n == base@.len(),
            0 <= k <= n,
            trim_end_slashes(base@) == trim_end_slashes(base@.take(k as int)),
        decreases k,
    {
        proof {
            assert(base@.take(k as int).drop_last() =~= base@.take(k - 1));
        }
        k = k - 1;
    }
    let head = base.substring_char(0, k);
    proof {
        assert(head@ =~= base@.take(k as int));
        assert(base@.take(n as int) =~= base@);
    }
    let mut out = head.to_string();
    out.append(path);
    out
}

/// Trailing slashes of a base URL make no difference to the joined URL.
pub proof fn lemma_join_url_ignores_trailing_slash(base: Seq<char>, path: Seq<char>)
    ensures
        join_url_spec(base.push('/'), path) == join_url_spec(base, path),
{
    assert(base.push('/').drop_last() =~= base);
}

} // verus!
