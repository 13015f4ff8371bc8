//! Standard base64 (RFC 4648 alphabet, `=` padding), decoded.

use vstd::prelude::*;
use vstd::utf8::is_ascii_chars;

verus! {

/// The value of a base64 digit: `A`-`Z`, `a`-`z`, `0`-`9`, `+`, `/`.
pub open spec fn digit_value(b: u8) -> Option<u8> {
    if 65 <= b <= 90 {
        Some((b - 65) as u8)
    } else if 97 <= b <= 122 {
        Some((b - 71) as u8)
    } else if 48 <= b <= 57 {
        Some((b + 4) as u8)
    } else if b == 43 {
        Some(62u8)
    } else if b == 47 {
        Some(63u8)
    } else {
        None
    }
}

/// The padding character `=`.
pub open spec fn is_pad(b: u8) -> bool {
    b == 61
}

/// The first byte of a group, from its first two digits.
pub open spec fn byte0(a: u8, b: u8) -> u8 {
    (a * 4 + b / 16) as u8
}

/// The second byte of a group, from its second and third digits.
pub open spec fn byte1(b: u8, c: u8) -> u8 {
    ((b % 16) * 16 + c / 4) as u8
}

/// The third byte of a group, from its third and fourth digits.
pub open spec fn byte2(c: u8, d: u8) -> u8 {
    ((c % 4) * 64 + d) as u8
}

/// A group of four digits: three bytes.
pub open spec fn full_group(s: Seq<u8>) -> Option<Seq<u8>> {
    match (digit_value(s[0]), digit_value(s[1]), digit_value(s[2]), digit_value(s[3])) {
        (Some(a), Some(b), Some(c), Some(d)) => Some(seq![byte0(a, b), byte1(b, c), byte2(c, d)]),
        _ => None,
    }
}

/// The last group: four digits, three digits and `=`, or two digits and
/// `==`.
pub open spec fn last_group(s: Seq<u8>) -> Option<Seq<u8>> {
    if is_pad(s[3]) {
        if is_pad(s[2]) {
            match (digit_value(s[0]), digit_value(s[1])) {
                (Some(a), Some(b)) => Some(seq![byte0(a, b)]),
                _ => None,
            }
        } else {
            match (digit_value(s[0]), digit_value(s[1]), digit_value(s[2])) {
                (Some(a), Some(b), Some(c)) => Some(seq![byte0(a, b), byte1(b, c)]),
                _ => None,
            }
        }
    } else {
        full_group(s)
    }
}

/// `p` before the bytes of a decoding, if it succeeded.
pub open spec fn prepend(p: Seq<u8>, o: Option<Seq<u8>>) -> Option<Seq<u8>> {
    match o {
        Some(r) => Some(p + r),
        None => None,
    }
}

/// The bytes that a base64 text stands for: groups of four characters,
/// padding only in the last group; `None` for any other text.
pub open spec fn decode_spec(s: Seq<u8>) -> Option<Seq<u8>>
    decreases s.len(),
{
    if s.len() == 0 {
        Some(Seq::empty())
    } else if s.len() < 4 {
        None
    } else if s.len() == 4 {
        last_group(s)
    } else {
        match full_group(s) {
            Some(g) => prepend(g, decode_spec(s.skip(4))),
            None => None,
        }
    }
}

/// The base64 text of a string: its bytes when it is ASCII.
pub open spec fn decode_text_spec(t: Seq<char>) -> Option<Seq<u8>> {
    if is_ascii_chars(t) {
        decode_spec(Seq::new(t.len(), |i: int| t[i] as u8))
    } else {
        None
    }
}

fn digit(b: u8) -> (r: Option<u8>)
    ensures
        r == digit_value(b),
        r matches Some(v) ==> v < 64,
{
    if 65 <= b && b <= 90 {
        Some(b - 65)
    } else if 97 <= b && b <= 122 {
        Some(b - 71)
    } else if 48 <= b && b <= 57 {
        Some(b + 4)
    } else if b == 43 {
        Some(62)
    } else if b == 47 {
        Some(63)
    } else {
        None
    }
}

proof fn lemma_digit_bound(b: u8)
    ensures
        digit_value(b) matches Some(v) ==> v < 64,
{
}

/// Appends the bytes of the group at `s[i..i + 4]`; `false` when it is not
/// a valid group (`last` says whether padding may end it).
fn push_group(s: &[u8], i: usize, last: bool, out: &mut Vec<u8>) -> (ok: bool)
    requires
        i + 4 <= s@.len(),
    ensures
        ({
            let g = s@.subrange(i as int, i + 4);
            let o = if last {
                last_group(g)
            } else {
                full_group(g)
            };
            match o {
                Some(bs) => ok && final(out)@ == old(out)@ + bs,
                None => !ok,
            }
        }),
{
    let ghost g = s@.subrange(i as int, i + 4);
    proof {
        lemma_digit_bound(g[0]);
        lemma_digit_bound(g[1]);
        lemma_digit_bound(g[2]);
        lemma_digit_bound(g[3]);
    }
    let a = match digit(s[i]) {
        Some(v) => v,
        None => return false,
    };
    let b = match digit(s[i + 1]) {
        Some(v) => v,
        None => return false,
    };
    if last && s[i + 3] == 61 {
        if s[i + 2] == 61 {
            out.push(a * 4 + b / 16);
            proof {
                assert(final(out)@ =~= old(out)@ + seq![byte0(a, b)]);
            }
            return true;
        }
        let c = match digit(s[i + 2]) {
            Some(v) => v,
            None => return false,
        };
        out.push(a * 4 + b / 16);
        out.push((b % 16) * 16 + c / 4);
        proof {
            assert(final(out)@ =~= old(out)@ + seq![byte0(a, b), byte1(b, c)]);
        }
        return true;
    }
    let c = match digit(s[i + 2]) {
        Some(v) => v,
        None => return false,
    };
    let d = match digit(s[i + 3]) {
        Some(v) => v,
        None => return false,
    };
    out.push(a * 4 + b / 16);
    out.push((b % 16) * 16 + c / 4);
    out.push((c % 4) * 64 + d);
    proof {
        assert(final(out)@ =~= old(out)@ + seq![byte0(a, b), byte1(b, c), byte2(c, d)]);
    }
    true
}

proof fn lemma_decode_step(s: Seq<u8>, i: int)
    requires
        0 <= i,
        i + 4 < s.len(),
    ensures
        decode_spec(s.skip(i)) == match full_group(s.subrange(i, i + 4)) {
            Some(g) => prepend(g, decode_spec(s.skip(i + 4))),
            None => None,
        },
{
    let t = s.skip(i);
    assert(t.skip(4) =~= s.skip(i + 4));
    assert(t.subrange(0, 4) =~= s.subrange(i, i + 4));
    assert(full_group(t) == full_group(s.subrange(i, i + 4)));
}

proof fn lemma_decode_last(s: Seq<u8>, i: int)
    requires
        0 <= i,
        i + 4 == s.len(),
    ensures
        decode_spec(s.skip(i)) == last_group(s.subrange(i, i + 4)),
{
    let t = s.skip(i);
    assert(t =~= s.subrange(i, i + 4));
}

/// The bytes of base64 `bytes`.
pub fn decode_bytes(s: &[u8]) -> (r: Option<Vec<u8>>)
    ensures
        match r {
            Some(v) => decode_spec(s@) == Some(v@),
            None => decode_spec(s@) is None,
        },
{
    let n = s.len();
    if n % 4 != 0 {
        proof {
            lemma_bad_length(s@);
        }
        return None;
    }
    let mut out: Vec<u8> = Vec::new();
    let mut i: usize = 0;
    proof {
        assert(s@.skip(0) =~= s@);
        assert(out@ + Seq::<u8>::empty() =~= out@);
    }
    while i < n
        invariant
            n == s@.len(),
            n % 4 == 0,
            i % 4 == 0,
            i <= n,
            decode_spec(s@) == prepend(out@, decode_spec(s@.skip(i as int))),
        decreases n - i,
    {
        let last = i + 4 == n;
        let ghost before = out@;
        let ok = push_group(s, i, last, &mut out);
        if last {
            proof {
                lemma_decode_last(s@, i as int);
            }
            if !ok {
                return None;
            }
            proof {
                assert(s@.skip(i + 4) =~= Seq::<u8>::empty());
                assert(out@ + Seq::<u8>::empty() =~= out@);
            }
        } else {
            proof {
                lemma_decode_step(s@, i as int);
            }
            if !ok {
                return None;
            }
            proof {
                let g = full_group(s@.subrange(i as int, i + 4))->Some_0;
                match decode_spec(s@.skip(i + 4)) {
                    Some(rest) => {
                        assert(before + (g + rest) =~= (before + g) + rest);
                    },
                    None => {},
                }
            }
        }
        i = i + 4;
    }
    proof {
        assert(s@.skip(n as int) =~= Seq::<u8>::empty());
        assert(out@ + Seq::<u8>::empty() =~= out@);
    }
    Some(out)
}

proof fn lemma_bad_length(s: Seq<u8>)
    requires
        s.len() % 4 != 0,
    ensures
        decode_spec(s) is None,
    decreases s.len(),
{
    if s.len() > 4 {
        lemma_bad_length(s.skip(4));
    }
}

/// The bytes of a base64 text; `None` when it is not ASCII or not base64.
pub fn decode_text(t: &str) -> (r: Option<Vec<u8>>)
    ensures
        match r {
            Some(v) => decode_text_spec(t@) == Some(v@),
            None => decode_text_spec(t@) is None,
        },
{
    if !t.is_ascii() {
        return None;
    }
    let bytes = t.as_bytes();
    proof {
        vstd::string::is_ascii_spec_bytes(t);
        assert(bytes@ =~= Seq::new(t@.len(), |i: int| t@[i] as u8));
    }
    decode_bytes(bytes)
}

} // verus!
