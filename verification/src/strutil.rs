//! Small verified string utilities: decimal formatting of numbers, and
//! splitting on ASCII whitespace.

use vstd::prelude::*;

verus! {

/// The decimal digit character for one digit value.
pub open spec fn digit_text(d: int) -> Seq<char> {
    if d == 0 {
        "0"@
    } else if d == 1 {
        "1"@
    } else if d == 2 {
        "2"@
    } else if d == 3 {
        "3"@
    } else if d == 4 {
        "4"@
    } else if d == 5 {
        "5"@
    } else if d == 6 {
        "6"@
    } else if d == 7 {
        "7"@
    } else if d == 8 {
        "8"@
    } else {
        "9"@
    }
}

/// The usual decimal rendering of a natural number, without sign or
/// leading zeroes (except for the number zero itself).
pub open spec fn decimal_text(n: nat) -> Seq<char>
    decreases n,
{
    if n < 10 {
        digit_text(n as int)
    } else {
        decimal_text(n / 10) + digit_text((n % 10) as int)
    }
}

/// Append one decimal digit to a string.
fn push_digit(out: &mut String, d: usize)
    requires
        d < 10,
    ensures
        final(out)@ == old(out)@ + digit_text(d as int),
{
    if d == 0 {
        out.append("0");
    } else if d == 1 {
        out.append("1");
    } else if d == 2 {
        out.append("2");
    } else if d == 3 {
        out.append("3");
    } else if d == 4 {
        out.append("4");
    } else if d == 5 {
        out.append("5");
    } else if d == 6 {
        out.append("6");
    } else if d == 7 {
        out.append("7");
    } else if d == 8 {
        out.append("8");
    } else {
        out.append("9");
    }
}

/// Append the decimal rendering of `n` to a string.
fn append_decimal(out: &mut String, n: usize)
    ensures
        final(out)@ == old(out)@ + decimal_text(n as nat),
    decreases n,
{
    if n < 10 {
        push_digit(out, n);
    } else {
        append_decimal(out, n / 10);
        push_digit(out, n % 10);
    }
}

/// The decimal rendering of a number, as a string.
pub fn decimal_string(n: usize) -> (r: String)
    ensures
        r@ == decimal_text(n as nat),
{
    let mut out = String::new();
    append_decimal(&mut out, n);
    out
}

/// Whether a character is ASCII whitespace.
pub open spec fn is_ascii_ws(c: char) -> bool {
    c == ' ' || c == '\t' || c == '\n' || c == '\r' || c == '\u{c}'
}

/// The length of the whitespace-free token at the front of `s`.
pub open spec fn token_len(s: Seq<char>) -> nat
    decreases s.len(),
{
    if s.len() == 0 || is_ascii_ws(s[0]) {
        0
    } else {
        1 + token_len(s.drop_first())
    }
}

/// The front token is never longer than the text itself.
pub proof fn lemma_token_len_le(s: Seq<char>)
    ensures
        token_len(s) <= s.len(),
    decreases s.len(),
{
    if s.len() > 0 && !is_ascii_ws(s[0]) {
        lemma_token_len_le(s.drop_first());
    }
}

/// The maximal whitespace-free tokens of `s`, in order.
pub open spec fn split_ws(s: Seq<char>) -> Seq<Seq<char>>
    decreases s.len(),
{
    if s.len() == 0 {
        Seq::empty()
    } else if is_ascii_ws(s[0]) {
        split_ws(s.drop_first())
    } else {
        proof {
            lemma_token_len_le(s);
        }
        seq![s.take(token_len(s) as int)] + split_ws(s.skip(token_len(s) as int))
    }
}

/// Whether a character is ASCII whitespace.
fn is_ws_char(c: char) -> (r: bool)
    ensures
        r == is_ascii_ws(c),
{
    c == ' ' || c == '\t' || c == '\n' || c == '\r' || c == '\u{c}'
}

/// Split a string into its maximal whitespace-free tokens, in order.
pub fn split_whitespace(s: &str) -> (r: Vec<String>)
    ensures
        r@.map_values(|t: String| t@) == split_ws(s@),
{
    let len = s.unicode_len();
    let mut tokens: Vec<String> = Vec::new();
    let mut i: usize = 0;
    proof {
        assert(s@.skip(0) =~= s@);
        assert(tokens@.map_values(|t: String| t@) + split_ws(s@) =~= split_ws(s@));
    }
    while i < len
        invariant
            i <= len,
            len == s@.len(),
            split_ws(s@) == tokens@.map_values(|t: String| t@) + split_ws(s@.skip(i as int)),
        decreases len - i,
    {
        let c = s.get_char(i);
        if is_ws_char(c) {
            proof {
                assert(s@.skip(i as int).drop_first() =~= s@.skip(i + 1));
            }
            i += 1;
        } else {
            let ghost rest = s@.skip(i as int);
            let mut j: usize = i + 1;
            proof {
                assert(rest.drop_first() =~= s@.skip(i + 1));
            }
            while j < len && !is_ws_char(s.get_char(j))
                invariant
                    i < j <= len,
                    len == s@.len(),
                    rest == s@.skip(i as int),
                    token_len(rest) == (j - i) + token_len(s@.skip(j as int)),
                decreases len - j,
            {
                proof {
                    assert(s@.skip(j as int).drop_first() =~= s@.skip(j + 1));
                }
                j += 1;
            }
            proof {
                assert(token_len(s@.skip(j as int)) == 0);
                assert(token_len(rest) == j - i);
                assert(s@.subrange(i as int, j as int) =~= rest.take(token_len(rest) as int));
                assert(rest.skip(token_len(rest) as int) =~= s@.skip(j as int));
            }
            let token = s.substring_char(i, j).to_owned();
            let ghost old_tokens = tokens@;
            tokens.push(token);
            proof {
                assert(tokens@.map_values(|t: String| t@) =~= old_tokens.map_values(
                    |t: String| t@,
                ) + seq![rest.take(token_len(rest) as int)]);
            }
            i = j;
        }
    }
    proof {
        assert(s@.skip(len as int) =~= Seq::<char>::empty());
        assert(tokens@.map_values(|t: String| t@) + split_ws(s@.skip(len as int))
            =~= tokens@.map_values(|t: String| t@));
    }
    tokens
}

} // verus!
