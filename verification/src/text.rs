use vstd::prelude::*;
use vstd::std_specs::iter::IteratorSpec;

verus! {

/// What one character becomes when it is written as HTML text.
pub open spec fn escaped_char(c: char) -> Seq<char> {
    if c == '&' {
        seq!['&', 'a', 'm', 'p', ';']
    } else if c == '<' {
        seq!['&', 'l', 't', ';']
    } else if c == '>' {
        seq!['&', 'g', 't', ';']
    } else if c == '"' {
        seq!['&', 'q', 'u', 'o', 't', ';']
    } else if c == '\'' {
        seq!['&', '#', '3', '9', ';']
    } else {
        seq![c]
    }
}

/// A text with each character replaced by `escaped_char` of it, in order.
pub open spec fn escaped(s: Seq<char>) -> Seq<char>
    decreases s.len(),
{
    if s.len() == 0 {
        Seq::empty()
    } else {
        escaped(s.drop_last()) + escaped_char(s.last())
    }
}

/// `String::push` of std: the character is added at the end and the rest stays.
#[verifier::external_body]
fn push_char(s: &mut String, c: char)
    ensures
        final(s)@ == old(s)@.push(c),
{
    s.push(c);
}

/// Appends `escaped(s)` to `out`.
pub fn push_escaped(out: &mut String, s: &str)
    ensures
        final(out)@ == old(out)@ + escaped(s@),
{
    let ghost before = out@;
    for c in it: s.chars()
        invariant
            it.seq() == s@,
            out@ == before + escaped(s@.take(it.index() as int)),
    {
        proof {
            let k = it.index() as int;
            assert(s@.take(k + 1).drop_last() == s@.take(k));
            assert(s@.take(k + 1).last() == c);
        }
        if c == '&' {
            proof { reveal_strlit("&amp;"); }
            out.append("&amp;");
        } else if c == '<' {
            proof { reveal_strlit("&lt;"); }
            out.append("&lt;");
        } else if c == '>' {
            proof { reveal_strlit("&gt;"); }
            out.append("&gt;");
        } else if c == '"' {
            proof { reveal_strlit("&quot;"); }
            out.append("&quot;");
        } else if c == '\'' {
            proof { reveal_strlit("&#39;"); }
            out.append("&#39;");
        } else {
            push_char(out, c);
        }
        assert(out@ == before + escaped(s@.take(it.index() as int + 1)));
    }
    assert(s@.take(s@.len() as int) == s@);
}

/// The text `s` with the characters that HTML reads as markup replaced.
pub fn escape(s: &str) -> (out: String)
    ensures
        out@ == escaped(s@),
{
    let mut out = String::new();
    push_escaped(&mut out, s);
    out
}


/// The character of a decimal digit.
pub open spec fn digit_char(d: nat) -> char
    recommends
        d < 10,
{
    (48 + d) as u8 as char
}

/// A number written in decimal, without sign or leading zeros.
pub open spec fn decimal(n: nat) -> Seq<char>
    decreases n,
{
    if n < 10 {
        seq![digit_char(n)]
    } else {
        decimal(n / 10).push(digit_char(n % 10))
    }
}

/// Appends `n` in decimal to `out`.
pub fn push_decimal(out: &mut String, n: usize)
    ensures
        final(out)@ == old(out)@ + decimal(n as nat),
    decreases n,
{
    if n >= 10 {
        push_decimal(out, n / 10);
    }
    let d: u8 = (n % 10) as u8;
    let c: char = (48u8 + d) as char;
    push_char(out, c);
    assert(out@ =~= old(out)@ + decimal(n as nat));
}

/// Whether `text` begins with `prefix`, character for character.
pub fn starts_with(text: &str, prefix: &str) -> (yes: bool)
    ensures
        yes == prefix@.is_prefix_of(text@),
{
    broadcast use vstd::string::next_postcondition;

    let mut rest = text.chars();
    let mut wanted = prefix.chars();
    let ghost mut k: int = 0;
    loop
        invariant
            0 <= k <= text@.len(),
            k <= prefix@.len(),
            rest.obeys_prophetic_iter_laws(),
            wanted.obeys_prophetic_iter_laws(),
            rest.remaining() == text@.skip(k),
            wanted.remaining() == prefix@.skip(k),
            text@.take(k) == prefix@.take(k),
            wanted.decrease() is Some,
        decreases prefix@.len() - k,
    {
        match wanted.next() {
            None => {
                assert(prefix@.take(k) =~= prefix@);
                assert(prefix@ =~= text@.subrange(0, prefix@.len() as int));
                return true;
            },
            Some(c) => {
                assert(c == prefix@[k]);
                match rest.next() {
                    None => {
                        return false;
                    },
                    Some(d) => {
                        assert(d == text@[k]);
                        if c != d {
                            return false;
                        }
                        proof {
                            assert(text@.take(k + 1) =~= text@.take(k).push(d));
                            assert(prefix@.take(k + 1) =~= prefix@.take(k).push(c));
                            assert(text@.skip(k).drop_first() =~= text@.skip(k + 1));
                            assert(prefix@.skip(k).drop_first() =~= prefix@.skip(k + 1));
                            k = k + 1;
                        }
                    },
                }
            },
        }
    }
}

} // verus!
