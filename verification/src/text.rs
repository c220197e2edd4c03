//! Character-level building blocks of the SQL text: joining with a separator,
//! decimal digits, and the quoting of text literals.
use vstd::prelude::*;

verus! {

/// `parts` laid end to end with `sep` between each neighbouring pair.
pub open spec fn join(parts: Seq<Seq<char>>, sep: Seq<char>) -> Seq<char>
    decreases parts.len(),
{
    if parts.len() == 0 {
        seq![]
    } else if parts.len() == 1 {
        parts[0]
    } else {
        join(parts.drop_last(), sep) + sep + parts.last()
    }
}

/// Appending one more part to a joined list adds the separator and the part.
pub proof fn lemma_join_push(parts: Seq<Seq<char>>, sep: Seq<char>, x: Seq<char>)
    ensures
        join(parts.push(x), sep) == if parts.len() == 0 {
            x
        } else {
            join(parts, sep) + sep + x
        },
{
    assert(parts.push(x).drop_last() =~= parts);
}

/// The character of the decimal digit `d`.
pub open spec fn digit_char(d: nat) -> char {
    (d + 48) as char
}

/// The decimal digits of `n`, most significant first, without leading zeros.
pub open spec fn decimal(n: nat) -> Seq<char>
    decreases n,
{
    if n < 10 {
        seq![digit_char(n)]
    } else {
        decimal(n / 10).push(digit_char(n % 10))
    }
}

/// The decimal text of a signed integer: a minus sign before the digits of a negative one.
pub open spec fn int_decimal(i: int) -> Seq<char> {
    if i < 0 {
        seq!['-'] + decimal((-i) as nat)
    } else {
        decimal(i as nat)
    }
}

/// The number that a run of decimal digits denotes.
pub open spec fn digits_value(s: Seq<char>) -> int
    decreases s.len(),
{
    if s.len() == 0 {
        0
    } else {
        digits_value(s.drop_last()) * 10 + (s.last() as int - 48)
    }
}

/// Whether every character of `s` is one of `0`..`9`.
pub open spec fn all_digits(s: Seq<char>) -> bool {
    forall|i: int| 0 <= i < s.len() ==> '0' <= #[trigger] s[i] <= '9'
}

/// The decimal text of `n` is a non-empty run of digits, without a leading zero
/// unless `n` is zero, that denotes `n` again.
pub proof fn lemma_decimal_denotes(n: nat)
    ensures
        decimal(n).len() >= 1,
        all_digits(decimal(n)),
        digits_value(decimal(n)) == n,
        n > 0 ==> decimal(n)[0] != '0',
    decreases n,
{
    if n < 10 {
        assert(digit_char(n) as int == n + 48);
        assert(decimal(n).drop_last() =~= Seq::<char>::empty());
        assert(digits_value(Seq::<char>::empty()) == 0);
    } else {
        lemma_decimal_denotes(n / 10);
        let s = decimal(n);
        assert(s.drop_last() =~= decimal(n / 10));
        assert(n == (n / 10) * 10 + n % 10) by (nonlinear_arith);
        assert(digit_char(n % 10) as int == n % 10 + 48);
        assert(s.last() == digit_char(n % 10));
        assert(digits_value(s) == digits_value(decimal(n / 10)) * 10 + (n % 10));
        assert(n / 10 > 0) by (nonlinear_arith)
            requires
                n >= 10,
        ;
    }
}

/// The doubled form of one character inside a quoted text literal.
pub open spec fn escape_char(c: char) -> Seq<char> {
    if c == '\'' {
        seq!['\'', '\'']
    } else {
        seq![c]
    }
}

/// Every single quote of `s` doubled, every other character kept.
pub open spec fn escape(s: Seq<char>) -> Seq<char>
    decreases s.len(),
{
    if s.len() == 0 {
        seq![]
    } else {
        escape_char(s[0]) + escape(s.drop_first())
    }
}

/// Escaping distributes over concatenation.
pub proof fn lemma_escape_concat(a: Seq<char>, b: Seq<char>)
    ensures
        escape(a + b) == escape(a) + escape(b),
    decreases a.len(),
{
    if a.len() == 0 {
        assert(a + b =~= b);
    } else {
        lemma_escape_concat(a.drop_first(), b);
        assert((a + b).drop_first() =~= a.drop_first() + b);
        assert(escape(a + b) =~= escape_char(a[0]) + escape(a.drop_first() + b));
    }
}

/// Escaping the first `i + 1` characters adds the escaped form of the next one.
pub proof fn lemma_escape_take(s: Seq<char>, i: int)
    requires
        0 <= i < s.len(),
    ensures
        escape(s.take(i + 1)) == escape(s.take(i)) + escape_char(s[i]),
{
    assert(s.take(i + 1) =~= s.take(i) + seq![s[i]]);
    lemma_escape_concat(s.take(i), seq![s[i]]);
    assert(seq![s[i]].drop_first() =~= Seq::<char>::empty());
    assert(escape(seq![s[i]]) =~= escape_char(s[i]) + escape(Seq::<char>::empty()));
}

/// The text that reads the inside of a quoted literal back, undoing `escape`;
/// `None` where a single quote stands alone.
pub open spec fn unescape(t: Seq<char>) -> Option<Seq<char>>
    decreases t.len(),
{
    if t.len() == 0 {
        Some(seq![])
    } else if t[0] == '\'' {
        if t.len() >= 2 && t[1] == '\'' {
            match unescape(t.skip(2)) {
                Some(rest) => Some(seq!['\''] + rest),
                None => None,
            }
        } else {
            None
        }
    } else {
        match unescape(t.drop_first()) {
            Some(rest) => Some(seq![t[0]] + rest),
            None => None,
        }
    }
}

/// A text value as a quoted SQL literal.
pub open spec fn text_literal(s: Seq<char>) -> Seq<char> {
    seq!['\''] + escape(s) + seq!['\'']
}

/// The characters between the outer quotes of a literal, read back.
pub open spec fn read_text_literal(t: Seq<char>) -> Option<Seq<char>> {
    if t.len() >= 2 && t[0] == '\'' && t.last() == '\'' {
        unescape(t.subrange(1, t.len() - 1))
    } else {
        None
    }
}

/// Unescaping gives back what was escaped.
pub proof fn lemma_unescape_escape(s: Seq<char>)
    ensures
        unescape(escape(s)) == Some(s),
    decreases s.len(),
{
    if s.len() > 0 {
        lemma_unescape_escape(s.drop_first());
        let e = escape(s);
        let rest = escape(s.drop_first());
        if s[0] == '\'' {
            assert(e.skip(2) =~= rest);
        } else {
            assert(e.drop_first() =~= rest);
        }
        assert(s =~= seq![s[0]] + s.drop_first());
    }
}

/// A quoted text literal reads back as the text it was made from, so two texts
/// never share a literal and no quote inside it ends the literal early.
pub proof fn lemma_text_literal_reads_back(s: Seq<char>)
    ensures
        read_text_literal(text_literal(s)) == Some(s),
{
    let t = text_literal(s);
    assert(t.subrange(1, t.len() - 1) =~= escape(s));
    lemma_unescape_escape(s);
}

/// Appends one character (std's `String::push`).
#[verifier::external_body]
pub(crate) fn push_char(out: &mut String, c: char)
    ensures
        final(out)@ == old(out)@.push(c),
{
    out.push(c);
}

/// Appends `s` with every single quote doubled.
pub fn push_escaped(out: &mut String, s: &str)
    ensures
        final(out)@ == old(out)@ + escape(s@),
{
    broadcast use vstd::string::group_string_axioms;

    let ghost start = out@;
    for c in it: s.chars()
        invariant
            out@ == start + escape(s@.take(it.index() as int)),
            it.seq() == s@,
    {
        proof {
            lemma_escape_take(s@, it.index() as int);
        }
        if c == '\'' {
            push_char(out, '\'');
            push_char(out, '\'');
        } else {
            push_char(out, c);
        }
    }
    assert(s@.take(s@.len() as int) =~= s@);
}

fn digit(d: u64) -> (c: char)
    requires
        d < 10,
    ensures
        c == digit_char(d as nat),
{
    let b: u8 = (d as u8) + 48;
    b as char
}

/// Appends the decimal digits of `n`.
pub fn push_decimal(out: &mut String, n: u64)
    ensures
        final(out)@ == old(out)@ + decimal(n as nat),
    decreases n,
{
    if n >= 10 {
        push_decimal(out, n / 10);
    }
    push_char(out, digit(n % 10));
}

/// Appends the decimal text of a signed integer.
pub fn push_int(out: &mut String, i: i64)
    ensures
        final(out)@ == old(out)@ + int_decimal(i as int),
{
    if i < 0 {
        push_char(out, '-');
        let m: u64 = (0i128 - i as i128) as u64;
        push_decimal(out, m);
    } else {
        push_decimal(out, i as u64);
    }
}

} // verus!
