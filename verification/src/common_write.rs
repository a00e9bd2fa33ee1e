//! Text sinks, and what the backends share when they write text.

use vstd::prelude::*;
use vstd::string::StringExecFns;

verus! {

/// A sink for text: what is written is appended to what it holds.
pub trait WriteText {
    /// The text written so far.
    spec fn text(&self) -> Seq<char>;

    /// Appends `s`.
    fn write_text(&mut self, s: &str)
        ensures
            final(self).text() == old(self).text() + s@,
    ;
}

impl WriteText for String {
    open spec fn text(&self) -> Seq<char> {
        self@
    }

    fn write_text(&mut self, s: &str) {
        self.append(s);
    }
}

/// Whether `a` and `b` are the same text.
pub fn str_equals(a: &str, b: &str) -> (r: bool)
    ensures
        r == (a@ == b@),
{
    String::from_str(a) == String::from_str(b)
}

/// `items` one behind the other, with `sep` between two of them.
pub open spec fn join_text(items: Seq<Seq<char>>, sep: Seq<char>) -> Seq<char>
    decreases items.len(),
{
    if items.len() == 0 {
        Seq::empty()
    } else if items.len() == 1 {
        items[0]
    } else {
        join_text(items.drop_last(), sep) + sep + items.last()
    }
}

/// `items` one behind the other.
pub open spec fn concat_text(items: Seq<Seq<char>>) -> Seq<char>
    decreases items.len(),
{
    if items.len() == 0 {
        Seq::empty()
    } else {
        concat_text(items.drop_last()) + items.last()
    }
}

/// Texts put one behind the other in two runs are the texts of the first
/// run followed by those of the second.
pub proof fn lemma_concat_text_add(a: Seq<Seq<char>>, b: Seq<Seq<char>>)
    ensures
        concat_text(a + b) == concat_text(a) + concat_text(b),
    decreases b.len(),
{
    if b.len() == 0 {
        assert(a + b =~= a);
        assert(concat_text(a) + concat_text(b) =~= concat_text(a));
    } else {
        lemma_concat_text_add(a, b.drop_last());
        assert((a + b).drop_last() =~= a + b.drop_last());
        assert((a + b).last() == b.last());
        assert(concat_text(a + b) =~= concat_text(a) + concat_text(b));
    }
}

/// One text alone, put behind nothing, is that text.
pub proof fn lemma_concat_text_one(text: Seq<char>)
    ensures
        concat_text(seq![text]) == text,
{
    let one = seq![text];
    assert(one.drop_last() =~= Seq::<Seq<char>>::empty());
    assert(concat_text(one.drop_last()) =~= Seq::<char>::empty());
    assert(concat_text(one) =~= text);
}

/// The character of a decimal digit.
pub open spec fn digit_char(d: int) -> char {
    if d == 0 {
        '0'
    } else if d == 1 {
        '1'
    } else if d == 2 {
        '2'
    } else if d == 3 {
        '3'
    } else if d == 4 {
        '4'
    } else if d == 5 {
        '5'
    } else if d == 6 {
        '6'
    } else if d == 7 {
        '7'
    } else if d == 8 {
        '8'
    } else {
        '9'
    }
}

/// The decimal digits of `n`, without leading zeros.
pub open spec fn decimal_digits(n: nat) -> Seq<char>
    decreases n,
{
    if n < 10 {
        seq![digit_char(n as int)]
    } else {
        decimal_digits(n / 10).push(digit_char((n % 10) as int))
    }
}

/// The decimal form of `n`: its digits, behind a `-` if it is negative.
pub open spec fn decimal_text(n: int) -> Seq<char> {
    if n < 0 {
        seq!['-'] + decimal_digits((-n) as nat)
    } else {
        decimal_digits(n as nat)
    }
}

/// The text of one decimal digit.
fn digit_str(d: u64) -> (r: &'static str)
    requires
        d < 10,
    ensures
        r@ == seq![digit_char(d as int)],
{
    proof {
        reveal_strlit("0");
        reveal_strlit("1");
        reveal_strlit("2");
        reveal_strlit("3");
        reveal_strlit("4");
        reveal_strlit("5");
        reveal_strlit("6");
        reveal_strlit("7");
        reveal_strlit("8");
        reveal_strlit("9");
    }
    let r = if d == 0 {
        "0"
    } else if d == 1 {
        "1"
    } else if d == 2 {
        "2"
    } else if d == 3 {
        "3"
    } else if d == 4 {
        "4"
    } else if d == 5 {
        "5"
    } else if d == 6 {
        "6"
    } else if d == 7 {
        "7"
    } else if d == 8 {
        "8"
    } else {
        "9"
    };
    assert(r@ =~= seq![digit_char(d as int)]);
    r
}

/// Writes the decimal digits of `n` to `w`.
pub fn write_decimal_digits<W: WriteText>(w: &mut W, n: u64)
    ensures
        final(w).text() == old(w).text() + decimal_digits(n as nat),
    decreases n,
{
    if n >= 10 {
        write_decimal_digits(w, n / 10);
    }
    w.write_text(digit_str(n % 10));
    assert(w.text() =~= old(w).text() + decimal_digits(n as nat));
}

/// Writes the decimal form of `n` to `w`.
pub fn write_decimal<W: WriteText>(w: &mut W, n: i64)
    ensures
        final(w).text() == old(w).text() + decimal_text(n as int),
{
    if n < 0 {
        proof {
            reveal_strlit("-");
        }
        w.write_text("-");
        let magnitude: u64 = ((-(n + 1)) as u64) + 1;
        write_decimal_digits(w, magnitude);
        assert(w.text() =~= old(w).text() + decimal_text(n as int));
    } else {
        write_decimal_digits(w, n as u64);
    }
}

} // verus!
