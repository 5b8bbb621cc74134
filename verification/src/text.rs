//! Text building blocks: decimal numerals, repeated glyphs, padding.
use vstd::prelude::*;

verus! {

/// The character for one decimal digit.
pub open spec fn digit_char(d: nat) -> char {
    if d == 0 { '0' }
    else if d == 1 { '1' }
    else if d == 2 { '2' }
    else if d == 3 { '3' }
    else if d == 4 { '4' }
    else if d == 5 { '5' }
    else if d == 6 { '6' }
    else if d == 7 { '7' }
    else if d == 8 { '8' }
    else { '9' }
}

/// Decimal numeral of `n`, most significant digit first, no leading zeros.
pub open spec fn decimal(n: nat) -> Seq<char>
    decreases n,
{
    if n < 10 {
        seq![digit_char(n)]
    } else {
        decimal(n / 10).push(digit_char(n % 10))
    }
}

/// `piece` written `n` times in a row.
pub open spec fn repeated(piece: Seq<char>, n: nat) -> Seq<char>
    decreases n,
{
    if n == 0 {
        Seq::empty()
    } else {
        repeated(piece, (n - 1) as nat) + piece
    }
}

/// `n` copies of `piece` are `n` times as long as `piece`.
pub proof fn lemma_repeated_len(piece: Seq<char>, n: nat)
    ensures
        repeated(piece, n).len() == n * piece.len(),
    decreases n,
{
    if n > 0 {
        lemma_repeated_len(piece, (n - 1) as nat);
        assert((n - 1) * piece.len() + piece.len() == n * piece.len()) by (nonlinear_arith);
    } else {
        assert(n * piece.len() == 0) by (nonlinear_arith)
            requires
                n == 0,
        ;
    }
}

fn digit_text(d: u64) -> (s: &'static str)
    requires
        d < 10,
    ensures
        s@ == seq![digit_char(d as nat)],
{
    proof {
        reveal_strlit("0");
        reveal_strlit("1");
        reveal_strlit("2");
        reveal_strlit("3");
        reveal_strlit("4");
        reveal_strlit("5");
        reveal_strlit("6");
        reveal_strlit("7");
        reveal_strlit("8");
        reveal_strlit("9");
    }
    if d == 0 { "0" }
    else if d == 1 { "1" }
    else if d == 2 { "2" }
    else if d == 3 { "3" }
    else if d == 4 { "4" }
    else if d == 5 { "5" }
    else if d == 6 { "6" }
    else if d == 7 { "7" }
    else if d == 8 { "8" }
    else { "9" }
}

/// The decimal numeral of `n`, as `{}` formats an unsigned integer.
pub fn decimal_text(n: u64) -> (s: String)
    ensures
        s@ == decimal(n as nat),
    decreases n,
{
    if n < 10 {
        String::from_str(digit_text(n))
    } else {
        let mut s = decimal_text(n / 10);
        s.append(digit_text(n % 10));
        s
    }
}

/// `piece` repeated `n` times, as `str::repeat` gives it.
pub fn repeat_text(piece: &str, n: usize) -> (s: String)
    ensures
        s@ == repeated(piece@, n as nat),
{
    let mut s = String::new();
    let mut i: usize = 0;
    while i < n
        invariant
            i <= n,
            s@ == repeated(piece@, i as nat),
        decreases n - i,
    {
        s.append(piece);
        i = i + 1;
    }
    s
}

/// `s` right-aligned in a field of `width` characters, as `{:>width$}` lays it out.
pub open spec fn padded_left(s: Seq<char>, width: nat) -> Seq<char> {
    if s.len() < width {
        repeated(seq![' '], (width - s.len()) as nat) + s
    } else {
        s
    }
}

/// `text` right-aligned in a field of `width` characters.
pub fn pad_left(text: String, width: usize) -> (s: String)
    ensures
        s@ == padded_left(text@, width as nat),
{
    let len = text.as_str().unicode_len();
    if len < width {
        proof {
            reveal_strlit(" ");
            assert(" "@ =~= seq![' ']);
        }
        let mut s = repeat_text(" ", width - len);
        s.append(text.as_str());
        s
    } else {
        text
    }
}

/// Joins two texts.
pub fn join(a: String, b: &str) -> (s: String)
    ensures
        s@ == a@ + b@,
{
    let mut s = a;
    s.append(b);
    s
}

} // verus!
