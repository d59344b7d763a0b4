//! Text building blocks: decimal numbers, case conversion of names and quoted
//! string literals.
use vstd::prelude::*;
use vstd::string::StringExecFns;

verus! {

/// The snake_case form of a name, as heck computes it.
pub uninterp spec fn snake_case_of(s: Seq<char>) -> Seq<char>;

/// The SHOUTY_SNAKE_CASE form of a name, as heck computes it.
pub uninterp spec fn shouty_snake_case_of(s: Seq<char>) -> Seq<char>;

/// Printable ASCII with no double quote, backslash or single quote: text that every
/// escaping of a string literal leaves as it is.
pub open spec fn is_plain_text(s: Seq<char>) -> bool {
    forall|i: int|
        0 <= i < s.len() ==> 0x20 <= (#[trigger] s[i]) as u32 <= 0x7e && s[i] != '"' && s[i] != '\\'
            && s[i] != '\''
}

/// What is known of a quoted string literal `lit` for the text `s`: it stands between
/// two double quotes, and plain text is quoted as it is.
pub open spec fn quoted(s: Seq<char>, lit: Seq<char>) -> bool {
    &&& lit.len() >= 2
    &&& lit[0] == '"'
    &&& lit.last() == '"'
    &&& is_plain_text(s) ==> lit == seq!['"'] + s + seq!['"']
}

/// Relies on heck's `SnakeCase::to_snake_case` for `str`: a pure function of the text.
#[verifier::external_body]
pub(crate) fn snake_case(s: &str) -> (r: String)
    ensures
        r@ == snake_case_of(s@),
{
    heck::SnakeCase::to_snake_case(s)
}

/// Relies on heck's `ShoutySnakeCase::to_shouty_snake_case` for `str`: a pure function
/// of the text.
#[verifier::external_body]
pub(crate) fn shouty_snake_case(s: &str) -> (r: String)
    ensures
        r@ == shouty_snake_case_of(s@),
{
    heck::ShoutySnakeCase::to_shouty_snake_case(s)
}

/// Relies on `proc_macro2::Literal::string` and its `Display`: the literal stands between
/// two double quotes and leaves plain text as it is. Which escaping it uses otherwise
/// depends on the process (the compiler's inside a procedural macro, proc_macro2's own
/// elsewhere), so nothing more is claimed.
#[verifier::external_body]
pub(crate) fn string_literal(s: &str) -> (r: String)
    ensures
        quoted(s@, r@),
{
    proc_macro2::Literal::string(s).to_string()
}

pub open spec fn digit_text(d: nat) -> Seq<char> {
    if d == 0 { "0"@ }
    else if d == 1 { "1"@ }
    else if d == 2 { "2"@ }
    else if d == 3 { "3"@ }
    else if d == 4 { "4"@ }
    else if d == 5 { "5"@ }
    else if d == 6 { "6"@ }
    else if d == 7 { "7"@ }
    else if d == 8 { "8"@ }
    else { "9"@ }
}

/// The decimal digits of `n`, most significant first, with no leading zero.
pub open spec fn nat_text(n: nat) -> Seq<char>
    decreases n,
{
    if n < 10 {
        digit_text(n)
    } else {
        nat_text(n / 10) + digit_text(n % 10)
    }
}

/// The decimal text of `i`, with a leading minus sign when negative.
pub open spec fn int_text(i: int) -> Seq<char> {
    if i < 0 {
        "-"@ + nat_text((-i) as nat)
    } else {
        nat_text(i as nat)
    }
}

fn push_digit(out: &mut String, d: u64)
    requires
        d < 10,
    ensures
        final(out)@ == old(out)@ + digit_text(d as nat),
{
    if d == 0 { out.append("0") }
    else if d == 1 { out.append("1") }
    else if d == 2 { out.append("2") }
    else if d == 3 { out.append("3") }
    else if d == 4 { out.append("4") }
    else if d == 5 { out.append("5") }
    else if d == 6 { out.append("6") }
    else if d == 7 { out.append("7") }
    else if d == 8 { out.append("8") }
    else { out.append("9") }
}

pub(crate) fn push_nat(out: &mut String, n: u64)
    ensures
        final(out)@ == old(out)@ + nat_text(n as nat),
    decreases n,
{
    if n < 10 {
        push_digit(out, n);
    } else {
        push_nat(out, n / 10);
        push_digit(out, n % 10);
        assert(final(out)@ == old(out)@ + (nat_text((n / 10) as nat) + digit_text((n % 10) as nat)));
    }
}

/// Appends the decimal text of `v`.
pub fn push_int(out: &mut String, v: i64)
    ensures
        final(out)@ == old(out)@ + int_text(v as int),
{
    if v < 0 {
        out.append("-");
        let m: i128 = -(v as i128);
        push_nat(out, m as u64);
        assert(final(out)@ == old(out)@ + ("-"@ + nat_text((-v) as nat)));
    } else {
        push_nat(out, v as u64);
    }
}

} // verus!

verus! {

/// The value of a string of decimal digits.
pub open spec fn decimal_value(s: Seq<char>) -> int
    decreases s.len(),
{
    if s.len() == 0 {
        0
    } else {
        decimal_value(s.drop_last()) * 10 + (s.last() as int - '0' as int)
    }
}

/// The value of a decimal integer text with an optional leading minus sign.
pub open spec fn signed_decimal_value(s: Seq<char>) -> int {
    if s.len() > 0 && s[0] == '-' {
        -decimal_value(s.drop_first())
    } else {
        decimal_value(s)
    }
}

proof fn lemma_digit_text(d: nat)
    requires
        d < 10,
    ensures
        digit_text(d).len() == 1,
        digit_text(d)[0] as int - '0' as int == d,
{
    reveal_strlit("0");
    reveal_strlit("1");
    reveal_strlit("2");
    reveal_strlit("3");
    reveal_strlit("4");
    reveal_strlit("5");
    reveal_strlit("6");
    reveal_strlit("7");
    reveal_strlit("8");
    reveal_strlit("9");
}

proof fn lemma_nat_text_value(n: nat)
    ensures
        nat_text(n).len() > 0,
        nat_text(n)[0] != '-',
        decimal_value(nat_text(n)) == n,
    decreases n,
{
    if n < 10 {
        lemma_digit_text(n);
        assert(digit_text(n).drop_last() =~= Seq::<char>::empty());
        assert(decimal_value(Seq::<char>::empty()) == 0);
        assert(decimal_value(digit_text(n)) == decimal_value(digit_text(n).drop_last()) * 10 + (
        digit_text(n).last() as int - '0' as int));
    } else {
        lemma_nat_text_value(n / 10);
        lemma_digit_text(n % 10);
        let s = nat_text(n);
        assert(s.drop_last() =~= nat_text(n / 10));
        assert(s.last() == digit_text(n % 10)[0]);
        assert(decimal_value(s) == decimal_value(nat_text(n / 10)) * 10 + (n % 10) as int);
        assert((n / 10) * 10 + n % 10 == n) by (nonlinear_arith);
    }
}

/// Reading the decimal text of an integer back gives the integer.
pub proof fn lemma_int_text_round_trip(i: int)
    ensures
        signed_decimal_value(int_text(i)) == i,
{
    reveal_strlit("-");
    if i < 0 {
        lemma_nat_text_value((-i) as nat);
        assert(int_text(i).drop_first() =~= nat_text((-i) as nat));
    } else {
        lemma_nat_text_value(i as nat);
    }
}

} // verus!
