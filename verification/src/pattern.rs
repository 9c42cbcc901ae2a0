//! The token-substitution formatter over a date's fields.
//!
//! The pattern is read left to right in one pass; at a `%` the longest
//! matching token wins, so `%gY` is never corrupted into a `%Y`
//! substitution.  Hijri tokens are `%Y %m %d %D %M %l`; Gregorian ones are
//! `%gY %gm %gd %gD %gM`.  Anything else is copied through unchanged.

use vstd::prelude::*;

use crate::date::HijriDate;
use vstd::std_specs::iter::IteratorSpec;
use crate::digits;
use crate::digits::dec_digits;

verus! {

broadcast use vstd::string::group_string_axioms;

/// Whether `c` closes a Hijri-side token after a `%`.
pub open spec fn is_h_token(c: char) -> bool {
    c == 'Y' || c == 'm' || c == 'd' || c == 'D' || c == 'M' || c == 'l'
}

/// Whether `c` closes a Gregorian-side token after a `%g`.
pub open spec fn is_g_token(c: char) -> bool {
    c == 'Y' || c == 'm' || c == 'd' || c == 'D' || c == 'M'
}

/// The text substituted for the Hijri token `%` `c`.
pub open spec fn h_token_value(hd: HijriDate, c: char) -> Seq<char> {
    if c == 'Y' {
        dec_digits(hd.year as int)
    } else if c == 'm' {
        dec_digits(hd.month as int)
    } else if c == 'd' {
        dec_digits(hd.day as int)
    } else if c == 'D' {
        hd.day_name@
    } else if c == 'M' {
        hd.month_name@
    } else {
        dec_digits(hd.month_len as int)
    }
}

/// The text substituted for the Gregorian token `%g` `c`.
pub open spec fn g_token_value(hd: HijriDate, c: char) -> Seq<char> {
    if c == 'Y' {
        dec_digits(hd.year_gr as int)
    } else if c == 'm' {
        dec_digits(hd.month_gr as int)
    } else if c == 'd' {
        dec_digits(hd.day_gr as int)
    } else if c == 'D' {
        hd.day_name_en@
    } else {
        hd.month_name_en@
    }
}

/// The formatted text for pattern `s`: one left-to-right pass that
/// substitutes each token and copies every other character through.
pub open spec fn format_spec(hd: HijriDate, s: Seq<char>) -> Seq<char>
    decreases s.len(),
{
    if s.len() == 0 {
        Seq::empty()
    } else if s.len() >= 3 && s[0] == '%' && s[1] == 'g' && is_g_token(s[2]) {
        g_token_value(hd, s[2]) + format_spec(hd, s.skip(3))
    } else if s.len() >= 2 && s[0] == '%' && is_h_token(s[1]) {
        h_token_value(hd, s[1]) + format_spec(hd, s.skip(2))
    } else {
        seq![s[0]] + format_spec(hd, s.skip(1))
    }
}

/// The characters of the text, in order.
fn chars_of(s: &str) -> (v: Vec<char>)
    ensures
        v@ == s@,
{
    let mut it = s.chars();
    let mut v: Vec<char> = Vec::new();
    proof {
        assert(v@ + it.remaining() =~= s@);
    }
    loop
        invariant
            it.obeys_prophetic_iter_laws(),
            it.decrease() is Some,
            v@ + it.remaining() == s@,
        ensures
            v@ == s@,
        decreases it.decrease()->0,
    {
        let ghost old_rem = it.remaining();
        match it.next() {
            Some(c) => {
                proof {
                    assert(v@.push(c) + it.remaining() =~= v@ + old_rem);
                }
                v.push(c);
            },
            None => {
                proof {
                    assert(v@ + old_rem =~= v@);
                }
                break ;
            },
        }
    }
    v
}

/// Relies on String's FromIterator over char: the characters, joined back
/// into owned text.
#[verifier::external_body]
fn string_from_chars(v: Vec<char>) -> (s: String)
    ensures
        s@ == v@,
{
    v.into_iter().collect()
}

/// Whether `c` closes a Hijri-side token after a `%`.
fn is_h_token_x(c: char) -> (b: bool)
    ensures
        b == is_h_token(c),
{
    c == 'Y' || c == 'm' || c == 'd' || c == 'D' || c == 'M' || c == 'l'
}

/// Whether `c` closes a Gregorian-side token after a `%g`.
fn is_g_token_x(c: char) -> (b: bool)
    ensures
        b == is_g_token(c),
{
    c == 'Y' || c == 'm' || c == 'd' || c == 'D' || c == 'M'
}

/// The text substituted for the Hijri token `%` `c`.
fn h_token_value_x(hd: &HijriDate, c: char) -> (v: Vec<char>)
    requires
        is_h_token(c),
    ensures
        v@ == h_token_value(*hd, c),
{
    if c == 'Y' {
        digits::dec_chars(hd.year)
    } else if c == 'm' {
        digits::dec_chars(hd.month)
    } else if c == 'd' {
        digits::dec_chars(hd.day)
    } else if c == 'D' {
        chars_of(hd.day_name.as_str())
    } else if c == 'M' {
        chars_of(hd.month_name.as_str())
    } else {
        digits::dec_chars(hd.month_len)
    }
}

/// The text substituted for the Gregorian token `%g` `c`.
fn g_token_value_x(hd: &HijriDate, c: char) -> (v: Vec<char>)
    requires
        is_g_token(c),
    ensures
        v@ == g_token_value(*hd, c),
{
    if c == 'Y' {
        digits::dec_chars(hd.year_gr)
    } else if c == 'm' {
        digits::dec_chars(hd.month_gr)
    } else if c == 'd' {
        digits::dec_chars(hd.day_gr)
    } else if c == 'D' {
        chars_of(hd.day_name_en.as_str())
    } else {
        chars_of(hd.month_name_en.as_str())
    }
}

impl HijriDate {
    /// Renders the date by substituting the pattern's tokens with the
    /// matching fields, in a single pass over the pattern.
    pub fn format(&self, f: &str) -> (r: String)
        ensures
            r@ == format_spec(*self, f@),
    {
        let p = chars_of(f);
        let mut out: Vec<char> = Vec::new();
        let mut i: usize = 0;
        proof {
            assert(p@.skip(0) =~= p@);
            assert(Seq::<char>::empty() + format_spec(*self, p@) =~= format_spec(*self, p@));
        }
        while i < p.len()
            invariant
                i <= p.len(),
                p@ == f@,
                format_spec(*self, f@) == out@ + format_spec(*self, p@.skip(i as int)),
            decreases p.len() - i,
        {
            let ghost rest = p@.skip(i as int);
            let c = p[i];
            if c == '%' && p.len() - i > 2 && p[i + 1] == 'g' && is_g_token_x(p[i + 2]) {
                let mut val = g_token_value_x(self, p[i + 2]);
                proof {
                    assert(rest.skip(3) =~= p@.skip(i as int + 3));
                    assert(format_spec(*self, rest) == g_token_value(*self, rest[2])
                        + format_spec(*self, rest.skip(3)));
                    assert(out@ + val@ + format_spec(*self, p@.skip(i as int + 3)) =~= out@
                        + format_spec(*self, rest));
                }
                out.append(&mut val);
                i = i + 3;
            } else if c == '%' && p.len() - i > 1 && is_h_token_x(p[i + 1]) {
                let mut val = h_token_value_x(self, p[i + 1]);
                proof {
                    assert(rest.skip(2) =~= p@.skip(i as int + 2));
                    assert(format_spec(*self, rest) == h_token_value(*self, rest[1])
                        + format_spec(*self, rest.skip(2)));
                    assert(out@ + val@ + format_spec(*self, p@.skip(i as int + 2)) =~= out@
                        + format_spec(*self, rest));
                }
                out.append(&mut val);
                i = i + 2;
            } else {
                proof {
                    assert(rest.skip(1) =~= p@.skip(i as int + 1));
                    assert(format_spec(*self, rest) == seq![rest[0]] + format_spec(
                        *self,
                        rest.skip(1),
                    ));
                    assert(out@.push(c) + format_spec(*self, p@.skip(i as int + 1)) =~= out@
                        + format_spec(*self, rest));
                }
                out.push(c);
                i = i + 1;
            }
        }
        proof {
            assert(p@.skip(p@.len() as int) =~= Seq::<char>::empty());
            assert(out@ + Seq::<char>::empty() =~= out@);
        }
        string_from_chars(out)
    }

    /// The two-line display form: the Hijri day, month name and weekday
    /// name, then the Gregorian weekday name, month name and year.
    pub fn display_string(&self) -> (r: String)
        ensures
            r@ == format_spec(*self, "%Y %M %D"@) + "\n"@ + format_spec(*self, "%gD %gM %gY"@)
                + "\n"@,
    {
        let mut s = self.format("%Y %M %D");
        s.append("\n");
        let t = self.format("%gD %gM %gY");
        s.append(t.as_str());
        s.append("\n");
        s
    }
}

} // verus!
