//! Text rendering shared by the request builders: decimal numbers and
//! comma-joined identifier lists.

use vstd::prelude::*;

verus! {

/// The character for a single decimal digit.
pub open spec fn digit_char(d: int) -> char
    recommends
        0 <= d <= 9,
{
    (d + 48) as u8 as char
}

/// The decimal rendering of `n`: no sign, no padding, no leading zero
/// except for zero itself.
pub open spec fn decimal(n: nat) -> Seq<char>
    decreases n,
{
    if n < 10 {
        seq![digit_char(n as int)]
    } else {
        decimal(n / 10).push(digit_char((n % 10) as int))
    }
}

/// A decimal rendering holds digits and nothing else.
pub proof fn lemma_decimal_is_digits(n: nat)
    ensures
        decimal(n).len() >= 1,
        forall|i: int| 0 <= i < decimal(n).len() ==> '0' <= #[trigger] decimal(n)[i] <= '9',
    decreases n,
{
    if n >= 10 {
        lemma_decimal_is_digits(n / 10);
    }
}

/// `String::push` of the standard library: the text grows by exactly the
/// given character at its end.
#[verifier::external_body]
fn push_char(text: &mut String, c: char)
    ensures
        final(text)@ == old(text)@.push(c),
{
    text.push(c)
}

/// Appends the decimal rendering of `n` to `out`.
pub fn push_decimal(out: &mut String, n: u64)
    ensures
        final(out)@ == old(out)@ + decimal(n as nat),
    decreases n,
{
    if n >= 10 {
        push_decimal(out, n / 10);
    }
    let d: u8 = (n % 10) as u8;
    push_char(out, (d + 48) as char);
}

/// The decimal rendering of `n` as an owned string.
pub fn decimal_text(n: u64) -> (s: String)
    ensures
        s@ == decimal(n as nat),
{
    let mut s = String::new();
    push_decimal(&mut s, n);
    s
}

/// The identifiers in their given order, each in decimal, with a single
/// comma between neighbours and nothing before the first or after the last.
pub open spec fn comma_joined(ids: Seq<u64>) -> Seq<char>
    decreases ids.len(),
{
    if ids.len() == 0 {
        Seq::empty()
    } else if ids.len() == 1 {
        decimal(ids[0] as nat)
    } else {
        comma_joined(ids.drop_last()) + seq![','] + decimal(ids.last() as nat)
    }
}

/// A digit or a comma.
pub open spec fn digit_or_comma(c: char) -> bool {
    c == ',' || ('0' <= c <= '9')
}

/// A joined identifier list holds digits and commas and nothing else: no
/// brackets, no spaces.
pub proof fn lemma_comma_joined_chars(ids: Seq<u64>)
    ensures
        forall|i: int|
            0 <= i < comma_joined(ids).len() ==> digit_or_comma(#[trigger] comma_joined(ids)[i]),
    decreases ids.len(),
{
    if ids.len() == 1 {
        lemma_decimal_is_digits(ids[0] as nat);
    } else if ids.len() > 1 {
        let before = comma_joined(ids.drop_last());
        let number = decimal(ids.last() as nat);
        lemma_comma_joined_chars(ids.drop_last());
        lemma_decimal_is_digits(ids.last() as nat);
        assert forall|i: int| 0 <= i < comma_joined(ids).len() implies digit_or_comma(
            #[trigger] comma_joined(ids)[i],
        ) by {
            if i < before.len() {
                assert(comma_joined(ids)[i] == before[i]);
            } else if i == before.len() {
                assert(comma_joined(ids)[i] == ',');
            } else {
                assert(comma_joined(ids)[i] == number[i - before.len() - 1]);
            }
        }
    }
}

/// Renders an identifier list as `comma_joined` describes.
pub fn comma_joined_text(ids: &Vec<u64>) -> (s: String)
    ensures
        s@ == comma_joined(ids@),
{
    let mut s = String::new();
    let mut i: usize = 0;
    while i < ids.len()
        invariant
            i <= ids.len(),
            s@ == comma_joined(ids@.take(i as int)),
        decreases ids.len() - i,
    {
        if i > 0 {
            push_char(&mut s, ',');
        }
        push_decimal(&mut s, ids[i]);
        proof {
            let next = ids@.take(i + 1);
            assert(next.drop_last() == ids@.take(i as int));
            assert(next.last() == ids@[i as int]);
        }
        i += 1;
    }
    proof {
        assert(ids@.take(ids.len() as int) == ids@);
    }
    s
}

} // verus!
