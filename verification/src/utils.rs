use vstd::prelude::*;

verus! {

/// The decimal digit `d` (for `d < 10`).
pub open spec fn digit(d: nat) -> char {
    if d == 0 { '0' } else if d == 1 { '1' } else if d == 2 { '2' } else if d == 3 { '3' }
    else if d == 4 { '4' } else if d == 5 { '5' } else if d == 6 { '6' } else if d == 7 { '7' }
    else if d == 8 { '8' } else { '9' }
}

/// `n` written in decimal, without leading zeros.
pub open spec fn decimal(n: nat) -> Seq<char>
    decreases n,
{
    if n < 10 {
        seq![digit(n)]
    } else {
        decimal(n / 10).push(digit(n % 10))
    }
}

/// Body of an e-mail from `company` that gives `name` the one-time code
/// `otp`, valid for `minutes` minutes.
pub open spec fn verification_email_text(company: Seq<char>, otp: Seq<char>, name: Seq<char>, minutes: nat) -> Seq<char> {
    "Hello "@ + name + ",\n\nYour verification code is: "@ + otp + "\nIt expires in "@
        + decimal(minutes) + " minutes.\n\n"@ + company
}

fn push_digit(s: &mut String, d: u64)
    requires
        d < 10,
    ensures
        final(s)@ == old(s)@.push(digit(d as nat)),
{
    let t = if d == 0 { "0" } else if d == 1 { "1" } else if d == 2 { "2" } else if d == 3 { "3" }
        else if d == 4 { "4" } else if d == 5 { "5" } else if d == 6 { "6" } else if d == 7 { "7" }
        else if d == 8 { "8" } else { "9" };
    proof {
        reveal_strlit("0"); reveal_strlit("1"); reveal_strlit("2"); reveal_strlit("3");
        reveal_strlit("4"); reveal_strlit("5"); reveal_strlit("6"); reveal_strlit("7");
        reveal_strlit("8"); reveal_strlit("9");
    }
    assert(t@ =~= seq![digit(d as nat)]);
    s.append(t);
    assert(final(s)@ =~= old(s)@.push(digit(d as nat)));
}

/// Appends `n` in decimal.
fn push_decimal(s: &mut String, n: u64)
    ensures
        final(s)@ == old(s)@ + decimal(n as nat),
    decreases n,
{
    if n < 10 {
        push_digit(s, n);
        assert(old(s)@.push(digit(n as nat)) =~= old(s)@ + decimal(n as nat));
    } else {
        push_decimal(s, n / 10);
        push_digit(s, n % 10);
        assert(old(s)@ + decimal(n as nat) =~= (old(s)@ + decimal((n / 10) as nat)).push(digit((n % 10) as nat)));
    }
}

/// Builds the body of a one-time-code e-mail.
pub fn verification_email(company: &str, otp: &str, name: &str, minutes: u64) -> (body: String)
    ensures
        body@ == verification_email_text(company@, otp@, name@, minutes as nat),
{
    let mut b = String::from_str("Hello ");
    b.append(name);
    b.append(",\n\nYour verification code is: ");
    b.append(otp);
    b.append("\nIt expires in ");
    push_decimal(&mut b, minutes);
    b.append(" minutes.\n\n");
    b.append(company);
    b
}

} // verus!
