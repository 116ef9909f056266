use vstd::prelude::*;
use vstd::string::StringExecFns;

verus! {

/// The text of one decimal digit.
pub open spec fn digit_text(d: nat) -> Seq<char> {
    if d == 0 { "0"@ }
    else if d == 1 { "1"@ }
    else if d == 2 { "2"@ }
    else if d == 3 { "3"@ }
    else if d == 4 { "4"@ }
    else if d == 5 { "5"@ }
    else if d == 6 { "6"@ }
    else if d == 7 { "7"@ }
    else if d == 8 { "8"@ }
    else { "9"@ }
}

/// The decimal text of a natural number, most significant digit first, without leading zeros.
pub open spec fn decimal_text(n: nat) -> Seq<char>
    decreases n,
{
    if n < 10 {
        digit_text(n)
    } else {
        decimal_text(n / 10) + digit_text(n % 10)
    }
}

/// Texts joined by `", "`.
pub open spec fn comma_joined(parts: Seq<Seq<char>>) -> Seq<char>
    decreases parts.len(),
{
    if parts.len() == 0 {
        Seq::empty()
    } else if parts.len() == 1 {
        parts[0]
    } else {
        comma_joined(parts.drop_last()) + ", "@ + parts.last()
    }
}

/// Joining no text gives nothing, joining one text gives that text, and adding a text to
/// a non-empty list adds `", "` and that text to the joined text: every text after the
/// first is preceded by exactly one separator.
pub proof fn lemma_comma_joined_adds_separator(parts: Seq<Seq<char>>, p: Seq<char>)
    ensures
        comma_joined(Seq::<Seq<char>>::empty()) == Seq::<char>::empty(),
        comma_joined(seq![p]) == p,
        parts.len() >= 1 ==> comma_joined(parts.push(p)) == comma_joined(parts) + ", "@ + p,
{
    assert(parts.push(p).drop_last() =~= parts);
    assert(seq![p][0] == p);
}

/// The text of a digit is the one character of that digit: `'0'` for 0 up to `'9'` for 9.
pub proof fn lemma_digit_text_is_its_character(d: nat)
    requires
        d < 10,
    ensures
        digit_text(d) == seq![(48 + d) as char],
{
    reveal_strlit("0");
    reveal_strlit("1");
    reveal_strlit("2");
    reveal_strlit("3");
    reveal_strlit("4");
    reveal_strlit("5");
    reveal_strlit("6");
    reveal_strlit("7");
    reveal_strlit("8");
    reveal_strlit("9");
    assert(digit_text(d) =~= seq![(48 + d) as char]);
}

fn digit_str(d: u64) -> (r: &'static str)
    requires
        d < 10,
    ensures
        r@ == digit_text(d as nat),
{
    if d == 0 { "0" }
    else if d == 1 { "1" }
    else if d == 2 { "2" }
    else if d == 3 { "3" }
    else if d == 4 { "4" }
    else if d == 5 { "5" }
    else if d == 6 { "6" }
    else if d == 7 { "7" }
    else if d == 8 { "8" }
    else { "9" }
}

/// Appends the decimal text of `n` to `s`.
pub fn push_decimal(s: &mut String, n: u64)
    ensures
        final(s)@ == old(s)@ + decimal_text(n as nat),
    decreases n,
{
    if n >= 10 {
        push_decimal(s, n / 10);
    }
    s.append(digit_str(n % 10));
    assert(decimal_text(n as nat) == if n < 10 { digit_text(n as nat) } else {
        decimal_text((n / 10) as nat) + digit_text((n % 10) as nat)
    });
}

/// The decimal text of `n`.
pub fn decimal_string(n: u64) -> (r: String)
    ensures
        r@ == decimal_text(n as nat),
{
    let mut s = String::new();
    push_decimal(&mut s, n);
    assert(s@ =~= decimal_text(n as nat));
    s
}

/// Appends the parts to `s`, separated by `", "`.
pub fn push_comma_joined(s: &mut String, parts: &Vec<String>)
    ensures
        final(s)@ == old(s)@ + comma_joined(parts@.map_values(|p: String| p@)),
{
    let ghost start = s@;
    let ghost views = parts@.map_values(|p: String| p@);
    let mut i: usize = 0;
    while i < parts.len()
        invariant
            i <= parts@.len(),
            views == parts@.map_values(|p: String| p@),
            s@ == start + comma_joined(views.take(i as int)),
        decreases parts@.len() - i,
    {
        let ghost before = s@;
        if i > 0 {
            s.append(", ");
        }
        s.append(parts[i].as_str());
        assert(views.take(i + 1).drop_last() =~= views.take(i as int));
        assert(views.take(i + 1).last() == parts[i as int]@);
        if i == 0 {
            assert(views.take(0) =~= Seq::<Seq<char>>::empty());
            assert(s@ =~= start + comma_joined(views.take(i + 1)));
        } else {
            assert(s@ =~= start + comma_joined(views.take(i + 1)));
        }
        i = i + 1;
    }
    assert(views.take(parts@.len() as int) =~= views);
}

} // verus!
