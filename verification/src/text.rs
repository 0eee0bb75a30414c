use vstd::prelude::*;

verus! {

/// The decimal digit character for `d`, which must lie in 0..10.
pub open spec fn digit_char(d: int) -> char {
    if d == 0 {
        '0'
    } else if d == 1 {
        '1'
    } else if d == 2 {
        '2'
    } else if d == 3 {
        '3'
    } else if d == 4 {
        '4'
    } else if d == 5 {
        '5'
    } else if d == 6 {
        '6'
    } else if d == 7 {
        '7'
    } else if d == 8 {
        '8'
    } else {
        '9'
    }
}

/// The decimal representation of `n`, most significant digit first,
/// without leading zeros (except for `n == 0`, which is "0").
pub open spec fn dec_str(n: nat) -> Seq<char>
    decreases n,
{
    if n < 10 {
        seq![digit_char(n as int)]
    } else {
        dec_str(n / 10).push(digit_char((n % 10) as int))
    }
}

/// Relies on `String::push`: appends the given character to the end of the
/// string.
#[verifier::external_body]
pub(crate) fn push_char(s: &mut String, c: char)
    ensures
        final(s)@ == old(s)@.push(c),
{
    s.push(c);
}

fn exec_digit_char(d: u32) -> (c: char)
    requires
        d < 10,
    ensures
        c == digit_char(d as int),
{
    match d {
        0 => '0',
        1 => '1',
        2 => '2',
        3 => '3',
        4 => '4',
        5 => '5',
        6 => '6',
        7 => '7',
        8 => '8',
        _ => '9',
    }
}

/// Renders `n` in decimal, as used in staging and scratch path components
/// scoped by a mod id.
pub fn u32_to_string(n: u32) -> (r: String)
    ensures
        r@ == dec_str(n as nat),
{
    let mut rev: Vec<char> = Vec::new();
    let mut m: u32 = n;
    while m > 0
        invariant
            m > 0 ==> dec_str(n as nat) =~= dec_str(m as nat) + rev@.reverse(),
            m == 0 ==> (rev@.len() > 0 ==> dec_str(n as nat) =~= rev@.reverse()),
            m == 0 ==> (rev@.len() == 0 ==> n == 0),
        decreases m,
    {
        let d: u32 = m % 10;
        let ghost old_rev = rev@;
        let ghost old_m = m as nat;
        rev.push(exec_digit_char(d));
        m = m / 10;
        proof {
            assert(rev@.reverse() =~= seq![digit_char((old_m % 10) as int)] + old_rev.reverse());
            if old_m < 10 {
                assert(dec_str(old_m) == seq![digit_char(old_m as int)]);
                assert(dec_str(n as nat) =~= rev@.reverse());
            } else {
                assert(dec_str(old_m) == dec_str(old_m / 10).push(
                    digit_char((old_m % 10) as int),
                ));
                assert(dec_str(old_m) =~= dec_str(old_m / 10) + seq![
                    digit_char((old_m % 10) as int),
                ]);
                assert(dec_str(n as nat) =~= dec_str(m as nat) + rev@.reverse());
            }
        }
    }
    let mut s = String::new();
    if rev.len() == 0 {
        push_char(&mut s, '0');
        proof {
            assert(s@ =~= dec_str(0));
        }
        return s;
    }
    let ghost target = dec_str(n as nat);
    let count: usize = rev.len();
    let mut j: usize = 0;
    while j < count
        invariant
            count == rev@.len(),
            target =~= rev@.reverse(),
            j <= count,
            s@ =~= target.take(j as int),
        decreases count - j,
    {
        let c: char = rev[count - 1 - j];
        proof {
            assert(rev@.reverse()[j as int] == rev@[count - 1 - j]);
        }
        push_char(&mut s, c);
        j = j + 1;
        proof {
            assert(s@ =~= target.take(j as int));
        }
    }
    proof {
        assert(target.take(count as int) =~= target);
    }
    s
}

/// `c` is a decimal digit character.
pub open spec fn is_digit(c: char) -> bool {
    c == '0' || c == '1' || c == '2' || c == '3' || c == '4' || c == '5' || c == '6' || c == '7'
        || c == '8' || c == '9'
}

pub proof fn lemma_dec_str_digits(n: nat)
    ensures
        forall|i: int| 0 <= i < dec_str(n).len() ==> is_digit(#[trigger] dec_str(n)[i]),
        dec_str(n).len() > 0,
        n >= 10 ==> dec_str(n).len() >= 2,
    decreases n,
{
    if n < 10 {
        assert(dec_str(n) == seq![digit_char(n as int)]);
    } else {
        lemma_dec_str_digits(n / 10);
        assert(dec_str(n) == dec_str(n / 10).push(digit_char((n % 10) as int)));
    }
}

proof fn lemma_digit_char_injective(d1: int, d2: int)
    requires
        0 <= d1 < 10,
        0 <= d2 < 10,
        digit_char(d1) == digit_char(d2),
    ensures
        d1 == d2,
{
}

/// Decimal rendering is injective: distinct numbers render distinctly.
pub proof fn lemma_dec_str_injective(a: nat, b: nat)
    requires
        dec_str(a) == dec_str(b),
    ensures
        a == b,
    decreases a,
{
    lemma_dec_str_digits(a);
    lemma_dec_str_digits(b);
    if a < 10 && b < 10 {
        assert(dec_str(a) == seq![digit_char(a as int)]);
        assert(dec_str(b) == seq![digit_char(b as int)]);
        assert(seq![digit_char(a as int)][0] == digit_char(a as int));
        assert(seq![digit_char(b as int)][0] == digit_char(b as int));
        assert(dec_str(a)[0] == dec_str(b)[0]);
        lemma_digit_char_injective(a as int, b as int);
    } else if a < 10 {
        assert(dec_str(a).len() == 1);
        assert(false);
    } else if b < 10 {
        assert(dec_str(b).len() == 1);
        assert(false);
    } else {
        assert(dec_str(a) == dec_str(a / 10).push(digit_char((a % 10) as int)));
        assert(dec_str(b) == dec_str(b / 10).push(digit_char((b % 10) as int)));
        assert(dec_str(a / 10).push(digit_char((a % 10) as int)).last() == digit_char(
            (a % 10) as int,
        ));
        assert(dec_str(b / 10).push(digit_char((b % 10) as int)).last() == digit_char(
            (b % 10) as int,
        ));
        assert(dec_str(a).last() == dec_str(b).last());
        lemma_digit_char_injective((a % 10) as int, (b % 10) as int);
        assert(dec_str(a).drop_last() == dec_str(b).drop_last());
        assert(dec_str(a / 10) =~= dec_str(a).drop_last());
        assert(dec_str(b / 10) =~= dec_str(b).drop_last());
        lemma_dec_str_injective(a / 10, b / 10);
    }
}

/// The lowercase form of `s`, as computed by the standard library's
/// Unicode-aware case folding. The result depends on the characters of `s`
/// alone.
pub uninterp spec fn lower_of(s: Seq<char>) -> Seq<char>;

/// Relies on `str::to_lowercase`: the result is the lowercase equivalent of
/// the input, depending on its characters alone; an empty string stays empty.
#[verifier::external_body]
pub fn lowercase(s: &str) -> (r: String)
    ensures
        r@ == lower_of(s@),
        s@.len() == 0 ==> r@.len() == 0,
{
    s.to_lowercase()
}

} // verus!
