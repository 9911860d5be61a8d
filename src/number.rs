use vstd::prelude::*;

verus! {

/// The ten digit characters of a locale's numbering system, zero first.
#[derive(Clone, Copy, Debug)]
pub struct NumberingSystem {
    pub digits: [char; 10],
}

/// Decimal digits of `n`, most significant first, without leading zeros.
pub open spec fn decimal_digits(n: nat) -> Seq<nat>
    decreases n,
{
    if n < 10 {
        seq![n]
    } else {
        decimal_digits(n / 10).push(n % 10)
    }
}

/// The digits of `n` left-padded with zeros to at least `width` digits;
/// a value wider than `width` is kept whole.
pub open spec fn padded_digits(n: nat, width: nat) -> Seq<nat> {
    let d = decimal_digits(n);
    if d.len() < width {
        Seq::new((width - d.len()) as nat, |i: int| 0nat) + d
    } else {
        d
    }
}

/// Text of `n` zero-padded to `width`, written with the given digit characters.
pub open spec fn numeral_text(n: nat, width: nat, digits: Seq<char>) -> Seq<char> {
    padded_digits(n, width).map_values(|d: nat| digits[d as int])
}

/// Relies on String::push: appends one character.
#[verifier::external_body]
pub(crate) fn push_char(s: &mut String, c: char)
    ensures
        final(s)@ == old(s)@.push(c),
{
    s.push(c);
}

fn digit_count(n: u32) -> (r: usize)
    ensures
        r as nat == decimal_digits(n as nat).len(),
        r as nat <= n as nat + 1,
    decreases n,
{
    if n < 10 {
        1
    } else {
        let r = digit_count(n / 10);
        r + 1
    }
}

fn write_digits(n: u32, sys: &NumberingSystem, out: &mut String)
    ensures
        final(out)@ == old(out)@ + decimal_digits(n as nat).map_values(|d: nat| sys.digits@[d as int]),
    decreases n,
{
    if n >= 10 {
        write_digits(n / 10, sys, out);
    }
    push_char(out, sys.digits[(n % 10) as usize]);
    proof {
        let f = |d: nat| sys.digits@[d as int];
        let d = decimal_digits(n as nat);
        if n >= 10 {
            let p = decimal_digits((n / 10) as nat);
            assert(d == p.push((n % 10) as nat));
            assert(p.push((n % 10) as nat).map_values(f) =~= p.map_values(f).push(f((n % 10) as nat)));
        } else {
            assert(d.map_values(f) =~= seq![f(n as nat)]);
        }
    }
}

/// Appends `n` to `out`, zero-padded to `width` digits in the given numbering
/// system; no digits are dropped when `n` is wider than `width`.
pub fn write_numeral(n: u32, width: u8, sys: &NumberingSystem, out: &mut String)
    ensures
        final(out)@ == old(out)@ + numeral_text(n as nat, width as nat, sys.digits@),
{
    let ghost f = |d: nat| sys.digits@[d as int];
    let ghost start = out@;
    let count = digit_count(n);
    let mut i: usize = count;
    while i < width as usize
        invariant
            count <= i,
            i <= width || i == count,
            count as nat == decimal_digits(n as nat).len(),
            out@ == start + Seq::new((i - count) as nat, |k: int| sys.digits@[0]),
        decreases width - i,
    {
        push_char(out, sys.digits[0]);
        proof {
            assert(Seq::new((i - count) as nat, |k: int| sys.digits@[0]).push(sys.digits@[0])
                =~= Seq::new((i + 1 - count) as nat, |k: int| sys.digits@[0]));
        }
        i = i + 1;
    }
    let ghost pad = out@;
    write_digits(n, sys, out);
    proof {
        let d = decimal_digits(n as nat);
        let zeros = Seq::new((i - count) as nat, |k: int| sys.digits@[0]);
        if d.len() < width as nat {
            let z = Seq::new((width - d.len()) as nat, |k: int| 0nat);
            assert((z + d).map_values(f) =~= zeros + d.map_values(f));
        } else {
            assert(zeros =~= Seq::<char>::empty());
        }
        assert(out@ =~= start + numeral_text(n as nat, width as nat, sys.digits@));
    }
}

} // verus!
