use vstd::prelude::*;
use crate::number::push_char;

verus! {

/// `s` starts with the placeholder `{digit}`.
pub open spec fn starts_with_placeholder(s: Seq<char>, digit: char) -> bool {
    s.len() >= 3 && s[0] == '{' && s[1] == digit && s[2] == '}'
}

/// The glue pattern `glue` with each `{0}` replaced by the time text and each
/// `{1}` by the date text, read left to right; every other character is kept.
pub open spec fn glue_text(glue: Seq<char>, date: Seq<char>, time: Seq<char>) -> Seq<char>
    decreases glue.len(),
{
    if glue.len() == 0 {
        Seq::empty()
    } else if starts_with_placeholder(glue, '0') {
        time + glue_text(glue.skip(3), date, time)
    } else if starts_with_placeholder(glue, '1') {
        date + glue_text(glue.skip(3), date, time)
    } else {
        seq![glue[0]] + glue_text(glue.skip(1), date, time)
    }
}

/// Joins a rendered date and a rendered time with a glue pattern: placeholder
/// `{0}` takes the time, `{1}` the date, and the glue's other text is copied.
pub fn assemble(glue: &str, date: &str, time: &str) -> (r: String)
    ensures
        r@ == glue_text(glue@, date@, time@),
{
    let n = glue.unicode_len();
    let mut out = String::new();
    let mut i: usize = 0;
    proof {
        assert(glue@.skip(0) =~= glue@);
        assert(out@ + glue_text(glue@, date@, time@) =~= glue_text(glue@, date@, time@));
    }
    while i < n
        invariant
            n == glue@.len(),
            i <= n,
            glue_text(glue@, date@, time@) == out@ + glue_text(glue@.skip(i as int), date@, time@),
        decreases n - i,
    {
        let ghost rest = glue@.skip(i as int);
        let c = glue.get_char(i);
        if c == '{' && n - i > 2 && glue.get_char(i + 2) == '}' && (glue.get_char(i + 1) == '0' || glue.get_char(
            i + 1,
        ) == '1') {
            let ghost old_out = out@;
            if glue.get_char(i + 1) == '0' {
                out.append(time);
            } else {
                out.append(date);
            }
            proof {
                assert(rest.skip(3) =~= glue@.skip(i + 3));
                assert(old_out + (out@.subrange(old_out.len() as int, out@.len() as int)) =~= out@);
            }
            i = i + 3;
        } else {
            let ghost old_out = out@;
            push_char(&mut out, c);
            proof {
                assert(rest.skip(1) =~= glue@.skip(i + 1));
                assert(!starts_with_placeholder(rest, '0') && !starts_with_placeholder(rest, '1'));
                assert(out@ =~= old_out + seq![rest[0]]);
            }
            i = i + 1;
        }
    }
    assert(glue@.skip(i as int) =~= Seq::<char>::empty());
    out
}

} // verus!
