//! Parsing of the `bg`/`fg` argument: a bare decimal integer names a pid,
//! a `%`-prefixed one names a job id.

use vstd::prelude::*;
use vstd::string::StrSliceExecFns;

verus! {

/// Whether `c` is a decimal digit.
pub open spec fn is_digit(c: char) -> bool {
    48 <= c as u32 <= 57
}

/// The value of one decimal digit.
pub open spec fn digit_val(c: char) -> nat {
    (c as u32 - 48) as nat
}

/// Whether every character of `s` is a decimal digit.
pub open spec fn all_digits(s: Seq<char>) -> bool {
    forall|i: int| 0 <= i < s.len() ==> is_digit(s[i])
}

/// The number written by the digits of `s`, most significant first.
pub open spec fn digits_val(s: Seq<char>) -> nat
    decreases s.len(),
{
    if s.len() == 0 {
        0
    } else {
        digits_val(s.drop_last()) * 10 + digit_val(s.last())
    }
}

/// A longer digit string never writes a smaller number: the value of a
/// prefix is a lower bound for the value of the whole.
proof fn lemma_digits_val_prefix(s: Seq<char>, j: int)
    requires
        0 <= j <= s.len(),
    ensures
        digits_val(s) >= digits_val(s.take(j)),
    decreases s.len() - j,
{
    if j == s.len() {
        assert(s.take(j) =~= s);
    } else {
        lemma_digits_val_prefix(s, j + 1);
        assert(s.take(j + 1).drop_last() =~= s.take(j));
        assert(digits_val(s.take(j + 1)) == digits_val(s.take(j)) * 10 + digit_val(
            s.take(j + 1).last(),
        ));
    }
}

/// Reads an unsigned decimal number.
///
/// Succeeds exactly on a non-empty all-digit string whose value fits,
/// returning that value.
pub fn parse_u32(s: &str) -> (r: Option<u32>)
    ensures
        match r {
            Some(v) => s@.len() > 0 && all_digits(s@) && v as nat == digits_val(s@),
            None => s@.len() == 0 || !all_digits(s@) || digits_val(s@) > u32::MAX,
        },
{
    let len = s.unicode_len();
    if len == 0 {
        return None;
    }
    let mut acc: u32 = 0;
    let mut i: usize = 0;
    while i < len
        invariant
            i <= len,
            len == s@.len(),
            all_digits(s@.take(i as int)),
            acc as nat == digits_val(s@.take(i as int)),
        decreases len - i,
    {
        let c = s.get_char(i);
        let cv = c as u32;
        if cv < 48 || cv > 57 {
            return None;
        }
        let d = cv - 48;
        if acc > (u32::MAX - d) / 10 {
            proof {
                assert(s@.take(i + 1).drop_last() =~= s@.take(i as int));
                assert(s@.take(i + 1).last() == s@[i as int]);
                assert(digits_val(s@.take(i + 1)) == acc as nat * 10 + d);
                assert(acc as nat * 10 + d > u32::MAX) by {
                    let q = ((u32::MAX - d) / 10) as nat;
                    assert(10 * q + (u32::MAX - d) as nat % 10 == u32::MAX - d);
                    assert(acc as nat * 10 >= (q + 1) * 10) by (nonlinear_arith)
                        requires
                            acc as nat >= q + 1,
                    ;
                }
                lemma_digits_val_prefix(s@, i + 1);
            }
            return None;
        }
        acc = acc * 10 + d;
        proof {
            assert(s@.take(i + 1).drop_last() =~= s@.take(i as int));
            assert(s@.take(i + 1).last() == s@[i as int]);
        }
        i = i + 1;
    }
    proof {
        assert(s@.take(len as int) =~= s@);
    }
    Some(acc)
}

/// How a `bg`/`fg` argument names its job: by OS pid, or by job id.
#[derive(Clone, Copy, PartialEq, Eq, Structural, Debug)]
pub enum JobRef {
    ByPid(i32),
    ByJid(u32),
}

/// The job reference an argument denotes: a bare decimal number whose
/// value fits a pid, or `%` followed by a decimal job id.
pub open spec fn job_ref_spec(s: Seq<char>) -> Option<JobRef> {
    if s.len() > 0 && all_digits(s) && digits_val(s) <= i32::MAX {
        Some(JobRef::ByPid(digits_val(s) as i32))
    } else if s.len() >= 2 && s[0] == '%' && all_digits(s.skip(1)) && digits_val(s.skip(1))
        <= u32::MAX {
        Some(JobRef::ByJid(digits_val(s.skip(1)) as u32))
    } else {
        None
    }
}

/// Reads a `bg`/`fg` argument: a bare pid, or `%` and a job id.
pub fn parse_job_ref(arg: &str) -> (r: Option<JobRef>)
    ensures
        r == job_ref_spec(arg@),
{
    let len = arg.unicode_len();
    if len == 0 {
        return None;
    }
    if arg.get_char(0) == '%' {
        let rest = arg.substring_char(1, len);
        proof {
            assert(rest@ =~= arg@.skip(1));
            assert(!is_digit('%'));
            assert(!all_digits(arg@));
        }
        match parse_u32(rest) {
            Some(j) => Some(JobRef::ByJid(j)),
            None => None,
        }
    } else {
        match parse_u32(arg) {
            Some(v) => {
                if v <= (i32::MAX as u32) {
                    Some(JobRef::ByPid(v as i32))
                } else {
                    None
                }
            },
            None => None,
        }
    }
}

} // verus!
