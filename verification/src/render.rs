//! Operator-visible text: decimal numbers, whitespace trimming, state
//! labels, and the job-listing lines `[job_id] (pid) state command`.

use vstd::prelude::*;
use vstd::string::*;

use crate::jobs::{Job, States};

verus! {

/// The character for one decimal digit value.
pub open spec fn digit_char(d: nat) -> char {
    if d == 0 {
        '0'
    } else if d == 1 {
        '1'
    } else if d == 2 {
        '2'
    } else if d == 3 {
        '3'
    } else if d == 4 {
        '4'
    } else if d == 5 {
        '5'
    } else if d == 6 {
        '6'
    } else if d == 7 {
        '7'
    } else if d == 8 {
        '8'
    } else {
        '9'
    }
}

/// The decimal digits of `n`, most significant first, no leading zeros
/// (a single `'0'` for zero).
pub open spec fn dec_spec(n: nat) -> Seq<char>
    decreases n,
{
    if n < 10 {
        seq![digit_char(n)]
    } else {
        dec_spec(n / 10).push(digit_char(n % 10))
    }
}

/// The single-character string for one decimal digit value.
fn digit_str(d: u32) -> (r: &'static str)
    requires
        d < 10,
    ensures
        r@ =~= seq![digit_char(d as nat)],
{
    proof {
        reveal_strlit("0");
        reveal_strlit("1");
        reveal_strlit("2");
        reveal_strlit("3");
        reveal_strlit("4");
        reveal_strlit("5");
        reveal_strlit("6");
        reveal_strlit("7");
        reveal_strlit("8");
        reveal_strlit("9");
    }
    match d {
        0 => "0",
        1 => "1",
        2 => "2",
        3 => "3",
        4 => "4",
        5 => "5",
        6 => "6",
        7 => "7",
        8 => "8",
        _ => "9",
    }
}

/// `n` written in decimal.
pub fn u32_to_string(n: u32) -> (r: String)
    ensures
        r@ == dec_spec(n as nat),
    decreases n,
{
    if n < 10 {
        digit_str(n).to_owned()
    } else {
        let mut s = u32_to_string(n / 10);
        s.append(digit_str(n % 10));
        proof {
            assert(s@ =~= dec_spec(n as nat));
        }
        s
    }
}

/// The whitespace characters that trimming strips from command text.
pub open spec fn is_ws(c: char) -> bool {
    c == ' ' || c == '\t' || c == '\n' || c == '\r'
}

fn is_ws_char(c: char) -> (r: bool)
    ensures
        r == is_ws(c),
{
    c == ' ' || c == '\t' || c == '\n' || c == '\r'
}

/// `s` with trailing whitespace removed.
pub open spec fn trim_end_spec(s: Seq<char>) -> Seq<char>
    decreases s.len(),
{
    if s.len() == 0 {
        s
    } else if is_ws(s[s.len() - 1]) {
        trim_end_spec(s.take(s.len() - 1))
    } else {
        s
    }
}

/// `s` with leading whitespace removed.
pub open spec fn trim_start_spec(s: Seq<char>) -> Seq<char>
    decreases s.len(),
{
    if s.len() == 0 {
        s
    } else if is_ws(s[0]) {
        trim_start_spec(s.skip(1))
    } else {
        s
    }
}

/// `s` with whitespace removed from both ends.
pub open spec fn trim_spec(s: Seq<char>) -> Seq<char> {
    trim_start_spec(trim_end_spec(s))
}

/// `s` without its trailing whitespace.
pub fn trim_end_str<'a>(s: &'a str) -> (r: &'a str)
    ensures
        r@ == trim_end_spec(s@),
{
    let len = s.unicode_len();
    proof {
        assert(s@.take(len as int) =~= s@);
    }
    let mut e = len;
    while e > 0 && is_ws_char(s.get_char(e - 1))
        invariant
            e <= s@.len(),
            trim_end_spec(s@) == trim_end_spec(s@.take(e as int)),
        decreases e,
    {
        proof {
            assert(s@.take(e as int).take(e - 1) =~= s@.take(e - 1));
        }
        e = e - 1;
    }
    proof {
        if e > 0 {
            assert(s@.take(e as int)[e - 1] == s@[e - 1]);
        }
        assert(trim_end_spec(s@.take(e as int)) == s@.take(e as int));
    }
    s.substring_char(0, e)
}

/// `s` without its leading whitespace.
fn trim_start_str<'a>(s: &'a str) -> (r: &'a str)
    ensures
        r@ == trim_start_spec(s@),
{
    let len = s.unicode_len();
    proof {
        assert(s@.skip(0) =~= s@);
    }
    let mut b: usize = 0;
    while b < len && is_ws_char(s.get_char(b))
        invariant
            b <= s@.len(),
            len == s@.len(),
            trim_start_spec(s@) == trim_start_spec(s@.skip(b as int)),
        decreases len - b,
    {
        proof {
            assert(s@.skip(b as int)[0] == s@[b as int]);
            assert(s@.skip(b as int).skip(1) =~= s@.skip(b + 1));
        }
        b = b + 1;
    }
    proof {
        if b < len {
            assert(s@.skip(b as int)[0] == s@[b as int]);
        }
        assert(trim_start_spec(s@.skip(b as int)) == s@.skip(b as int));
        assert(s@.skip(b as int) =~= s@.subrange(b as int, s@.len() as int));
    }
    s.substring_char(b, len)
}

/// `s` without leading and trailing whitespace.
pub fn trim_str<'a>(s: &'a str) -> (r: &'a str)
    ensures
        r@ == trim_spec(s@),
{
    trim_start_str(trim_end_str(s))
}

impl States {
    /// The listing label for this state.
    pub open spec fn label_spec(self) -> Seq<char> {
        match self {
            States::FG => "Foreground"@,
            States::BG => "Running"@,
            States::ST => "Stopped"@,
        }
    }

    /// The listing label for this state.
    pub fn label(&self) -> (r: &'static str)
        ensures
            r@ == self.label_spec(),
    {
        match self {
            States::FG => "Foreground",
            States::BG => "Running",
            States::ST => "Stopped",
        }
    }
}

/// One listing line for a job: `[job_id] (pid) state-label command`,
/// with the command text trimmed of surrounding whitespace.
pub open spec fn line_spec(j: Job) -> Seq<char> {
    "["@ + dec_spec(j.jid as nat) + "] ("@ + dec_spec(j.pid as nat) + ") "@ + j.state.label_spec()
        + " "@ + trim_spec(j.cmd@)
}

impl Job {
    /// This job's listing line.
    pub fn render_line(&self) -> (r: String)
        requires
            self.pid > 0,
        ensures
            r@ == line_spec(*self),
    {
        let mut s = "[".to_owned();
        let jid_s = u32_to_string(self.jid);
        s.append(jid_s.as_str());
        s.append("] (");
        let pid_s = u32_to_string(self.pid as u32);
        s.append(pid_s.as_str());
        s.append(") ");
        s.append(self.state.label());
        s.append(" ");
        s.append(trim_str(self.cmd.as_str()));
        proof {
            assert(s@ =~= line_spec(*self));
        }
        s
    }
}

/// The full listing: each job's line in launch order, each followed by a
/// newline.
pub open spec fn render_spec(s: Seq<Job>) -> Seq<char>
    decreases s.len(),
{
    if s.len() == 0 {
        Seq::<char>::empty()
    } else {
        render_spec(s.drop_last()) + line_spec(s.last()) + "\n"@
    }
}

} // verus!
