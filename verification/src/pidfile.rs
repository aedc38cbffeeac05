//! The pid record: the text format of the lock/pid file.
//!
//! The file's content is the decimal pid of the running daemon, with nothing
//! around it beyond trimmable whitespace. This module defines what that text
//! means (`parsed_int`), renders a pid to its record (`pid_to_bytes`), parses
//! and validates a record read back (`parse_pid`), and proves that a record
//! written for a pid always reads back as exactly that pid.

use vstd::prelude::*;

verus! {

/// Why a pid record was rejected. A rejected record is corrupt state for the
/// stop path: no signal may be sent on the strength of it.
#[derive(Clone, Copy, Debug, PartialEq, Eq, Structural)]
pub enum PidError {
    /// The trimmed content is not an optionally signed decimal numeral.
    NotNumeric,
    /// The numeral's value does not fit a 32-bit signed pid.
    OutOfRange,
    /// The value is zero or negative; signaling it would address a process
    /// group, never a single daemon.
    NotPositive,
    /// The value is the reading process's own pid; a daemon never stops
    /// itself through the file.
    OwnPid,
}

pub open spec fn is_ascii_digit(b: u8) -> bool {
    48 <= b && b <= 57
}

pub open spec fn is_space_byte(b: u8) -> bool {
    b == 32 || b == 9 || b == 10 || b == 13
}

pub open spec fn all_digits(s: Seq<u8>) -> bool {
    forall|i: int| 0 <= i < s.len() ==> is_ascii_digit(s[i])
}

/// Value of a digit string, most significant digit first.
pub open spec fn digits_value(s: Seq<u8>) -> int
    decreases s.len(),
{
    if s.len() == 0 {
        0
    } else {
        digits_value(s.drop_last()) * 10 + (s.last() - 48)
    }
}

pub open spec fn trim_front(s: Seq<u8>) -> Seq<u8>
    decreases s.len(),
{
    if s.len() > 0 && is_space_byte(s.first()) {
        trim_front(s.drop_first())
    } else {
        s
    }
}

pub open spec fn trim_back(s: Seq<u8>) -> Seq<u8>
    decreases s.len(),
{
    if s.len() > 0 && is_space_byte(s.last()) {
        trim_back(s.drop_last())
    } else {
        s
    }
}

/// The content with leading and trailing whitespace removed.
pub open spec fn trimmed(s: Seq<u8>) -> Seq<u8> {
    trim_back(trim_front(s))
}

/// The integer a record's text denotes: after trimming, an optional sign and
/// at least one decimal digit, as `str::parse` on an integer type reads it.
pub open spec fn parsed_int(s: Seq<u8>) -> Option<int> {
    let t = trimmed(s);
    if t.len() > 0 && (t.first() == 43 || t.first() == 45) {
        let d = t.drop_first();
        if d.len() > 0 && all_digits(d) {
            if t.first() == 45 {
                Some(-digits_value(d))
            } else {
                Some(digits_value(d))
            }
        } else {
            None
        }
    } else if t.len() > 0 && all_digits(t) {
        Some(digits_value(t))
    } else {
        None
    }
}

/// The complete validation rule for a record read by the stop path, given the
/// reader's own pid.
pub open spec fn pid_parse_result(s: Seq<u8>, own: int) -> Result<int, PidError> {
    match parsed_int(s) {
        Option::None => Result::Err(PidError::NotNumeric),
        Option::Some(v) => {
            if v < -0x8000_0000 || v > 0x7fff_ffff {
                Result::Err(PidError::OutOfRange)
            } else if v <= 0 {
                Result::Err(PidError::NotPositive)
            } else if v == own {
                Result::Err(PidError::OwnPid)
            } else {
                Result::Ok(v)
            }
        },
    }
}

/// The decimal numeral of `n`, for `n >= 1`.
pub open spec fn decimal_digits(n: int) -> Seq<u8>
    decreases n,
{
    if n <= 0 {
        Seq::empty()
    } else {
        decimal_digits(n / 10).push((48 + n % 10) as u8)
    }
}

proof fn lemma_trim_front_stops(s: Seq<u8>, lo: int)
    requires
        0 <= lo <= s.len(),
        forall|j: int| 0 <= j < lo ==> is_space_byte(s[j]),
        lo == s.len() || !is_space_byte(s[lo]),
    ensures
        trim_front(s) == s.subrange(lo, s.len() as int),
    decreases lo,
{
    if lo == 0 {
        assert(s.subrange(0, s.len() as int) =~= s);
    } else {
        let rest = s.drop_first();
        lemma_trim_front_stops(rest, lo - 1);
        assert(rest.subrange(lo - 1, rest.len() as int) =~= s.subrange(lo, s.len() as int));
    }
}

proof fn lemma_trim_back_stops(s: Seq<u8>, hi: int)
    requires
        0 <= hi <= s.len(),
        forall|j: int| hi <= j < s.len() ==> is_space_byte(s[j]),
        hi == 0 || !is_space_byte(s[hi - 1]),
    ensures
        trim_back(s) == s.subrange(0, hi),
    decreases s.len() - hi,
{
    if hi == s.len() {
        if s.len() == 0 {
            assert(s.subrange(0, 0) =~= s);
        } else {
            assert(s.subrange(0, s.len() as int) =~= s);
        }
    } else {
        let rest = s.drop_last();
        lemma_trim_back_stops(rest, hi);
        assert(rest.subrange(0, hi) =~= s.subrange(0, hi));
    }
}

fn is_space_exec(b: u8) -> (r: bool)
    ensures
        r == is_space_byte(b),
{
    b == 32 || b == 9 || b == 10 || b == 13
}

/// Parse and validate the content of the lock/pid file against the reader's
/// own pid, exactly as `pid_parse_result` states it.
pub fn parse_pid(content: &[u8], own: i32) -> (r: Result<i32, PidError>)
    ensures
        match r {
            Result::Ok(p) => pid_parse_result(content@, own as int) == Result::<int, PidError>::Ok(
                p as int,
            ) && 0 < p,
            Result::Err(e) => pid_parse_result(content@, own as int) == Result::<
                int,
                PidError,
            >::Err(e),
        },
{
    let n = content.len();
    let mut lo: usize = 0;
    while lo < n && is_space_exec(content[lo])
        invariant
            n == content@.len(),
            lo <= n,
            forall|j: int| 0 <= j < lo ==> is_space_byte(content@[j]),
        decreases n - lo,
    {
        lo = lo + 1;
    }
    let mut hi: usize = n;
    while hi > lo && is_space_exec(content[hi - 1])
        invariant
            n == content@.len(),
            lo <= hi <= n,
            forall|j: int| hi <= j < n ==> is_space_byte(content@[j]),
        decreases hi,
    {
        hi = hi - 1;
    }
    proof {
        lemma_trim_front_stops(content@, lo as int);
        let f = content@.subrange(lo as int, n as int);
        lemma_trim_back_stops(f, hi - lo);
        assert(f.subrange(0, hi - lo) =~= content@.subrange(lo as int, hi as int));
    }
    let ghost t = content@.subrange(lo as int, hi as int);
    assert(trimmed(content@) == t);
    if lo == hi {
        return Result::Err(PidError::NotNumeric);
    }
    let mut i = lo;
    let mut neg = false;
    let b0 = content[lo];
    if b0 == 43 || b0 == 45 {
        neg = b0 == 45;
        i = lo + 1;
    }
    let ghost dig = content@.subrange(i as int, hi as int);
    proof {
        if b0 == 43 || b0 == 45 {
            assert(t.drop_first() =~= dig);
        } else {
            assert(t =~= dig);
        }
    }
    if i == hi {
        // a sign with no digits after it
        return Result::Err(PidError::NotNumeric);
    }
    let mut acc: u64 = 0;
    let mut over = false;
    let mut j = i;
    while j < hi
        invariant
            n == content@.len(),
            lo <= i <= j <= hi <= n,
            i < hi,
            trimmed(content@) == t,
            t == content@.subrange(lo as int, hi as int),
            dig == content@.subrange(i as int, hi as int),
            i == lo || i == lo + 1,
            i == lo + 1 ==> dig == t.drop_first() && (t.first() == 43 || t.first() == 45),
            i == lo ==> dig == t && !(t.first() == 43 || t.first() == 45),
            forall|k: int| i <= k < j ==> is_ascii_digit(content@[k]),
            !over ==> acc as int == digits_value(content@.subrange(i as int, j as int)) && acc
                <= 0x8000_0000,
            over ==> digits_value(content@.subrange(i as int, j as int)) > 0x8000_0000,
        decreases hi - j,
    {
        let b = content[j];
        if b < 48 || b > 57 {
            proof {
                assert(!is_ascii_digit(dig[j - i]));
                assert(!all_digits(dig));
            }
            return Result::Err(PidError::NotNumeric);
        }
        proof {
            assert(content@.subrange(i as int, j + 1 as int).drop_last() =~= content@.subrange(
                i as int,
                j as int,
            ));
            assert(content@.subrange(i as int, j + 1 as int).last() == content@[j as int]);
        }
        if over {
            // the value only grows as more digits arrive
        } else {
            let d = (b - 48) as u64;
            if acc > 214748364 || (acc == 214748364 && d > 8) {
                over = true;
            } else {
                acc = acc * 10 + d;
            }
        }
        j = j + 1;
    }
    proof {
        assert(dig.len() > 0);
        assert(all_digits(dig));
    }
    if over {
        return Result::Err(PidError::OutOfRange);
    }
    if neg {
        // the value is -digits_value(dig) <= 0, and at least -2^31, so in range
        return Result::Err(PidError::NotPositive);
    }
    if acc > 0x7fff_ffff {
        return Result::Err(PidError::OutOfRange);
    }
    if acc == 0 {
        return Result::Err(PidError::NotPositive);
    }
    let p = acc as i32;
    if p == own {
        return Result::Err(PidError::OwnPid);
    }
    Result::Ok(p)
}

proof fn lemma_decimal_digits_facts(n: int)
    requires
        1 <= n,
    ensures
        decimal_digits(n).len() >= 1,
        all_digits(decimal_digits(n)),
        digits_value(decimal_digits(n)) == n,
    decreases n,
{
    let s = decimal_digits(n);
    if n < 10 {
        assert(n / 10 == 0);
        assert(decimal_digits(n / 10) == Seq::<u8>::empty());
        assert(s =~= seq![(48 + n % 10) as u8]);
        assert(s.drop_last() =~= Seq::<u8>::empty());
        assert(digits_value(Seq::<u8>::empty()) == 0);
        assert(s.last() == (48 + n % 10) as u8);
        assert(digits_value(s) == n % 10);
        assert(n % 10 == n);
    } else {
        lemma_decimal_digits_facts(n / 10);
        let p = decimal_digits(n / 10);
        assert(s == p.push((48 + n % 10) as u8));
        assert(s.drop_last() =~= p);
        assert forall|i: int| 0 <= i < s.len() implies is_ascii_digit(s[i]) by {
            if i < p.len() {
                assert(s[i] == p[i]);
            }
        }
    }
}

/// The record written for a pid always reads back as exactly that pid: the
/// file content after a successful spawn validates to the child's pid for any
/// reader other than the child itself.
pub proof fn lemma_pid_record_round_trip(pid: int, own: int)
    requires
        1 <= pid <= 0x7fff_ffff,
        own != pid,
    ensures
        pid_parse_result(decimal_digits(pid), own) == Result::<int, PidError>::Ok(pid),
{
    lemma_decimal_digits_facts(pid);
    let s = decimal_digits(pid);
    assert(is_ascii_digit(s[0]));
    assert(is_ascii_digit(s[s.len() - 1]));
    assert(trim_front(s) == s);
    assert(trim_back(s) == s);
    assert(trimmed(s) == s);
}

/// Render a pid as the decimal text stored in the lock/pid file.
pub fn pid_to_bytes(pid: i32) -> (r: Vec<u8>)
    requires
        0 < pid,
    ensures
        r@ == decimal_digits(pid as int),
{
    let mut r: Vec<u8> = Vec::new();
    let mut m: u32 = pid as u32;
    proof {
        assert(decimal_digits(m as int).add(r@) =~= decimal_digits(pid as int));
    }
    while m > 0
        invariant
            decimal_digits(pid as int) == decimal_digits(m as int).add(r@),
        decreases m,
    {
        let ghost m0 = m as int;
        let ghost r0 = r@;
        let d: u8 = (m % 10) as u8 + 48;
        r.insert(0, d);
        m = m / 10;
        proof {
            assert(decimal_digits(m0) == decimal_digits(m0 / 10).push((48 + m0 % 10) as u8));
            assert(decimal_digits(m as int).add(r@) =~= decimal_digits(m0).add(r0));
        }
    }
    proof {
        assert(decimal_digits(0int).add(r@) =~= r@);
    }
    r
}

} // verus!
