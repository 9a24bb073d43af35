//! The file descriptor checks made at start-up: the limit that `ulimit -n`
//! reports, and how many descriptors the process holds.
use vstd::prelude::*;
use crate::numbers::{parse_u64, unsigned_literal};
use crate::text::{chars_of, push_char};

verus! {

/// A file descriptor limit below this is reported as low.
pub const LOW_FD_LIMIT: u32 = 1024;

/// More open descriptors than this are reported as high usage.
pub const HIGH_FD_USAGE: usize = 500;

/// A character of Unicode's White_Space property, the whitespace that
/// `str::trim` removes: tab to carriage return, space, next line, no-break
/// space, Ogham space mark, the spaces from en quad to hair space, line and
/// paragraph separator, narrow no-break space, medium mathematical space
/// and ideographic space.
pub open spec fn is_white_space(c: char) -> bool {
    let u = c as u32;
    (9 <= u <= 13) || u == 32 || u == 0x85 || u == 0xA0 || u == 0x1680 || (0x2000 <= u <= 0x200A)
        || u == 0x2028 || u == 0x2029 || u == 0x202F || u == 0x205F || u == 0x3000
}

/// `s` without the whitespace it starts with.
pub open spec fn trim_white_start(s: Seq<char>) -> Seq<char>
    decreases s.len(),
{
    if s.len() > 0 && is_white_space(s[0]) {
        trim_white_start(s.drop_first())
    } else {
        s
    }
}

/// `s` without the whitespace it ends with.
pub open spec fn trim_white_end(s: Seq<char>) -> Seq<char>
    decreases s.len(),
{
    if s.len() > 0 && is_white_space(s.last()) {
        trim_white_end(s.drop_last())
    } else {
        s
    }
}

/// A text without its leading and trailing whitespace, as `str::trim`
/// gives it.
pub open spec fn trimmed(s: Seq<char>) -> Seq<char> {
    trim_white_end(trim_white_start(s))
}

/// Whether `c` is whitespace.
fn white_space(c: char) -> (r: bool)
    ensures
        r == is_white_space(c),
{
    let u = c as u32;
    (9 <= u && u <= 13) || u == 32 || u == 0x85 || u == 0xA0 || u == 0x1680 || (0x2000 <= u && u
        <= 0x200A) || u == 0x2028 || u == 0x2029 || u == 0x202F || u == 0x205F || u == 0x3000
}

/// `s` without its leading and trailing whitespace.
fn trim(s: &str) -> (r: String)
    ensures
        r@ == trimmed(s@),
{
    let cs = chars_of(s);
    proof {
        assert(cs@.subrange(0, cs.len() as int) =~= cs@);
    }
    let mut a: usize = 0;
    while a < cs.len() && white_space(cs[a])
        invariant
            a <= cs.len(),
            cs@ == s@,
            trim_white_start(s@) == trim_white_start(cs@.subrange(a as int, cs.len() as int)),
        decreases cs.len() - a,
    {
        proof {
            assert(cs@.subrange(a as int, cs.len() as int).drop_first() =~= cs@.subrange(
                a + 1,
                cs.len() as int,
            ));
        }
        a = a + 1;
    }
    proof {
        assert(cs@.subrange(0, cs.len() as int) =~= cs@);
    }
    let mut b: usize = cs.len();
    while b > a && white_space(cs[b - 1])
        invariant
            a <= b <= cs.len(),
            cs@ == s@,
            trim_white_start(s@) == cs@.subrange(a as int, cs.len() as int),
            trimmed(s@) == trim_white_end(cs@.subrange(a as int, b as int)),
        decreases b - a,
    {
        proof {
            assert(cs@.subrange(a as int, b as int).drop_last() =~= cs@.subrange(a as int, b - 1));
        }
        b = b - 1;
    }
    let mut r = String::new();
    let mut i: usize = a;
    while i < b
        invariant
            a <= i <= b <= cs.len(),
            r@ == cs@.subrange(a as int, i as int),
        decreases b - i,
    {
        push_char(&mut r, cs[i]);
        proof {
            assert(r@ =~= cs@.subrange(a as int, i + 1));
        }
        i = i + 1;
    }
    r
}

/// What parsing `s` as a `u32` gives.
pub open spec fn parsed_u32(s: Seq<char>) -> Option<u32> {
    match unsigned_literal(s) {
        Some(v) => if v <= u32::MAX {
            Some(v as u32)
        } else {
            None
        },
        None => None,
    }
}

/// The limit that the output of `ulimit -n` states, if it is a number.
pub fn fd_limit_from_output(output: &str) -> (r: Option<u32>)
    ensures
        r == parsed_u32(trimmed(output@)),
{
    let t = trim(output);
    match parse_u64(t.as_str()) {
        Some(n) => if n <= u32::MAX as u64 {
            Some(n as u32)
        } else {
            None
        },
        None => None,
    }
}

/// Whether a file descriptor limit is low.
pub fn is_low_fd_limit(limit: u32) -> (r: bool)
    ensures
        r == (limit < LOW_FD_LIMIT),
{
    limit < LOW_FD_LIMIT
}

/// Whether the number of open descriptors is high.
pub fn is_high_fd_usage(count: usize) -> (r: bool)
    ensures
        r == (count > HIGH_FD_USAGE),
{
    count > HIGH_FD_USAGE
}

/// The first positive count among the counts of the descriptor
/// directories that could be read (`/proc/self/fd`, then `/dev/fd`).
pub open spec fn first_positive(counts: Seq<Option<usize>>) -> Option<usize>
    decreases counts.len(),
{
    if counts.len() == 0 {
        None
    } else {
        match counts[0] {
            Some(c) => if c > 0 {
                Some(c)
            } else {
                first_positive(counts.drop_first())
            },
            None => first_positive(counts.drop_first()),
        }
    }
}

/// The number of open descriptors: the first positive count among the
/// directories that could be read.
pub fn current_fd_count(counts: &Vec<Option<usize>>) -> (r: Option<usize>)
    ensures
        r == first_positive(counts@),
{
    let mut i: usize = 0;
    assert(counts@.skip(0) =~= counts@);
    while i < counts.len()
        invariant
            i <= counts.len(),
            first_positive(counts@.skip(i as int)) == first_positive(counts@),
        decreases counts.len() - i,
    {
        assert(counts@.skip(i as int).drop_first() =~= counts@.skip(i + 1));
        match counts[i] {
            Some(c) => {
                if c > 0 {
                    return Some(c);
                }
            },
            None => {},
        }
        i = i + 1;
    }
    None
}

} // verus!
