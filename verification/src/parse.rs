//! Target-identifier parsing and formatting.
//!
//! Audio targets are referenced on the wire as `pid:<N>` (include mode)
//! or `excl:pid:<N>` (exclude mode); window sources arrive as
//! `window:<HWND>:<slot>`. This module gives those strings their meaning:
//! decimal values as mathematical sequences of digits, parsers whose
//! contracts are exact, and formatters proved to round-trip through the
//! parsers.

use vstd::prelude::*;
use vstd::string::StrSliceExecFns;
use vstd::string::StringExecFns;

verus! {

/// A decimal digit character.
pub open spec fn is_dec_digit(c: char) -> bool {
    48 <= c as int && c as int <= 57
}

/// Numeric value of a digit character; zero for anything else.
pub open spec fn digit_val(c: char) -> nat {
    if is_dec_digit(c) {
        (c as int - 48) as nat
    } else {
        0
    }
}

/// The digit character for a value below ten.
pub open spec fn digit_char(d: nat) -> char
    recommends
        d < 10,
{
    ((48 + d) as u8) as char
}

/// Every character of the sequence is a decimal digit.
pub open spec fn all_dec_digits(s: Seq<char>) -> bool {
    forall|i: int| 0 <= i < s.len() ==> is_dec_digit(#[trigger] s[i])
}

/// The number a sequence of digit characters denotes, most significant first.
pub open spec fn digits_val(s: Seq<char>) -> nat
    decreases s.len(),
{
    if s.len() == 0 {
        0
    } else {
        digits_val(s.drop_last()) * 10 + digit_val(s.last())
    }
}

/// The canonical decimal rendering of a number: no sign, no leading zeros.
pub open spec fn dec_of(n: nat) -> Seq<char>
    decreases n,
{
    if n < 10 {
        seq![digit_char(n)]
    } else {
        dec_of(n / 10).push(digit_char(n % 10))
    }
}

/// A prefix of a digit string never denotes more than the whole string.
pub proof fn lemma_digits_val_prefix_le(s: Seq<char>, k: int)
    requires
        0 <= k <= s.len(),
    ensures
        digits_val(s.take(k)) <= digits_val(s),
    decreases s.len() - k,
{
    if k < s.len() {
        assert(s.take(k + 1).drop_last() =~= s.take(k));
        assert(digits_val(s.take(k + 1)) == digits_val(s.take(k)) * 10 + digit_val(
            s.take(k + 1).last(),
        ));
        lemma_digits_val_prefix_le(s, k + 1);
    } else {
        assert(s.take(k) =~= s);
    }
}

/// The canonical rendering consists of digits and denotes the number itself.
pub proof fn lemma_dec_of_val(n: nat)
    ensures
        dec_of(n).len() >= 1,
        all_dec_digits(dec_of(n)),
        digits_val(dec_of(n)) == n,
    decreases n,
{
    if n < 10 {
        assert(dec_of(n) =~= seq![digit_char(n)]);
        assert(dec_of(n).drop_last() =~= Seq::<char>::empty());
        assert(dec_of(n).last() == digit_char(n));
        assert(digit_char(n) as int == 48 + n);
        assert(digit_val(digit_char(n)) == n);
        assert(digits_val(dec_of(n)) == digits_val(dec_of(n).drop_last()) * 10 + digit_val(
            dec_of(n).last(),
        ));
        assert(digits_val(Seq::<char>::empty()) == 0);
    } else {
        lemma_dec_of_val(n / 10);
        let s = dec_of(n);
        assert(s =~= dec_of(n / 10).push(digit_char(n % 10)));
        assert(s.drop_last() =~= dec_of(n / 10));
        assert(digit_char((n % 10) as nat) as int == 48 + n % 10);
        assert(digit_val(digit_char(n % 10)) == n % 10);
        assert(digits_val(s) == (n / 10) * 10 + n % 10);
        assert((n / 10) * 10 + n % 10 == n) by (nonlinear_arith);
        assert forall|i: int| 0 <= i < s.len() implies is_dec_digit(#[trigger] s[i]) by {
            if i < s.len() - 1 {
                assert(s[i] == dec_of(n / 10)[i]);
            }
        }
    }
}

/// What `str::parse::<u32>` accepts: an optional leading `+`, then one or
/// more decimal digits whose value fits in the type.
pub open spec fn spec_parse_u32(s: Seq<char>) -> Option<u32> {
    let body = if s.len() > 0 && s[0] == '+' {
        s.drop_first()
    } else {
        s
    };
    if body.len() > 0 && all_dec_digits(body) && digits_val(body) <= u32::MAX {
        Some(digits_val(body) as u32)
    } else {
        None
    }
}

/// Parses an unsigned decimal number, accepting exactly what
/// `str::parse::<u32>` accepts.
pub fn parse_u32_str(s: &str) -> (r: Option<u32>)
    ensures
        r == spec_parse_u32(s@),
{
    let n = s.unicode_len();
    let mut i: usize = 0;
    if n > 0 && s.get_char(0) == '+' {
        i = 1;
    }
    let start = i;
    let ghost body = if s@.len() > 0 && s@[0] == '+' {
        s@.drop_first()
    } else {
        s@
    };
    proof {
        assert(body =~= s@.subrange(start as int, n as int));
    }
    if i == n {
        return None;
    }
    let mut acc: u32 = 0;
    while i < n
        invariant
            start <= i <= n,
            n == s@.len(),
            start <= 1,
            body == (if s@.len() > 0 && s@[0] == '+' {
                s@.drop_first()
            } else {
                s@
            }),
            body =~= s@.subrange(start as int, n as int),
            all_dec_digits(body.take(i - start)),
            acc == digits_val(body.take(i - start)),
        decreases n - i,
    {
        let c = s.get_char(i);
        let u = c as u32;
        if u < 48 || u > 57 {
            proof {
                assert(!is_dec_digit(body[i - start]));
            }
            return None;
        }
        let d = u - 48;
        proof {
            assert(is_dec_digit(body[i - start]));
            assert(digit_val(body[i - start]) == d);
            assert(body.take(i - start + 1).drop_last() =~= body.take(i - start));
        }
        let step = match acc.checked_mul(10) {
            Some(m) => m.checked_add(d),
            None => None,
        };
        match step {
            Some(next) => {
                acc = next;
            },
            None => {
                proof {
                    assert(digits_val(body.take(i - start + 1)) > u32::MAX);
                    if all_dec_digits(body) && digits_val(body) <= u32::MAX {
                        lemma_digits_val_prefix_le(body, i - start + 1);
                        assert(false);
                    }
                }
                return None;
            },
        }
        i = i + 1;
    }
    proof {
        assert(body.take(n - start) =~= body);
    }
    Some(acc)
}

/// What `parse_target_pid` recognises: the literal prefix `pid:` followed
/// by a decimal process identifier.
pub open spec fn spec_parse_target_pid(s: Seq<char>) -> Option<u32> {
    if s.len() >= 4 && s.subrange(0, 4) == "pid:"@ {
        spec_parse_u32(s.skip(4))
    } else {
        None
    }
}

/// Extracts the process identifier from a `pid:<N>` target identifier.
pub fn parse_target_pid(target_id: &str) -> (r: Option<u32>)
    ensures
        r == spec_parse_target_pid(target_id@),
{
    proof {
        reveal_strlit("pid:");
    }
    let n = target_id.unicode_len();
    if n < 4 {
        return None;
    }
    if target_id.get_char(0) != 'p' || target_id.get_char(1) != 'i' || target_id.get_char(2) != 'd'
        || target_id.get_char(3) != ':' {
        proof {
            let pre = target_id@.subrange(0, 4);
            assert(pre[0] == target_id@[0] && pre[1] == target_id@[1] && pre[2] == target_id@[2]
                && pre[3] == target_id@[3]);
            assert("pid:"@[0] == 'p' && "pid:"@[1] == 'i' && "pid:"@[2] == 'd' && "pid:"@[3]
                == ':');
            assert(pre != "pid:"@);
        }
        return None;
    }
    proof {
        assert(target_id@.subrange(0, 4) =~= "pid:"@);
    }
    let rest = target_id.substring_char(4, n);
    proof {
        assert(rest@ =~= target_id@.skip(4));
    }
    parse_u32_str(rest)
}

/// What `str::parse::<isize>` accepts: an optional sign, then one or more
/// decimal digits whose value fits in the type.
pub open spec fn spec_parse_isize(s: Seq<char>) -> Option<isize> {
    let neg = s.len() > 0 && s[0] == '-';
    let body = if s.len() > 0 && (s[0] == '-' || s[0] == '+') {
        s.drop_first()
    } else {
        s
    };
    if body.len() > 0 && all_dec_digits(body) {
        let v = digits_val(body);
        if neg {
            if v <= -(isize::MIN as int) {
                Some((-(v as int)) as isize)
            } else {
                None
            }
        } else {
            if v <= isize::MAX {
                Some(v as isize)
            } else {
                None
            }
        }
    } else {
        None
    }
}

/// Parses a signed decimal number, accepting exactly what
/// `str::parse::<isize>` accepts.
pub fn parse_isize_str(s: &str) -> (r: Option<isize>)
    ensures
        r == spec_parse_isize(s@),
{
    let n = s.unicode_len();
    let mut i: usize = 0;
    let mut neg = false;
    if n > 0 {
        let c0 = s.get_char(0);
        if c0 == '-' {
            neg = true;
            i = 1;
        } else if c0 == '+' {
            i = 1;
        }
    }
    let start = i;
    let ghost body = if s@.len() > 0 && (s@[0] == '-' || s@[0] == '+') {
        s@.drop_first()
    } else {
        s@
    };
    proof {
        assert(body =~= s@.subrange(start as int, n as int));
    }
    if i == n {
        return None;
    }
    let mut acc: u64 = 0;
    while i < n
        invariant
            start <= i <= n,
            n == s@.len(),
            start <= 1,
            neg == (s@.len() > 0 && s@[0] == '-'),
            body == (if s@.len() > 0 && (s@[0] == '-' || s@[0] == '+') {
                s@.drop_first()
            } else {
                s@
            }),
            body =~= s@.subrange(start as int, n as int),
            all_dec_digits(body.take(i - start)),
            acc == digits_val(body.take(i - start)),
        decreases n - i,
    {
        let c = s.get_char(i);
        let u = c as u32;
        if u < 48 || u > 57 {
            proof {
                assert(!is_dec_digit(body[i - start]));
            }
            return None;
        }
        let d = (u - 48) as u64;
        proof {
            assert(is_dec_digit(body[i - start]));
            assert(digit_val(body[i - start]) == d);
            assert(body.take(i - start + 1).drop_last() =~= body.take(i - start));
        }
        let step = match acc.checked_mul(10) {
            Some(m) => m.checked_add(d),
            None => None,
        };
        match step {
            Some(next) => {
                acc = next;
            },
            None => {
                proof {
                    assert(digits_val(body.take(i - start + 1)) > u64::MAX);
                    lemma_digits_val_prefix_le(body, i - start + 1);
                    assert(digits_val(body) > u64::MAX);
                    assert(isize::MAX <= u64::MAX);
                    assert(-(isize::MIN as int) <= u64::MAX);
                }
                return None;
            },
        }
        i = i + 1;
    }
    proof {
        assert(body.take(n - start) =~= body);
    }
    if neg {
        let bound: u64 = isize::MAX as u64;
        if acc <= bound {
            Some(-(acc as isize))
        } else if acc == bound + 1 {
            Some(isize::MIN)
        } else {
            None
        }
    } else {
        if acc <= isize::MAX as u64 {
            Some(acc as isize)
        } else {
            None
        }
    }
}

/// Index of the first `:` at or after `from`, or the length when none follows.
pub open spec fn find_colon(s: Seq<char>, from: int) -> int
    recommends
        0 <= from <= s.len(),
    decreases s.len() - from,
{
    if from < 0 || from >= s.len() {
        s.len() as int
    } else if s[from] == ':' {
        from
    } else {
        find_colon(s, from + 1)
    }
}

/// What `parse_window_source_id` recognises: a first `:`-separated field
/// equal to `window`, and a second field that is a signed window handle.
/// Anything after a second `:` is ignored.
pub open spec fn spec_parse_window_source_id(s: Seq<char>) -> Option<isize> {
    let c1 = find_colon(s, 0);
    if s.take(c1) != "window"@ || c1 == s.len() {
        None
    } else {
        let c2 = find_colon(s, c1 + 1);
        spec_parse_isize(s.subrange(c1 + 1, c2))
    }
}

/// Extracts the window handle from a `window:<HWND>:<slot>` source
/// identifier.
pub fn parse_window_source_id(source_id: &str) -> (r: Option<isize>)
    ensures
        r == spec_parse_window_source_id(source_id@),
{
    proof {
        reveal_strlit("window");
    }
    let n = source_id.unicode_len();
    let mut c1: usize = 0;
    while c1 < n && source_id.get_char(c1) != ':'
        invariant
            0 <= c1 <= n,
            n == source_id@.len(),
            find_colon(source_id@, 0) == find_colon(source_id@, c1 as int),
        decreases n - c1,
    {
        c1 = c1 + 1;
    }
    proof {
        assert(find_colon(source_id@, 0) == c1);
    }
    if c1 != 6 {
        proof {
            assert(source_id@.take(c1 as int).len() != "window"@.len());
        }
        return None;
    }
    if source_id.get_char(0) != 'w' || source_id.get_char(1) != 'i' || source_id.get_char(2) != 'n'
        || source_id.get_char(3) != 'd' || source_id.get_char(4) != 'o' || source_id.get_char(5)
        != 'w' {
        proof {
            let pre = source_id@.take(6);
            assert(pre[0] == source_id@[0] && pre[1] == source_id@[1] && pre[2] == source_id@[2]
                && pre[3] == source_id@[3] && pre[4] == source_id@[4] && pre[5] == source_id@[5]);
            assert("window"@[0] == 'w' && "window"@[1] == 'i' && "window"@[2] == 'n' && "window"@[3]
                == 'd' && "window"@[4] == 'o' && "window"@[5] == 'w');
            assert(pre != "window"@);
        }
        return None;
    }
    proof {
        assert(source_id@.take(6) =~= "window"@);
    }
    if c1 == n {
        return None;
    }
    let mut c2: usize = c1 + 1;
    while c2 < n && source_id.get_char(c2) != ':'
        invariant
            c1 + 1 <= c2 <= n,
            n == source_id@.len(),
            find_colon(source_id@, c1 + 1) == find_colon(source_id@, c2 as int),
        decreases n - c2,
    {
        c2 = c2 + 1;
    }
    proof {
        assert(find_colon(source_id@, c1 + 1) == c2);
    }
    let field = source_id.substring_char(c1 + 1, c2);
    proof {
        assert(field@ =~= source_id@.subrange(c1 + 1, c2 as int));
    }
    parse_isize_str(field)
}

/// The digit string for a value below ten.
fn digit_to_str(d: u8) -> (r: &'static str)
    requires
        d < 10,
    ensures
        r@ =~= seq![digit_char(d as nat)],
{
    proof {
        reveal_strlit("0");
        reveal_strlit("1");
        reveal_strlit("2");
        reveal_strlit("3");
        reveal_strlit("4");
        reveal_strlit("5");
        reveal_strlit("6");
        reveal_strlit("7");
        reveal_strlit("8");
        reveal_strlit("9");
    }
    match d {
        0 => "0",
        1 => "1",
        2 => "2",
        3 => "3",
        4 => "4",
        5 => "5",
        6 => "6",
        7 => "7",
        8 => "8",
        _ => "9",
    }
}

/// Renders a number in decimal, matching `dec_of`.
pub fn u64_to_dec(n: u64) -> (r: String)
    ensures
        r@ == dec_of(n as nat),
    decreases n,
{
    if n < 10 {
        String::from_str(digit_to_str(n as u8))
    } else {
        let mut s = u64_to_dec(n / 10);
        s.append(digit_to_str((n % 10) as u8));
        proof {
            assert(s@ =~= dec_of(n as nat));
        }
        s
    }
}

/// Renders a number in decimal, matching `dec_of`.
pub fn u128_to_dec(n: u128) -> (r: String)
    ensures
        r@ == dec_of(n as nat),
    decreases n,
{
    if n < 10 {
        String::from_str(digit_to_str(n as u8))
    } else {
        let mut s = u128_to_dec(n / 10);
        s.append(digit_to_str((n % 10) as u8));
        proof {
            assert(s@ =~= dec_of(n as nat));
        }
        s
    }
}

/// The `pid:<N>` identifier for a process.
pub fn target_id_for_pid(pid: u32) -> (r: String)
    ensures
        r@ == "pid:"@ + dec_of(pid as nat),
{
    let mut s = String::from_str("pid:");
    s.append(u64_to_dec(pid as u64).as_str());
    s
}

/// The `excl:pid:<N>` identifier for an exclude-mode session.
pub fn exclude_target_id_for_pid(pid: u32) -> (r: String)
    ensures
        r@ == "excl:pid:"@ + dec_of(pid as nat),
{
    let mut s = String::from_str("excl:pid:");
    s.append(u64_to_dec(pid as u64).as_str());
    s
}

/// Formatting a process identifier and parsing it back returns the same
/// identifier: `parse_target_pid` inverts `target_id_for_pid`.
pub proof fn lemma_target_pid_round_trip(pid: u32)
    ensures
        spec_parse_target_pid("pid:"@ + dec_of(pid as nat)) == Some(pid),
{
    reveal_strlit("pid:");
    let s = "pid:"@ + dec_of(pid as nat);
    lemma_dec_of_val(pid as nat);
    assert(s.subrange(0, 4) =~= "pid:"@);
    assert(s.skip(4) =~= dec_of(pid as nat));
    let body = dec_of(pid as nat);
    assert(body[0] != '+') by {
        assert(is_dec_digit(body[0]));
    }
}

} // verus!
