//! Reading the progress that external programs report.

use crate::fingerprint::{scaled_ratio, Confidence, CONFIDENCE_ONE};
use vstd::prelude::*;
use vstd::string::StrSliceExecFns;

verus! {

/// Whether `c` is one of the digits `0` to `9`.
pub open spec fn is_digit(c: char) -> bool {
    '0' <= c <= '9'
}

/// The value of a digit.
pub open spec fn digit_value(c: char) -> nat {
    (c as u32 - '0' as u32) as nat
}

/// The number that the digits write in decimal; zero for no digits.
pub open spec fn number_value(digits: Seq<char>) -> nat
    decreases digits.len(),
{
    if digits.len() == 0 {
        0
    } else {
        10 * number_value(digits.drop_last()) + digit_value(digits.last())
    }
}

/// A number cut to what 64 bits hold.
pub open spec fn capped(n: nat) -> u64 {
    if n <= u64::MAX {
        n as u64
    } else {
        u64::MAX
    }
}

/// The first position from `from` on at which `c` stands in `text`, or the
/// length of `text` if it stands nowhere there.
pub open spec fn first_position(text: Seq<char>, c: char, from: int) -> int
    decreases text.len() - from,
{
    if from >= text.len() {
        text.len() as int
    } else if from >= 0 && text[from] == c {
        from
    } else {
        first_position(text, c, from + 1)
    }
}

/// Where the digits begin that stand directly before `end`; `end` itself
/// where none do.
pub open spec fn digits_start(text: Seq<char>, end: int) -> int
    decreases end,
{
    if 0 < end <= text.len() && is_digit(text[end - 1]) {
        digits_start(text, end - 1)
    } else {
        end
    }
}

/// Where the digits end that begin at `start`; `start` itself where none
/// do.
pub open spec fn digits_end(text: Seq<char>, start: int) -> int
    decreases text.len() - start,
{
    if 0 <= start < text.len() && is_digit(text[start]) {
        digits_end(text, start + 1)
    } else {
        start
    }
}

/// The percentage that a line of output reports: the number written
/// directly before the first percent sign. A line without a percent sign,
/// or with no digit before the first one, reports none.
pub open spec fn reported_percent(line: Seq<char>) -> Option<u64> {
    let sign = first_position(line, '%', 0);
    let start = digits_start(line, sign);
    if sign >= line.len() || start == sign {
        None
    } else {
        Some(capped(number_value(line.subrange(start, sign))))
    }
}

/// Copies the characters of a text into a vector.
pub fn characters(text: &str) -> (chars: Vec<char>)
    ensures
        chars@ == text@,
{
    let n: usize = text.unicode_len();
    let mut chars: Vec<char> = Vec::new();
    let mut i: usize = 0;
    while i < n
        invariant
            i <= n,
            n == text@.len(),
            chars@ == text@.take(i as int),
        decreases n - i,
    {
        chars.push(text.get_char(i));
        assert(chars@ =~= text@.take(i + 1));
        i = i + 1;
    }
    assert(text@.take(n as int) =~= text@);
    chars
}

fn digit_of(c: char) -> (value: Option<u64>)
    ensures
        is_digit(c) ==> value == Some(digit_value(c) as u64) && digit_value(c) <= 9,
        !is_digit(c) ==> value is None,
{
    if c >= '0' && c <= '9' {
        Some((c as u32 - '0' as u32) as u64)
    } else {
        None
    }
}

/// Reads the number that the digits from `start` up to `end` write, cut to
/// what 64 bits hold.
fn read_number(chars: &Vec<char>, start: usize, end: usize) -> (value: u64)
    requires
        start <= end <= chars@.len(),
        forall|i: int| start <= i < end ==> is_digit(#[trigger] chars@[i]),
    ensures
        value == capped(number_value(chars@.subrange(start as int, end as int))),
{
    let mut value: u64 = 0;
    let mut i: usize = start;
    assert(chars@.subrange(start as int, start as int) =~= Seq::<char>::empty());
    while i < end
        invariant
            start <= i <= end <= chars@.len(),
            forall|k: int| start <= k < end ==> is_digit(#[trigger] chars@[k]),
            value == capped(number_value(chars@.subrange(start as int, i as int))),
        decreases end - i,
    {
        let ghost before = number_value(chars@.subrange(start as int, i as int));
        proof {
            let next = chars@.subrange(start as int, i + 1);
            assert(next.drop_last() =~= chars@.subrange(start as int, i as int));
            assert(next.last() == chars@[i as int]);
        }
        let digit: u64 = match digit_of(chars[i]) {
            Some(d) => d,
            None => 0,
        };
        if value > (u64::MAX - digit) / 10 {
            value = u64::MAX;
        } else {
            value = 10 * value + digit;
        }
        i = i + 1;
    }
    value
}

/// Reads the percentage that a line of output reports: the number written
/// directly before the first percent sign, cut to what 64 bits hold.
pub fn parse_progress(line: &str) -> (percent: Option<u64>)
    ensures
        percent == reported_percent(line@),
{
    let chars = characters(line);
    let n: usize = chars.len();
    let mut sign: usize = 0;
    while sign < n && chars[sign] != '%'
        invariant
            sign <= n,
            n == chars@.len(),
            first_position(chars@, '%', 0) == first_position(chars@, '%', sign as int),
        decreases n - sign,
    {
        sign = sign + 1;
    }
    if sign >= n {
        return None;
    }
    let mut start: usize = sign;
    while start > 0 && digit_of(chars[start - 1]).is_some()
        invariant
            start <= sign < n,
            n == chars@.len(),
            digits_start(chars@, sign as int) == digits_start(chars@, start as int),
            forall|i: int| start <= i < sign ==> is_digit(#[trigger] chars@[i]),
        decreases start,
    {
        start = start - 1;
    }
    if start == sign {
        return None;
    }
    Some(read_number(&chars, start, sign))
}

/// The words by which the transcoder reports how far it has come, in
/// microseconds of output.
pub open spec fn position_marker() -> Seq<char> {
    "out_time_ms="@
}

/// Whether the transcoder's report of its position begins at `i`: the
/// marker stands there, with a digit behind it.
pub open spec fn position_reported_at(line: Seq<char>, i: int) -> bool {
    &&& 0 <= i
    &&& i + position_marker().len() < line.len()
    &&& line.subrange(i, i + position_marker().len()) == position_marker()
    &&& is_digit(line[i + position_marker().len()])
}

/// The first place from `from` on at which the transcoder's report of its
/// position begins, or the length of the line if there is none.
pub open spec fn first_report(line: Seq<char>, from: int) -> int
    decreases line.len() - from,
{
    if from >= line.len() {
        line.len() as int
    } else if position_reported_at(line, from) {
        from
    } else {
        first_report(line, from + 1)
    }
}

/// The position that a line of the transcoder's output reports, in
/// microseconds: the number behind the first marker that has one.
pub open spec fn reported_position(line: Seq<char>) -> Option<u64> {
    let at = first_report(line, 0);
    if at >= line.len() {
        None
    } else {
        let start = at + position_marker().len();
        Some(capped(number_value(line.subrange(start, digits_end(line, start)))))
    }
}

fn marker_stands_at(chars: &Vec<char>, marker: &Vec<char>, i: usize) -> (yes: bool)
    requires
        marker@ == position_marker(),
        i < chars@.len(),
    ensures
        yes == position_reported_at(chars@, i as int),
{
    let m: usize = marker.len();
    let n: usize = chars.len();
    if m >= n - i {
        return false;
    }
    let mut k: usize = 0;
    while k < m
        invariant
            k <= m,
            m == marker@.len(),
            n == chars@.len(),
            i + m < n,
            marker@ == position_marker(),
            forall|j: int| 0 <= j < k ==> chars@[i + j] == marker@[j],
        decreases m - k,
    {
        if chars[i + k] != marker[k] {
            proof {
                let part = chars@.subrange(i as int, i + m);
                assert(part[k as int] == chars@[i + k]);
            }
            return false;
        }
        k = k + 1;
    }
    assert(chars@.subrange(i as int, i + m) =~= marker@);
    digit_of(chars[i + m]).is_some()
}

/// Reads the position that a line of the transcoder's output reports, in
/// microseconds, cut to what 64 bits hold.
pub fn parse_position(line: &str) -> (position: Option<u64>)
    ensures
        position == reported_position(line@),
{
    let chars = characters(line);
    let marker = characters("out_time_ms=");
    let n: usize = chars.len();
    let m: usize = marker.len();
    let mut at: usize = 0;
    while at < n && !marker_stands_at(&chars, &marker, at)
        invariant
            at <= n,
            n == chars@.len(),
            m == marker@.len(),
            marker@ == position_marker(),
            first_report(chars@, 0) == first_report(chars@, at as int),
        decreases n - at,
    {
        at = at + 1;
    }
    if at >= n {
        return None;
    }
    let start: usize = at + m;
    let mut end: usize = start;
    while end < n && digit_of(chars[end]).is_some()
        invariant
            start <= end <= n,
            n == chars@.len(),
            digits_end(chars@, start as int) == digits_end(chars@, end as int),
            forall|i: int| start <= i < end ==> is_digit(#[trigger] chars@[i]),
        decreases n - end,
    {
        end = end + 1;
    }
    Some(read_number(&chars, start, end))
}

/// How far a transcoding has come: the share of the output's length that
/// is written, and no more than all of it. The position is in microseconds,
/// the length in milliseconds. Output of no length is always done.
pub open spec fn transcoded_share(position: u64, total_duration: u64) -> nat {
    if total_duration == 0 || position >= 1000 * total_duration {
        CONFIDENCE_ONE as nat
    } else {
        scaled_ratio(position as nat, (1000 * total_duration) as nat)
    }
}

/// How far a transcoding has come.
pub fn transcode_progress(position: u64, total_duration: u64) -> (progress: Confidence)
    ensures
        progress.scaled == transcoded_share(position, total_duration),
        progress.scaled <= CONFIDENCE_ONE,
{
    if total_duration == 0 {
        return Confidence::one();
    }
    let length: u128 = 1000 * (total_duration as u128);
    if position as u128 >= length {
        return Confidence::one();
    }
    let one: u128 = CONFIDENCE_ONE as u128;
    assert(position * one <= u64::MAX * one) by (nonlinear_arith)
        requires
            position <= u64::MAX,
            one >= 0,
    ;
    let share: u128 = (position as u128 * one) / length;
    assert(share <= one) by (nonlinear_arith)
        requires
            share == (position * one) / (length as int),
            position < length,
            one >= 0,
    ;
    Confidence { scaled: share as u64 }
}

} // verus!
