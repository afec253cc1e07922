//! The PID marker: the daemon's process id on disk, as decimal text.
//!
//! The daemon writes the marker when it starts and removes it when it
//! stops. A client reads it to learn which process to signal. A marker
//! that is missing or cannot be read as a process id means that no daemon
//! is running; it is never an error of its own.

use vstd::prelude::*;

verus! {

/// No daemon is running, as far as the PID marker tells.
#[derive(Clone, Copy, Debug, PartialEq, Eq, Structural)]
pub struct NotRunning;

pub open spec fn is_digit(byte: u8) -> bool {
    48 <= byte <= 57
}

pub open spec fn all_digits(text: Seq<u8>) -> bool {
    forall|i: int| 0 <= i < text.len() ==> is_digit(#[trigger] text[i])
}

/// The decimal text of a number: its digits in ASCII, most significant
/// first, without sign or leading zeros.
pub open spec fn decimal_text(n: nat) -> Seq<u8>
    decreases n,
{
    if n < 10 {
        seq![(48 + n) as u8]
    } else {
        decimal_text(n / 10).push((48 + n % 10) as u8)
    }
}

/// The number that a run of digits denotes. A byte that is no digit
/// counts as zero.
pub open spec fn decimal_value(digits: Seq<u8>) -> nat
    decreases digits.len(),
{
    if digits.len() == 0 {
        0
    } else {
        decimal_value(digits.drop_last()) * 10 + if is_digit(digits.last()) {
            (digits.last() - 48) as nat
        } else {
            0
        }
    }
}

/// How many bytes stand before the first line feed.
pub open spec fn line_len(bytes: Seq<u8>) -> nat
    decreases bytes.len(),
{
    if bytes.len() == 0 || bytes[0] == 10 {
        0
    } else {
        1 + line_len(bytes.drop_first())
    }
}

/// The first line of a file, without the line feed that ends it.
pub open spec fn first_line(bytes: Seq<u8>) -> Seq<u8> {
    bytes.take(line_len(bytes) as int)
}

/// A line of text without the `+` that may stand at its head.
pub open spec fn unsigned_part(line: Seq<u8>) -> Seq<u8> {
    if line.len() > 0 && line[0] == 43 {
        line.drop_first()
    } else {
        line
    }
}

/// The process id that a line of text denotes: digits, at least one, that
/// may follow a single `+`, with a value that fits in 32 bits. Anything
/// else denotes none.
pub open spec fn parse_pid(line: Seq<u8>) -> Option<u32> {
    let digits = unsigned_part(line);
    if digits.len() > 0 && all_digits(digits) && decimal_value(digits) <= u32::MAX {
        Some(decimal_value(digits) as u32)
    } else {
        None
    }
}

/// What a client makes of the marker file: `None` stands for a file that
/// does not exist or cannot be read.
pub open spec fn running_pid(contents: Option<Seq<u8>>) -> Result<u32, NotRunning> {
    match contents {
        None => Err(NotRunning),
        Some(bytes) => match parse_pid(first_line(bytes)) {
            Some(pid) => Ok(pid),
            None => Err(NotRunning),
        },
    }
}

/// The decimal text of a number, and nothing for 0: what is still to be
/// written in front of the digits that stand already.
spec fn leading_text(n: nat) -> Seq<u8> {
    if n == 0 {
        Seq::empty()
    } else {
        decimal_text(n)
    }
}

/// The decimal text of a number is made of digits and denotes that number.
proof fn lemma_decimal_text(n: nat)
    ensures
        decimal_text(n).len() > 0,
        all_digits(decimal_text(n)),
        decimal_value(decimal_text(n)) == n,
    decreases n,
{
    let text = decimal_text(n);
    if n >= 10 {
        lemma_decimal_text(n / 10);
        assert(text.drop_last() =~= decimal_text(n / 10));
        assert(text.last() == (48 + n % 10) as u8);
    } else {
        assert(text.drop_last() =~= Seq::<u8>::empty());
        assert(text.last() == (48 + n) as u8);
        assert(decimal_value(text.drop_last()) == 0);
    }
    assert(decimal_value(text) == decimal_value(text.drop_last()) * 10 + (text.last() - 48));
}

/// The value of a run of digits is at least the value of each of its
/// prefixes.
proof fn lemma_value_grows(digits: Seq<u8>, k: int)
    requires
        0 <= k <= digits.len(),
    ensures
        decimal_value(digits.take(k)) <= decimal_value(digits),
    decreases digits.len() - k,
{
    if k == digits.len() {
        assert(digits.take(k) =~= digits);
    } else {
        lemma_value_grows(digits.drop_last(), k);
        assert(digits.drop_last().take(k) =~= digits.take(k));
    }
}

/// A position with no line feed before it, and with a line feed at it or
/// the end of the bytes, is where the first line ends.
proof fn lemma_line_ends_at(bytes: Seq<u8>, end: int)
    requires
        0 <= end <= bytes.len(),
        forall|i: int| 0 <= i < end ==> bytes[i] != 10,
        end < bytes.len() ==> bytes[end] == 10,
    ensures
        line_len(bytes) == end,
    decreases end,
{
    if end > 0 {
        lemma_line_ends_at(bytes.drop_first(), end - 1);
    }
}

/// What the daemon writes into its PID marker: the process id as decimal
/// text, with nothing after it.
pub fn pid_marker(pid: u32) -> (text: Vec<u8>)
    ensures
        text@ == decimal_text(pid as nat),
{
    let mut text: Vec<u8> = Vec::new();
    text.push(48 + (pid % 10) as u8);
    let mut rest: u32 = pid / 10;
    while rest > 0
        invariant
            decimal_text(pid as nat) =~= leading_text(rest as nat) + text@,
        decreases rest,
    {
        text.insert(0, 48 + (rest % 10) as u8);
        rest = rest / 10;
    }
    text
}

/// Reads a process id from one line of text.
pub fn parse_pid_line(line: &[u8]) -> (pid: Option<u32>)
    ensures
        pid == parse_pid(line@),
{
    let start: usize = if line.len() > 0 && line[0] == 43 {
        1
    } else {
        0
    };
    let ghost digits = unsigned_part(line@);
    assert(digits =~= line@.skip(start as int));
    if start == line.len() {
        return None;
    }
    let mut value: u64 = 0;
    let mut at: usize = start;
    while at < line.len()
        invariant
            start <= at <= line.len(),
            start < line.len(),
            digits == unsigned_part(line@),
            digits == line@.skip(start as int),
            all_digits(digits.take(at - start)),
            value == decimal_value(digits.take(at - start)),
            value <= u32::MAX,
        decreases line.len() - at,
    {
        let byte: u8 = line[at];
        proof {
            lemma_value_grows(digits, at - start + 1);
            assert(digits.take(at - start + 1).drop_last() =~= digits.take(at - start));
            assert(digits.take(at - start + 1).last() == byte);
        }
        if byte < 48 || byte > 57 {
            assert(!is_digit(digits[at - start]));
            return None;
        }
        value = value * 10 + (byte - 48) as u64;
        if value > 0xffff_ffff {
            return None;
        }
        at = at + 1;
    }
    assert(digits.take(at - start) =~= digits);
    Some(value as u32)
}

/// The process id of the running daemon, read from what the PID marker
/// file holds; `None` stands for a file that does not exist or cannot be
/// read. Only the first line counts.
///
/// A missing file and a first line that is no process id both mean that
/// no daemon is running.
pub fn read_running_pid(contents: Option<&[u8]>) -> (pid: Result<u32, NotRunning>)
    ensures
        pid == running_pid(
            match contents {
                Some(bytes) => Some(bytes@),
                None => None,
            },
        ),
{
    match contents {
        None => Err(NotRunning),
        Some(bytes) => {
            let mut end: usize = 0;
            while end < bytes.len() && bytes[end] != 10
                invariant
                    end <= bytes.len(),
                    forall|i: int| 0 <= i < end ==> bytes[i] != 10,
                decreases bytes.len() - end,
            {
                end = end + 1;
            }
            proof {
                lemma_line_ends_at(bytes@, end as int);
            }
            let line = vstd::slice::slice_subrange(bytes, 0, end);
            assert(line@ =~= first_line(bytes@));
            match parse_pid_line(line) {
                Some(pid) => Ok(pid),
                None => Err(NotRunning),
            }
        },
    }
}

/// A marker that a daemon wrote reads back as that daemon's process id,
/// also when a line feed and more text follow it.
pub proof fn lemma_marker_round_trip(pid: u32, tail: Seq<u8>)
    ensures
        running_pid(Some(decimal_text(pid as nat))) == Ok::<u32, NotRunning>(pid),
        running_pid(Some(decimal_text(pid as nat) + seq![10u8] + tail)) == Ok::<u32, NotRunning>(
            pid,
        ),
{
    let text = decimal_text(pid as nat);
    lemma_decimal_text(pid as nat);
    lemma_line_ends_at(text, text.len() as int);
    assert(text.take(text.len() as int) =~= text);
    let longer = text + seq![10u8] + tail;
    lemma_line_ends_at(longer, text.len() as int);
    assert(longer.take(text.len() as int) =~= text);
}

/// A marker tells of a running daemon only if its first line is decimal
/// text, after a `+` or without one, of a number that fits in 32 bits,
/// and then it tells that number. A marker that is missing or empty, or
/// whose first line is anything else, tells that no daemon is running.
pub proof fn lemma_unreadable_marker(bytes: Seq<u8>)
    ensures
        running_pid(None) == Err::<u32, NotRunning>(NotRunning),
        running_pid(Some(Seq::empty())) == Err::<u32, NotRunning>(NotRunning),
        running_pid(Some(bytes)) is Ok <==> {
            let digits = unsigned_part(first_line(bytes));
            digits.len() > 0 && all_digits(digits) && decimal_value(digits) <= u32::MAX
        },
        running_pid(Some(bytes)) matches Ok(pid) ==> pid == decimal_value(
            unsigned_part(first_line(bytes)),
        ),
{
    assert(first_line(Seq::<u8>::empty()) =~= Seq::<u8>::empty());
}

} // verus!
