//! Mirroring the log to a file.
//!
//! The log goes to the error stream and, once a file was opened for it, to the
//! file too. This module says what reaches the file, which file a process
//! opens, and which files of other processes have outlived them.
use vstd::prelude::*;

#[allow(unused_imports)]
use crate::text::{decimal, digit_char};
use crate::text::{chars_of, concat2, concat3, decimal_text, has_prefix};

verus! {

/// How long a log outlives the process that wrote it, in days.
pub const RETAIN_DAYS: u64 = 7;

/// That, in seconds.
pub const RETAIN_SECONDS: u64 = RETAIN_DAYS * 86_400;

/// How many names are tried for a process's log.
pub const LOG_TRIES: u32 = 32;

/// What every log's name starts with.
pub const LOG_PREFIX: &'static str = "alacritree-";

/// What is said on the error stream when the file cannot be written.
pub const SINK_FAILED: &'static str = "alacritree: log file write failed; disabling it\n";

/// Whether the log is mirrored to a file.
#[derive(Clone, Copy, Debug, PartialEq, Eq, Structural)]
pub struct Tee {
    pub open: bool,
}

impl Tee {
    /// The mirror after a write, and whether its end is told.
    pub open spec fn after_write(self, succeeded: bool) -> (Self, bool) {
        (Tee { open: self.open && succeeded }, self.open && !succeeded)
    }

    /// A log that is not mirrored yet.
    pub fn new() -> (r: Self)
        ensures
            !r.open,
    {
        Tee { open: false }
    }

    /// Mirror what is written from here on.
    pub fn fill(&mut self)
        ensures
            final(self).open,
    {
        self.open = true;
    }

    /// What of `buf` goes to the file once the error stream took `written`
    /// bytes of it: those and no more, since the rest is written again.
    pub fn mirrored(&self, buf: &Vec<u8>, written: usize) -> (r: Option<Vec<u8>>)
        requires
            written <= buf@.len(),
        ensures
            r is Some == self.open,
            r matches Some(bytes) ==> bytes@ == buf@.take(written as int),
    {
        if !self.open {
            return None;
        }
        let mut bytes: Vec<u8> = Vec::new();
        let mut i: usize = 0;
        while i < written
            invariant
                i <= written <= buf@.len(),
                bytes@ == buf@.take(i as int),
            decreases written - i,
        {
            bytes.push(buf[i]);
            i += 1;
            assert(bytes@ =~= buf@.take(i as int));
        }
        Some(bytes)
    }

    /// Take what came of writing to the file, and say what goes to the error
    /// stream about it. A file that cannot be written is given up, and the
    /// log goes on without it.
    pub fn sink_wrote(&mut self, succeeded: bool) -> (r: Option<&'static str>)
        ensures
            (*final(self), r is Some) == old(self).after_write(succeeded),
            final(self).open == (old(self).open && succeeded),
            r is Some == (old(self).open && !succeeded),
            r matches Some(notice) ==> notice@ == SINK_FAILED@,
    {
        if self.open && !succeeded {
            self.open = false;
            Some(SINK_FAILED)
        } else {
            None
        }
    }
}

/// A buffer that the error stream takes in two parts reaches the file once.
pub proof fn a_short_write_is_mirrored_once(buf: Seq<u8>, written: int)
    requires
        0 <= written <= buf.len(),
    ensures
        buf.take(written) + buf.skip(written).take(buf.len() - written) == buf,
{
    assert(buf.take(written) + buf.skip(written).take(buf.len() - written) =~= buf);
}

/// What came of creating a log under a name.
#[derive(Clone, Copy, Debug, PartialEq, Eq, Structural)]
pub enum Created {
    Opened,
    /// There is a file of that name.
    Exists,
    Failed,
}

/// What to do about a process's log.
#[derive(Clone, Copy, Debug, PartialEq, Eq, Structural)]
pub enum LogStep {
    /// Create the log with this ordinal.
    Try(u32),
    /// The log is open. The ordinal is shared with the process's other files
    /// when it is the one they already go by.
    Opened { settles: bool },
    GiveUp,
}

/// The search for a name no other log has.
#[derive(Clone, Copy, Debug, PartialEq, Eq, Structural)]
pub struct LogSearch {
    pub first: u32,
    pub tries: u32,
}

impl LogSearch {
    pub open spec fn wf(self) -> bool {
        &&& self.first + LOG_TRIES <= u32::MAX
        &&& self.tries < LOG_TRIES
    }

    /// Start with the ordinal the process goes by.
    pub fn start(first: u32) -> (r: (Self, LogStep))
        ensures
            r.0 == (LogSearch { first, tries: 0 }),
            r.1 == LogStep::Try(first),
    {
        (LogSearch { first, tries: 0 }, LogStep::Try(first))
    }

    /// Where the search goes from the last try.
    pub open spec fn step(self, created: Created) -> LogStep {
        match created {
            Created::Opened => LogStep::Opened { settles: self.tries == 0 },
            Created::Exists => if self.tries + 1 < LOG_TRIES {
                LogStep::Try((self.first + self.tries + 1) as u32)
            } else {
                LogStep::GiveUp
            },
            Created::Failed => LogStep::GiveUp,
        }
    }

    /// Go on from the last try.
    pub fn next(&mut self, created: Created) -> (r: LogStep)
        requires
            old(self).wf(),
        ensures
            r == old(self).step(created),
            r == match created {
                Created::Opened => LogStep::Opened { settles: old(self).tries == 0 },
                Created::Exists => if old(self).tries + 1 < LOG_TRIES {
                    LogStep::Try((old(self).first + old(self).tries + 1) as u32)
                } else {
                    LogStep::GiveUp
                },
                Created::Failed => LogStep::GiveUp,
            },
            r is Try ==> final(self).wf() && final(self).first == old(self).first && final(self).tries == old(self).tries + 1,
            !(r is Try) ==> *final(self) == *old(self),
    {
        match created {
            Created::Opened => LogStep::Opened { settles: self.tries == 0 },
            Created::Exists => {
                if self.tries + 1 < LOG_TRIES {
                    self.tries += 1;
                    LogStep::Try(self.first + self.tries)
                } else {
                    LogStep::GiveUp
                }
            },
            Created::Failed => LogStep::GiveUp,
        }
    }
}

/// The name of a process's log.
pub open spec fn log_name(start: nat, pid: nat, ordinal: nat) -> Seq<char> {
    LOG_PREFIX@ + decimal(start) + "-"@ + decimal(pid) + if ordinal == 0 {
        ".log"@
    } else {
        "-"@ + decimal(ordinal) + ".log"@
    }
}

/// The name of a process's log.
pub fn session_log_name(start: u64, pid: u32, ordinal: u32) -> (r: String)
    ensures
        r@ == log_name(start as nat, pid as nat, ordinal as nat),
{
    let began = concat2(LOG_PREFIX, decimal_text(start).as_str());
    let named = concat3(began.as_str(), "-", decimal_text(pid as u64).as_str());
    let tail = if ordinal == 0 {
        ".log".to_owned()
    } else {
        concat3("-", decimal_text(ordinal as u64).as_str(), ".log")
    };
    let name = concat2(named.as_str(), tail.as_str());
    assert(name@ =~= log_name(start as nat, pid as nat, ordinal as nat));
    name
}

/// A digit of a decimal number.
pub open spec fn is_digit(c: char) -> bool {
    '0' <= c <= '9'
}

/// The number that digits write.
pub open spec fn number(digits: Seq<char>) -> nat
    decreases digits.len(),
{
    if digits.len() == 0 {
        0
    } else {
        number(digits.drop_last()) * 10 + (digits.last() as int - '0' as int) as nat
    }
}

/// Where the digits from `from` on end.
pub open spec fn digits_end(s: Seq<char>, from: int) -> int
    decreases s.len() - from,
{
    if 0 <= from < s.len() && is_digit(s[from]) {
        digits_end(s, from + 1)
    } else {
        from
    }
}

/// The start and the process a name speaks of, if it has the shape of a log's.
pub open spec fn log_parts(name: Seq<char>) -> Option<(nat, nat)> {
    let a = LOG_PREFIX@.len() as int;
    let b = digits_end(name, a);
    let d = digits_end(name, b + 1);
    if LOG_PREFIX@.is_prefix_of(name) && a < b < name.len() && name[b] == '-' && b + 1 < d && (d
        == name.len() || name[d] == '-' || name[d] == '.') {
        Some((number(name.subrange(a, b)), number(name.subrange(b + 1, d))))
    } else {
        None
    }
}

/// Read the digits from `from` on: where they end, and the number they write
/// where it is at most `most`.
fn read_number(name: &Vec<char>, from: usize, most: u64) -> (r: (usize, Option<u64>))
    requires
        from <= name@.len(),
    ensures
        r.0 == digits_end(name@, from as int),
        from <= r.0 <= name@.len(),
        r.1 == {
            let n = number(name@.subrange(from as int, r.0 as int));
            if n <= most {
                Some(n as u64)
            } else {
                None
            }
        },
{
    let mut i: usize = from;
    let mut value: Option<u64> = Some(0);
    assert(name@.subrange(from as int, from as int) =~= Seq::empty());
    while i < name.len() && name[i] >= '0' && name[i] <= '9'
        invariant
            from <= i <= name@.len(),
            digits_end(name@, from as int) == digits_end(name@, i as int),
            forall|k: int| from <= k < i ==> is_digit(#[trigger] name@[k]),
            value == {
                let n = number(name@.subrange(from as int, i as int));
                if n <= most {
                    Some(n as u64)
                } else {
                    None
                }
            },
        decreases name@.len() - i,
    {
        let digit: u64 = (name[i] as u32 - '0' as u32) as u64;
        proof {
            let now = name@.subrange(from as int, i + 1);
            assert(now.drop_last() =~= name@.subrange(from as int, i as int));
            assert(now.last() == name@[i as int]);
        }
        value = match value {
            None => None,
            Some(n) => {
                if n > (u64::MAX - digit) / 10 {
                    None
                } else {
                    let next: u64 = n * 10 + digit;
                    if next <= most {
                        Some(next)
                    } else {
                        None
                    }
                }
            },
        };
        i += 1;
    }
    (i, value)
}

/// The process a log's name speaks of; none when the name has another shape,
/// or a number too large for a start or a process.
pub fn log_owner(name: &str) -> (r: Option<u32>)
    ensures
        r == match log_parts(name@) {
            Some((start, pid)) => if start <= u64::MAX && pid <= u32::MAX {
                Some(pid as u32)
            } else {
                None
            },
            None => None,
        },
{
    proof {
        reveal_strlit("alacritree-");
    }
    let chars = chars_of(name);
    if !has_prefix(&chars, LOG_PREFIX) {
        return None;
    }
    let a: usize = 11;
    let (b, start) = read_number(&chars, a, u64::MAX);
    if b == a || b >= chars.len() || chars[b] != '-' {
        return None;
    }
    let (d, pid) = read_number(&chars, b + 1, u32::MAX as u64);
    if d == b + 1 || (d < chars.len() && chars[d] != '-' && chars[d] != '.') {
        return None;
    }
    match (start, pid) {
        (Some(_), Some(pid)) => Some(pid as u32),
        _ => None,
    }
}

proof fn decimal_is_digits(n: nat)
    ensures
        decimal(n).len() > 0,
        forall|i: int| 0 <= i < decimal(n).len() ==> is_digit(#[trigger] decimal(n)[i]),
        number(decimal(n)) == n,
    decreases n,
{
    reveal_with_fuel(number, 2);
    if n < 10 {
        assert(decimal(n) =~= seq![digit_char(n)]);
        assert(decimal(n).drop_last() =~= Seq::empty());
    } else {
        decimal_is_digits(n / 10);
        assert(decimal(n) =~= decimal(n / 10).push(digit_char(n % 10)));
        assert(decimal(n).drop_last() =~= decimal(n / 10));
        assert forall|i: int| 0 <= i < decimal(n).len() implies is_digit(
            #[trigger] decimal(n)[i],
        ) by {
            if i < decimal(n).len() - 1 {
                assert(is_digit(decimal(n / 10)[i]));
            }
        }
    }
}

proof fn digits_run_to(s: Seq<char>, from: int, to: int)
    requires
        0 <= from <= to <= s.len(),
        forall|i: int| from <= i < to ==> is_digit(#[trigger] s[i]),
        to < s.len() ==> !is_digit(s[to]),
    ensures
        digits_end(s, from) == to,
    decreases to - from,
{
    if from < to {
        assert(is_digit(s[from]));
        digits_run_to(s, from + 1, to);
    }
}

/// A name a process gave its log is known for that process's.
pub proof fn a_log_is_known_by_its_name(start: nat, pid: nat, ordinal: nat)
    ensures
        log_parts(log_name(start, pid, ordinal)) == Some((start, pid)),
{
    reveal_strlit("alacritree-");
    reveal_strlit("-");
    reveal_strlit(".log");
    let name = log_name(start, pid, ordinal);
    decimal_is_digits(start);
    decimal_is_digits(pid);
    let a = 11int;
    let b = a + decimal(start).len();
    let c = b + 1;
    let d = c + decimal(pid).len();
    let tail = if ordinal == 0 {
        ".log"@
    } else {
        "-"@ + decimal(ordinal) + ".log"@
    };
    assert(name.len() == d + tail.len());
    assert(LOG_PREFIX@.is_prefix_of(name));
    assert(name.subrange(a, b) =~= decimal(start));
    assert(name.subrange(c, d) =~= decimal(pid));
    assert(name[b] == '-');
    assert(name[d] == tail[0]);
    assert forall|i: int| a <= i < b implies is_digit(#[trigger] name[i]) by {
        assert(name[i] == decimal(start)[i - a]);
    }
    assert forall|i: int| c <= i < d implies is_digit(#[trigger] name[i]) by {
        assert(name[i] == decimal(pid)[i - c]);
    }
    digits_run_to(name, a, b);
    digits_run_to(name, c, d);
}

/// A log is old enough, and its process gone.
pub open spec fn is_prunable(live: bool, modified: Option<u64>, now: u64) -> bool {
    !live && modified is Some && modified->0 + RETAIN_SECONDS <= now
}

/// Whether a log has outlived its process: the process is gone, and nothing
/// was written for as long as logs are kept. Whether it is gone counts first,
/// since a window can idle for days. Times are seconds on one clock.
pub fn prunable(live: bool, modified: Option<u64>, now: u64) -> (r: bool)
    ensures
        r == is_prunable(live, modified, now),
        r == (!live && modified is Some && modified->0 + RETAIN_SECONDS <= now),
{
    if live {
        return false;
    }
    match modified {
        None => false,
        Some(at) => now >= RETAIN_SECONDS && at <= now - RETAIN_SECONDS,
    }
}

} // verus!
