//! The progress of one transfer, for whoever watches it: bytes counted,
//! rates in whole bytes a second, and the lines that show them. Watching
//! changes nothing of what is sent.

use vstd::prelude::*;
use vstd::string::*;
use crate::render::{bytes_text, decimal, format_bytes, push_decimal, round_half_even};

verus! {

/// The rates are shown anew after so many milliseconds.
pub const REFRESH_MILLIS: u64 = 500;

/// `bytes` in `millis` milliseconds as whole bytes a second: zero for no
/// time at all, and no more than a `u64` holds.
pub open spec fn rate(bytes: u64, millis: u64) -> u64 {
    if millis == 0 {
        0
    } else if bytes * 1000 / (millis as int) > u64::MAX {
        u64::MAX
    } else {
        (bytes * 1000 / (millis as int)) as u64
    }
}

/// `a + b`, and no more than a `u64` holds.
pub open spec fn capped_sum(a: u64, b: u64) -> u64 {
    if a + b > u64::MAX {
        u64::MAX
    } else {
        (a + b) as u64
    }
}

/// The rate since the rates were last shown, and the rate since the start.
#[derive(Clone, Copy, Debug, PartialEq, Eq, Structural)]
pub struct Rates {
    pub current: u64,
    pub average: u64,
}

/// What was written so far, and when the rates were last shown. Times are
/// milliseconds since the transfer began.
#[derive(Clone, Copy, Debug, PartialEq, Eq, Structural)]
pub struct TransferProgress {
    pub total: u64,
    pub bytes_written: u64,
    pub last_update_millis: u64,
    pub last_bytes_written: u64,
}

/// Whether the rates are to be shown anew at the time `now_millis`.
pub open spec fn refresh_due(progress: TransferProgress, now_millis: u64) -> bool {
    now_millis - progress.last_update_millis >= REFRESH_MILLIS
}

/// The rates at the time `now_millis`: the current one over what was written
/// since the rates were last shown, the average over all that was written.
pub open spec fn rates_at(progress: TransferProgress, now_millis: u64) -> Rates {
    Rates {
        current: if progress.bytes_written >= progress.last_bytes_written {
            rate(
                (progress.bytes_written - progress.last_bytes_written) as u64,
                (now_millis - progress.last_update_millis) as u64,
            )
        } else {
            0
        },
        average: rate(progress.bytes_written, now_millis),
    }
}

/// The line that shows the rates.
pub open spec fn rates_text(rates: Rates) -> Seq<char> {
    "当前: "@ + bytes_text(rates.current as nat) + "/s | 平均: "@ + bytes_text(
        rates.average as nat,
    ) + "/s"@
}

/// The line that closes a transfer of `millis` milliseconds: the average
/// rate, and the time in seconds to the nearest tenth.
pub open spec fn closing_text(average: u64, millis: u64) -> Seq<char> {
    let tenths = round_half_even(millis as nat, 100);
    "上传完成 | 平均速度: "@ + bytes_text(average as nat) + " | 总用时: "@ + decimal(tenths / 10)
        + "."@ + decimal(tenths % 10) + "s"@
}

/// `bytes` in `millis` milliseconds as whole bytes a second.
pub fn rate_of(bytes: u64, millis: u64) -> (r: u64)
    ensures
        r == rate(bytes, millis),
{
    if millis == 0 {
        return 0;
    }
    let scaled: u128 = bytes as u128 * 1000;
    let per_second: u128 = scaled / (millis as u128);
    if per_second > u64::MAX as u128 {
        u64::MAX
    } else {
        per_second as u64
    }
}

impl TransferProgress {
    /// Nothing written yet, of `total` bytes to come.
    pub fn new(total: u64) -> (r: TransferProgress)
        ensures
            r == (TransferProgress {
                total,
                bytes_written: 0,
                last_update_millis: 0,
                last_bytes_written: 0,
            }),
    {
        TransferProgress { total, bytes_written: 0, last_update_millis: 0, last_bytes_written: 0 }
    }

    /// Counts `written` more bytes and gives the new position. The count is
    /// all that changes.
    pub fn record(&mut self, written: usize) -> (position: u64)
        ensures
            position == capped_sum(old(self).bytes_written, written as u64),
            *final(self) == (TransferProgress { bytes_written: position, ..*old(self) }),
    {
        let room = u64::MAX - self.bytes_written;
        if written as u64 > room {
            self.bytes_written = u64::MAX;
        } else {
            self.bytes_written = self.bytes_written + written as u64;
        }
        self.bytes_written
    }

    /// The rates at the time `now_millis`, where at least `REFRESH_MILLIS`
    /// have passed since they were last shown; this moment is then the last.
    /// Before that, nothing, and nothing changes.
    pub fn update_speed(&mut self, now_millis: u64) -> (r: Option<Rates>)
        ensures
            r == if refresh_due(*old(self), now_millis) {
                Some(rates_at(*old(self), now_millis))
            } else {
                None
            },
            *final(self) == if refresh_due(*old(self), now_millis) {
                TransferProgress {
                    last_update_millis: now_millis,
                    last_bytes_written: old(self).bytes_written,
                    ..*old(self)
                }
            } else {
                *old(self)
            },
    {
        if now_millis < self.last_update_millis || now_millis - self.last_update_millis
            < REFRESH_MILLIS {
            return None;
        }
        let elapsed = now_millis - self.last_update_millis;
        let current = if self.bytes_written >= self.last_bytes_written {
            rate_of(self.bytes_written - self.last_bytes_written, elapsed)
        } else {
            0
        };
        let average = rate_of(self.bytes_written, now_millis);
        self.last_update_millis = now_millis;
        self.last_bytes_written = self.bytes_written;
        Some(Rates { current, average })
    }

    /// The average rate of the whole transfer, which took `millis`
    /// milliseconds.
    pub fn average(&self, millis: u64) -> (r: u64)
        ensures
            r == rate(self.bytes_written, millis),
    {
        rate_of(self.bytes_written, millis)
    }
}

/// The line that shows the rates.
pub fn rates_line(rates: Rates) -> (r: String)
    ensures
        r@ == rates_text(rates),
{
    let mut r = String::from_str("当前: ");
    r.append(format_bytes(rates.current).as_str());
    r.append("/s | 平均: ");
    r.append(format_bytes(rates.average).as_str());
    r.append("/s");
    r
}

/// The line that closes a transfer of `millis` milliseconds.
pub fn closing_line(average: u64, millis: u64) -> (r: String)
    ensures
        r@ == closing_text(average, millis),
{
    let whole = millis / 100;
    let rest = millis % 100;
    let tenths = if rest > 50 || (rest == 50 && whole % 2 == 1) {
        whole + 1
    } else {
        whole
    };
    let mut r = String::from_str("上传完成 | 平均速度: ");
    r.append(format_bytes(average).as_str());
    r.append(" | 总用时: ");
    push_decimal(&mut r, tenths / 10);
    r.append(".");
    push_decimal(&mut r, tenths % 10);
    r.append("s");
    r
}

} // verus!
