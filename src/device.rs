//! Reading the mixer's report of a device, such as `Volume: 0.50 [MUTED]`.
//!
//! A report is read piece by piece, the pieces separated by ASCII whitespace. A
//! number is a whole part and an optional fraction of which the first two digits
//! count, read as a level from 0 to 1 and kept in percent; signs, exponents and
//! other forms of number are not read.
use vstd::prelude::*;

use crate::audio::{CachedVolume, MicState, MAX_LEVEL};

verus! {

/// The mark of a muted device, `[MUTED]`.
pub open spec fn muted_mark() -> Seq<u8> {
    seq![91u8, 77, 85, 84, 69, 68, 93]
}

/// The report holds the muted mark anywhere.
pub open spec fn reports_muted(t: Seq<u8>) -> bool {
    exists|i: int| 0 <= i && i + 7 <= t.len() && #[trigger] t.subrange(i, i + 7) == muted_mark()
}

/// An ASCII decimal digit.
pub open spec fn is_digit(b: u8) -> bool {
    48 <= b <= 57
}

/// An ASCII whitespace byte: tab, line feed, vertical tab, form feed, carriage
/// return or space.
pub open spec fn is_space(b: u8) -> bool {
    b == 32 || (9 <= b <= 13)
}

/// The end of the piece of non-whitespace bytes that starts at `i`.
pub open spec fn token_end(t: Seq<u8>, i: int) -> int
    decreases t.len() - i,
{
    if i < 0 || i >= t.len() || is_space(t[i]) {
        i
    } else {
        token_end(t, i + 1)
    }
}

/// The end of the run of digits that starts at `i`.
pub open spec fn digits_end(t: Seq<u8>, i: int) -> int
    decreases t.len() - i,
{
    if i >= t.len() || i < 0 || !is_digit(t[i]) {
        i
    } else {
        digits_end(t, i + 1)
    }
}

/// The value of the digits from `i` up to `j`.
pub open spec fn digits_value(t: Seq<u8>, i: int, j: int) -> nat
    decreases j - i,
{
    if j <= i {
        0
    } else {
        digits_value(t, i, j - 1) * 10 + (t[j - 1] - 48) as nat
    }
}

/// The digit at `k` if there is one, else zero.
pub open spec fn digit_or_zero(t: Seq<u8>, k: int) -> nat {
    if 0 <= k < t.len() && is_digit(t[k]) {
        (t[k] - 48) as nat
    } else {
        0
    }
}

/// The hundredths of the fraction after a whole part that ends at `e`: the
/// first two digits after a point, a missing second digit counting as zero.
pub open spec fn hundredths(t: Seq<u8>, e: int) -> nat {
    if 0 <= e && e + 1 < t.len() && t[e] == 46u8 && is_digit(t[e + 1]) {
        digit_or_zero(t, e + 1) * 10 + digit_or_zero(t, e + 2)
    } else {
        0
    }
}

/// A level in percent, capped at the top.
pub open spec fn capped(p: nat) -> nat {
    if p > MAX_LEVEL {
        MAX_LEVEL as nat
    } else {
        p
    }
}

/// The level in percent that the piece from `i` up to `e` gives, if it reads as
/// a number: digits, or digits and a point with digits after it, with at least
/// one digit in all (`50`, `0.5`, `.5`, `1.`).
pub open spec fn piece_level(t: Seq<u8>, i: int, e: int) -> Option<nat> {
    let w = digits_end(t, i);
    if w == e && w > i {
        Some(capped(digits_value(t, i, w) * 100))
    } else if i <= w < e && t[w] == 46u8 && digits_end(t, w + 1) == e && (w > i || e > w + 1) {
        Some(capped(digits_value(t, i, w) * 100 + hundredths(t, w)))
    } else {
        None
    }
}

/// The piece from `i` up to `e` is the muted mark.
pub open spec fn piece_is_mark(t: Seq<u8>, i: int, e: int) -> bool {
    e - i == 7 && t.subrange(i, e) == muted_mark()
}

/// Walks the whitespace-separated pieces from `i` on, keeping the level of the
/// last piece that reads as a number, and noting whether a piece is the mark.
pub open spec fn scan_report(t: Seq<u8>, i: int, level: Option<nat>, muted: bool) -> (
    Option<nat>,
    bool,
)
    decreases t.len() - i,
    via scan_report_decreases
{
    if i < 0 || i >= t.len() {
        (level, muted)
    } else if is_space(t[i]) {
        scan_report(t, i + 1, level, muted)
    } else {
        let e = token_end(t, i);
        scan_report(
            t,
            e,
            if piece_level(t, i, e) is Some {
                piece_level(t, i, e)
            } else {
                level
            },
            muted || piece_is_mark(t, i, e),
        )
    }
}

/// What a volume report gives: the level of its last piece that reads as a
/// number, if any, and whether one of its pieces is the muted mark.
pub open spec fn reported_volume(t: Seq<u8>) -> (Option<nat>, bool) {
    scan_report(t, 0, None, false)
}

proof fn lemma_token_end(t: Seq<u8>, i: int)
    requires
        0 <= i <= t.len(),
    ensures
        i <= token_end(t, i) <= t.len(),
        token_end(t, i) == t.len() || is_space(t[token_end(t, i)]),
    decreases t.len() - i,
{
    if i < t.len() && !is_space(t[i]) {
        lemma_token_end(t, i + 1);
    }
}

#[via_fn]
proof fn scan_report_decreases(t: Seq<u8>, i: int, level: Option<nat>, muted: bool) {
    if 0 <= i < t.len() && !is_space(t[i]) {
        lemma_token_end(t, i + 1);
    }
}

fn mark_at(t: &[u8], i: usize) -> (r: bool)
    requires
        i + 7 <= t@.len(),
        t@.len() <= usize::MAX,
    ensures
        r == (t@.subrange(i as int, i + 7) == muted_mark()),
{
    let mark: [u8; 7] = [91, 77, 85, 84, 69, 68, 93];
    assert(mark@ =~= muted_mark());
    let mut j: usize = 0;
    while j < 7 && t[i + j] == mark[j]
        invariant
            mark@ == muted_mark(),
            i + 7 <= t@.len(),
            t@.len() <= usize::MAX,
            0 <= j <= 7,
            forall|m: int| 0 <= m < j ==> t@[i + m] == mark@[m],
        decreases 7 - j,
    {
        j = j + 1;
    }
    if j == 7 {
        assert(t@.subrange(i as int, i + 7) =~= muted_mark());
        true
    } else {
        assert(t@.subrange(i as int, i + 7)[j as int] != muted_mark()[j as int]);
        false
    }
}

fn has_muted_mark(t: &[u8]) -> (r: bool)
    ensures
        r == reports_muted(t@),
{
    if t.len() < 7 {
        return false;
    }
    let mut i: usize = 0;
    while i <= t.len() - 7
        invariant
            t@.len() >= 7,
            0 <= i <= t@.len() - 6,
            forall|k: int| 0 <= k < i ==> #[trigger] t@.subrange(k, k + 7) != muted_mark(),
        decreases t@.len() - i,
    {
        if mark_at(t, i) {
            return true;
        }
        i = i + 1;
    }
    assert forall|k: int| 0 <= k && k + 7 <= t@.len() implies #[trigger] t@.subrange(k, k + 7)
        != muted_mark() by {
        assert(k < i);
    }
    false
}

/// The microphone state a report gives: muted if it holds the mark anywhere, else hot.
pub fn mic_state_from_report(report: &[u8]) -> (r: MicState)
    ensures
        r == (if reports_muted(report@) {
            MicState::Muted
        } else {
            MicState::Hot
        }),
{
    if has_muted_mark(report) {
        MicState::Muted
    } else {
        MicState::Hot
    }
}

fn piece_end(t: &[u8], i: usize) -> (e: usize)
    requires
        i < t@.len(),
        !is_space(t@[i as int]),
    ensures
        e == token_end(t@, i as int),
        i < e <= t@.len(),
{
    let n = t.len();
    let mut e: usize = i + 1;
    while e < n && !(t[e] == 32 || (9 <= t[e] && t[e] <= 13))
        invariant
            i < e <= t@.len(),
            n == t@.len(),
            token_end(t@, i as int) == token_end(t@, e as int),
        decreases t@.len() - e,
    {
        e = e + 1;
    }
    e
}

fn digits_from(t: &[u8], i: usize, e: usize) -> (r: (usize, u32))
    requires
        i <= e <= t@.len(),
        e == t@.len() || !is_digit(t@[e as int]),
    ensures
        r.0 == digits_end(t@, i as int),
        i <= r.0 <= e,
        r.1 == (if digits_value(t@, i as int, r.0 as int) >= 2 {
            2
        } else {
            digits_value(t@, i as int, r.0 as int)
        }),
{
    let mut whole: u32 = 0;
    let mut j: usize = i;
    while j < e && 48 <= t[j] && t[j] <= 57
        invariant
            i <= j <= e,
            e <= t@.len(),
            e == t@.len() || !is_digit(t@[e as int]),
            digits_end(t@, i as int) == digits_end(t@, j as int),
            whole == (if digits_value(t@, i as int, j as int) >= 2 {
                2
            } else {
                digits_value(t@, i as int, j as int)
            }),
        decreases e - j,
    {
        let d = (t[j] - 48) as u32;
        assert(digits_value(t@, i as int, j + 1) == digits_value(t@, i as int, j as int) * 10
            + d);
        whole = if whole * 10 + d >= 2 {
            2
        } else {
            whole * 10 + d
        };
        j = j + 1;
    }
    (j, whole)
}

fn read_piece(t: &[u8], i: usize, e: usize) -> (r: Option<u32>)
    requires
        i < e <= t@.len(),
        e == token_end(t@, i as int),
    ensures
        match piece_level(t@, i as int, e as int) {
            None => r is None,
            Some(p) => r == Some(p as u32),
        },
{
    proof {
        lemma_token_end(t@, i as int);
    }
    let (w, whole) = digits_from(t, i, e);
    let mut frac: u32 = 0;
    if w == e {
        let p = whole * 100;
        return Some(if p > MAX_LEVEL { MAX_LEVEL } else { p });
    }
    if t[w] != 46 {
        return None;
    }
    let (f, _) = digits_from(t, w + 1, e);
    if f != e || !(w > i || e > w + 1) {
        return None;
    }
    if t.len() - w > 1 && 48 <= t[w + 1] && t[w + 1] <= 57 {
        frac = ((t[w + 1] - 48) as u32) * 10;
        if t.len() - w > 2 && 48 <= t[w + 2] && t[w + 2] <= 57 {
            frac = frac + (t[w + 2] - 48) as u32;
        }
    }
    assert(frac == hundredths(t@, w as int));
    let p = whole * 100 + frac;
    Some(if p > MAX_LEVEL { MAX_LEVEL } else { p })
}

/// The volume a report gives: the level of its last whitespace-separated piece
/// that reads as a number (percent, capped at the top), and muted when one of
/// its pieces is the mark. A report with no number gives no volume, since a
/// server cannot start without knowing the level.
pub fn volume_from_report(report: &[u8]) -> (r: Option<CachedVolume>)
    ensures
        r == (match reported_volume(report@).0 {
            None => None,
            Some(p) => Some(CachedVolume { level: p as u32, is_muted: reported_volume(report@).1 }),
        }),
{
    let t = report;
    let mut i: usize = 0;
    let mut level: Option<u32> = None;
    let mut muted = false;
    while i < t.len()
        invariant
            0 <= i <= t@.len(),
            reported_volume(t@) == scan_report(
                t@,
                i as int,
                match level {
                    None => None,
                    Some(l) => Some(l as nat),
                },
                muted,
            ),
            level matches Some(l) ==> l <= MAX_LEVEL,
        decreases t@.len() - i,
    {
        if t[i] == 32 || (9 <= t[i] && t[i] <= 13) {
            i = i + 1;
        } else {
            let e = piece_end(t, i);
            let read = read_piece(t, i, e);
            if read.is_some() {
                level = read;
            }
            if e - i == 7 && mark_at(t, i) {
                muted = true;
            }
            i = e;
        }
    }
    match level {
        Some(l) => Some(CachedVolume { level: l, is_muted: muted }),
        None => None,
    }
}

} // verus!
