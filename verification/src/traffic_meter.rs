//! Counts the audio bytes that went over the wire.

use std::time::{Duration, Instant};
use vstd::prelude::*;
use vstd::string::StringExecFns;

verus! {

/// `std::time::Instant`, a point in time that is only ever measured from.
#[verifier::external_type_specification]
#[verifier::external_body]
pub struct ExInstant(Instant);

/// Calls `std::time::Instant::now`. Nothing is claimed of the time it returns.
#[verifier::external_body]
fn now() -> (r: Instant) {
    Instant::now()
}

/// Calls `std::time::Instant::elapsed`. Nothing is claimed of the time that has
/// passed.
#[verifier::external_body]
fn time_since(start: &Instant) -> (r: Duration) {
    start.elapsed()
}

/// Calls `std::time::Duration::as_secs`. A duration is opaque here and only ever
/// comes from the clock, so nothing is claimed of its whole seconds.
#[verifier::external_body]
fn whole_seconds(duration: &Duration) -> (r: u64) {
    duration.as_secs()
}

/// Whether `time` is what the clock showed when it was asked for the present time.
pub closed spec fn clock_showed(time: Instant) -> bool {
    call_ensures(now, (), time)
}

/// Whether `seconds` is an answer of the clock to the question how many whole
/// seconds have passed since `start`: it is what a duration holds that the clock
/// gives for the time since `start`.
pub closed spec fn clock_says(start: Instant, seconds: u64) -> bool {
    exists|passed: Duration|
        #[trigger] call_ensures(time_since, (&start,), passed) && call_ensures(
            whole_seconds,
            (&passed,),
            seconds,
        )
}

/// Counts bytes in both directions since it was made.
#[derive(Debug)]
pub struct TrafficMeter {
    upload: usize,
    download: usize,
    start: Instant,
}

/// `count` after `nb` more, as a counter that starts over at 0 once it has gone
/// past the largest `usize`.
pub open spec fn counter_after(count: nat, nb: nat) -> nat {
    if count + nb <= usize::MAX {
        count + nb
    } else {
        (count + nb) % (usize::MAX as nat + 1)
    }
}

/// The sum of `amounts`.
pub open spec fn sum_of(amounts: Seq<nat>) -> nat
    decreases amounts.len(),
{
    if amounts.len() == 0 {
        0
    } else {
        sum_of(amounts.drop_last()) + amounts.last()
    }
}

/// `count` after each of `amounts` was added in turn.
pub open spec fn counter_after_all(count: nat, amounts: Seq<nat>) -> nat
    decreases amounts.len(),
{
    if amounts.len() == 0 {
        count
    } else {
        counter_after(counter_after_all(count, amounts.drop_last()), amounts.last())
    }
}

/// One of the figures of a report: `bytes` times `multiplier`, and that per
/// `seconds` where it is a rate.
#[derive(Debug, Clone, Copy, PartialEq, Eq)]
pub struct DataAmount {
    pub bytes: usize,
    pub multiplier: u64,
    pub seconds: Option<u64>,
    /// What the figure is a number of.
    pub suffix: &'static str,
}

impl DataAmount {
    /// Whether this is the rate of `bytes` in `seconds`, in bits per second.
    pub open spec fn is_rate(&self, bytes: nat, seconds: u64) -> bool {
        &&& self.bytes == bytes
        &&& self.multiplier == 8
        &&& self.seconds == Some(seconds)
        &&& self.suffix@ == "bps"@
    }

    /// Whether this is the total of `bytes`.
    pub open spec fn is_total(&self, bytes: nat) -> bool {
        &&& self.bytes == bytes
        &&& self.multiplier == 1
        &&& self.seconds is None
        &&& self.suffix@ == "iB"@
    }
}

/// The figures that are shown to the user.
#[derive(Debug, Clone, Copy, PartialEq, Eq)]
pub struct TrafficReport {
    pub up_bps: DataAmount,
    pub up_amo: DataAmount,
    pub dw_bps: DataAmount,
    pub dw_amo: DataAmount,
}

impl TrafficReport {
    /// Whether these are the figures for `upload` and `download` bytes in
    /// `seconds`.
    pub open spec fn shows(&self, upload: nat, download: nat, seconds: u64) -> bool {
        &&& self.up_bps.is_rate(upload, seconds)
        &&& self.up_amo.is_total(upload)
        &&& self.dw_bps.is_rate(download, seconds)
        &&& self.dw_amo.is_total(download)
    }
}

impl TrafficMeter {
    /// The bytes counted as sent.
    pub closed spec fn upload(&self) -> nat {
        self.upload as nat
    }

    /// The bytes counted as received.
    pub closed spec fn download(&self) -> nat {
        self.download as nat
    }

    /// The time from which rates are measured.
    pub closed spec fn start(&self) -> Instant {
        self.start
    }

    /// Counting nothing leaves both counters as they are.
    pub proof fn law_counting_nothing(&self)
        ensures
            counter_after(self.upload(), 0) == self.upload(),
            counter_after(self.download(), 0) == self.download(),
    {
    }

    /// A meter that has counted nothing and measures from now.
    pub fn new() -> (r: Self)
        ensures
            r.upload() == 0,
            r.download() == 0,
            clock_showed(r.start()),
    {
        TrafficMeter { upload: 0, download: 0, start: now() }
    }

    /// Counts `nb` bytes as sent.
    pub fn sent_bytes(&mut self, nb: usize)
        ensures
            final(self).upload() == counter_after(old(self).upload(), nb as nat),
            final(self).download() == old(self).download(),
            final(self).start() == old(self).start(),
            old(self).upload() + nb <= usize::MAX ==> final(self).upload() == old(self).upload()
                + nb,
            old(self).upload() + nb > usize::MAX ==> final(self).upload() == old(self).upload()
                + nb - usize::MAX - 1,
    {
        proof {
            law_counter_starts_over(self.upload as nat, nb as nat);
        }
        self.upload = self.upload.wrapping_add(nb);
    }

    /// Counts `nb` bytes as received.
    pub fn received_bytes(&mut self, nb: usize)
        ensures
            final(self).upload() == old(self).upload(),
            final(self).download() == counter_after(old(self).download(), nb as nat),
            final(self).start() == old(self).start(),
            old(self).download() + nb <= usize::MAX ==> final(self).download() == old(
                self,
            ).download() + nb,
            old(self).download() + nb > usize::MAX ==> final(self).download() == old(
                self,
            ).download() + nb - usize::MAX - 1,
    {
        proof {
            law_counter_starts_over(self.download as nat, nb as nat);
        }
        self.download = self.download.wrapping_add(nb);
    }

    /// The figures to show `seconds` after the meter was made.
    pub fn report_after(&self, seconds: u64) -> (r: TrafficReport)
        ensures
            r.shows(self.upload(), self.download(), seconds),
            r.up_bps.seconds == Some(seconds),
            r.dw_bps.seconds == Some(seconds),
            r.up_bps.bytes == self.upload(),
            r.up_bps.multiplier == 8,
            r.up_bps.suffix@ == "bps"@,
            r.up_amo.bytes == self.upload(),
            r.up_amo.multiplier == 1,
            r.up_amo.seconds is None,
            r.up_amo.suffix@ == "iB"@,
            r.dw_bps.bytes == self.download(),
            r.dw_bps.multiplier == 8,
            r.dw_bps.suffix@ == "bps"@,
            r.dw_amo.bytes == self.download(),
            r.dw_amo.multiplier == 1,
            r.dw_amo.seconds is None,
            r.dw_amo.suffix@ == "iB"@,
    {
        TrafficReport {
            up_bps: DataAmount {
                bytes: self.upload,
                multiplier: 8,
                seconds: Some(seconds),
                suffix: "bps",
            },
            up_amo: DataAmount { bytes: self.upload, multiplier: 1, seconds: None, suffix: "iB" },
            dw_bps: DataAmount {
                bytes: self.download,
                multiplier: 8,
                seconds: Some(seconds),
                suffix: "bps",
            },
            dw_amo: DataAmount { bytes: self.download, multiplier: 1, seconds: None, suffix: "iB" },
        }
    }

    /// The figures to show now. How many seconds have passed is up to the clock,
    /// which is asked about the time since this meter was made.
    pub fn report(&self) -> (r: TrafficReport)
        ensures
            exists|seconds: u64| #[trigger] r.shows(self.upload(), self.download(), seconds),
            exists|seconds: u64|
                clock_says(self.start(), seconds) && #[trigger] r.shows(
                    self.upload(),
                    self.download(),
                    seconds,
                ),
            r.up_bps.seconds matches Some(seconds) && clock_says(self.start(), seconds),
            r.dw_bps.seconds == r.up_bps.seconds,
            r.up_bps.bytes == self.upload(),
            r.up_bps.multiplier == 8,
            r.up_bps.suffix@ == "bps"@,
            r.up_amo.bytes == self.upload(),
            r.up_amo.multiplier == 1,
            r.up_amo.seconds is None,
            r.up_amo.suffix@ == "iB"@,
            r.dw_bps.bytes == self.download(),
            r.dw_bps.multiplier == 8,
            r.dw_bps.suffix@ == "bps"@,
            r.dw_amo.bytes == self.download(),
            r.dw_amo.multiplier == 1,
            r.dw_amo.seconds is None,
            r.dw_amo.suffix@ == "iB"@,
    {
        self.report_after(whole_seconds(&time_since(&self.start)))
    }
}

/// The scale of the figures from `whole` on, up to the next one: what they are
/// divided by, and the letter for it.
pub open spec fn scale_of(whole: u64) -> (u64, Seq<char>) {
    if whole < 0x400 {
        (0, ""@)
    } else if whole < 0x10_0000 {
        (0x400, "K"@)
    } else if whole < 0x100_0000_0000 {
        (0x10_0000, "M"@)
    } else if whole < 0x1000_0000_0000_0000 {
        (0x100_0000_0000, "G"@)
    } else {
        (0x1000_0000_0000_0000, "T"@)
    }
}

/// Picks the scale for a figure whose whole part is `whole`: what to divide it
/// by, and the letter that says so. Figures under 1024 have the divisor 0.
pub fn make_human_friendly(whole: u64) -> (r: (u64, &'static str))
    ensures
        (r.0, r.1@) == scale_of(whole),
        whole < 1024 ==> r.0 == 0 && r.1@ == ""@,
        1024 <= whole < 1_048_576 ==> r.0 == 1024 && r.1@ == "K"@,
        1_048_576 <= whole < 1_099_511_627_776 ==> r.0 == 1_048_576 && r.1@ == "M"@,
        1_099_511_627_776 <= whole < 1_152_921_504_606_846_976 ==> r.0 == 1_099_511_627_776
            && r.1@ == "G"@,
        1_152_921_504_606_846_976 <= whole ==> r.0 == 1_152_921_504_606_846_976 && r.1@ == "T"@,
{
    let table: [(u64, &'static str); 5] = [
        (0, ""),
        (0x400, "K"),
        (0x10_0000, "M"),
        (0x100_0000_0000, "G"),
        (0x1000_0000_0000_0000, "T"),
    ];
    let mut i: usize = 4;
    while whole < table[i].0
        invariant
            i < 5,
            table@[0] == (0u64, ""),
            table@[1] == (0x400u64, "K"),
            table@[2] == (0x10_0000u64, "M"),
            table@[3] == (0x100_0000_0000u64, "G"),
            table@[4] == (0x1000_0000_0000_0000u64, "T"),
            forall|j: int| i < j < 5 ==> whole < (#[trigger] table@[j]).0,
        decreases i,
    {
        i = i - 1;
    }
    table[i]
}

/// Puts a figure together: the number, a space, the letter of its scale and
/// what it is a number of.
pub fn amount_text(number: &str, unit: &str, suffix: &str) -> (r: String)
    ensures
        r@ == number@ + " "@ + unit@ + suffix@,
{
    let mut text: String = number.to_owned();
    text.append(" ");
    text.append(unit);
    text.append(suffix);
    text
}

/// Puts the line of statistics together from the texts of its four figures.
pub fn report_text(up_bps: &str, up_amo: &str, dw_bps: &str, dw_amo: &str) -> (r: String)
    ensures
        r@ == "up: "@ + up_bps@ + " (total: "@ + up_amo@ + ") / down: "@ + dw_bps@ + " (total: "@
            + dw_amo@ + ")"@,
{
    let mut text: String = "up: ".to_owned();
    text.append(up_bps);
    text.append(" (total: ");
    text.append(up_amo);
    text.append(") / down: ");
    text.append(dw_bps);
    text.append(" (total: ");
    text.append(dw_amo);
    text.append(")");
    text
}

proof fn lemma_counter_starts_over(count: nat, nb: nat)
    requires
        count <= usize::MAX,
        nb <= usize::MAX,
        count + nb > usize::MAX,
    ensures
        counter_after(count, nb) == count + nb - (usize::MAX + 1),
{
    let m = usize::MAX as int + 1;
    vstd::arithmetic::div_mod::lemma_fundamental_div_mod_converse(
        (count + nb) as int,
        m,
        1,
        count + nb - m,
    );
}

/// A counter adds up what is counted, and goes on from 0 after the largest
/// `usize`.
pub proof fn law_counter_starts_over(count: nat, nb: nat)
    requires
        count <= usize::MAX,
        nb <= usize::MAX,
    ensures
        count + nb <= usize::MAX ==> counter_after(count, nb) == count + nb,
        count + nb > usize::MAX ==> counter_after(count, nb) == count + nb - usize::MAX - 1,
{
    if count + nb > usize::MAX {
        lemma_counter_starts_over(count, nb);
    }
}

/// A counter holds the sum of what was added to it as long as the sum fits; past
/// that it starts over.
pub proof fn law_counter_holds_the_sum(count: nat, amounts: Seq<nat>)
    requires
        count <= usize::MAX,
    ensures
        counter_after_all(count, amounts) == (count + sum_of(amounts)) % (usize::MAX as nat + 1),
        count + sum_of(amounts) <= usize::MAX ==> counter_after_all(count, amounts) == count
            + sum_of(amounts),
    decreases amounts.len(),
{
    let m = usize::MAX as nat + 1;
    if amounts.len() > 0 {
        let rest = amounts.drop_last();
        law_counter_holds_the_sum(count, rest);
        let before = counter_after_all(count, rest);
        if before + amounts.last() < m {
            vstd::arithmetic::div_mod::lemma_small_mod(before + amounts.last(), m);
        }
        vstd::arithmetic::div_mod::lemma_add_mod_noop(
            (count + sum_of(rest)) as int,
            amounts.last() as int,
            m as int,
        );
        vstd::arithmetic::div_mod::lemma_add_mod_noop(
            ((count + sum_of(rest)) % m) as int,
            amounts.last() as int,
            m as int,
        );
        vstd::arithmetic::div_mod::lemma_mod_twice((count + sum_of(rest)) as int, m as int);
    }
    if count + sum_of(amounts) < m {
        vstd::arithmetic::div_mod::lemma_small_mod(count + sum_of(amounts), m);
    }
}

/// The sum of `f` over `items`.
pub open spec fn sum_by<A>(items: Seq<A>, f: spec_fn(A) -> nat) -> nat
    decreases items.len(),
{
    if items.len() == 0 {
        0
    } else {
        sum_by(items.drop_last(), f) + f(items.last())
    }
}

pub(crate) proof fn lemma_sum_of_map<A>(items: Seq<A>, f: spec_fn(A) -> nat)
    ensures
        sum_of(items.map_values(f)) == sum_by(items, f),
    decreases items.len(),
{
    if items.len() > 0 {
        lemma_sum_of_map(items.drop_last(), f);
        assert(items.map_values(f).drop_last() =~= items.drop_last().map_values(f));
    }
}

proof fn lemma_sum_without<A>(items: Seq<A>, i: int, f: spec_fn(A) -> nat)
    requires
        0 <= i < items.len(),
    ensures
        sum_by(items, f) == sum_by(items.remove(i), f) + f(items[i]),
    decreases items.len(),
{
    if i < items.len() - 1 {
        lemma_sum_without(items.drop_last(), i, f);
        assert(items.remove(i).drop_last() =~= items.drop_last().remove(i));
    } else {
        assert(items.remove(i) =~= items.drop_last());
    }
}

pub(crate) proof fn lemma_sum_in_any_order<A>(a: Seq<A>, b: Seq<A>, f: spec_fn(A) -> nat)
    requires
        a.to_multiset() == b.to_multiset(),
    ensures
        sum_by(a, f) == sum_by(b, f),
    decreases b.len(),
{
    broadcast use vstd::seq_lib::group_to_multiset_ensures;

    assert(a.len() == a.to_multiset().len() && b.len() == b.to_multiset().len());
    if b.len() > 0 {
        let j = b.len() - 1;
        assert(b.contains(b[j]));
        assert(a.to_multiset().count(b[j]) > 0);
        assert(a.contains(b[j]));
        let i = choose|i: int| 0 <= i < a.len() && a[i] == b[j];
        lemma_sum_without(a, i, f);
        lemma_sum_without(b, j, f);
        assert(a.remove(i).to_multiset() =~= b.remove(j).to_multiset());
        lemma_sum_in_any_order(a.remove(i), b.remove(j), f);
    }
}

/// Amounts can be counted in any order.
pub proof fn law_counting_order_does_not_matter(count: nat, a: Seq<nat>, b: Seq<nat>)
    requires
        count <= usize::MAX,
        a.to_multiset() == b.to_multiset(),
    ensures
        counter_after_all(count, a) == counter_after_all(count, b),
{
    let f = |amount: nat| amount;
    law_counter_holds_the_sum(count, a);
    law_counter_holds_the_sum(count, b);
    lemma_sum_of_map(a, f);
    lemma_sum_of_map(b, f);
    assert(a.map_values(f) =~= a && b.map_values(f) =~= b);
    lemma_sum_in_any_order(a, b, f);
}

/// The scale never overshoots: the divisor is at most the figure, and a larger
/// figure never gets a smaller divisor.
pub proof fn law_scale_fits(a: u64, b: u64)
    requires
        a <= b,
    ensures
        scale_of(a).0 <= a,
        scale_of(a).0 <= scale_of(b).0,
{
}

/// Of the five scales, none, 2^10, 2^20, 2^40 and 2^60, a figure gets the
/// largest that is not above it: `divisor` is any of them.
pub proof fn law_scale_is_the_largest_that_fits(whole: u64, divisor: u64)
    requires
        divisor == 0 || divisor == 1024 || divisor == 1024 * 1024 || divisor == 1024 * 1024 * 1024
            * 1024 || divisor == 1024 * 1024 * 1024 * 1024 * 1024 * 1024,
    ensures
        scale_of(whole).0 <= whole,
        divisor <= whole ==> divisor <= scale_of(whole).0,
        scale_of(whole).0 == 0 || scale_of(whole).0 == 1024 || scale_of(whole).0 == 1024 * 1024
            || scale_of(whole).0 == 1024 * 1024 * 1024 * 1024 || scale_of(whole).0 == 1024 * 1024
            * 1024 * 1024 * 1024 * 1024,
{
}

/// Each scale has its letter, and the letters differ.
pub proof fn law_scales_have_their_letters(whole: u64)
    ensures
        scale_of(whole).1 == ""@ <==> scale_of(whole).0 == 0,
        scale_of(whole).1 == "K"@ <==> scale_of(whole).0 == 1024,
        scale_of(whole).1 == "M"@ <==> scale_of(whole).0 == 1024 * 1024,
        scale_of(whole).1 == "G"@ <==> scale_of(whole).0 == 1024 * 1024 * 1024 * 1024,
        scale_of(whole).1 == "T"@ <==> scale_of(whole).0 == 1024 * 1024 * 1024 * 1024 * 1024
            * 1024,
{
    reveal_strlit("");
    reveal_strlit("K");
    reveal_strlit("M");
    reveal_strlit("G");
    reveal_strlit("T");
    let letter = scale_of(whole).1;
    assert(""@.len() == 0 && "K"@.len() == 1);
    assert("K"@[0] == 'K' && "M"@[0] == 'M' && "G"@[0] == 'G' && "T"@[0] == 'T');
    assert(letter.len() == 0 <==> letter == ""@);
    assert(letter[0] == 'K' && letter.len() == 1 <==> letter == "K"@);
}

/// A report that shows `upload` and `download` bytes in `seconds` shows each of
/// them once as bits in those very seconds, and once as it is.
pub proof fn law_report_shows_the_counters(
    r: TrafficReport,
    upload: nat,
    download: nat,
    seconds: u64,
)
    ensures
        r.shows(upload, download, seconds) <==> {
            &&& r.up_bps.bytes == upload && r.up_amo.bytes == upload
            &&& r.dw_bps.bytes == download && r.dw_amo.bytes == download
            &&& r.up_bps.seconds == Some(seconds) && r.dw_bps.seconds == Some(seconds)
            &&& r.up_amo.seconds is None && r.dw_amo.seconds is None
            &&& r.up_bps.multiplier == 8 && r.dw_bps.multiplier == 8
            &&& r.up_amo.multiplier == 1 && r.dw_amo.multiplier == 1
            &&& r.up_bps.suffix@ == "bps"@ && r.dw_bps.suffix@ == "bps"@
            &&& r.up_amo.suffix@ == "iB"@ && r.dw_amo.suffix@ == "iB"@
        },
{
}

/// What the clock says of `start` it has measured from `start`: the seconds are
/// those of a duration that it gave for the time since then.
proof fn law_clock_measures_from_the_start(start: Instant, seconds: u64)
    requires
        clock_says(start, seconds),
    ensures
        exists|passed: Duration| #[trigger]
            call_ensures(time_since, (&start,), passed) && call_ensures(
                whole_seconds,
                (&passed,),
                seconds,
            ),
{
}

}
