//! Format negotiation: which formats and widths a device is offered, how a request
//! is snapped onto them, and the objects that announce them.
use vstd::prelude::*;

use crate::abi;
use crate::arith::{imax, imin};
use crate::backend::{copied, DspCaps, StreamCaps, StreamConfiguration};
use crate::channels::{default_layout, layout_positions};
use crate::pod::{PodObject, PodObjectView, PodProperty, PodValue, PodValueView};

verus! {

/// The device format bit and the bytes per sample of a graph format.
pub open spec fn format_info(format: u32) -> Option<(u32, u32)> {
    if format == abi::AUDIO_FORMAT_S32_LE {
        Some((abi::AFMT_S32_LE, 4))
    } else if format == abi::AUDIO_FORMAT_S32_BE {
        Some((abi::AFMT_S32_BE, 4))
    } else if format == abi::AUDIO_FORMAT_F32_LE {
        Some((abi::AFMT_F32_LE, 4))
    } else if format == abi::AUDIO_FORMAT_F32_BE {
        Some((abi::AFMT_F32_BE, 4))
    } else if format == abi::AUDIO_FORMAT_S24_LE {
        Some((abi::AFMT_S24_LE, 3))
    } else if format == abi::AUDIO_FORMAT_S24_BE {
        Some((abi::AFMT_S24_BE, 3))
    } else if format == abi::AUDIO_FORMAT_S16_LE {
        Some((abi::AFMT_S16_LE, 2))
    } else if format == abi::AUDIO_FORMAT_S16_BE {
        Some((abi::AFMT_S16_BE, 2))
    } else if format == abi::AUDIO_FORMAT_U8 {
        Some((abi::AFMT_U8, 1))
    } else {
        None
    }
}

/// The formats that the library handles, best first: wide integers, floats,
/// packed 24 bits, 16 bits, then bytes.
pub open spec fn known_formats() -> Seq<u32> {
    seq![
        abi::AUDIO_FORMAT_S32_LE,
        abi::AUDIO_FORMAT_S32_BE,
        abi::AUDIO_FORMAT_F32_LE,
        abi::AUDIO_FORMAT_F32_BE,
        abi::AUDIO_FORMAT_S24_LE,
        abi::AUDIO_FORMAT_S24_BE,
        abi::AUDIO_FORMAT_S16_LE,
        abi::AUDIO_FORMAT_S16_BE,
        abi::AUDIO_FORMAT_U8,
    ]
}

/// The device format bit and the bytes per sample of a graph format; `None` for a
/// format that the library does not handle.
pub fn oss_format_info(spa_format: u32) -> (info: Option<(u32, u32)>)
    ensures
        info == format_info(spa_format),
{
    match spa_format {
        abi::AUDIO_FORMAT_S32_LE => Some((abi::AFMT_S32_LE, 4)),
        abi::AUDIO_FORMAT_S32_BE => Some((abi::AFMT_S32_BE, 4)),
        abi::AUDIO_FORMAT_F32_LE => Some((abi::AFMT_F32_LE, 4)),
        abi::AUDIO_FORMAT_F32_BE => Some((abi::AFMT_F32_BE, 4)),
        abi::AUDIO_FORMAT_S24_LE => Some((abi::AFMT_S24_LE, 3)),
        abi::AUDIO_FORMAT_S24_BE => Some((abi::AFMT_S24_BE, 3)),
        abi::AUDIO_FORMAT_S16_LE => Some((abi::AFMT_S16_LE, 2)),
        abi::AUDIO_FORMAT_S16_BE => Some((abi::AFMT_S16_BE, 2)),
        abi::AUDIO_FORMAT_U8 => Some((abi::AFMT_U8, 1)),
        _ => None,
    }
}

/// The known formats are exactly those with a device format, and every sample has
/// one to four bytes.
pub proof fn known_formats_are_mapped(format: u32)
    ensures
        known_formats().contains(format) <==> format_info(format) is Some,
        format_info(format) matches Some((_, bytes)) ==> 1 <= bytes <= 4,
{
    let k = known_formats();
    assert(k[0] == abi::AUDIO_FORMAT_S32_LE && k[1] == abi::AUDIO_FORMAT_S32_BE);
    assert(k[2] == abi::AUDIO_FORMAT_F32_LE && k[3] == abi::AUDIO_FORMAT_F32_BE);
    assert(k[4] == abi::AUDIO_FORMAT_S24_LE && k[5] == abi::AUDIO_FORMAT_S24_BE);
    assert(k[6] == abi::AUDIO_FORMAT_S16_LE && k[7] == abi::AUDIO_FORMAT_S16_BE);
    assert(k[8] == abi::AUDIO_FORMAT_U8);
}

/// Whether a format is among the native ones of a mask.
pub open spec fn is_native(mask: u32, format: u32) -> bool {
    format_info(format) matches Some((bit, _)) && mask & bit != 0
}

/// The native formats of a mask, best first.
pub open spec fn native_formats(mask: u32) -> Seq<u32> {
    known_formats().filter(|format: u32| is_native(mask, format))
}

/// The formats that a device is offered: its native ones; where it has none, all
/// of them if the kernel converts, and nothing if it does not.
pub open spec fn offered(mask: u32, convertless: bool) -> Seq<u32> {
    if native_formats(mask).len() > 0 {
        native_formats(mask)
    } else if convertless {
        seq![]
    } else {
        known_formats()
    }
}

/// The formats that a device is offered, best first.
pub fn offered_formats(caps: &DspCaps) -> (formats: Vec<u32>)
    ensures
        formats@ == offered(caps.formats, caps.convertless),
{
    let all: Vec<u32> = crate::backend::all_formats();
    let ghost keep = |format: u32| is_native(caps.formats, format);
    let mut native: Vec<u32> = Vec::new();
    let mut i: usize = 0;
    assert(all@.take(0).filter(keep) =~= seq![]) by {
        reveal(Seq::filter);
    }
    while i < all.len()
        invariant
            i <= all.len(),
            all@ == known_formats(),
            keep == (|format: u32| is_native(caps.formats, format)),
            native@ == all@.take(i as int).filter(keep),
        decreases all.len() - i,
    {
        let format: u32 = all[i];
        let is_native = match oss_format_info(format) {
            Some((bit, _)) => caps.formats & bit != 0,
            None => false,
        };
        if is_native {
            native.push(format);
        }
        i = i + 1;
        proof {
            reveal(Seq::filter);
            assert(all@.take(i as int).drop_last() =~= all@.take(i - 1));
        }
    }
    assert(all@.take(i as int) =~= all@);
    if native.len() > 0 {
        native
    } else if caps.convertless {
        Vec::new()
    } else {
        all
    }
}

/// A convertless device is offered native formats only.
pub proof fn convertless_offers_are_native(mask: u32, format: u32)
    ensures
        offered(mask, true).contains(format) ==> is_native(mask, format),
{
    let keep = |format: u32| is_native(mask, format);
    if offered(mask, true).contains(format) {
        let i = offered(mask, true).index_of(format);
        known_formats().lemma_filter_pred(keep, i);
    }
}

/// Whether a list holds a value.
pub fn contains(list: &Vec<u32>, value: u32) -> (found: bool)
    ensures
        found == list@.contains(value),
{
    let mut i: usize = 0;
    while i < list.len()
        invariant
            i <= list.len(),
            forall|j: int| 0 <= j < i ==> list@[j] != value,
        decreases list.len() - i,
    {
        if list[i] == value {
            return true;
        }
        i = i + 1;
    }
    false
}

/// How far two rates lie apart.
pub open spec fn distance(a: u32, b: u32) -> int {
    imax(a - b, b - a)
}

/// How far two rates lie apart.
pub fn rate_distance(a: u32, b: u32) -> (d: u32)
    ensures
        d == distance(a, b),
{
    if a >= b {
        a - b
    } else {
        b - a
    }
}

/// The rate that lies nearest to `target`, the first one of several.
pub open spec fn nearest(rates: Seq<u32>, target: u32) -> u32
    decreases rates.len(),
{
    if rates.len() <= 1 {
        rates[0]
    } else {
        let best = nearest(rates.drop_last(), target);
        if distance(rates.last(), target) < distance(best, target) {
            rates.last()
        } else {
            best
        }
    }
}

/// The nearest rate is one of the rates, and none lies nearer.
pub proof fn nearest_is_nearest(rates: Seq<u32>, target: u32)
    requires
        rates.len() > 0,
    ensures
        rates.contains(nearest(rates, target)),
        forall|i: int|
            0 <= i < rates.len() ==> distance(nearest(rates, target), target) <= distance(
                #[trigger] rates[i],
                target,
            ),
    decreases rates.len(),
{
    if rates.len() > 1 {
        nearest_is_nearest(rates.drop_last(), target);
        let best = nearest(rates.drop_last(), target);
        let j = rates.drop_last().index_of(best);
        assert(rates.drop_last()[j] == rates[j]);
        assert(rates[rates.len() - 1] == rates.last());
        assert forall|i: int| 0 <= i < rates.len() implies distance(
            nearest(rates, target),
            target,
        ) <= distance(#[trigger] rates[i], target) by {
            if i < rates.len() - 1 {
                assert(rates.drop_last()[i] == rates[i]);
            }
        }
    } else {
        assert(rates[0] == nearest(rates, target));
    }
}

/// The rate that lies nearest to `target`, the first one of several.
pub fn nearest_rate(rates: &Vec<u32>, target: u32) -> (rate: u32)
    requires
        rates@.len() > 0,
    ensures
        rate == nearest(rates@, target),
{
    let mut best: u32 = rates[0];
    let mut i: usize = 1;
    while i < rates.len()
        invariant
            1 <= i <= rates.len(),
            best == nearest(rates@.take(i as int), target),
        decreases rates.len() - i,
    {
        if rate_distance(rates[i], target) < rate_distance(best, target) {
            best = rates[i];
        }
        i = i + 1;
        assert(rates@.take(i as int).drop_last() =~= rates@.take(i - 1));
    }
    assert(rates@.take(i as int) =~= rates@);
    best
}

/// `x` moved into the range from `min` to `max`.
pub open spec fn clamped(x: u32, min: u32, max: u32) -> u32 {
    imax(min as int, imin(x as int, max as int)) as u32
}

fn clamp_to(x: u32, min: u32, max: u32) -> (r: u32)
    requires
        min <= max,
    ensures
        r == clamped(x, min, max),
{
    if x < min {
        min
    } else if x > max {
        max
    } else {
        x
    }
}

/// A raw audio format as it is requested, with a fixed number of position slots.
#[derive(Debug, Clone, PartialEq, Eq)]
pub struct RawFormat {
    pub format: u32,
    pub flags: u32,
    pub rate: u32,
    pub channels: u32,
    pub position: Vec<u32>,
}

/// What a [`RawFormat`] holds.
pub struct RawFormatView {
    pub format: u32,
    pub flags: u32,
    pub rate: u32,
    pub channels: u32,
    pub position: Seq<u32>,
}

impl View for RawFormat {
    type V = RawFormatView;

    open spec fn view(&self) -> RawFormatView {
        RawFormatView {
            format: self.format,
            flags: self.flags,
            rate: self.rate,
            channels: self.channels,
            position: self.position@,
        }
    }
}

impl RawFormat {
    /// There is a slot for every channel that a format can have.
    pub open spec fn wf(&self) -> bool {
        self.position@.len() == abi::AUDIO_MAX_CHANNELS
    }
}

/// The position slots with the first ones replaced by the layout of a width.
pub open spec fn relaid(position: Seq<u32>, channels: u32) -> Seq<u32> {
    Seq::new(
        position.len(),
        |i: int|
            if i < channels {
                layout_positions(channels)[i]
            } else {
                position[i]
            },
    )
}

/// A request snapped onto a configuration: an offered format, a width in range,
/// with the positions of that width if it changed, and a rate that can be run. A
/// configuration without formats leaves the format as it is.
pub open spec fn snapped(configuration: StreamConfiguration, raw: RawFormatView) -> RawFormatView {
    let formats = configuration.formats@;
    let channels = imin(
        clamped(raw.channels, configuration.min_channels, configuration.max_channels) as int,
        abi::AUDIO_MAX_CHANNELS as int,
    ) as u32;
    RawFormatView {
        format: if !formats.contains(raw.format) && formats.len() > 0 {
            formats[0]
        } else {
            raw.format
        },
        flags: raw.flags,
        rate: if configuration.rates@.len() > 0 {
            nearest(configuration.rates@, raw.rate)
        } else {
            clamped(raw.rate, configuration.min_rate, configuration.max_rate)
        },
        channels,
        position: if channels != raw.channels {
            relaid(raw.position, channels)
        } else {
            raw.position
        },
    }
}

/// Snaps a request onto the preferred configuration. Returns whether anything
/// changed, so that the caller can tell the peer to read the format back.
pub fn snap_raw_to_caps(caps: &StreamCaps, raw: &mut RawFormat) -> (changed: bool)
    requires
        caps.wf(),
        old(raw).wf(),
    ensures
        final(raw).wf(),
        final(raw)@ == if caps.preferred < caps.configurations@.len() {
            snapped(caps.configurations@[caps.preferred as int], old(raw)@)
        } else {
            old(raw)@
        },
        changed == (final(raw).format != old(raw).format || final(raw).channels
            != old(raw).channels || final(raw).rate != old(raw).rate),
{
    let configuration = match caps.preferred_configuration() {
        Some(configuration) => configuration,
        None => return false,
    };
    let mut changed = false;
    if !contains(&configuration.formats, raw.format) && configuration.formats.len() > 0 {
        raw.format = configuration.formats[0];
        changed = true;
        assert(configuration.formats@.contains(configuration.formats@[0]));
    }
    let channels: u32 = clamp_to(
        raw.channels,
        configuration.min_channels,
        configuration.max_channels,
    ).min(abi::AUDIO_MAX_CHANNELS);
    if channels != raw.channels {
        raw.channels = channels;
        let layout: Vec<u32> = default_layout(channels);
        let ghost before = raw.position@;
        let mut i: usize = 0;
        while i < channels as usize
            invariant
                i <= channels <= abi::AUDIO_MAX_CHANNELS,
                raw.position@.len() == before.len() == abi::AUDIO_MAX_CHANNELS,
                layout@ == layout_positions(channels),
                layout@.len() == channels,
                raw.channels == channels,
                raw.format == snapped(*configuration, old(raw)@).format,
                raw.flags == old(raw).flags,
                raw.rate == old(raw).rate,
                forall|j: int|
                    0 <= j < before.len() ==> #[trigger] raw.position@[j] == if j < i {
                        layout@[j]
                    } else {
                        before[j]
                    },
            decreases channels - i,
        {
            raw.position.set(i, layout[i]);
            i = i + 1;
        }
        assert(raw.position@ =~= relaid(before, channels));
        changed = true;
    }
    let rate: u32 = if configuration.rates.len() > 0 {
        nearest_rate(&configuration.rates, raw.rate)
    } else {
        clamp_to(raw.rate, configuration.min_rate, configuration.max_rate)
    };
    if rate != raw.rate {
        raw.rate = rate;
        changed = true;
    }
    changed
}

/// A snapped request is one that the configuration runs, as long as it has a
/// format and its narrowest width has position slots.
pub proof fn snapped_request_runs(configuration: StreamConfiguration, raw: RawFormatView)
    requires
        configuration.wf(),
        configuration.formats@.len() > 0,
        configuration.min_channels <= abi::AUDIO_MAX_CHANNELS,
    ensures
        ({
            let after = snapped(configuration, raw);
            configuration.runs(after.format, after.channels, after.rate)
        }),
{
    let after = snapped(configuration, raw);
    assert(configuration.formats@.contains(configuration.formats@[0]));
    if configuration.rates@.len() > 0 {
        nearest_is_nearest(configuration.rates@, raw.rate);
        let i = configuration.rates@.index_of(after.rate);
        assert(distance(configuration.rates@[i], after.rate) == 0);
    }
}

/// Snapping a snapped request changes nothing.
pub proof fn snapping_is_idempotent(configuration: StreamConfiguration, raw: RawFormatView)
    requires
        configuration.wf(),
        configuration.min_channels <= abi::AUDIO_MAX_CHANNELS,
    ensures
        snapped(configuration, snapped(configuration, raw)) == snapped(configuration, raw),
{
    let after = snapped(configuration, raw);
    if configuration.formats@.len() > 0 {
        assert(configuration.formats@.contains(configuration.formats@[0]));
    }
    if configuration.rates@.len() > 0 {
        nearest_is_nearest(configuration.rates@, raw.rate);
        nearest_is_nearest(configuration.rates@, after.rate);
        let i = configuration.rates@.index_of(after.rate);
        assert(distance(configuration.rates@[i], after.rate) == 0);
    }
}

/// The widths with a standard layout, in the order they are offered.
pub open spec fn standard_widths() -> Seq<u32> {
    seq![2, 4, 6, 8, 1]
}

/// The widths of a range, in the order they are offered: the standard ones, and
/// the widest one where it is none of them. Stereo, where it is in range, stands
/// first, as the host's default, and last, as its fallback.
pub open spec fn offered_widths(min_channels: u32, max_channels: u32) -> Seq<u32> {
    let standard = standard_widths().filter(|c: u32| min_channels <= c <= max_channels);
    let widths = if standard.contains(max_channels) {
        standard
    } else {
        standard.push(max_channels)
    };
    if min_channels <= 2 <= max_channels {
        let rest = widths.filter(|c: u32| c != 2);
        if rest.len() == 0 {
            seq![2]
        } else {
            seq![2u32] + rest + seq![2u32]
        }
    } else {
        widths
    }
}

/// The elements of a list that lie in a range.
fn in_range(list: &Vec<u32>, min: u32, max: u32) -> (kept: Vec<u32>)
    ensures
        kept@ == list@.filter(|c: u32| min <= c <= max),
{
    let ghost keep = |c: u32| min <= c <= max;
    let mut kept: Vec<u32> = Vec::new();
    let mut i: usize = 0;
    assert(list@.take(0).filter(keep) =~= seq![]) by {
        reveal(Seq::filter);
    }
    while i < list.len()
        invariant
            i <= list.len(),
            keep == (|c: u32| min <= c <= max),
            kept@ == list@.take(i as int).filter(keep),
        decreases list.len() - i,
    {
        if min <= list[i] && list[i] <= max {
            kept.push(list[i]);
        }
        i = i + 1;
        proof {
            reveal(Seq::filter);
            assert(list@.take(i as int).drop_last() =~= list@.take(i - 1));
        }
    }
    assert(list@.take(i as int) =~= list@);
    kept
}

/// The elements of a list that are not `value`.
fn without(list: &Vec<u32>, value: u32) -> (kept: Vec<u32>)
    ensures
        kept@ == list@.filter(|c: u32| c != value),
{
    let ghost keep = |c: u32| c != value;
    let mut kept: Vec<u32> = Vec::new();
    let mut i: usize = 0;
    assert(list@.take(0).filter(keep) =~= seq![]) by {
        reveal(Seq::filter);
    }
    while i < list.len()
        invariant
            i <= list.len(),
            keep == (|c: u32| c != value),
            kept@ == list@.take(i as int).filter(keep),
        decreases list.len() - i,
    {
        if list[i] != value {
            kept.push(list[i]);
        }
        i = i + 1;
        proof {
            reveal(Seq::filter);
            assert(list@.take(i as int).drop_last() =~= list@.take(i - 1));
        }
    }
    assert(list@.take(i as int) =~= list@);
    kept
}

/// The widths of a range, in the order they are offered.
pub fn enum_format_widths(min_channels: u32, max_channels: u32) -> (widths: Vec<u32>)
    ensures
        widths@ == offered_widths(min_channels, max_channels),
{
    let standard: Vec<u32> = vec![2, 4, 6, 8, 1];
    assert(standard@ =~= standard_widths());
    let mut counts: Vec<u32> = in_range(&standard, min_channels, max_channels);
    if !contains(&counts, max_channels) {
        counts.push(max_channels);
    }
    if min_channels <= 2 && max_channels >= 2 {
        let ghost widths = counts@;
        counts = without(&counts, 2);
        let single = counts.len() == 0;
        counts.insert(0, 2);
        if !single {
            counts.push(2);
        }
        assert(counts@ =~= offered_widths(min_channels, max_channels));
    }
    counts
}

proof fn widths_before_pinning(min_channels: u32, max_channels: u32)
    requires
        min_channels <= max_channels,
    ensures
        ({
            let standard = standard_widths().filter(|c: u32| min_channels <= c <= max_channels);
            let widths = if standard.contains(max_channels) {
                standard
            } else {
                standard.push(max_channels)
            };
            &&& widths.contains(max_channels)
            &&& forall|i: int|
                0 <= i < widths.len() ==> min_channels <= #[trigger] widths[i] <= max_channels
        }),
{
    let keep = |c: u32| min_channels <= c <= max_channels;
    let standard = standard_widths().filter(keep);
    assert forall|i: int| 0 <= i < standard.len() implies min_channels <= #[trigger] standard[i]
        <= max_channels by {
        standard_widths().lemma_filter_pred(keep, i);
    }
    if !standard.contains(max_channels) {
        let widths = standard.push(max_channels);
        assert(widths[standard.len() as int] == max_channels);
    }
}

/// Every offered width lies in the range, the widest one is among them, and
/// stereo, where the device runs it, opens and closes the list.
pub proof fn stereo_pins_both_ends(min_channels: u32, max_channels: u32)
    requires
        min_channels <= max_channels,
    ensures
        ({
            let widths = offered_widths(min_channels, max_channels);
            &&& widths.contains(max_channels)
            &&& forall|i: int|
                0 <= i < widths.len() ==> min_channels <= #[trigger] widths[i] <= max_channels
            &&& min_channels <= 2 <= max_channels ==> widths.first() == 2 && widths.last() == 2
        }),
{
    widths_before_pinning(min_channels, max_channels);
    let standard = standard_widths().filter(|c: u32| min_channels <= c <= max_channels);
    let widths = if standard.contains(max_channels) {
        standard
    } else {
        standard.push(max_channels)
    };
    if min_channels <= 2 <= max_channels {
        let keep = |c: u32| c != 2;
        let rest = widths.filter(keep);
        let pinned = offered_widths(min_channels, max_channels);
        assert forall|i: int| 0 <= i < rest.len() implies min_channels <= #[trigger] rest[i]
            <= max_channels by {
            assert(rest.contains(rest[i]));
            widths.lemma_filter_contains_rev(keep, rest[i]);
            let j = widths.index_of(rest[i]);
            assert(widths[j] == rest[i]);
        }
        assert(pinned[0] == 2);
        if max_channels != 2 {
            let j = widths.index_of(max_channels);
            widths.lemma_filter_contains(keep, j);
            let k = rest.index_of(max_channels);
            assert(pinned[k + 1] == max_channels);
        }
        assert forall|i: int| 0 <= i < pinned.len() implies min_channels <= #[trigger] pinned[i]
            <= max_channels by {
            if rest.len() > 0 && 0 < i <= rest.len() {
                assert(pinned[i] == rest[i - 1]);
            }
        }
    }
}

/// The widths that a configuration offers; without a format it offers none.
pub open spec fn configuration_widths(configuration: StreamConfiguration) -> Seq<u32> {
    if configuration.formats@.len() == 0 {
        seq![]
    } else {
        offered_widths(configuration.min_channels, configuration.max_channels)
    }
}

/// The configurations in the order they are offered: the preferred one first.
pub open spec fn offer_order(count: nat, preferred: nat) -> Seq<int> {
    if preferred < count {
        Seq::new(
            count,
            |i: int|
                if i == 0 {
                    preferred as int
                } else if i <= preferred {
                    i - 1
                } else {
                    i
                },
        )
    } else {
        Seq::new(count, |i: int| i)
    }
}

/// The configuration and the width of one enumerated format: all widths of the
/// first configuration, then all of the next.
pub open spec fn enumerated(
    configurations: Seq<StreamConfiguration>,
    order: Seq<int>,
    index: int,
) -> Option<(int, u32)>
    decreases order.len(),
{
    if order.len() == 0 {
        None
    } else {
        let widths = configuration_widths(configurations[order[0]]);
        if index < widths.len() {
            Some((order[0], widths[index]))
        } else {
            enumerated(configurations, order.drop_first(), index - widths.len())
        }
    }
}

/// The value that offers the formats of a configuration: the only one, or a choice
/// that starts with the best.
pub open spec fn format_choice(formats: Seq<u32>) -> PodValueView {
    if formats.len() == 1 {
        PodValueView::Id(formats[0])
    } else {
        PodValueView::IdEnum(formats[0], formats.drop_first())
    }
}

/// The rate to offer first where none is preferred.
pub const DEFAULT_RATE: u32 = 48000;

/// The rate that a configuration prefers.
pub open spec fn preferred_rate(configuration: StreamConfiguration) -> u32 {
    match configuration.preferred_rate {
        Some(rate) => rate,
        None => DEFAULT_RATE,
    }
}

/// The rates as signed values.
pub open spec fn signed(rates: Seq<u32>) -> Seq<i32> {
    rates.map_values(|rate: u32| rate as i32)
}

/// The value that offers the rates of a configuration: its discrete rates as a
/// choice, a single rate as it is, or the range.
pub open spec fn rate_choice(configuration: StreamConfiguration) -> PodValueView {
    let rates = configuration.rates@;
    let preferred = preferred_rate(configuration);
    if rates.len() > 1 {
        PodValueView::IntEnum(nearest(rates, preferred) as i32, signed(rates))
    } else if rates.len() == 1 {
        PodValueView::Int(rates[0] as i32)
    } else if configuration.min_rate == configuration.max_rate {
        PodValueView::Int(configuration.min_rate as i32)
    } else {
        PodValueView::IntRange {
            default: clamped(preferred, configuration.min_rate, configuration.max_rate) as i32,
            min: configuration.min_rate as i32,
            max: configuration.max_rate as i32,
        }
    }
}

/// The object that offers one width of a configuration.
pub open spec fn enum_format_object(
    configuration: StreamConfiguration,
    channels: u32,
) -> PodObjectView {
    PodObjectView {
        type_: abi::OBJECT_FORMAT,
        id: abi::PARAM_ENUM_FORMAT,
        properties: seq![
            (abi::FORMAT_MEDIA_TYPE, PodValueView::Id(abi::MEDIA_TYPE_AUDIO)),
            (abi::FORMAT_MEDIA_SUBTYPE, PodValueView::Id(abi::MEDIA_SUBTYPE_RAW)),
            (abi::FORMAT_AUDIO_FORMAT, format_choice(configuration.formats@)),
            (abi::FORMAT_AUDIO_RATE, rate_choice(configuration)),
            (abi::FORMAT_AUDIO_CHANNELS, PodValueView::Int(channels as i32)),
            (abi::FORMAT_AUDIO_POSITION, PodValueView::IdArray(layout_positions(channels))),
        ],
    }
}

#[verifier::truncate]
fn to_signed(x: u32) -> (r: i32)
    ensures
        r == x as i32,
{
    x as i32
}

fn build_format_choice(formats: &Vec<u32>) -> (value: PodValue)
    requires
        formats@.len() > 0,
    ensures
        value@ == format_choice(formats@),
{
    if formats.len() == 1 {
        PodValue::Id(formats[0])
    } else {
        let mut rest: Vec<u32> = copied(formats);
        let best: u32 = rest.remove(0);
        assert(rest@ =~= formats@.drop_first());
        PodValue::IdEnum(best, rest)
    }
}

fn build_rate_choice(configuration: &StreamConfiguration) -> (value: PodValue)
    requires
        configuration.wf(),
    ensures
        value@ == rate_choice(*configuration),
{
    let preferred: u32 = match configuration.preferred_rate {
        Some(rate) => rate,
        None => DEFAULT_RATE,
    };
    let rates = &configuration.rates;
    if rates.len() > 1 {
        let mut values: Vec<i32> = Vec::new();
        let mut i: usize = 0;
        while i < rates.len()
            invariant
                i <= rates.len(),
                values@ == signed(rates@.take(i as int)),
            decreases rates.len() - i,
        {
            values.push(to_signed(rates[i]));
            i = i + 1;
            assert(values@ =~= signed(rates@.take(i as int)));
        }
        assert(rates@.take(i as int) =~= rates@);
        PodValue::IntEnum(to_signed(nearest_rate(rates, preferred)), values)
    } else if rates.len() == 1 {
        PodValue::Int(to_signed(rates[0]))
    } else if configuration.min_rate == configuration.max_rate {
        PodValue::Int(to_signed(configuration.min_rate))
    } else {
        PodValue::IntRange {
            default: to_signed(
                clamp_to(preferred, configuration.min_rate, configuration.max_rate),
            ),
            min: to_signed(configuration.min_rate),
            max: to_signed(configuration.max_rate),
        }
    }
}

/// The configurations in the order they are offered.
fn offer_list(count: usize, preferred: usize) -> (order: Vec<usize>)
    ensures
        order@.map_values(|i: usize| i as int) == offer_order(count as nat, preferred as nat),
{
    let mut order: Vec<usize> = Vec::new();
    let ghost full = offer_order(count as nat, preferred as nat);
    let mut i: usize = 0;
    while i < count
        invariant
            i <= count,
            order@.len() == i,
            full == offer_order(count as nat, preferred as nat),
            forall|j: int| 0 <= j < i ==> #[trigger] order@[j] == full[j],
        decreases count - i,
    {
        let next: usize = if preferred >= count || i > preferred {
            i
        } else if i == 0 {
            preferred
        } else {
            i - 1
        };
        assert(next == full[i as int]);
        order.push(next);
        i = i + 1;
    }
    assert(order@.map_values(|i: usize| i as int) =~= full);
    order
}

/// The `index`-th format that a device offers; `None` past the last one. No entry
/// mixes the constraints of two configurations.
pub fn build_enum_format_info(caps: &StreamCaps, index: u32) -> (object: Option<PodObject>)
    requires
        caps.wf(),
    ensures
        ({
            let order = offer_order(caps.configurations@.len(), caps.preferred as nat);
            match enumerated(caps.configurations@, order, index as int) {
                Some((which, channels)) => object matches Some(object) && object@
                    == enum_format_object(caps.configurations@[which], channels),
                None => object is None,
            }
        }),
{
    let order: Vec<usize> = offer_list(caps.configurations.len(), caps.preferred);
    let ghost full = offer_order(caps.configurations@.len(), caps.preferred as nat);
    let mut left: u32 = index;
    let mut at: usize = 0;
    assert(full.skip(0) =~= full);
    while at < order.len()
        invariant
            at <= order.len(),
            caps.wf(),
            full == offer_order(caps.configurations@.len(), caps.preferred as nat),
            order@.map_values(|i: usize| i as int) == full,
            enumerated(caps.configurations@, full, index as int) == enumerated(
                caps.configurations@,
                full.skip(at as int),
                left as int,
            ),
        decreases order.len() - at,
    {
        assert(full.len() == order.len());
        assert(full[at as int] == order@.map_values(|i: usize| i as int)[at as int]);
        assert(full.skip(at as int)[0] == full[at as int]);
        assert(full.skip(at as int).drop_first() =~= full.skip(at + 1));
        let configuration = &caps.configurations[order[at]];
        if configuration.formats.len() > 0 {
            let widths: Vec<u32> = enum_format_widths(
                configuration.min_channels,
                configuration.max_channels,
            );
            if (left as usize) < widths.len() {
                let channels: u32 = widths[left as usize];
                proof {
                    stereo_pins_both_ends(configuration.min_channels, configuration.max_channels);
                }
                return Some(enum_format(configuration, channels));
            }
            left = left - widths.len() as u32;
        }
        at = at + 1;
    }
    assert(full.skip(at as int).len() == 0);
    None
}

/// The object that offers one width of a configuration.
pub fn enum_format(configuration: &StreamConfiguration, channels: u32) -> (object: PodObject)
    requires
        configuration.wf(),
        configuration.formats@.len() > 0,
        channels <= crate::channels::MAX_LAYOUT_CHANNELS,
    ensures
        object@ == enum_format_object(*configuration, channels),
{
    let properties: Vec<PodProperty> = vec![
        PodProperty { key: abi::FORMAT_MEDIA_TYPE, value: PodValue::Id(abi::MEDIA_TYPE_AUDIO) },
        PodProperty {
            key: abi::FORMAT_MEDIA_SUBTYPE,
            value: PodValue::Id(abi::MEDIA_SUBTYPE_RAW),
        },
        PodProperty {
            key: abi::FORMAT_AUDIO_FORMAT,
            value: build_format_choice(&configuration.formats),
        },
        PodProperty { key: abi::FORMAT_AUDIO_RATE, value: build_rate_choice(configuration) },
        PodProperty {
            key: abi::FORMAT_AUDIO_CHANNELS,
            value: PodValue::Int(to_signed(channels)),
        },
        PodProperty {
            key: abi::FORMAT_AUDIO_POSITION,
            value: PodValue::IdArray(default_layout(channels)),
        },
    ];
    let object = PodObject {
        type_: abi::OBJECT_FORMAT,
        id: abi::PARAM_ENUM_FORMAT,
        properties,
    };
    assert(object@.properties =~= enum_format_object(*configuration, channels).properties);
    object
}

/// Frames that a buffer holds at least: two graph periods, so that a capture cycle
/// can hand on more than one period and drain a backlog.
pub const MIN_BUFFER_FRAMES: u32 = 2048;

/// Frames that a buffer holds at most.
pub const MAX_BUFFER_FRAMES: u32 = 16384;

/// The object that states what buffers a port needs: one block of mapped memory.
pub open spec fn buffers_object(stride: u32) -> PodObjectView {
    let floor = (MIN_BUFFER_FRAMES * stride) as u32 as i32;
    let max = (MAX_BUFFER_FRAMES * stride) as u32 as i32;
    PodObjectView {
        type_: abi::OBJECT_BUFFERS,
        id: abi::PARAM_BUFFERS,
        properties: seq![
            (abi::BUFFERS_BUFFERS, PodValueView::IntRange { default: 2, min: 1, max: 32 }),
            (abi::BUFFERS_BLOCKS, PodValueView::Int(1)),
            (abi::BUFFERS_SIZE, PodValueView::IntRange { default: floor, min: floor, max }),
            (abi::BUFFERS_STRIDE, PodValueView::Int(stride as i32)),
            (abi::BUFFERS_ALIGN, PodValueView::Int(16)),
            (abi::BUFFERS_DATA_TYPE, PodValueView::Int(2)),
        ],
    }
}

/// The object that states what buffers a port needs.
pub fn build_buffers_info(stride: u32) -> (object: PodObject)
    requires
        MAX_BUFFER_FRAMES * stride <= u32::MAX,
    ensures
        object@ == buffers_object(stride),
{
    let floor: i32 = to_signed(MIN_BUFFER_FRAMES * stride);
    let max: i32 = to_signed(MAX_BUFFER_FRAMES * stride);
    let properties: Vec<PodProperty> = vec![
        PodProperty {
            key: abi::BUFFERS_BUFFERS,
            value: PodValue::IntRange { default: 2, min: 1, max: 32 },
        },
        PodProperty { key: abi::BUFFERS_BLOCKS, value: PodValue::Int(1) },
        PodProperty {
            key: abi::BUFFERS_SIZE,
            value: PodValue::IntRange { default: floor, min: floor, max },
        },
        PodProperty { key: abi::BUFFERS_STRIDE, value: PodValue::Int(to_signed(stride)) },
        PodProperty { key: abi::BUFFERS_ALIGN, value: PodValue::Int(16) },
        // the only memory kind that is mapped directly, as a bit of a mask
        PodProperty { key: abi::BUFFERS_DATA_TYPE, value: PodValue::Int(2) },
    ];
    let object = PodObject { type_: abi::OBJECT_BUFFERS, id: abi::PARAM_BUFFERS, properties };
    assert(object@.properties =~= buffers_object(stride).properties);
    object
}

/// The graph's formats in the device's terms: the bit of each, and the bytes of a sample.
/// Both byte orders of a format differ only in their bit, and no two formats share one.
pub proof fn formats_have_their_own_bits(a: u32, b: u32)
    ensures
        format_info(abi::AUDIO_FORMAT_U8) == Some((0x8u32, 1u32)),
        format_info(abi::AUDIO_FORMAT_S16_LE) == Some((0x10u32, 2u32)),
        format_info(abi::AUDIO_FORMAT_S16_BE) == Some((0x20u32, 2u32)),
        format_info(abi::AUDIO_FORMAT_S24_LE) == Some((0x1_0000u32, 3u32)),
        format_info(abi::AUDIO_FORMAT_S24_BE) == Some((0x2_0000u32, 3u32)),
        format_info(abi::AUDIO_FORMAT_S32_LE) == Some((0x1000u32, 4u32)),
        format_info(abi::AUDIO_FORMAT_S32_BE) == Some((0x2000u32, 4u32)),
        format_info(abi::AUDIO_FORMAT_F32_LE) == Some((0x1000_0000u32, 4u32)),
        format_info(abi::AUDIO_FORMAT_F32_BE) == Some((0x2000_0000u32, 4u32)),
        format_info(a) is Some && format_info(b) is Some && a != b ==> (format_info(a)->0).0
            != (format_info(b)->0).0,
        format_info(a) is Some <==> 0x102 <= a <= 0x104 || 0x10b <= a <= 0x10c || 0x10f <= a
            <= 0x110 || 0x11b <= a <= 0x11c,
{
}

/// What a device is offered: a format that it runs natively always is, and any other known
/// one exactly where it runs none natively and the kernel converts.
pub proof fn offer_is_native_or_converted(mask: u32, convertless: bool, format: u32)
    ensures
        ({
            let native = format_info(format) is Some && mask & (format_info(format)->0).0 != 0;
            let some_native = exists|f: u32|
                (#[trigger] format_info(f)) is Some && mask & (format_info(f)->0).0 != 0;
            offered(mask, convertless).contains(format) <==> native || (!some_native
                && !convertless && format_info(format) is Some)
        }),
{
    let keep = |f: u32| is_native(mask, f);
    let kept = native_formats(mask);
    known_formats_are_mapped(format);
    if kept.len() > 0 {
        known_formats().lemma_filter_pred(keep, 0);
        assert(is_native(mask, kept[0]));
    }
    assert forall|f: u32| is_native(mask, f) implies kept.contains(f) by {
        known_formats_are_mapped(f);
        let i = known_formats().index_of(f);
        known_formats().lemma_filter_contains(keep, i);
    }
    if kept.contains(format) {
        let i = kept.index_of(format);
        known_formats().lemma_filter_pred(keep, i);
    }
    if exists|f: u32| (#[trigger] format_info(f)) is Some && mask & (format_info(f)->0).0 != 0 {
        let f = choose|f: u32|
            (#[trigger] format_info(f)) is Some && mask & (format_info(f)->0).0 != 0;
        assert(is_native(mask, f));
        assert(kept.contains(f));
    }
}

/// A request is moved onto a configuration no further than it has to be. A format that is
/// offered stays, any other becomes the best one; the width moves to the nearest end of the
/// range, and gets new speaker positions only if it moved; the rate becomes the nearest
/// discrete one, or moves to the nearest end of the range.
pub proof fn request_moves_no_further_than_it_has_to(
    configuration: StreamConfiguration,
    raw: RawFormatView,
)
    requires
        configuration.wf(),
        configuration.max_channels <= abi::AUDIO_MAX_CHANNELS,
    ensures
        ({
            let after = snapped(configuration, raw);
            let formats = configuration.formats@;
            let rates = configuration.rates@;
            let (low, high) = (configuration.min_channels, configuration.max_channels);
            &&& formats.contains(raw.format) || formats.len() == 0 ==> after.format == raw.format
            &&& !formats.contains(raw.format) && formats.len() > 0 ==> after.format == formats[0]
            &&& after.flags == raw.flags
            &&& low <= raw.channels <= high ==> after.channels == raw.channels && after.position
                == raw.position
            &&& raw.channels < low ==> after.channels == low
            &&& raw.channels > high ==> after.channels == high
            &&& after.position.len() == raw.position.len()
            &&& forall|i: int|
                0 <= i < raw.position.len() ==> #[trigger] after.position[i] == if after.channels
                    != raw.channels && i < after.channels {
                    layout_positions(after.channels)[i]
                } else {
                    raw.position[i]
                }
            &&& rates.contains(raw.rate) ==> after.rate == raw.rate
            &&& rates.len() > 0 ==> rates.contains(after.rate) && forall|i: int|
                0 <= i < rates.len() ==> imax(after.rate - raw.rate, raw.rate - after.rate) <= imax(
                    #[trigger] rates[i] - raw.rate,
                    raw.rate - rates[i],
                )
            &&& rates.len() == 0 ==> after.rate == if raw.rate < configuration.min_rate {
                configuration.min_rate
            } else if raw.rate > configuration.max_rate {
                configuration.max_rate
            } else {
                raw.rate
            }
        }),
{
    if configuration.rates@.len() > 0 {
        nearest_is_nearest(configuration.rates@, raw.rate);
        let after = snapped(configuration, raw);
        assert forall|i: int| 0 <= i < configuration.rates@.len() implies imax(
            after.rate - raw.rate,
            raw.rate - after.rate,
        ) <= imax(#[trigger] configuration.rates@[i] - raw.rate, raw.rate - configuration.rates@[i]) by {
            assert(distance(after.rate, raw.rate) <= distance(configuration.rates@[i], raw.rate));
        }
        if configuration.rates@.contains(raw.rate) {
            let i = configuration.rates@.index_of(raw.rate);
            assert(distance(configuration.rates@[i], raw.rate) == 0);
        }
    }
}

/// The offered widths are the standard ones of the range and its widest one, and no others.
pub proof fn widths_are_standard_or_widest(min_channels: u32, max_channels: u32, width: u32)
    requires
        min_channels <= max_channels,
    ensures
        offered_widths(min_channels, max_channels).contains(width) <==> width == max_channels || (
        min_channels <= width <= max_channels && (width == 1 || width == 2 || width == 4 || width
            == 6 || width == 8)),
{
    let keep = |c: u32| min_channels <= c <= max_channels;
    let list = standard_widths();
    let standard = list.filter(keep);
    let widths = if standard.contains(max_channels) {
        standard
    } else {
        standard.push(max_channels)
    };
    assert(list[0] == 2 && list[1] == 4 && list[2] == 6 && list[3] == 8 && list[4] == 1);
    assert(list.contains(width) <==> (width == 1 || width == 2 || width == 4 || width == 6
        || width == 8));
    if list.contains(width) && keep(width) {
        list.lemma_filter_contains(keep, list.index_of(width));
    }
    if standard.contains(width) {
        list.lemma_filter_contains_rev(keep, width);
        list.lemma_filter_pred(keep, standard.index_of(width));
    }
    assert(standard.contains(width) <==> list.contains(width) && keep(width));
    if !standard.contains(max_channels) {
        assert(widths[standard.len() as int] == max_channels);
        assert(widths.contains(width) <==> standard.contains(width) || width == max_channels) by {
            if standard.contains(width) {
                let i = standard.index_of(width);
                assert(widths[i] == width);
            }
            if widths.contains(width) && width != max_channels {
                let i = widths.index_of(width);
                assert(standard[i] == width);
            }
        }
    }
    assert(widths.contains(width) <==> standard.contains(width) || width == max_channels);
    if min_channels <= 2 <= max_channels {
        let other = |c: u32| c != 2;
        let rest = widths.filter(other);
        let pinned = offered_widths(min_channels, max_channels);
        assert(pinned[0] == 2);
        if widths.contains(width) && width != 2 {
            widths.lemma_filter_contains(other, widths.index_of(width));
            let i = rest.index_of(width);
            assert(pinned[i + 1] == width);
        }
        if pinned.contains(width) && width != 2 {
            let i = pinned.index_of(width);
            assert(0 < i <= rest.len());
            assert(rest[i - 1] == width);
            assert(rest.contains(width));
            widths.lemma_filter_contains_rev(other, width);
        }
        if widths.contains(2) {
        } else {
            list.lemma_filter_contains(keep, 0);
        }
    }
}

/// What an offer says of the rate. Discrete rates are a choice of all of them, a single rate
/// stands as it is, and a range is offered whole. The device's preferred rate is the default
/// wherever it is one of the choices; where it is not, the nearest choice is. Only a device
/// without a preference is taken to prefer 48 kHz.
pub proof fn preferred_rate_is_the_default(configuration: StreamConfiguration, channels: u32)
    requires
        configuration.wf(),
        configuration.formats@.len() > 0,
    ensures
        ({
            let object = enum_format_object(configuration, channels);
            let rates = configuration.rates@;
            let (low, high) = (configuration.min_rate, configuration.max_rate);
            let wanted = if configuration.preferred_rate is Some {
                configuration.preferred_rate->0
            } else {
                48000
            };
            let (key, offer) = object.properties[3];
            &&& key == abi::FORMAT_AUDIO_RATE
            &&& rates.len() > 1 ==> {
                &&& offer matches PodValueView::IntEnum(default, values) && values.len()
                    == rates.len() && (forall|i: int|
                    0 <= i < rates.len() ==> #[trigger] values[i] == rates[i] as i32) && (
                rates.contains(wanted) ==> default == wanted as i32) && (exists|i: int|
                    0 <= i < rates.len() && default == #[trigger] rates[i] as i32 && is_nearest(
                        rates,
                        i,
                        wanted,
                    ))
            }
            &&& rates.len() == 1 ==> offer == PodValueView::Int(rates[0] as i32)
            &&& rates.len() == 0 && low == high ==> offer == PodValueView::Int(low as i32)
            &&& rates.len() == 0 && low < high ==> offer == (PodValueView::IntRange {
                default: (if wanted < low {
                    low
                } else if wanted > high {
                    high
                } else {
                    wanted
                }) as i32,
                min: low as i32,
                max: high as i32,
            })
        }),
{
    let rates = configuration.rates@;
    let wanted = if configuration.preferred_rate is Some {
        configuration.preferred_rate->0
    } else {
        48000u32
    };
    if rates.len() > 1 {
        nearest_is_nearest(rates, wanted);
        let i = rates.index_of(nearest(rates, wanted));
        assert(is_nearest(rates, i, wanted)) by {
            assert forall|j: int| 0 <= j < rates.len() implies imax(
                rates[i] - wanted,
                wanted - rates[i],
            ) <= imax(#[trigger] rates[j] - wanted, wanted - rates[j]) by {
                assert(distance(nearest(rates, wanted), wanted) <= distance(rates[j], wanted));
            }
        }
        if rates.contains(wanted) {
            let j = rates.index_of(wanted);
            assert(distance(rates[j], wanted) == 0);
        }
    }
}

/// No rate lies nearer to `target` than the one at `i`.
pub open spec fn is_nearest(rates: Seq<u32>, i: int, target: u32) -> bool {
    forall|j: int|
        0 <= j < rates.len() ==> imax(rates[i] - target, target - rates[i]) <= imax(
            #[trigger] rates[j] - target,
            target - rates[j],
        )
}

/// What else an offer says: raw audio, all the formats of the configuration with the best
/// one as the default, and the one width that it is about, in the kernel's channel order.
pub proof fn offer_describes_one_width(configuration: StreamConfiguration, channels: u32)
    requires
        configuration.formats@.len() > 0,
    ensures
        ({
            let object = enum_format_object(configuration, channels);
            let formats = configuration.formats@;
            let properties = object.properties;
            &&& object.type_ == 0x40003 && object.id == 3
            &&& properties.len() == 6
            &&& properties[0] == (1u32, PodValueView::Id(1))
            &&& properties[1] == (2u32, PodValueView::Id(1))
            &&& properties[2].0 == 0x10001
            &&& formats.len() == 1 ==> properties[2].1 == PodValueView::Id(formats[0])
            &&& formats.len() > 1 ==> (properties[2].1 matches PodValueView::IdEnum(best, others)
                && best == formats[0] && others.len() == formats.len() - 1 && forall|i: int|
                0 <= i < others.len() ==> #[trigger] others[i] == formats[i + 1])
            &&& properties[3].0 == 0x10003
            &&& properties[4] == (0x10004u32, PodValueView::Int(channels as i32))
            &&& properties[5].0 == 0x10005
            &&& properties[5].1 matches PodValueView::IdArray(positions) && positions
                == layout_positions(channels)
        }),
{
}

/// The device's own preference is offered first: the first entry is about the preferred
/// configuration, in stereo where that runs stereo.
pub proof fn first_offer_is_the_preferred_one(configurations: Seq<StreamConfiguration>, preferred: nat)
    requires
        preferred < configurations.len(),
        configurations[preferred as int].wf(),
        configurations[preferred as int].formats@.len() > 0,
    ensures
        ({
            let configuration = configurations[preferred as int];
            let order = offer_order(configurations.len(), preferred);
            &&& enumerated(configurations, order, 0) matches Some((which, width)) && which
                == preferred && configuration.min_channels <= width <= configuration.max_channels
                && (configuration.min_channels <= 2 <= configuration.max_channels ==> width == 2)
        }),
{
    let configuration = configurations[preferred as int];
    stereo_pins_both_ends(configuration.min_channels, configuration.max_channels);
    let widths = offered_widths(configuration.min_channels, configuration.max_channels);
    assert(widths.len() > 0);
    assert(widths[0] == widths.first());
}

proof fn walk_covers(
    configurations: Seq<StreamConfiguration>,
    order: Seq<int>,
    at: int,
    k: int,
) -> (index: int)
    requires
        0 <= at < order.len(),
        0 <= k < configuration_widths(configurations[order[at]]).len(),
    ensures
        index >= 0,
        enumerated(configurations, order, index) == Some(
            (order[at], configuration_widths(configurations[order[at]])[k]),
        ),
    decreases order.len(),
{
    if at == 0 {
        k
    } else {
        let rest = order.drop_first();
        assert(rest[at - 1] == order[at]);
        let index = walk_covers(configurations, rest, at - 1, k);
        let skipped = configuration_widths(configurations[order[0]]).len();
        index + skipped
    }
}

proof fn walk_stays_inside(configurations: Seq<StreamConfiguration>, order: Seq<int>, index: int)
    requires
        index >= 0,
    ensures
        enumerated(configurations, order, index) matches Some((which, width)) ==> order.contains(
            which,
        ) && configuration_widths(configurations[which]).contains(width),
    decreases order.len(),
{
    if order.len() > 0 {
        let widths = configuration_widths(configurations[order[0]]);
        if index < widths.len() {
            assert(order.contains(order[0]));
            assert(widths.contains(widths[index]));
        } else {
            walk_stays_inside(configurations, order.drop_first(), index - widths.len());
            if let Some((which, _)) = enumerated(configurations, order, index) {
                let i = order.drop_first().index_of(which);
                assert(order[i + 1] == which);
            }
        }
    }
}

/// Everything that a device runs is offered: each width that is a standard one or the widest
/// of a configuration with formats has an entry of its own.
pub proof fn every_width_is_offered(
    configurations: Seq<StreamConfiguration>,
    preferred: nat,
    which: int,
    width: u32,
) -> (index: int)
    requires
        0 <= which < configurations.len(),
        configurations[which].wf(),
        configurations[which].formats@.len() > 0,
        width == configurations[which].max_channels || (configurations[which].min_channels <= width
            <= configurations[which].max_channels && (width == 1 || width == 2 || width == 4
            || width == 6 || width == 8)),
    ensures
        index >= 0,
        enumerated(configurations, offer_order(configurations.len(), preferred), index) == Some(
            (which, width),
        ),
{
    let order = offer_order(configurations.len(), preferred);
    let at = if preferred >= configurations.len() {
        which
    } else if which == preferred {
        0
    } else if which < preferred {
        which + 1
    } else {
        which
    };
    assert(order[at] == which);
    let configuration = configurations[which];
    widths_are_standard_or_widest(configuration.min_channels, configuration.max_channels, width);
    let k = configuration_widths(configuration).index_of(width);
    walk_covers(configurations, order, at, k)
}

/// Nothing else is offered: an entry is about a configuration of the device that has formats,
/// and a width that this one runs.
pub proof fn only_what_runs_is_offered(
    configurations: Seq<StreamConfiguration>,
    preferred: nat,
    index: int,
)
    requires
        index >= 0,
        forall|i: int| 0 <= i < configurations.len() ==> (#[trigger] configurations[i]).wf(),
    ensures
        enumerated(configurations, offer_order(configurations.len(), preferred), index) matches Some(
            (which, width),
        ) ==> 0 <= which < configurations.len() && configurations[which].formats@.len() > 0
            && configurations[which].min_channels <= width <= configurations[which].max_channels,
{
    let order = offer_order(configurations.len(), preferred);
    walk_stays_inside(configurations, order, index);
    if let Some((which, width)) = enumerated(configurations, order, index) {
        let i = order.index_of(which);
        assert(order[i] == which);
        let configuration = configurations[which];
        stereo_pins_both_ends(configuration.min_channels, configuration.max_channels);
        let j = configuration_widths(configuration).index_of(width);
        assert(configuration_widths(configuration)[j] == width);
    }
}

/// What a port asks of its buffers: one block of mapped memory, aligned to 16 bytes, with
/// room for 2048 frames up to 16384.
pub proof fn buffers_hold_two_periods(stride: u32)
    requires
        16384 * stride <= i32::MAX,
    ensures
        ({
            let object = buffers_object(stride);
            &&& object.type_ == 0x40004 && object.id == 5
            &&& object.properties.len() == 6
            &&& object.properties[0] == (
                1u32,
                PodValueView::IntRange { default: 2, min: 1, max: 32 },
            )
            &&& object.properties[1] == (2u32, PodValueView::Int(1))
            &&& object.properties[2].0 == 3
            &&& object.properties[2].1 matches PodValueView::IntRange { default, min, max }
                && default == 2048 * stride && min == 2048 * stride && max == 16384 * stride
            &&& object.properties[3].0 == 4
            &&& object.properties[3].1 matches PodValueView::Int(value) && value == stride
            &&& object.properties[4] == (5u32, PodValueView::Int(16))
            &&& object.properties[5] == (6u32, PodValueView::Int(2))
        }),
{
}

} // verus!
