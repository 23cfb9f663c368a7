//! Device capabilities: which formats, widths and rates a device runs.
use vstd::prelude::*;

use crate::abi;
use crate::channels::MAX_LAYOUT_CHANNELS;

verus! {

/// What a device reports of itself.
#[derive(Debug, Clone, PartialEq, Eq)]
pub struct DspCaps {
    /// The native formats, as a mask of device format bits.
    pub formats: u32,
    pub min_channels: u32,
    pub max_channels: u32,
    pub min_rate: u32,
    pub max_rate: u32,
    pub preferred_rate: Option<u32>,
    /// The native rates of an exclusive device; empty where a range applies.
    pub rates: Vec<u32>,
    /// The kernel converts nothing: only native formats work.
    pub convertless: bool,
}

/// Who converts what a device does not run natively.
#[derive(Debug, Clone, Copy, PartialEq, Eq, Structural)]
pub enum ConversionKind {
    Unavailable,
    Backend,
}

/// One set of formats, widths and rates that work together.
#[derive(Debug, Clone, PartialEq, Eq)]
pub struct StreamConfiguration {
    /// The graph's formats, best first.
    pub formats: Vec<u32>,
    pub min_channels: u32,
    pub max_channels: u32,
    pub min_rate: u32,
    pub max_rate: u32,
    pub preferred_rate: Option<u32>,
    /// Discrete rates; empty where the range applies.
    pub rates: Vec<u32>,
    /// How far a rate may lie from a discrete one.
    pub rate_tolerance: u32,
}

impl StreamConfiguration {
    /// The ranges are not empty, and the widest layout can be numbered.
    pub open spec fn wf(&self) -> bool {
        &&& self.min_channels <= self.max_channels <= MAX_LAYOUT_CHANNELS
        &&& self.min_rate <= self.max_rate
    }

    /// Whether a rate can be run: near a discrete one, or within the range.
    pub open spec fn runs_rate(&self, rate: u32) -> bool {
        if self.rates@.len() > 0 {
            exists|i: int|
                0 <= i < self.rates@.len() && crate::format::distance(#[trigger] self.rates@[i], rate)
                    <= self.rate_tolerance
        } else {
            self.min_rate <= rate <= self.max_rate
        }
    }

    /// Whether a format, a width and a rate work together.
    pub open spec fn runs(&self, format: u32, channels: u32, rate: u32) -> bool {
        self.formats@.contains(format) && self.min_channels <= channels <= self.max_channels
            && self.runs_rate(rate)
    }

    /// Whether a format, a width and a rate work together.
    pub fn admits(&self, format: u32, channels: u32, rate: u32) -> (r: bool)
        ensures
            r == self.runs(format, channels, rate),
    {
        if !crate::format::contains(&self.formats, format) || channels < self.min_channels || channels
            > self.max_channels {
            return false;
        }
        if self.rates.len() == 0 {
            return self.min_rate <= rate && rate <= self.max_rate;
        }
        let mut i: usize = 0;
        while i < self.rates.len()
            invariant
                i <= self.rates.len(),
                self.rates.len() > 0,
                self.formats@.contains(format),
                self.min_channels <= channels <= self.max_channels,
                forall|j: int|
                    0 <= j < i ==> crate::format::distance(#[trigger] self.rates@[j], rate)
                        > self.rate_tolerance,
            decreases self.rates.len() - i,
        {
            if crate::format::rate_distance(self.rates[i], rate) <= self.rate_tolerance {
                return true;
            }
            i = i + 1;
        }
        false
    }
}

/// What a stream can be configured to.
#[derive(Debug, Clone, PartialEq, Eq)]
pub struct StreamCaps {
    pub configurations: Vec<StreamConfiguration>,
    /// The index of the configuration to offer first.
    pub preferred: usize,
    pub conversion: ConversionKind,
}

impl StreamCaps {
    /// Every configuration is sound.
    pub open spec fn wf(&self) -> bool {
        forall|i: int|
            0 <= i < self.configurations@.len() ==> (#[trigger] self.configurations@[i]).wf()
    }

    /// The configuration to offer first, where there is one.
    pub fn preferred_configuration(&self) -> (configuration: Option<&StreamConfiguration>)
        ensures
            match configuration {
                Some(configuration) => self.preferred < self.configurations@.len()
                    && *configuration == self.configurations@[self.preferred as int],
                None => self.preferred >= self.configurations@.len(),
            },
    {
        if self.preferred < self.configurations.len() {
            Some(&self.configurations[self.preferred])
        } else {
            None
        }
    }

    /// Whether some configuration runs a format, a width and a rate together.
    pub open spec fn runs(&self, format: u32, channels: u32, rate: u32) -> bool {
        exists|i: int|
            0 <= i < self.configurations@.len() && (#[trigger] self.configurations@[i]).runs(
                format,
                channels,
                rate,
            )
    }

    /// Whether some configuration runs a format, a width and a rate together; what
    /// only two different ones offer does not.
    pub fn admits(&self, format: u32, channels: u32, rate: u32) -> (r: bool)
        ensures
            r == self.runs(format, channels, rate),
    {
        let mut i: usize = 0;
        while i < self.configurations.len()
            invariant
                i <= self.configurations.len(),
                forall|j: int|
                    0 <= j < i ==> !(#[trigger] self.configurations@[j]).runs(
                        format,
                        channels,
                        rate,
                    ),
            decreases self.configurations.len() - i,
        {
            if self.configurations[i].admits(format, channels, rate) {
                return true;
            }
            i = i + 1;
        }
        false
    }

    /// Whether the device converts nothing.
    pub fn convertless(&self) -> (r: bool)
        ensures
            r == (self.conversion == ConversionKind::Unavailable),
    {
        match self.conversion {
            ConversionKind::Unavailable => true,
            ConversionKind::Backend => false,
        }
    }
}

/// The formats that the library handles, best first.
pub fn all_formats() -> (formats: Vec<u32>)
    ensures
        formats@ == crate::format::known_formats(),
{
    vec![
        abi::AUDIO_FORMAT_S32_LE,
        abi::AUDIO_FORMAT_S32_BE,
        abi::AUDIO_FORMAT_F32_LE,
        abi::AUDIO_FORMAT_F32_BE,
        abi::AUDIO_FORMAT_S24_LE,
        abi::AUDIO_FORMAT_S24_BE,
        abi::AUDIO_FORMAT_S16_LE,
        abi::AUDIO_FORMAT_S16_BE,
        abi::AUDIO_FORMAT_U8,
    ]
}

/// The bytes of one sample; `None` for a format that the library does not handle.
pub fn bytes_per_sample(format: u32) -> (bytes: Option<u32>)
    ensures
        bytes == match crate::format::format_info(format) {
            Some((_, bytes)) => Some(bytes),
            None => None,
        },
{
    match crate::format::oss_format_info(format) {
        Some((_, bytes)) => Some(bytes),
        None => None,
    }
}

/// A copy of a list.
pub fn copied(list: &Vec<u32>) -> (copy: Vec<u32>)
    ensures
        copy@ == list@,
{
    let mut copy: Vec<u32> = Vec::new();
    let mut i: usize = 0;
    while i < list.len()
        invariant
            i <= list.len(),
            copy@ == list@.take(i as int),
        decreases list.len() - i,
    {
        copy.push(list[i]);
        i = i + 1;
        assert(copy@ =~= list@.take(i as int));
    }
    assert(list@.take(i as int) =~= list@);
    copy
}

/// The formats that a configuration offers, best first.
pub fn offered_formats(configuration: &StreamConfiguration) -> (formats: Vec<u32>)
    ensures
        formats@ == configuration.formats@,
{
    copied(&configuration.formats)
}

/// How far from a discrete rate a device may run, in hertz.
pub const RATE_TOLERANCE: u32 = 50;

/// The capabilities of a device: its ranges, and the formats that it is offered.
pub fn stream_caps(caps: &DspCaps) -> (stream: StreamCaps)
    ensures
        stream.preferred == 0,
        stream.conversion == if caps.convertless {
            ConversionKind::Unavailable
        } else {
            ConversionKind::Backend
        },
        stream.configurations@.len() == 1,
        ({
            let configuration = stream.configurations@[0];
            &&& configuration.formats@ == crate::format::offered(caps.formats, caps.convertless)
            &&& configuration.min_channels == caps.min_channels
            &&& configuration.max_channels == caps.max_channels
            &&& configuration.min_rate == caps.min_rate
            &&& configuration.max_rate == caps.max_rate
            &&& configuration.preferred_rate == caps.preferred_rate
            &&& configuration.rates@ == caps.rates@
            &&& configuration.rate_tolerance == RATE_TOLERANCE
        }),
{
    let configuration = StreamConfiguration {
        formats: crate::format::offered_formats(caps),
        min_channels: caps.min_channels,
        max_channels: caps.max_channels,
        min_rate: caps.min_rate,
        max_rate: caps.max_rate,
        preferred_rate: caps.preferred_rate,
        rates: copied(&caps.rates),
        rate_tolerance: RATE_TOLERANCE,
    };
    StreamCaps {
        configurations: vec![configuration],
        preferred: 0,
        conversion: if caps.convertless {
            ConversionKind::Unavailable
        } else {
            ConversionKind::Backend
        },
    }
}

/// Whether two lists hold the same.
fn same_list(a: &Vec<u32>, b: &Vec<u32>) -> (same: bool)
    ensures
        same == (a@ == b@),
{
    if a.len() != b.len() {
        return false;
    }
    let mut i: usize = 0;
    while i < a.len()
        invariant
            i <= a.len(),
            a.len() == b.len(),
            forall|j: int| 0 <= j < i ==> #[trigger] a@[j] == b@[j],
        decreases a.len() - i,
    {
        if a[i] != b[i] {
            return false;
        }
        i = i + 1;
    }
    assert(a@ =~= b@);
    true
}

/// Whether two configurations hold the same.
pub open spec fn same_configuration(a: StreamConfiguration, b: StreamConfiguration) -> bool {
    &&& a.formats@ == b.formats@
    &&& a.min_channels == b.min_channels
    &&& a.max_channels == b.max_channels
    &&& a.min_rate == b.min_rate
    &&& a.max_rate == b.max_rate
    &&& a.preferred_rate == b.preferred_rate
    &&& a.rates@ == b.rates@
    &&& a.rate_tolerance == b.rate_tolerance
}

/// Whether two capabilities hold the same.
pub open spec fn same_caps(a: StreamCaps, b: StreamCaps) -> bool {
    &&& a.preferred == b.preferred
    &&& a.conversion == b.conversion
    &&& a.configurations@.len() == b.configurations@.len()
    &&& forall|i: int|
        0 <= i < a.configurations@.len() ==> same_configuration(
            #[trigger] a.configurations@[i],
            b.configurations@[i],
        )
}

fn agree(a: &StreamCaps, b: &StreamCaps) -> (same: bool)
    ensures
        same == same_caps(*a, *b),
{
    if a.preferred != b.preferred || a.conversion != b.conversion || a.configurations.len()
        != b.configurations.len() {
        return false;
    }
    let mut i: usize = 0;
    while i < a.configurations.len()
        invariant
            i <= a.configurations.len(),
            a.preferred == b.preferred,
            a.conversion == b.conversion,
            a.configurations.len() == b.configurations.len(),
            forall|j: int|
                0 <= j < i ==> same_configuration(
                    #[trigger] a.configurations@[j],
                    b.configurations@[j],
                ),
        decreases a.configurations.len() - i,
    {
        let x = &a.configurations[i];
        let y = &b.configurations[i];
        let same = same_list(&x.formats, &y.formats) && x.min_channels == y.min_channels
            && x.max_channels == y.max_channels && x.min_rate == y.min_rate && x.max_rate
            == y.max_rate && x.preferred_rate == y.preferred_rate && same_list(&x.rates, &y.rates)
            && x.rate_tolerance == y.rate_tolerance;
        if !same {
            assert(!same_configuration(a.configurations@[i as int], b.configurations@[i as int]));
            return false;
        }
        i = i + 1;
    }
    true
}

/// The capabilities that a node works with.
#[derive(Debug, Clone, PartialEq, Eq)]
pub struct ProbedCaps {
    pub caps: StreamCaps,
    /// The device could not be probed yet: the capabilities stand in for its own.
    pub fallback: bool,
}

impl ProbedCaps {
    /// What a new node works with: what the device was probed to be, or a stand-in.
    pub fn new(probed: Option<StreamCaps>) -> (held: ProbedCaps)
        ensures
            match probed {
                Some(caps) => held == (ProbedCaps { caps, fallback: false }),
                None => held.fallback && held.caps.wf() && is_fallback(held.caps),
            },
    {
        match probed {
            Some(caps) => ProbedCaps { caps, fallback: false },
            None => ProbedCaps { caps: fallback_caps(), fallback: true },
        }
    }

    /// Whether a request for the values of a parameter looks at the device first: one for
    /// its formats does, while they are a stand-in.
    pub fn wants_fallback_probe(&self, id: u32) -> (probe: bool)
        ensures
            probe == (self.fallback && id == abi::PARAM_ENUM_FORMAT),
    {
        self.fallback && id == abi::PARAM_ENUM_FORMAT
    }

    /// Takes up another look at the device: what it was probed to be is no stand-in.
    pub fn take_probe(&mut self, probed: Option<StreamCaps>)
        ensures
            *final(self) == match probed {
                Some(caps) => ProbedCaps { caps, fallback: false },
                None => *old(self),
            },
    {
        if let Some(caps) = probed {
            self.caps = caps;
            self.fallback = false;
        }
    }

    /// Takes up another look at a device that rejected what it was known to take. Returns
    /// whether its formats have to be announced anew: an unchanged answer would only lead
    /// to the same rejection again.
    pub fn take_reprobe(&mut self, probed: Option<StreamCaps>) -> (changed: bool)
        ensures
            changed == (probed matches Some(caps) && !same_caps(old(self).caps, caps)),
            *final(self) == match probed {
                Some(caps) => ProbedCaps {
                    caps: if changed {
                        caps
                    } else {
                        old(self).caps
                    },
                    fallback: false,
                },
                None => *old(self),
            },
    {
        match probed {
            Some(caps) => {
                self.fallback = false;
                if agree(&self.caps, &caps) {
                    return false;
                }
                self.caps = caps;
                true
            },
            None => false,
        }
    }
}

/// What is offered while a device cannot be probed: every format, mono and stereo,
/// at any common rate.
pub open spec fn is_fallback(caps: StreamCaps) -> bool {
    &&& caps.preferred == 0
    &&& caps.conversion == ConversionKind::Backend
    &&& caps.configurations@.len() == 1
    &&& caps.configurations@[0].formats@ == crate::format::known_formats()
    &&& caps.configurations@[0].min_channels == 1
    &&& caps.configurations@[0].max_channels == 2
    &&& caps.configurations@[0].min_rate == 8000
    &&& caps.configurations@[0].max_rate == 192000
    &&& caps.configurations@[0].preferred_rate is None
    &&& caps.configurations@[0].rates@.len() == 0
    &&& caps.configurations@[0].rate_tolerance == RATE_TOLERANCE
}

/// What is offered while a device cannot be probed.
pub fn fallback_caps() -> (caps: StreamCaps)
    ensures
        caps.wf(),
        is_fallback(caps),
{
    let configuration = StreamConfiguration {
        formats: all_formats(),
        min_channels: 1,
        max_channels: 2,
        min_rate: 8000,
        max_rate: 192000,
        preferred_rate: None,
        rates: Vec::new(),
        rate_tolerance: RATE_TOLERANCE,
    };
    StreamCaps {
        configurations: vec![configuration],
        preferred: 0,
        conversion: ConversionKind::Backend,
    }
}

/// What a configuration runs: any of its formats, in any width of its range, at any rate of
/// its range; where it has discrete rates, at those, and within the tolerance of one of them.
pub proof fn configuration_runs_its_own_values(
    configuration: StreamConfiguration,
    format: u32,
    channels: u32,
    rate: u32,
)
    ensures
        configuration.runs(format, channels, rate) ==> configuration.formats@.contains(format)
            && configuration.min_channels <= channels <= configuration.max_channels,
        ({
            let fits = configuration.formats@.contains(format) && configuration.min_channels
                <= channels <= configuration.max_channels;
            let rates = configuration.rates@;
            &&& fits && rates.len() == 0 ==> (configuration.runs(format, channels, rate)
                <==> configuration.min_rate <= rate <= configuration.max_rate)
            &&& fits && rates.contains(rate) ==> configuration.runs(format, channels, rate)
            &&& fits && rates.len() > 0 && (forall|i: int|
                0 <= i < rates.len() ==> (#[trigger] rates[i] - rate > configuration.rate_tolerance
                    || rate - rates[i] > configuration.rate_tolerance)) ==> !configuration.runs(
                format,
                channels,
                rate,
            )
            &&& forall|i: int|
                fits && 0 <= i < rates.len() && -configuration.rate_tolerance <= #[trigger] rates[i]
                    - rate <= configuration.rate_tolerance ==> configuration.runs(
                    format,
                    channels,
                    rate,
                )
        }),
{
    let rates = configuration.rates@;
    if rates.contains(rate) {
        let i = rates.index_of(rate);
        assert(crate::format::distance(rates[i], rate) == 0);
    }
    assert forall|i: int|
        configuration.formats@.contains(format) && configuration.min_channels <= channels
            <= configuration.max_channels && 0 <= i < rates.len() && -configuration.rate_tolerance
            <= #[trigger] rates[i] - rate <= configuration.rate_tolerance implies configuration.runs(
        format,
        channels,
        rate,
    ) by {
        assert(crate::format::distance(rates[i], rate) <= configuration.rate_tolerance);
    }
}

/// A device runs what one of its configurations runs; values of different ones do not mix.
pub proof fn device_runs_what_a_configuration_runs(
    caps: StreamCaps,
    format: u32,
    channels: u32,
    rate: u32,
    i: int,
)
    requires
        0 <= i < caps.configurations@.len(),
    ensures
        caps.configurations@[i].runs(format, channels, rate) ==> caps.runs(format, channels, rate),
        caps.configurations@.len() == 1 ==> (caps.runs(format, channels, rate)
            <==> caps.configurations@[0].runs(format, channels, rate)),
        (forall|j: int|
            0 <= j < caps.configurations@.len() ==> !(#[trigger] caps.configurations@[j]).runs(
                format,
                channels,
                rate,
            )) ==> !caps.runs(format, channels, rate),
{
}

/// A device that could not be probed is taken to run every known format, in mono and stereo,
/// from 8 kHz to 192 kHz, and to have the kernel convert.
pub proof fn unprobed_device_runs_the_common_formats(
    caps: StreamCaps,
    format: u32,
    channels: u32,
    rate: u32,
)
    requires
        is_fallback(caps),
    ensures
        caps.runs(format, channels, rate) <==> crate::format::format_info(format) is Some && 1
            <= channels <= 2 && 8000 <= rate <= 192000,
        caps.conversion == ConversionKind::Backend,
        caps.configurations@[0].preferred_rate is None,
{
    crate::format::known_formats_are_mapped(format);
    assert(caps.runs(format, channels, rate) <==> caps.configurations@[0].runs(
        format,
        channels,
        rate,
    ));
}

/// Two looks at a device agree exactly if nothing that a request can depend on changed.
pub proof fn agreeing_looks_run_the_same(
    a: StreamCaps,
    b: StreamCaps,
    format: u32,
    channels: u32,
    rate: u32,
)
    requires
        same_caps(a, b),
    ensures
        a.runs(format, channels, rate) <==> b.runs(format, channels, rate),
        a.preferred == b.preferred && a.conversion == b.conversion,
        a.configurations@.len() == b.configurations@.len(),
        forall|i: int|
            0 <= i < a.configurations@.len() ==> (#[trigger] a.configurations@[i]).preferred_rate
                == b.configurations@[i].preferred_rate && a.configurations@[i].rates@
                == b.configurations@[i].rates@ && a.configurations@[i].formats@
                == b.configurations@[i].formats@,
{
    if a.runs(format, channels, rate) {
        let i = choose|i: int|
            0 <= i < a.configurations@.len() && (#[trigger] a.configurations@[i]).runs(
                format,
                channels,
                rate,
            );
        assert(same_configuration(a.configurations@[i], b.configurations@[i]));
        assert(b.configurations@[i].runs(format, channels, rate));
    }
    if b.runs(format, channels, rate) {
        let i = choose|i: int|
            0 <= i < b.configurations@.len() && (#[trigger] b.configurations@[i]).runs(
                format,
                channels,
                rate,
            );
        assert(same_configuration(a.configurations@[i], b.configurations@[i]));
        assert(a.configurations@[i].runs(format, channels, rate));
    }
}

} // verus!
