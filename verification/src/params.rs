//! Node parameters: reading a properties object, and applying it to the tunables.
use vstd::prelude::*;

use crate::abi;
use crate::arith::{
    floor_pow2, floor_pow2_is_the_largest, floor_pow2_of_power, floor_power_of_two, imax, imin,
    is_pow2,
};
use crate::errno::Errno;

verus! {

/// The largest delay setting, in eighths of a period.
pub const MAX_DELAY_EIGHTHS: u32 = 1024;

/// The delay setting of a new playback node.
pub const DEFAULT_DELAY_EIGHTHS: u32 = 10;

/// The smallest and the largest fragment that is asked for, in bytes.
pub const MIN_FRAGMENT_BYTES: u32 = 64;
pub const MAX_FRAGMENT_BYTES: u32 = 16384;

/// The fragment that a request stands for: 0 leaves it to the device, anything else
/// is rounded down to a power of two and moved into the range.
pub open spec fn fragment_of(v: u32) -> int {
    if v == 0 {
        0
    } else {
        imax(
            MIN_FRAGMENT_BYTES as int,
            imin(floor_pow2(v as nat) as int, MAX_FRAGMENT_BYTES as int),
        )
    }
}

/// The fragment that a request stands for.
pub fn normalize_fragment(v: u32) -> (fragment: u32)
    ensures
        fragment == fragment_of(v),
{
    if v == 0 {
        0
    } else {
        let power: u32 = floor_power_of_two(v);
        if power < MIN_FRAGMENT_BYTES {
            MIN_FRAGMENT_BYTES
        } else if power > MAX_FRAGMENT_BYTES {
            MAX_FRAGMENT_BYTES
        } else {
            power
        }
    }
}

/// A fragment is a power of two within the range, and stands for itself.
pub proof fn fragments_are_normal(v: u32)
    requires
        v != 0,
    ensures
        is_pow2(fragment_of(v) as nat),
        MIN_FRAGMENT_BYTES <= fragment_of(v) <= MAX_FRAGMENT_BYTES,
        fragment_of(fragment_of(v) as u32) == fragment_of(v),
{
    floor_pow2_is_the_largest(v as nat);
    vstd::arithmetic::power2::lemma2_to64();
    assert(MIN_FRAGMENT_BYTES == vstd::arithmetic::power2::pow2(6));
    assert(MAX_FRAGMENT_BYTES == vstd::arithmetic::power2::pow2(14));
    let f = fragment_of(v) as nat;
    assert(is_pow2(f));
    let k = choose|k: nat| f == #[trigger] vstd::arithmetic::power2::pow2(k);
    floor_pow2_of_power(k);
}

/// A value in the tunables of a properties object.
#[derive(Debug, Clone, PartialEq, Eq)]
pub enum ParamItem {
    Text(String),
    Int(i32),
    /// A value of another type.
    Other,
}

/// The value of a property.
#[derive(Debug, Clone, PartialEq, Eq)]
pub enum PropValue {
    Long(i64),
    Struct(Vec<ParamItem>),
    /// A value of another type.
    Other,
}

/// A property.
#[derive(Debug, Clone, PartialEq, Eq)]
pub struct PropEntry {
    pub key: u32,
    pub value: PropValue,
}

/// What a properties object changes; `None` where it says nothing.
#[derive(Debug, Clone, Copy, PartialEq, Eq, Structural)]
pub struct PropsUpdate {
    pub latency_offset_ns: Option<i64>,
    pub oss_delay: Option<u32>,
    pub oss_fragment: Option<u32>,
}

impl Default for PropsUpdate {
    fn default() -> (update: PropsUpdate)
        ensures
            update == nothing(),
    {
        PropsUpdate { latency_offset_ns: None, oss_delay: None, oss_fragment: None }
    }
}

/// An update that changes nothing.
pub open spec fn nothing() -> PropsUpdate {
    PropsUpdate { latency_offset_ns: None, oss_delay: None, oss_fragment: None }
}

/// An update after a pair of a tunable's name and its value. Unknown names, values of
/// another type and negative values are ignored.
pub open spec fn with_pair(update: PropsUpdate, key: ParamItem, value: ParamItem) -> PropsUpdate {
    match (key, value) {
        (ParamItem::Text(name), ParamItem::Int(x)) => if x < 0 {
            update
        } else if name@ == "oss.delay"@ {
            PropsUpdate { oss_delay: Some(x as u32), ..update }
        } else if name@ == "oss.fragment"@ {
            PropsUpdate { oss_fragment: Some(x as u32), ..update }
        } else {
            update
        },
        _ => update,
    }
}

/// An update after the first `pairs` pairs of a list.
pub open spec fn with_pairs(update: PropsUpdate, items: Seq<ParamItem>, pairs: nat) -> PropsUpdate
    decreases pairs,
{
    if pairs == 0 {
        update
    } else {
        with_pair(
            with_pairs(update, items, (pairs - 1) as nat),
            items[2 * (pairs - 1)],
            items[2 * (pairs - 1) + 1],
        )
    }
}

/// An update after a value of tunables: a list of pairs, or nothing.
pub open spec fn with_tunables(update: PropsUpdate, value: PropValue) -> PropsUpdate {
    match value {
        PropValue::Struct(items) => if items@.len() % 2 == 0 {
            with_pairs(update, items@, (items@.len() / 2) as nat)
        } else {
            update
        },
        _ => update,
    }
}

/// An update after a property. What the volume control owns, and what is unknown, is
/// ignored.
pub open spec fn with_property(update: PropsUpdate, entry: PropEntry) -> PropsUpdate {
    if entry.key == abi::PROP_LATENCY_OFFSET_NSEC {
        match entry.value {
            PropValue::Long(ns) => PropsUpdate { latency_offset_ns: Some(ns), ..update },
            _ => update,
        }
    } else if entry.key == abi::PROP_PARAMS {
        with_tunables(update, entry.value)
    } else {
        update
    }
}

/// What a properties object changes: of several values for one thing, the last.
pub open spec fn update_of(entries: Seq<PropEntry>) -> PropsUpdate
    decreases entries.len(),
{
    if entries.len() == 0 {
        nothing()
    } else {
        with_property(update_of(entries.drop_last()), entries.last())
    }
}

/// Reads the tunables of a properties object.
pub fn parse_oss_params(value: &PropValue, update: &mut PropsUpdate)
    ensures
        *final(update) == with_tunables(*old(update), *value),
{
    let items = match value {
        PropValue::Struct(items) => items,
        _ => return ,
    };
    if items.len() % 2 != 0 {
        return ;
    }
    let delay_key = "oss.delay".to_owned();
    let fragment_key = "oss.fragment".to_owned();
    let mut pair: usize = 0;
    while pair < items.len() / 2
        invariant
            pair <= items.len() / 2,
            items.len() % 2 == 0,
            delay_key@ == "oss.delay"@,
            fragment_key@ == "oss.fragment"@,
            *update == with_pairs(*old(update), items@, pair as nat),
        decreases items.len() / 2 - pair,
    {
        match (&items[2 * pair], &items[2 * pair + 1]) {
            (ParamItem::Text(name), ParamItem::Int(x)) => {
                if *x >= 0 {
                    if *name == delay_key {
                        update.oss_delay = Some(*x as u32);
                    } else if *name == fragment_key {
                        update.oss_fragment = Some(*x as u32);
                    }
                }
            },
            _ => {},
        }
        pair = pair + 1;
    }
}

/// Reads a properties object.
pub fn parse_props_update(properties: &Vec<PropEntry>) -> (update: PropsUpdate)
    ensures
        update == update_of(properties@),
{
    let mut update = PropsUpdate {
        latency_offset_ns: None,
        oss_delay: None,
        oss_fragment: None,
    };
    let mut i: usize = 0;
    assert(properties@.take(0) =~= seq![]);
    while i < properties.len()
        invariant
            i <= properties.len(),
            update == update_of(properties@.take(i as int)),
        decreases properties.len() - i,
    {
        let entry = &properties[i];
        if entry.key == abi::PROP_LATENCY_OFFSET_NSEC {
            match entry.value {
                PropValue::Long(ns) => {
                    update.latency_offset_ns = Some(ns);
                },
                _ => {},
            }
        } else if entry.key == abi::PROP_PARAMS {
            parse_oss_params(&entry.value, &mut update);
        }
        i = i + 1;
        proof {
            let upto = properties@.take(i as int);
            assert(upto.drop_last() =~= properties@.take(i - 1));
            assert(upto.last() == properties@[i - 1]);
        }
    }
    assert(properties@.take(i as int) =~= properties@);
    update
}

/// A request to set a node parameter.
#[derive(Debug, Clone, Copy, PartialEq, Eq, Structural)]
pub enum NodeParamRequest {
    ResetProps,
    Props(PropsUpdate),
    ResetProcessLatency,
    ProcessLatency,
}

/// What the host handed over for a parameter, as far as it could be read.
#[derive(Debug, Clone, PartialEq, Eq)]
pub enum ParamPayload {
    /// Nothing: the parameter is reset.
    Absent,
    /// An object of some type, with its properties.
    Object { type_: u32, properties: Vec<PropEntry> },
    /// A process latency.
    ProcessLatency,
    /// Something else, or unreadable.
    Unreadable,
}

/// What a request to set a parameter comes to.
pub open spec fn param_request(id: u32, payload: ParamPayload) -> Result<NodeParamRequest, Errno> {
    if id == abi::PARAM_PROPS {
        match payload {
            ParamPayload::Absent => Ok(NodeParamRequest::ResetProps),
            ParamPayload::Object { type_, properties } => if type_ == abi::OBJECT_PROPS {
                Ok(NodeParamRequest::Props(update_of(properties@)))
            } else {
                Err(Errno::Invalid)
            },
            _ => Err(Errno::Invalid),
        }
    } else if id == abi::PARAM_PROCESS_LATENCY {
        match payload {
            ParamPayload::Absent => Ok(NodeParamRequest::ResetProcessLatency),
            ParamPayload::ProcessLatency => Ok(NodeParamRequest::ProcessLatency),
            _ => Err(Errno::Invalid),
        }
    } else {
        Err(Errno::NoEntry)
    }
}

/// Reads a request to set a parameter: an unknown one is refused before its payload is
/// looked at, a payload of another type is invalid.
pub fn decode_node_param(id: u32, payload: &ParamPayload) -> (request: Result<
    NodeParamRequest,
    Errno,
>)
    ensures
        request == param_request(id, *payload),
{
    if id == abi::PARAM_PROPS {
        match payload {
            ParamPayload::Absent => Ok(NodeParamRequest::ResetProps),
            ParamPayload::Object { type_, properties } => if *type_ == abi::OBJECT_PROPS {
                Ok(NodeParamRequest::Props(parse_props_update(properties)))
            } else {
                Err(Errno::Invalid)
            },
            _ => Err(Errno::Invalid),
        }
    } else if id == abi::PARAM_PROCESS_LATENCY {
        match payload {
            ParamPayload::Absent => Ok(NodeParamRequest::ResetProcessLatency),
            ParamPayload::ProcessLatency => Ok(NodeParamRequest::ProcessLatency),
            _ => Err(Errno::Invalid),
        }
    } else {
        Err(Errno::NoEntry)
    }
}

/// The tunables of a node, as the host reads them back.
#[derive(Debug, Clone, Copy, PartialEq, Eq, Structural)]
pub struct Tunables {
    /// Playback only: the delay setting, in eighths of a period.
    pub playback: bool,
    pub oss_delay: u32,
    pub oss_delay_default: u32,
    /// 0 leaves the fragment to the device.
    pub oss_fragment: u32,
    pub oss_fragment_default: u32,
}

/// The next step of a change of the tunables.
#[derive(Debug, Clone, Copy, PartialEq, Eq)]
pub enum ParamAction {
    /// Set the process latency's offset.
    SetLatencyOffset(i64),
    /// Announce the change, store the tunables on the data loop, and install the device
    /// of a running port again. `announce` is false for a reset, which is announced at
    /// its end.
    Store { tunables: Tunables, announce: bool },
    /// Set the process latency to the default.
    ResetProcessLatency,
    /// Set the process latency as requested.
    SetProcessLatency,
    /// Announce the changed properties.
    AnnounceProps,
    Done(Result<(), Errno>),
}

/// Where a change of the tunables stands. A store in progress keeps the tunables that
/// it would replace.
#[derive(Debug, Clone, Copy, PartialEq, Eq, Structural)]
pub enum ParamStage {
    LatencyOffset(PropsUpdate),
    StoringDelay { update: PropsUpdate, previous: Tunables },
    StoringFragment { previous: Tunables },
    Resetting { previous: Tunables },
    ResettingLatency,
    Announcing,
    Latency,
    Done,
}

/// A change in progress, the tunables, and the next step.
pub type ParamStep = (ParamStage, Tunables, ParamAction);

/// The change ends.
pub open spec fn change_done(tunables: Tunables, result: Result<(), Errno>) -> ParamStep {
    (ParamStage::Done, tunables, ParamAction::Done(result))
}

/// The fragment's turn: a request that changes nothing does not touch a running device.
pub open spec fn fragment_turn(tunables: Tunables, update: PropsUpdate) -> ParamStep {
    match update.oss_fragment {
        Some(v) if fragment_of(v) != tunables.oss_fragment => {
            let changed = Tunables { oss_fragment: fragment_of(v) as u32, ..tunables };
            (
                ParamStage::StoringFragment { previous: tunables },
                changed,
                ParamAction::Store { tunables: changed, announce: true },
            )
        },
        _ => change_done(tunables, Ok(())),
    }
}

/// The delay's turn: capped, and only where it changes. A capture node has none.
pub open spec fn delay_turn(tunables: Tunables, update: PropsUpdate) -> ParamStep {
    match update.oss_delay {
        Some(v) if tunables.playback && imin(v as int, MAX_DELAY_EIGHTHS as int)
            != tunables.oss_delay => {
            let changed = Tunables {
                oss_delay: imin(v as int, MAX_DELAY_EIGHTHS as int) as u32,
                ..tunables
            };
            (
                ParamStage::StoringDelay { update, previous: tunables },
                changed,
                ParamAction::Store { tunables: changed, announce: true },
            )
        },
        _ => fragment_turn(tunables, update),
    }
}

/// The first step of a request.
pub open spec fn change_begun(tunables: Tunables, request: NodeParamRequest) -> ParamStep {
    match request {
        NodeParamRequest::ResetProps => {
            let changed = Tunables {
                oss_delay: if tunables.playback {
                    tunables.oss_delay_default
                } else {
                    tunables.oss_delay
                },
                oss_fragment: tunables.oss_fragment_default,
                ..tunables
            };
            (
                ParamStage::Resetting { previous: tunables },
                changed,
                ParamAction::Store { tunables: changed, announce: false },
            )
        },
        NodeParamRequest::Props(update) => match update.latency_offset_ns {
            Some(ns) => (
                ParamStage::LatencyOffset(update),
                tunables,
                ParamAction::SetLatencyOffset(ns),
            ),
            None => delay_turn(tunables, update),
        },
        NodeParamRequest::ResetProcessLatency => (
            ParamStage::Latency,
            tunables,
            ParamAction::ResetProcessLatency,
        ),
        NodeParamRequest::ProcessLatency => (
            ParamStage::Latency,
            tunables,
            ParamAction::SetProcessLatency,
        ),
    }
}

/// What the result of a step leads to: a store that failed is undone and ends the
/// change with its error.
pub open spec fn change_next(
    stage: ParamStage,
    tunables: Tunables,
    result: Result<(), Errno>,
) -> ParamStep {
    match stage {
        ParamStage::LatencyOffset(update) => delay_turn(tunables, update),
        ParamStage::StoringDelay { update, previous } => match result {
            Ok(_) => fragment_turn(tunables, update),
            Err(_) => change_done(previous, result),
        },
        ParamStage::StoringFragment { previous } => match result {
            Ok(_) => change_done(tunables, Ok(())),
            Err(_) => change_done(previous, result),
        },
        ParamStage::Resetting { previous } => match result {
            Ok(_) => (
                ParamStage::ResettingLatency,
                tunables,
                ParamAction::ResetProcessLatency,
            ),
            Err(_) => change_done(previous, result),
        },
        ParamStage::ResettingLatency => (
            ParamStage::Announcing,
            tunables,
            ParamAction::AnnounceProps,
        ),
        ParamStage::Announcing | ParamStage::Latency | ParamStage::Done => change_done(
            tunables,
            Ok(()),
        ),
    }
}

fn finish_change(tunables: &mut Tunables, result: Result<(), Errno>) -> (r: (
    ParamStage,
    ParamAction,
))
    ensures
        (r.0, *final(tunables), r.1) == change_done(*old(tunables), result),
{
    (ParamStage::Done, ParamAction::Done(result))
}

fn turn_fragment(tunables: &mut Tunables, update: PropsUpdate) -> (r: (ParamStage, ParamAction))
    ensures
        (r.0, *final(tunables), r.1) == fragment_turn(*old(tunables), update),
{
    if let Some(v) = update.oss_fragment {
        let fragment: u32 = normalize_fragment(v);
        if fragment != tunables.oss_fragment {
            let previous = *tunables;
            tunables.oss_fragment = fragment;
            return (
                ParamStage::StoringFragment { previous },
                ParamAction::Store { tunables: *tunables, announce: true },
            );
        }
    }
    finish_change(tunables, Ok(()))
}

fn turn_delay(tunables: &mut Tunables, update: PropsUpdate) -> (r: (ParamStage, ParamAction))
    ensures
        (r.0, *final(tunables), r.1) == delay_turn(*old(tunables), update),
{
    if let Some(v) = update.oss_delay {
        let delay: u32 = v.min(MAX_DELAY_EIGHTHS);
        if tunables.playback && delay != tunables.oss_delay {
            let previous = *tunables;
            tunables.oss_delay = delay;
            return (
                ParamStage::StoringDelay { update, previous },
                ParamAction::Store { tunables: *tunables, announce: true },
            );
        }
    }
    turn_fragment(tunables, update)
}

/// Starts to carry out a request: the latency offset first, then the delay, then the
/// fragment.
pub fn apply_node_param(tunables: &mut Tunables, request: NodeParamRequest) -> (r: (
    ParamStage,
    ParamAction,
))
    ensures
        (r.0, *final(tunables), r.1) == change_begun(*old(tunables), request),
{
    match request {
        NodeParamRequest::ResetProps => {
            let previous = *tunables;
            if tunables.playback {
                tunables.oss_delay = tunables.oss_delay_default;
            }
            tunables.oss_fragment = tunables.oss_fragment_default;
            (
                ParamStage::Resetting { previous },
                ParamAction::Store { tunables: *tunables, announce: false },
            )
        },
        NodeParamRequest::Props(update) => match update.latency_offset_ns {
            Some(ns) => (ParamStage::LatencyOffset(update), ParamAction::SetLatencyOffset(ns)),
            None => turn_delay(tunables, update),
        },
        NodeParamRequest::ResetProcessLatency => (
            ParamStage::Latency,
            ParamAction::ResetProcessLatency,
        ),
        NodeParamRequest::ProcessLatency => (ParamStage::Latency, ParamAction::SetProcessLatency),
    }
}

/// Takes the result of a step and names the next one.
pub fn step_node_param(
    stage: ParamStage,
    tunables: &mut Tunables,
    result: Result<(), Errno>,
) -> (r: (ParamStage, ParamAction))
    ensures
        (r.0, *final(tunables), r.1) == change_next(stage, *old(tunables), result),
{
    match stage {
        ParamStage::LatencyOffset(update) => turn_delay(tunables, update),
        ParamStage::StoringDelay { update, previous } => match result {
            Ok(_) => turn_fragment(tunables, update),
            Err(_) => {
                *tunables = previous;
                finish_change(tunables, result)
            },
        },
        ParamStage::StoringFragment { previous } => match result {
            Ok(_) => finish_change(tunables, Ok(())),
            Err(_) => {
                *tunables = previous;
                finish_change(tunables, result)
            },
        },
        ParamStage::Resetting { previous } => match result {
            Ok(_) => (ParamStage::ResettingLatency, ParamAction::ResetProcessLatency),
            Err(_) => {
                *tunables = previous;
                finish_change(tunables, result)
            },
        },
        ParamStage::ResettingLatency => (ParamStage::Announcing, ParamAction::AnnounceProps),
        ParamStage::Announcing | ParamStage::Latency | ParamStage::Done => finish_change(
            tunables,
            Ok(()),
        ),
    }
}

/// The tunables that hold if a store fails: those before it.
pub open spec fn stands_back(stage: ParamStage) -> Option<Tunables> {
    match stage {
        ParamStage::StoringDelay { previous, .. } => Some(previous),
        ParamStage::StoringFragment { previous } => Some(previous),
        ParamStage::Resetting { previous } => Some(previous),
        _ => None,
    }
}

/// A failed store ends the change with its own error and leaves the tunables as they
/// were before it.
pub proof fn failed_store_changes_nothing(stage: ParamStage, tunables: Tunables, error: Errno)
    requires
        stands_back(stage) is Some,
    ensures
        change_next(stage, tunables, Err(error)) == (
            ParamStage::Done,
            stands_back(stage)->0,
            ParamAction::Done(Err(error)),
        ),
{
}

/// A request that repeats what is set stores nothing, so that no running device is
/// rebuilt for it.
pub proof fn unchanged_echo_stores_nothing(tunables: Tunables, update: PropsUpdate)
    requires
        update.oss_delay matches Some(v) ==> !tunables.playback || imin(
            v as int,
            MAX_DELAY_EIGHTHS as int,
        ) == tunables.oss_delay,
        update.oss_fragment matches Some(v) ==> fragment_of(v) == tunables.oss_fragment,
    ensures
        delay_turn(tunables, update) == change_done(tunables, Ok(())),
{
}

/// The delay is within its bound, and so is the one that a reset goes back to.
pub open spec fn delay_bounded(tunables: Tunables) -> bool {
    tunables.oss_delay <= MAX_DELAY_EIGHTHS && tunables.oss_delay_default <= MAX_DELAY_EIGHTHS
}

/// Whatever is requested, and whichever stores fail, a delay that was within its bound
/// stays within it, at every step.
pub proof fn delay_stays_bounded(
    stage: ParamStage,
    tunables: Tunables,
    request: NodeParamRequest,
    result: Result<(), Errno>,
)
    requires
        delay_bounded(tunables),
        stands_back(stage) matches Some(previous) ==> delay_bounded(previous),
    ensures
        ({
            let (first, begun, _) = change_begun(tunables, request);
            &&& delay_bounded(begun)
            &&& stands_back(first) matches Some(previous) ==> delay_bounded(previous)
        }),
        ({
            let (next, changed, _) = change_next(stage, tunables, result);
            &&& delay_bounded(changed)
            &&& stands_back(next) matches Some(previous) ==> delay_bounded(previous)
        }),
{
}

/// What a change of the process latency comes to.
#[derive(Debug, Clone, Copy, PartialEq, Eq, Structural)]
pub enum LatencyChange {
    Unchanged,
    /// It changed, but not its offset.
    Changed,
    /// Its offset changed, which the properties show too.
    OffsetChanged,
}

/// Weighs a new process latency against the present one: its offset, and whether its
/// other parts are the same.
pub fn handle_process_latency(current_ns: i64, new_ns: i64, rest_same: bool) -> (change:
    LatencyChange)
    ensures
        change == if current_ns != new_ns {
            LatencyChange::OffsetChanged
        } else if rest_same {
            LatencyChange::Unchanged
        } else {
            LatencyChange::Changed
        },
{
    if current_ns != new_ns {
        LatencyChange::OffsetChanged
    } else if rest_same {
        LatencyChange::Unchanged
    } else {
        LatencyChange::Changed
    }
}

/// What answers a request for one value of a node parameter.
#[derive(Debug, Clone, Copy, PartialEq, Eq, Structural)]
pub enum ParamBuild {
    /// The description of the latency offset.
    LatencyOffsetInfo,
    /// The description of the delay setting, with its value.
    DelayInfo(u32),
    /// The description of the fragment size, with its value.
    FragmentInfo(u32),
    /// The properties: the delay, where the node has one, and the fragment.
    Props { oss_delay: Option<u32>, oss_fragment: u32 },
    ProcessLatency,
    /// There are no more values of this parameter.
    Exhausted,
    /// There is no such parameter.
    Unknown,
}

/// What answers a request for one value of a node parameter.
pub open spec fn node_param_of(tunables: Tunables, id: u32, index: u32) -> ParamBuild {
    if id == abi::PARAM_PROP_INFO && index == 0 {
        ParamBuild::LatencyOffsetInfo
    } else if id == abi::PARAM_PROP_INFO && index == 1 && tunables.playback {
        ParamBuild::DelayInfo(tunables.oss_delay)
    } else if id == abi::PARAM_PROP_INFO && (index == 1 || (index == 2 && tunables.playback)) {
        ParamBuild::FragmentInfo(tunables.oss_fragment)
    } else if id == abi::PARAM_PROPS && index == 0 {
        ParamBuild::Props {
            oss_delay: if tunables.playback {
                Some(tunables.oss_delay)
            } else {
                None
            },
            oss_fragment: tunables.oss_fragment,
        }
    } else if id == abi::PARAM_PROCESS_LATENCY && index == 0 {
        ParamBuild::ProcessLatency
    } else if id == abi::PARAM_PROP_INFO || id == abi::PARAM_PROPS || id
        == abi::PARAM_PROCESS_LATENCY {
        ParamBuild::Exhausted
    } else {
        ParamBuild::Unknown
    }
}

/// Answers a request for one value of a node parameter.
pub fn build_node_param(tunables: &Tunables, id: u32, index: u32) -> (build: ParamBuild)
    ensures
        build == node_param_of(*tunables, id, index),
{
    match (id, index) {
        (abi::PARAM_PROP_INFO, 0) => ParamBuild::LatencyOffsetInfo,
        (abi::PARAM_PROP_INFO, 1) => if tunables.playback {
            ParamBuild::DelayInfo(tunables.oss_delay)
        } else {
            ParamBuild::FragmentInfo(tunables.oss_fragment)
        },
        (abi::PARAM_PROP_INFO, 2) => if tunables.playback {
            ParamBuild::FragmentInfo(tunables.oss_fragment)
        } else {
            ParamBuild::Exhausted
        },
        (abi::PARAM_PROPS, 0) => ParamBuild::Props {
            oss_delay: if tunables.playback {
                Some(tunables.oss_delay)
            } else {
                None
            },
            oss_fragment: tunables.oss_fragment,
        },
        (abi::PARAM_PROCESS_LATENCY, 0) => ParamBuild::ProcessLatency,
        (abi::PARAM_PROP_INFO | abi::PARAM_PROPS | abi::PARAM_PROCESS_LATENCY, _) => {
            ParamBuild::Exhausted
        },
        _ => ParamBuild::Unknown,
    }
}

/// A fragment is the request rounded down to a power of two, between 64 and 16384 bytes;
/// zero stays zero.
pub proof fn fragment_is_rounded_down(v: u32)
    ensures
        v == 0 ==> fragment_of(v) == 0,
        0 < v < 64 ==> fragment_of(v) == 64,
        64 <= v < 16384 ==> fragment_of(v) <= v < 2 * fragment_of(v),
        v >= 16384 ==> fragment_of(v) == 16384,
        v > 0 ==> is_pow2(fragment_of(v) as nat) && 64 <= fragment_of(v) <= 16384,
{
    if v > 0 {
        fragments_are_normal(v);
        floor_pow2_is_the_largest(v as nat);
        if v >= 16384 {
            vstd::arithmetic::power2::lemma2_to64();
            floor_pow2_of_power(14);
            crate::arith::floor_pow2_grows(16384, v as nat);
        } else if v < 64 {
            vstd::arithmetic::power2::lemma2_to64();
            floor_pow2_of_power(6);
            crate::arith::floor_pow2_grows(v as nat, 64);
        } else {
            vstd::arithmetic::power2::lemma2_to64();
            floor_pow2_of_power(6);
            floor_pow2_of_power(14);
            crate::arith::floor_pow2_grows(64, v as nat);
            crate::arith::floor_pow2_grows(v as nat, 16384);
        }
    }
}

/// The pair at `i` names a tunable and gives it this value.
pub open spec fn gives(items: Seq<ParamItem>, i: int, name: Seq<char>, x: u32) -> bool {
    &&& items[2 * i] matches ParamItem::Text(text) && text@ == name
    &&& items[2 * i + 1] matches ParamItem::Int(value) && value == x
}

/// The pair at `i` gives the tunable no value that could be used.
pub open spec fn is_silent(items: Seq<ParamItem>, i: int, name: Seq<char>) -> bool {
    match (items[2 * i], items[2 * i + 1]) {
        (ParamItem::Text(text), ParamItem::Int(value)) => text@ != name || value < 0,
        _ => true,
    }
}

proof fn names_differ()
    ensures
        "oss.delay"@ != "oss.fragment"@,
{
    reveal_strlit("oss.delay");
    reveal_strlit("oss.fragment");
    assert("oss.delay"@.len() != "oss.fragment"@.len());
}

proof fn pairs_are_read(update: PropsUpdate, items: Seq<ParamItem>, pairs: nat)
    ensures
        ({
            let after = with_pairs(update, items, pairs);
            &&& after.latency_offset_ns == update.latency_offset_ns
            &&& (forall|i: int| 0 <= i < pairs ==> #[trigger] is_silent(items, i, "oss.delay"@))
                ==> after.oss_delay == update.oss_delay
            &&& (forall|i: int| 0 <= i < pairs ==> #[trigger] is_silent(items, i, "oss.fragment"@))
                ==> after.oss_fragment == update.oss_fragment
            &&& forall|i: int, x: u32|
                #![trigger gives(items, i, "oss.delay"@, x)]
                0 <= i < pairs && gives(items, i, "oss.delay"@, x) && (forall|j: int|
                    i < j < pairs ==> #[trigger] is_silent(items, j, "oss.delay"@))
                    ==> after.oss_delay == Some(x)
            &&& forall|i: int, x: u32|
                #![trigger gives(items, i, "oss.fragment"@, x)]
                0 <= i < pairs && gives(items, i, "oss.fragment"@, x) && (forall|j: int|
                    i < j < pairs ==> #[trigger] is_silent(items, j, "oss.fragment"@))
                    ==> after.oss_fragment == Some(x)
        }),
    decreases pairs,
{
    names_differ();
    if pairs > 0 {
        let last = (pairs - 1) as nat;
        pairs_are_read(update, items, last);
        let delay = "oss.delay"@;
        let fragment = "oss.fragment"@;
        let before = with_pairs(update, items, last);
        let after = with_pairs(update, items, pairs);
        assert(is_silent(items, last as int, delay) ==> after.oss_delay == before.oss_delay);
        assert(is_silent(items, last as int, fragment) ==> after.oss_fragment
            == before.oss_fragment);
    }
}

/// What the tunables of an object say. Each of them gets the last value that its name is
/// given, unless none is usable: then it is left alone. A list that does not consist of
/// pairs says nothing.
pub proof fn last_usable_value_counts(update: PropsUpdate, value: PropValue)
    ensures
        ({
            let after = with_tunables(update, value);
            &&& after.latency_offset_ns == update.latency_offset_ns
            &&& (value !is Struct || value->Struct_0@.len() % 2 != 0) ==> after == update
            &&& value matches PropValue::Struct(items) ==> {
                let pairs = items@.len() as int / 2;
                items@.len() % 2 == 0 ==> {
                    &&& (forall|i: int|
                        0 <= i < pairs ==> #[trigger] is_silent(items@, i, "oss.delay"@))
                        ==> after.oss_delay == update.oss_delay
                    &&& (forall|i: int|
                        0 <= i < pairs ==> #[trigger] is_silent(items@, i, "oss.fragment"@))
                        ==> after.oss_fragment == update.oss_fragment
                    &&& forall|i: int, x: u32|
                        #![trigger gives(items@, i, "oss.delay"@, x)]
                        0 <= i < pairs && gives(items@, i, "oss.delay"@, x) && (forall|j: int|
                            i < j < pairs ==> #[trigger] is_silent(items@, j, "oss.delay"@))
                            ==> after.oss_delay == Some(x)
                    &&& forall|i: int, x: u32|
                        #![trigger gives(items@, i, "oss.fragment"@, x)]
                        0 <= i < pairs && gives(items@, i, "oss.fragment"@, x) && (forall|j: int|
                            i < j < pairs ==> #[trigger] is_silent(items@, j, "oss.fragment"@))
                            ==> after.oss_fragment == Some(x)
                }
            }
        }),
{
    if let PropValue::Struct(items) = value {
        pairs_are_read(update, items@, (items@.len() / 2) as nat);
    }
}

/// What one more property adds to an object: the latency offset is set by a long value of its
/// key, the tunables by the list of theirs, and everything else changes nothing.
pub proof fn properties_are_read_in_turn(entries: Seq<PropEntry>, entry: PropEntry)
    ensures
        ({
            let before = update_of(entries);
            let after = update_of(entries.push(entry));
            &&& entry.key == 0x1000e && entry.value is Long ==> after == (PropsUpdate {
                latency_offset_ns: Some(entry.value->Long_0),
                ..before
            })
            &&& entry.key == 0x80001 ==> after == with_tunables(before, entry.value)
            &&& entry.key != 0x80001 && !(entry.key == 0x1000e && entry.value is Long) ==> after
                == before
            &&& update_of(Seq::empty()) == (PropsUpdate {
                latency_offset_ns: None,
                oss_delay: None,
                oss_fragment: None,
            })
        }),
{
    assert(entries.push(entry).drop_last() =~= entries);
}

/// What can be set: properties by an object of theirs, the process latency by one of its
/// own, and both back to their defaults by nothing. Another payload is invalid, another
/// parameter has no entry.
pub proof fn only_known_parameters_are_set(id: u32, payload: ParamPayload)
    ensures
        ({
            let request = param_request(id, payload);
            &&& id != 2 && id != 16 ==> request == Err::<NodeParamRequest, Errno>(Errno::NoEntry)
            &&& id == 2 && payload is Absent ==> request == Ok::<NodeParamRequest, Errno>(
                NodeParamRequest::ResetProps,
            )
            &&& id == 16 && payload is Absent ==> request == Ok::<NodeParamRequest, Errno>(
                NodeParamRequest::ResetProcessLatency,
            )
            &&& id == 16 && payload is ProcessLatency ==> request == Ok::<NodeParamRequest, Errno>(
                NodeParamRequest::ProcessLatency,
            )
            &&& id == 2 && payload is Object && payload->type_ == 0x40002 ==> request == Ok::<
                NodeParamRequest,
                Errno,
            >(NodeParamRequest::Props(update_of(payload->properties@)))
            &&& id == 2 && !(payload is Absent) && !(payload is Object && payload->type_ == 0x40002)
                ==> request == Err::<NodeParamRequest, Errno>(Errno::Invalid)
            &&& id == 16 && !(payload is Absent) && !(payload is ProcessLatency) ==> request
                == Err::<NodeParamRequest, Errno>(Errno::Invalid)
        }),
{
}

/// The steps of a change of which every one succeeds, and the tunables at its end.
pub open spec fn carried_out(step: ParamStep, steps: nat) -> (Seq<ParamAction>, Tunables)
    decreases steps,
{
    if steps == 0 || step.2 is Done {
        (seq![step.2], step.1)
    } else {
        let (rest, end) = carried_out(
            change_next(step.0, step.1, Ok::<(), Errno>(())),
            (steps - 1) as nat,
        );
        (seq![step.2] + rest, end)
    }
}

/// What a properties object brings about, with or without a latency offset. The offset is
/// set first; then the delay, at most 1024, where the node plays and it differs; then the
/// fragment, in its normal form, where that differs. Each of the two is announced and stored
/// with the tunables as they then are, and at the end they are as requested and otherwise as
/// before.
pub proof fn properties_take_effect(tunables: Tunables, update: PropsUpdate)
    ensures
        ({
            let (actions, end) = carried_out(
                change_begun(tunables, NodeParamRequest::Props(update)),
                4,
            );
            let delay = if tunables.playback && update.oss_delay is Some {
                if update.oss_delay->0 > 1024 {
                    1024
                } else {
                    update.oss_delay->0
                }
            } else {
                tunables.oss_delay
            };
            let fragment = if update.oss_fragment is Some {
                fragment_of(update.oss_fragment->0) as u32
            } else {
                tunables.oss_fragment
            };
            let delayed = Tunables { oss_delay: delay, ..tunables };
            let offset_step = if update.latency_offset_ns is Some {
                seq![ParamAction::SetLatencyOffset(update.latency_offset_ns->0)]
            } else {
                seq![]
            };
            let delay_step = if delay != tunables.oss_delay {
                seq![ParamAction::Store { tunables: delayed, announce: true }]
            } else {
                seq![]
            };
            let fragment_step = if fragment != tunables.oss_fragment {
                seq![ParamAction::Store { tunables: end, announce: true }]
            } else {
                seq![]
            };
            &&& end == (Tunables { oss_delay: delay, oss_fragment: fragment, ..tunables })
            &&& actions == offset_step + delay_step + fragment_step + seq![
                ParamAction::Done(Ok(())),
            ]
        }),
{
    if update.oss_fragment is Some {
        fragment_is_rounded_down(update.oss_fragment->0);
    }
    let first = change_begun(tunables, NodeParamRequest::Props(update));
    let second = change_next(first.0, first.1, Ok::<(), Errno>(()));
    let third = change_next(second.0, second.1, Ok::<(), Errno>(()));
    let fourth = change_next(third.0, third.1, Ok::<(), Errno>(()));
    reveal_with_fuel(carried_out, 5);
    let (actions, _) = carried_out(first, 4);
    assert(carried_out(fourth, 1).0 == seq![fourth.2] || fourth.2 !is Done);
    if first.2 is Done {
        assert(actions =~= seq![first.2]);
    } else if second.2 is Done {
        assert(actions =~= seq![first.2, second.2]);
    } else if third.2 is Done {
        assert(actions =~= seq![first.2, second.2, third.2]);
    } else {
        assert(fourth.2 is Done);
        assert(actions =~= seq![first.2, second.2, third.2, fourth.2]);
    }
}

/// A reset stores the defaults, without an announcement of its own, then resets the process
/// latency, and announces the properties at its end. A capture node has no delay to reset.
pub proof fn reset_goes_back_to_the_defaults(tunables: Tunables)
    ensures
        ({
            let (actions, end) = carried_out(
                change_begun(tunables, NodeParamRequest::ResetProps),
                4,
            );
            &&& end.oss_fragment == tunables.oss_fragment_default
            &&& end.oss_delay == if tunables.playback {
                tunables.oss_delay_default
            } else {
                tunables.oss_delay
            }
            &&& end == (Tunables {
                oss_delay: end.oss_delay,
                oss_fragment: end.oss_fragment,
                ..tunables
            })
            &&& actions == seq![
                ParamAction::Store { tunables: end, announce: false },
                ParamAction::ResetProcessLatency,
                ParamAction::AnnounceProps,
                ParamAction::Done(Ok(())),
            ]
        }),
{
    reveal_with_fuel(carried_out, 5);
    let first = change_begun(tunables, NodeParamRequest::ResetProps);
    let (actions, end) = carried_out(first, 4);
    assert(actions =~= seq![
        ParamAction::Store { tunables: end, announce: false },
        ParamAction::ResetProcessLatency,
        ParamAction::AnnounceProps,
        ParamAction::Done(Ok(())),
    ]);
}

/// A process latency is set, or reset, and the tunables stay as they are.
pub proof fn process_latency_leaves_the_tunables(tunables: Tunables)
    ensures
        carried_out(change_begun(tunables, NodeParamRequest::ProcessLatency), 4) == (
            seq![ParamAction::SetProcessLatency, ParamAction::Done(Ok(()))],
            tunables,
        ),
        carried_out(change_begun(tunables, NodeParamRequest::ResetProcessLatency), 4) == (
            seq![ParamAction::ResetProcessLatency, ParamAction::Done(Ok(()))],
            tunables,
        ),
{
    reveal_with_fuel(carried_out, 5);
    let set = change_begun(tunables, NodeParamRequest::ProcessLatency);
    let reset = change_begun(tunables, NodeParamRequest::ResetProcessLatency);
    assert(carried_out(set, 4).0 =~= seq![
        ParamAction::SetProcessLatency,
        ParamAction::Done(Ok(())),
    ]);
    assert(carried_out(reset, 4).0 =~= seq![
        ParamAction::ResetProcessLatency,
        ParamAction::Done(Ok(())),
    ]);
}

/// A delay that could not be stored is as before, and the fragment that came with it is not
/// tried; a fragment that could not be stored leaves the delay that was stored before it.
pub proof fn failed_store_ends_the_change(tunables: Tunables, update: PropsUpdate, error: Errno)
    requires
        update.latency_offset_ns is None,
    ensures
        ({
            let first = change_begun(tunables, NodeParamRequest::Props(update));
            let failed = change_next(first.0, first.1, Err::<(), Errno>(error));
            let second = change_next(first.0, first.1, Ok::<(), Errno>(()));
            let late = change_next(second.0, second.1, Err::<(), Errno>(error));
            &&& first.2 is Store ==> failed.2 == ParamAction::Done(Err(error)) && failed.1
                == tunables
            &&& first.2 is Store && second.2 is Store ==> late.2 == ParamAction::Done(Err(error))
                && late.1 == (Tunables { oss_delay: first.1.oss_delay, ..tunables })
        }),
{
}

/// What the host reads of a node: the descriptions of the latency offset, of the delay where
/// the node plays, and of the fragment, in this order; their values in one object; and the
/// process latency. A known parameter ends after its last value, others have no entry.
pub proof fn node_shows_its_tunables(tunables: Tunables, id: u32, index: u32)
    ensures
        ({
            let answer = node_param_of(tunables, id, index);
            &&& id == 1 && index == 0 ==> answer == ParamBuild::LatencyOffsetInfo
            &&& id == 1 && index == 1 ==> answer == if tunables.playback {
                ParamBuild::DelayInfo(tunables.oss_delay)
            } else {
                ParamBuild::FragmentInfo(tunables.oss_fragment)
            }
            &&& id == 1 && index == 2 ==> answer == if tunables.playback {
                ParamBuild::FragmentInfo(tunables.oss_fragment)
            } else {
                ParamBuild::Exhausted
            }
            &&& id == 2 && index == 0 && tunables.playback ==> answer == (ParamBuild::Props {
                oss_delay: Some(tunables.oss_delay),
                oss_fragment: tunables.oss_fragment,
            })
            &&& id == 2 && index == 0 && !tunables.playback ==> answer == (ParamBuild::Props {
                oss_delay: None,
                oss_fragment: tunables.oss_fragment,
            })
            &&& id == 16 && index == 0 ==> answer == ParamBuild::ProcessLatency
            &&& id == 1 && index > 2 || (id == 2 || id == 16) && index > 0 ==> answer
                == ParamBuild::Exhausted
            &&& id != 1 && id != 2 && id != 16 ==> answer == ParamBuild::Unknown
        }),
{
}

} // verus!
