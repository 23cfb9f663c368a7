//! Speaker maps: the kernel's channel order, and its encoding for the device.
use vstd::prelude::*;

use crate::abi;

verus! {

/// The kernel's channel order for a width, where it has a standard one. Six and
/// eight channels have the centre and the subwoofer after the rear pair.
pub open spec fn positions_of(channels: u32) -> Option<Seq<u32>> {
    if channels == 1 {
        Some(seq![abi::CHANNEL_MONO])
    } else if channels == 2 {
        Some(seq![abi::CHANNEL_FL, abi::CHANNEL_FR])
    } else if channels == 4 {
        Some(seq![abi::CHANNEL_FL, abi::CHANNEL_FR, abi::CHANNEL_RL, abi::CHANNEL_RR])
    } else if channels == 6 {
        Some(
            seq![
                abi::CHANNEL_FL,
                abi::CHANNEL_FR,
                abi::CHANNEL_RL,
                abi::CHANNEL_RR,
                abi::CHANNEL_FC,
                abi::CHANNEL_LFE,
            ],
        )
    } else if channels == 8 {
        Some(
            seq![
                abi::CHANNEL_FL,
                abi::CHANNEL_FR,
                abi::CHANNEL_RL,
                abi::CHANNEL_RR,
                abi::CHANNEL_FC,
                abi::CHANNEL_LFE,
                abi::CHANNEL_SL,
                abi::CHANNEL_SR,
            ],
        )
    } else {
        None
    }
}

/// The kernel's channel order for a width, where it has a standard one.
pub fn channel_positions(channels: u32) -> (positions: Option<Vec<u32>>)
    ensures
        match positions {
            Some(positions) => positions_of(channels) == Some(positions@),
            None => positions_of(channels) is None,
        },
{
    let positions: Vec<u32> = match channels {
        1 => vec![abi::CHANNEL_MONO],
        2 => vec![abi::CHANNEL_FL, abi::CHANNEL_FR],
        4 => vec![abi::CHANNEL_FL, abi::CHANNEL_FR, abi::CHANNEL_RL, abi::CHANNEL_RR],
        6 => vec![
            abi::CHANNEL_FL,
            abi::CHANNEL_FR,
            abi::CHANNEL_RL,
            abi::CHANNEL_RR,
            abi::CHANNEL_FC,
            abi::CHANNEL_LFE,
        ],
        8 => vec![
            abi::CHANNEL_FL,
            abi::CHANNEL_FR,
            abi::CHANNEL_RL,
            abi::CHANNEL_RR,
            abi::CHANNEL_FC,
            abi::CHANNEL_LFE,
            abi::CHANNEL_SL,
            abi::CHANNEL_SR,
        ],
        _ => return None,
    };
    proof {
        assert(positions@ =~= positions_of(channels)->0);
    }
    Some(positions)
}

/// The positions handed out for a width: the kernel's order, or numbered slots
/// where it has none.
pub open spec fn layout_positions(channels: u32) -> Seq<u32> {
    match positions_of(channels) {
        Some(positions) => positions,
        None => Seq::new(channels as nat, |i: int| (abi::CHANNEL_AUX0 + i) as u32),
    }
}

/// The widest layout whose slots can be numbered.
pub const MAX_LAYOUT_CHANNELS: u32 = 0xffff_f000;

/// The positions handed out for a width.
pub fn default_layout(channels: u32) -> (positions: Vec<u32>)
    requires
        channels <= MAX_LAYOUT_CHANNELS,
    ensures
        positions@ == layout_positions(channels),
        positions@.len() == channels,
{
    match channel_positions(channels) {
        Some(positions) => positions,
        None => {
            let mut positions: Vec<u32> = Vec::new();
            let mut i: u32 = 0;
            while i < channels
                invariant
                    i <= channels <= MAX_LAYOUT_CHANNELS,
                    positions@ == Seq::new(i as nat, |j: int| (abi::CHANNEL_AUX0 + j) as u32),
                decreases channels - i,
            {
                positions.push(abi::CHANNEL_AUX0 + i);
                i = i + 1;
            }
            positions
        },
    }
}

/// A speaker map that the device cannot represent.
#[derive(Debug, Clone, Copy, PartialEq, Eq, Structural)]
pub enum ChannelMapError {
    Unsupported,
}

/// The kernel's default order of a width as an encoded channel map. Three and
/// seven channels contain a rear centre, which no map can represent.
pub open spec fn default_order(channels: int) -> Option<u64> {
    if channels == 1 {
        Some(0x1)
    } else if channels == 2 {
        Some(0x21)
    } else if channels == 4 {
        Some(0x8721)
    } else if channels == 5 {
        Some(0x3_8721)
    } else if channels == 6 {
        Some(0x43_8721)
    } else if channels == 8 {
        Some(0x6543_8721)
    } else {
        None
    }
}

/// The kernel's default order of a width as an encoded channel map.
pub fn default_oss_channel_order(channels: usize) -> (order: Option<u64>)
    ensures
        order == default_order(channels as int),
{
    match channels {
        1 => Some(0x1),
        2 => Some(0x21),
        4 => Some(0x8721),
        5 => Some(0x3_8721),
        6 => Some(0x43_8721),
        8 => Some(0x6543_8721),
        _ => None,
    }
}

/// The device's channel id of a position; `None` where it has none.
pub open spec fn channel_id(position: u32) -> Option<u64> {
    if position == abi::CHANNEL_MONO || position == abi::CHANNEL_FL {
        Some(1)
    } else if position == abi::CHANNEL_FR {
        Some(2)
    } else if position == abi::CHANNEL_FC {
        Some(3)
    } else if position == abi::CHANNEL_LFE {
        Some(4)
    } else if position == abi::CHANNEL_SL {
        Some(5)
    } else if position == abi::CHANNEL_SR {
        Some(6)
    } else if position == abi::CHANNEL_RL {
        Some(7)
    } else if position == abi::CHANNEL_RR {
        Some(8)
    } else {
        None
    }
}

fn channel_id_of(position: u32) -> (id: Option<u64>)
    ensures
        id == channel_id(position),
{
    match position {
        abi::CHANNEL_MONO | abi::CHANNEL_FL => Some(1),
        abi::CHANNEL_FR => Some(2),
        abi::CHANNEL_FC => Some(3),
        abi::CHANNEL_LFE => Some(4),
        abi::CHANNEL_SL => Some(5),
        abi::CHANNEL_SR => Some(6),
        abi::CHANNEL_RL => Some(7),
        abi::CHANNEL_RR => Some(8),
        _ => None,
    }
}

/// Whether a position carries no speaker at all.
pub open spec fn is_opaque(position: u32) -> bool {
    position == abi::CHANNEL_UNKNOWN || position == abi::CHANNEL_NA || position
        >= abi::CHANNEL_AUX0
}

/// The channel ids of a map whose positions all have one.
pub open spec fn ids_of(positions: Seq<u32>) -> Seq<u64> {
    positions.map_values(|p: u32| channel_id(p)->0)
}

/// A sequence of channel ids as one number, four bits each, the first one lowest.
pub open spec fn encode(ids: Seq<u64>) -> int
    decreases ids.len(),
{
    if ids.len() == 0 {
        0
    } else {
        ids[0] + 16 * encode(ids.drop_first())
    }
}

/// The channel ids of the kernel's default order.
pub open spec fn default_ids(channels: int) -> Seq<u64> {
    let all = seq![1u64, 2, 7, 8, 3, 4, 5, 6];
    if default_order(channels) is Some {
        all.take(channels)
    } else {
        seq![]
    }
}

/// Whether a map names exactly the speakers of the kernel's order of its width,
/// each one once.
pub open spec fn is_reordering(positions: Seq<u32>) -> bool {
    &&& default_order(positions.len() as int) is Some
    &&& forall|i: int| 0 <= i < positions.len() ==> channel_id(#[trigger] positions[i]) is Some
    &&& ids_of(positions).no_duplicates()
    &&& forall|id: u64|
        #![trigger ids_of(positions).contains(id)]
        ids_of(positions).contains(id) <==> default_ids(positions.len() as int).contains(id)
}

/// Whether no position of a map has a channel id.
pub open spec fn nothing_named(positions: Seq<u32>) -> bool {
    forall|i: int| 0 <= i < positions.len() ==> channel_id(#[trigger] positions[i]) is None
}

/// The channel map to set on the device: none for a map without speakers or in
/// the kernel's own order. A map that names speakers must be a reordering of the
/// kernel's; to set only a part of it would label the samples wrongly.
pub open spec fn native_order(flags: u32, positions: Seq<u32>) -> Result<
    Option<u64>,
    ChannelMapError,
> {
    if flags & abi::AUDIO_FLAG_UNPOSITIONED != 0 {
        Ok(None)
    } else if nothing_named(positions) {
        if forall|i: int| 0 <= i < positions.len() ==> is_opaque(#[trigger] positions[i]) {
            Ok(None)
        } else {
            Err(ChannelMapError::Unsupported)
        }
    } else if is_reordering(positions) {
        let order = encode(ids_of(positions)) as u64;
        if Some(order) == default_order(positions.len() as int) {
            Ok(None)
        } else {
            Ok(Some(order))
        }
    } else {
        Err(ChannelMapError::Unsupported)
    }
}

proof fn encode_is_bounded(ids: Seq<u64>)
    requires
        ids.len() <= 8,
        forall|i: int| 0 <= i < ids.len() ==> #[trigger] ids[i] <= 8,
    ensures
        0 <= encode(ids),
        ids.len() == 0 ==> encode(ids) == 0,
        ids.len() <= 1 ==> encode(ids) < 0x10,
        ids.len() <= 2 ==> encode(ids) < 0x100,
        ids.len() <= 3 ==> encode(ids) < 0x1000,
        ids.len() <= 4 ==> encode(ids) < 0x1_0000,
        ids.len() <= 5 ==> encode(ids) < 0x10_0000,
        ids.len() <= 6 ==> encode(ids) < 0x100_0000,
        ids.len() <= 7 ==> encode(ids) < 0x1000_0000,
        encode(ids) < 0x1_0000_0000,
    decreases ids.len(),
{
    if ids.len() > 0 {
        encode_is_bounded(ids.drop_first());
    }
}

proof fn encode_is_injective(a: Seq<u64>, b: Seq<u64>)
    requires
        a.len() == b.len(),
        forall|i: int| 0 <= i < a.len() ==> #[trigger] a[i] <= 8,
        forall|i: int| 0 <= i < b.len() ==> #[trigger] b[i] <= 8,
        encode(a) == encode(b),
    ensures
        a == b,
    decreases a.len(),
{
    if a.len() > 0 {
        assert(a[0] == b[0] && encode(a.drop_first()) == encode(b.drop_first()));
        encode_is_injective(a.drop_first(), b.drop_first());
        assert(a =~= seq![a[0]] + a.drop_first());
        assert(b =~= seq![b[0]] + b.drop_first());
    } else {
        assert(a =~= b);
    }
}

/// The encoded default order is the default order encoded.
pub proof fn default_order_is_encoded(channels: int)
    ensures
        default_order(channels) matches Some(order) ==> {
            &&& default_ids(channels).len() == channels
            &&& order == encode(default_ids(channels))
            &&& forall|i: int|
                0 <= i < channels ==> 1 <= #[trigger] default_ids(channels)[i] <= 8
        },
{
    if default_order(channels) is Some {
        let ids = default_ids(channels);
        let a1 = ids.drop_first();
        let a2 = a1.drop_first();
        let a3 = a2.drop_first();
        let a4 = a3.drop_first();
        let a5 = a4.drop_first();
        let a6 = a5.drop_first();
        let a7 = a6.drop_first();
        reveal_with_fuel(encode, 9);
        assert(a7.drop_first().len() == 0 || channels < 8);
    }
}

/// A map that names speakers needs no setting exactly when its channel ids are in
/// the kernel's order.
pub proof fn default_order_needs_no_setting(positions: Seq<u32>)
    requires
        is_reordering(positions),
        !nothing_named(positions),
    ensures
        native_order(0, positions) == Ok::<_, ChannelMapError>(None::<u64>) <==> ids_of(positions)
            == default_ids(positions.len() as int),
{
    assert(0u32 & abi::AUDIO_FLAG_UNPOSITIONED == 0) by (bit_vector);
    default_order_is_encoded(positions.len() as int);
    let ids = ids_of(positions);
    assert forall|i: int| 0 <= i < ids.len() implies #[trigger] ids[i] <= 8 by {
        assert(channel_id(positions[i]) is Some);
    }
    encode_is_bounded(ids);
    if encode(ids) == encode(default_ids(positions.len() as int)) {
        encode_is_injective(ids, default_ids(positions.len() as int));
    }
}

fn contains(ids: &Vec<u64>, id: u64) -> (found: bool)
    ensures
        found == ids@.contains(id),
{
    let mut i: usize = 0;
    while i < ids.len()
        invariant
            i <= ids.len(),
            forall|j: int| 0 <= j < i ==> ids@[j] != id,
        decreases ids.len() - i,
    {
        if ids[i] == id {
            return true;
        }
        i = i + 1;
    }
    false
}

/// Whether every id of `ids` occurs in `others`.
fn all_contained(ids: &Vec<u64>, others: &Vec<u64>) -> (all: bool)
    ensures
        all == (forall|id: u64| #[trigger] ids@.contains(id) ==> others@.contains(id)),
{
    let mut i: usize = 0;
    while i < ids.len()
        invariant
            i <= ids.len(),
            forall|j: int| 0 <= j < i ==> others@.contains(#[trigger] ids@[j]),
        decreases ids.len() - i,
    {
        if !contains(others, ids[i]) {
            assert(ids@.contains(ids@[i as int]));
            return false;
        }
        i = i + 1;
    }
    true
}

/// The channel ids of the kernel's default order of a width that has one.
fn default_id_list(channels: usize) -> (ids: Vec<u64>)
    requires
        default_order(channels as int) is Some,
    ensures
        ids@ == default_ids(channels as int),
{
    let mut ids: Vec<u64> = vec![1, 2, 7, 8, 3, 4, 5, 6];
    ids.truncate(channels);
    assert(ids@ =~= default_ids(channels as int));
    ids
}

/// The distinct channel ids of a map; `None` where a position has none or an id
/// occurs twice.
fn distinct_ids(positions: &Vec<u32>) -> (ids: Option<Vec<u64>>)
    ensures
        ({
            let sound = (forall|i: int|
                0 <= i < positions@.len() ==> channel_id(#[trigger] positions@[i]) is Some)
                && ids_of(positions@).no_duplicates();
            match ids {
                Some(ids) => sound && ids@ == ids_of(positions@),
                None => !sound,
            }
        }),
{
    let mut ids: Vec<u64> = Vec::new();
    let mut i: usize = 0;
    while i < positions.len()
        invariant
            i <= positions.len(),
            ids@ == ids_of(positions@).take(i as int),
            ids@.no_duplicates(),
            forall|j: int| 0 <= j < i ==> channel_id(#[trigger] positions@[j]) is Some,
        decreases positions.len() - i,
    {
        let id: u64 = match channel_id_of(positions[i]) {
            Some(id) => id,
            None => return None,
        };
        assert(ids_of(positions@)[i as int] == id);
        if contains(&ids, id) {
            proof {
                let j = choose|j: int| 0 <= j < ids@.len() && ids@[j] == id;
                assert(ids_of(positions@)[j] == id);
            }
            return None;
        }
        ids.push(id);
        assert(ids@ =~= ids_of(positions@).take(i + 1));
        i = i + 1;
    }
    assert(ids_of(positions@).take(i as int) =~= ids_of(positions@));
    Some(ids)
}

/// The number that encodes at most eight channel ids.
fn encoded(ids: &Vec<u64>) -> (order: u64)
    requires
        ids@.len() <= 8,
        forall|i: int| 0 <= i < ids@.len() ==> #[trigger] ids@[i] <= 8,
    ensures
        order == encode(ids@),
{
    let mut order: u64 = 0;
    let mut i: usize = ids.len();
    while i > 0
        invariant
            i <= ids.len() <= 8,
            forall|j: int| 0 <= j < ids@.len() ==> #[trigger] ids@[j] <= 8,
            order == encode(ids@.skip(i as int)),
        decreases i,
    {
        proof {
            encode_is_bounded(ids@.skip(i as int));
            assert(ids@.skip(i - 1).drop_first() =~= ids@.skip(i as int));
        }
        i = i - 1;
        order = ids[i] + 16 * order;
    }
    assert(ids@.skip(0) =~= ids@);
    order
}

/// The channel map to set on the device for an interleave; `None` leaves the
/// kernel's own order in place.
pub fn oss_channel_order(flags: u32, positions: &Vec<u32>) -> (order: Result<
    Option<u64>,
    ChannelMapError,
>)
    ensures
        order == native_order(flags, positions@),
{
    if flags & abi::AUDIO_FLAG_UNPOSITIONED != 0 {
        return Ok(None);
    }
    let mut any_named = false;
    let mut all_opaque = true;
    let mut i: usize = 0;
    while i < positions.len()
        invariant
            i <= positions.len(),
            !any_named <==> nothing_named(positions@.take(i as int)),
            all_opaque <==> forall|j: int| 0 <= j < i ==> is_opaque(#[trigger] positions@[j]),
        decreases positions.len() - i,
    {
        let ghost before = positions@.take(i as int);
        let position: u32 = positions[i];
        if channel_id_of(position).is_some() {
            any_named = true;
        }
        if !(position == abi::CHANNEL_UNKNOWN || position == abi::CHANNEL_NA || position
            >= abi::CHANNEL_AUX0) {
            all_opaque = false;
        }
        i = i + 1;
        proof {
            let after = positions@.take(i as int);
            assert(after[i - 1] == position);
            assert forall|j: int| 0 <= j < i - 1 implies before[j] == #[trigger] after[j] by {}
            if nothing_named(before) && channel_id(position) is None {
                assert(nothing_named(after));
            }
            if !nothing_named(before) {
                let j = choose|j: int| 0 <= j < before.len() && channel_id(before[j]) is Some;
                assert(channel_id(after[j]) is Some);
            }
        }
    }
    assert(positions@.take(i as int) =~= positions@);
    if !any_named {
        return if all_opaque {
            Ok(None)
        } else {
            Err(ChannelMapError::Unsupported)
        };
    }
    let default: u64 = match default_oss_channel_order(positions.len()) {
        Some(default) => default,
        None => return Err(ChannelMapError::Unsupported),
    };
    let ids: Vec<u64> = match distinct_ids(positions) {
        Some(ids) => ids,
        None => return Err(ChannelMapError::Unsupported),
    };
    let defaults: Vec<u64> = default_id_list(positions.len());
    if !all_contained(&ids, &defaults) || !all_contained(&defaults, &ids) {
        return Err(ChannelMapError::Unsupported);
    }
    proof {
        assert(is_reordering(positions@));
        assert forall|j: int| 0 <= j < ids@.len() implies #[trigger] ids@[j] <= 8 by {
            assert(channel_id(positions@[j]) is Some);
        }
    }
    let order: u64 = encoded(&ids);
    if order == default {
        Ok(None)
    } else {
        Ok(Some(order))
    }
}

proof fn nibble_of(ids: Seq<u64>, i: int)
    requires
        0 <= i < ids.len() <= 8,
        forall|j: int| 0 <= j < ids.len() ==> 0 < #[trigger] ids[j] <= 8,
    ensures
        encode(ids) / pow16(i) % 16 == ids[i],
        encode(ids) >= 0,
    decreases i,
{
    encode_is_bounded(ids);
    encode_is_bounded(ids.drop_first());
    let rest = encode(ids.drop_first());
    if i > 0 {
        nibble_of(ids.drop_first(), i - 1);
        assert(ids.drop_first()[i - 1] == ids[i]);
        let p = pow16(i - 1);
        pow16_is_positive(i - 1);
        let first = ids[0] as int;
        assert((first + 16 * rest) / (16 * p) == rest / p) by (nonlinear_arith)
            requires
                0 <= first < 16,
                rest >= 0,
                p > 0,
        {
            vstd::arithmetic::div_mod::lemma_div_denominator(first + 16 * rest, 16, p);
            assert((first + 16 * rest) / 16 == rest);
        }
    }
}

/// The weight of a channel in an encoded map: four bits each, the first one lowest.
pub open spec fn pow16(i: int) -> int
    decreases i,
{
    if i <= 0 {
        1
    } else {
        16 * pow16(i - 1)
    }
}

proof fn pow16_is_positive(i: int)
    ensures
        pow16(i) > 0,
    decreases i,
{
    if i > 0 {
        pow16_is_positive(i - 1);
    }
}

/// A channel map that is set on a device labels every channel with its own speaker: four
/// bits per channel, the first one lowest, each with the device's number of the speaker.
pub proof fn channel_map_labels_every_channel(flags: u32, positions: Seq<u32>, i: int)
    requires
        native_order(flags, positions) matches Ok(Some(_)),
        0 <= i < positions.len(),
    ensures
        ({
            let order = native_order(flags, positions)->Ok_0->0;
            &&& flags & 1 == 0
            &&& channel_id(positions[i]) == Some((order as int / pow16(i) % 16) as u64)
            &&& Some(order) != default_order(positions.len() as int)
            &&& positions.len() <= 8
        }),
{
    let ids = ids_of(positions);
    assert forall|j: int| 0 <= j < ids.len() implies 0 < #[trigger] ids[j] <= 8 by {
        assert(channel_id(positions[j]) is Some);
    }
    encode_is_bounded(ids);
    nibble_of(ids, i);
    assert(ids[i] == channel_id(positions[i])->0);
}

/// The device's numbers of the speakers; a single channel is numbered like the left one.
pub proof fn speakers_have_their_own_numbers()
    ensures
        channel_id(abi::CHANNEL_MONO) == Some(1u64),
        channel_id(abi::CHANNEL_FL) == Some(1u64),
        channel_id(abi::CHANNEL_FR) == Some(2u64),
        channel_id(abi::CHANNEL_FC) == Some(3u64),
        channel_id(abi::CHANNEL_LFE) == Some(4u64),
        channel_id(abi::CHANNEL_SL) == Some(5u64),
        channel_id(abi::CHANNEL_SR) == Some(6u64),
        channel_id(abi::CHANNEL_RL) == Some(7u64),
        channel_id(abi::CHANNEL_RR) == Some(8u64),
        forall|position: u32|
            position == 0 || position == 1 || 9 <= position <= 11 || position > 13
                ==> #[trigger] channel_id(position) is None,
{
}

/// Which maps need no setting, and which are refused. A format without positions, and one
/// whose positions carry no speaker, needs none. A speaker that the device does not have, a
/// speaker twice, or one next to a position without a speaker is refused, for to set a part
/// of a map would label the samples wrongly.
pub proof fn maps_without_speakers_need_no_setting(flags: u32, positions: Seq<u32>)
    ensures
        flags & 1 != 0 ==> native_order(flags, positions) == Ok::<Option<u64>, ChannelMapError>(
            None,
        ),
        (forall|i: int|
            0 <= i < positions.len() ==> (#[trigger] positions[i] <= 1 || positions[i] >= 0x1000))
            ==> native_order(flags, positions) == Ok::<Option<u64>, ChannelMapError>(None),
        flags & 1 == 0 && (exists|i: int|
            0 <= i < positions.len() && 1 < #[trigger] positions[i] < 0x1000 && channel_id(
                positions[i],
            ) is None) ==> native_order(flags, positions) is Err,
        flags & 1 == 0 && (exists|i: int, j: int|
            0 <= i < j < positions.len() && #[trigger] channel_id(positions[i])
                == #[trigger] channel_id(positions[j]) && channel_id(positions[i]) is Some)
            ==> native_order(flags, positions) is Err,
        flags & 1 == 0 && (exists|i: int, j: int|
            0 <= i < positions.len() && 0 <= j < positions.len() && #[trigger] channel_id(
                positions[i],
            ) is Some && #[trigger] channel_id(positions[j]) is None) ==> native_order(
            flags,
            positions,
        ) is Err,
{
    if forall|i: int|
        0 <= i < positions.len() ==> (#[trigger] positions[i] <= 1 || positions[i] >= 0x1000) {
        assert(nothing_named(positions));
        assert(forall|i: int| 0 <= i < positions.len() ==> is_opaque(#[trigger] positions[i]));
    }
    if exists|i: int|
        0 <= i < positions.len() && 1 < #[trigger] positions[i] < 0x1000 && channel_id(
            positions[i],
        ) is None {
        let i = choose|i: int|
            0 <= i < positions.len() && 1 < #[trigger] positions[i] < 0x1000 && channel_id(
                positions[i],
            ) is None;
        assert(!is_opaque(positions[i]));
        assert(!is_reordering(positions));
    }
    if exists|i: int, j: int|
        0 <= i < j < positions.len() && #[trigger] channel_id(positions[i])
            == #[trigger] channel_id(positions[j]) && channel_id(positions[i]) is Some {
        let (i, j) = choose|i: int, j: int|
            0 <= i < j < positions.len() && #[trigger] channel_id(positions[i])
                == #[trigger] channel_id(positions[j]) && channel_id(positions[i]) is Some;
        assert(ids_of(positions)[i] == ids_of(positions)[j]);
        assert(!is_reordering(positions));
    }
    if exists|i: int, j: int|
        0 <= i < positions.len() && 0 <= j < positions.len() && #[trigger] channel_id(positions[i])
            is Some && #[trigger] channel_id(positions[j]) is None {
        assert(!is_reordering(positions));
    }
}

/// The kernel's own layouts, and that a device runs them without a setting: left and right,
/// then the rear pair, then centre and subwoofer, then the sides. A width without a layout
/// has numbered slots.
pub proof fn kernel_layouts_need_no_setting(channels: u32, flags: u32)
    requires
        channels <= MAX_LAYOUT_CHANNELS,
    ensures
        layout_positions(channels).len() == channels,
        native_order(flags, layout_positions(channels)) == Ok::<Option<u64>, ChannelMapError>(None),
        channels == 1 ==> layout_positions(channels) == seq![abi::CHANNEL_MONO],
        channels == 2 || channels == 4 || channels == 6 || channels == 8 ==> forall|i: int|
            0 <= i < channels ==> #[trigger] layout_positions(channels)[i] == seq![
                abi::CHANNEL_FL,
                abi::CHANNEL_FR,
                abi::CHANNEL_RL,
                abi::CHANNEL_RR,
                abi::CHANNEL_FC,
                abi::CHANNEL_LFE,
                abi::CHANNEL_SL,
                abi::CHANNEL_SR,
            ][i],
        channels == 3 || channels == 5 || channels == 7 || channels > 8 ==> forall|i: int|
            0 <= i < channels ==> #[trigger] layout_positions(channels)[i] == 0x1000 + i,
{
    let positions = layout_positions(channels);
    if channels == 1 || channels == 2 || channels == 4 || channels == 6 || channels == 8 {
        let ids = ids_of(positions);
        let n = channels as int;
        assert(ids =~= default_ids(n));
        default_order_is_encoded(n);
        assert(channel_id(positions[0]) is Some);
        assert(default_ids(n).no_duplicates());
        assert(is_reordering(positions));
    } else {
        assert(nothing_named(positions));
        assert(forall|i: int| 0 <= i < positions.len() ==> is_opaque(#[trigger] positions[i]));
    }
}

/// The encoded default orders: four bits per speaker, the first one lowest.
pub proof fn default_orders_list_the_layouts()
    ensures
        default_order(1) == Some(0x1u64),
        default_order(2) == Some(0x21u64),
        default_order(4) == Some(0x8721u64),
        default_order(5) == Some(0x3_8721u64),
        default_order(6) == Some(0x43_8721u64),
        default_order(8) == Some(0x6543_8721u64),
        forall|channels: int|
            channels < 1 || channels == 3 || channels == 7 || channels > 8
                ==> #[trigger] default_order(channels) is None,
{
}

} // verus!
