//! What a new node starts from.
use vstd::prelude::*;

use crate::arith::imin;
use crate::errno::Errno;
use crate::params::{
    fragment_of, normalize_fragment, Tunables, DEFAULT_DELAY_EIGHTHS, MAX_DELAY_EIGHTHS,
};
use crate::port::Port;
use crate::rebuild::NodeData;
use crate::text::{parse_u32, parsed};

verus! {

/// A property that the host gives a new node.
#[derive(Debug, Clone, PartialEq, Eq)]
pub struct InitItem {
    pub key: String,
    pub value: String,
}

/// What the properties of a new node say.
#[derive(Debug, Clone, PartialEq, Eq)]
pub struct InitProps {
    /// The device's path.
    pub path: Option<String>,
    pub oss_fragment: u32,
    pub oss_delay: u32,
}

/// What an [`InitProps`] holds.
pub struct InitPropsView {
    pub path: Option<Seq<char>>,
    pub oss_fragment: int,
    pub oss_delay: int,
}

impl View for InitProps {
    type V = InitPropsView;

    open spec fn view(&self) -> InitPropsView {
        InitPropsView {
            path: match self.path {
                Some(path) => Some(path@),
                None => None,
            },
            oss_fragment: self.oss_fragment as int,
            oss_delay: self.oss_delay as int,
        }
    }
}

/// The properties after one more item. A number that cannot be read is ignored; the
/// fragment is stored as it will be used, and the delay, which only a playback node
/// has, is capped.
pub open spec fn with_item(
    props: InitPropsView,
    item: InitItem,
    path_key: Seq<char>,
    playback: bool,
) -> InitPropsView {
    if item.key@ == path_key {
        InitPropsView { path: Some(item.value@), ..props }
    } else if item.key@ == "oss.fragment"@ {
        match parsed(item.value@) {
            Some(v) => InitPropsView { oss_fragment: fragment_of(v), ..props },
            None => props,
        }
    } else if item.key@ == "oss.delay"@ && playback {
        match parsed(item.value@) {
            Some(v) => InitPropsView {
                oss_delay: imin(v as int, MAX_DELAY_EIGHTHS as int),
                ..props
            },
            None => props,
        }
    } else {
        props
    }
}

/// What the properties of a new node say; of several items with one key, the last
/// counts.
pub open spec fn props_of(items: Seq<InitItem>, path_key: Seq<char>, playback: bool) -> InitPropsView
    decreases items.len(),
{
    if items.len() == 0 {
        InitPropsView { path: None, oss_fragment: 0, oss_delay: DEFAULT_DELAY_EIGHTHS as int }
    } else {
        with_item(props_of(items.drop_last(), path_key, playback), items.last(), path_key, playback)
    }
}

/// Reads the properties of a new node. `path_key` is the key of the device's path.
pub fn parse_init_dict(items: &Vec<InitItem>, path_key: &str, playback: bool) -> (props: InitProps)
    ensures
        props@ == props_of(items@, path_key@, playback),
{
    let path_key: String = path_key.to_owned();
    let fragment_key: String = "oss.fragment".to_owned();
    let delay_key: String = "oss.delay".to_owned();
    let mut props = InitProps { path: None, oss_fragment: 0, oss_delay: DEFAULT_DELAY_EIGHTHS };
    let mut i: usize = 0;
    assert(items@.take(0) =~= seq![]);
    while i < items.len()
        invariant
            i <= items.len(),
            fragment_key@ == "oss.fragment"@,
            delay_key@ == "oss.delay"@,
            props@ == props_of(items@.take(i as int), path_key@, playback),
        decreases items.len() - i,
    {
        let item = &items[i];
        if item.key == path_key {
            props.path = Some(item.value.clone());
        } else if item.key == fragment_key {
            if let Some(v) = parse_u32(item.value.as_str()) {
                props.oss_fragment = normalize_fragment(v);
            }
        } else if playback && item.key == delay_key {
            if let Some(v) = parse_u32(item.value.as_str()) {
                props.oss_delay = v.min(MAX_DELAY_EIGHTHS);
            }
        }
        i = i + 1;
        proof {
            let upto = items@.take(i as int);
            assert(upto.drop_last() =~= items@.take(i - 1));
            assert(upto.last() == items@[i - 1]);
        }
    }
    assert(items@.take(i as int) =~= items@);
    props
}

/// Whatever the host gives, the delay of a new node is within its bound.
pub proof fn initial_delay_is_bounded(items: Seq<InitItem>, path_key: Seq<char>, playback: bool)
    ensures
        0 <= props_of(items, path_key, playback).oss_delay <= MAX_DELAY_EIGHTHS,
    decreases items.len(),
{
    if items.len() > 0 {
        initial_delay_is_bounded(items.drop_last(), path_key, playback);
    }
}

/// The device's path; a node without one cannot be made.
pub fn required_path(props: &InitProps) -> (path: Result<String, Errno>)
    ensures
        match props.path {
            Some(given) => path matches Ok(path) && path@ == given@,
            None => path matches Err(error) && error == Errno::Invalid,
        },
{
    match &props.path {
        Some(path) => Ok(path.clone()),
        None => Err(Errno::Invalid),
    }
}

/// The tunables of a new node; what they start with is what a reset goes back to.
pub fn initial_tunables(props: &InitProps, playback: bool) -> (tunables: Tunables)
    ensures
        tunables == (Tunables {
            playback,
            oss_delay: props.oss_delay,
            oss_delay_default: props.oss_delay,
            oss_fragment: props.oss_fragment,
            oss_fragment_default: props.oss_fragment,
        }),
{
    Tunables {
        playback,
        oss_delay: props.oss_delay,
        oss_delay_default: props.oss_delay,
        oss_fragment: props.oss_fragment,
        oss_fragment_default: props.oss_fragment,
    }
}

/// The data loop of a new node: stopped, without a format, with a closed device.
pub fn new_node_data<E, V>(path: String, fragment_bytes: u32, device: V, ext: E) -> (data: NodeData<
    E,
    V,
>)
    ensures
        data.device == device,
        data.path == path,
        data.fragment_bytes == fragment_bytes,
        data.n_buffers == 0,
        !data.started,
        !data.following,
        !data.rebuild_takeover,
        data.deferred_work is None,
        data.pending_main_event is None,
        data.port == Port::fresh(ext),
{
    NodeData {
        port: Port::new(ext),
        device,
        path,
        fragment_bytes,
        n_buffers: 0,
        started: false,
        following: false,
        rebuild_takeover: false,
        deferred_work: None,
        pending_main_event: None,
    }
}

/// Whether an item carries a key.
pub open spec fn is_keyed(item: InitItem, key: Seq<char>) -> bool {
    item.key@ == key
}

/// Whether an item gives a number under a key.
pub open spec fn gives_number(item: InitItem, key: Seq<char>, number: u32) -> bool {
    item.key@ == key && parsed(item.value@) == Some(number)
}

/// Whether an item gives no number under a key.
pub open spec fn gives_none(item: InitItem, key: Seq<char>) -> bool {
    item.key@ != key || parsed(item.value@) is None
}

proof fn one_item_is_read(
    props: InitPropsView,
    item: InitItem,
    path_key: Seq<char>,
    playback: bool,
)
    requires
        path_key != "oss.fragment"@,
        path_key != "oss.delay"@,
    ensures
        ({
            let after = with_item(props, item, path_key, playback);
            &&& is_keyed(item, path_key) ==> after.path == Some(item.value@)
            &&& !is_keyed(item, path_key) ==> after.path == props.path
            &&& gives_none(item, "oss.fragment"@) ==> after.oss_fragment == props.oss_fragment
            &&& gives_none(item, "oss.delay"@) || !playback ==> after.oss_delay == props.oss_delay
            &&& forall|v: u32| #[trigger]
                gives_number(item, "oss.fragment"@, v) ==> after.oss_fragment == fragment_of(v)
            &&& forall|v: u32| #[trigger]
                gives_number(item, "oss.delay"@, v) && playback ==> after.oss_delay == imin(
                    v as int,
                    1024,
                )
        }),
{
    reveal_strlit("oss.delay");
    reveal_strlit("oss.fragment");
    assert("oss.delay"@.len() != "oss.fragment"@.len());
}

/// A new node has the last path that it is given, and none without one.
pub proof fn last_path_counts(items: Seq<InitItem>, path_key: Seq<char>, playback: bool, i: int)
    requires
        path_key != "oss.fragment"@,
        path_key != "oss.delay"@,
        -1 <= i < items.len(),
        i >= 0 ==> is_keyed(items[i], path_key),
        forall|j: int| i < j < items.len() ==> !is_keyed(#[trigger] items[j], path_key),
    ensures
        i >= 0 ==> props_of(items, path_key, playback).path == Some(items[i].value@),
        i < 0 ==> props_of(items, path_key, playback).path is None,
    decreases items.len(),
{
    if items.len() > 0 {
        let front = items.drop_last();
        let before = props_of(front, path_key, playback);
        one_item_is_read(before, items.last(), path_key, playback);
        if i < items.len() - 1 {
            assert forall|j: int| i < j < front.len() implies !is_keyed(
                #[trigger] front[j],
                path_key,
            ) by {
                assert(front[j] == items[j]);
            }
            last_path_counts(front, path_key, playback, i);
        }
    }
}

/// A new node has the last fragment that can be read, rounded down to a power of two between
/// 64 and 16384 bytes, and leaves it to the device without one.
pub proof fn last_fragment_counts(
    items: Seq<InitItem>,
    path_key: Seq<char>,
    playback: bool,
    i: int,
    v: u32,
)
    requires
        path_key != "oss.fragment"@,
        path_key != "oss.delay"@,
        -1 <= i < items.len(),
        i >= 0 ==> gives_number(items[i], "oss.fragment"@, v),
        forall|j: int| i < j < items.len() ==> gives_none(#[trigger] items[j], "oss.fragment"@),
    ensures
        ({
            let fragment = props_of(items, path_key, playback).oss_fragment;
            &&& i < 0 ==> fragment == 0
            &&& i >= 0 && v == 0 ==> fragment == 0
            &&& i >= 0 && 0 < v < 64 ==> fragment == 64
            &&& i >= 0 && 64 <= v < 16384 ==> fragment <= v < 2 * fragment
            &&& i >= 0 && v >= 16384 ==> fragment == 16384
            &&& i >= 0 && v > 0 ==> crate::arith::is_pow2(fragment as nat)
        }),
    decreases items.len(),
{
    crate::params::fragment_is_rounded_down(v);
    if items.len() > 0 {
        let front = items.drop_last();
        let before = props_of(front, path_key, playback);
        one_item_is_read(before, items.last(), path_key, playback);
        if i < items.len() - 1 {
            assert forall|j: int| i < j < front.len() implies gives_none(
                #[trigger] front[j],
                "oss.fragment"@,
            ) by {
                assert(front[j] == items[j]);
            }
            last_fragment_counts(front, path_key, playback, i, v);
        }
    }
}

/// A new playback node has the last delay that can be read, up to 1024 eighths of a period,
/// and ten without one; a capture node is not given any.
pub proof fn last_delay_counts(
    items: Seq<InitItem>,
    path_key: Seq<char>,
    playback: bool,
    i: int,
    v: u32,
)
    requires
        path_key != "oss.fragment"@,
        path_key != "oss.delay"@,
        -1 <= i < items.len(),
        i >= 0 ==> gives_number(items[i], "oss.delay"@, v),
        forall|j: int| i < j < items.len() ==> gives_none(#[trigger] items[j], "oss.delay"@),
    ensures
        ({
            let delay = props_of(items, path_key, playback).oss_delay;
            &&& i < 0 || !playback ==> delay == 10
            &&& i >= 0 && playback && v <= 1024 ==> delay == v
            &&& i >= 0 && playback && v > 1024 ==> delay == 1024
        }),
    decreases items.len(),
{
    if items.len() > 0 {
        let front = items.drop_last();
        let before = props_of(front, path_key, playback);
        one_item_is_read(before, items.last(), path_key, playback);
        if i < items.len() - 1 {
            assert forall|j: int| i < j < front.len() implies gives_none(
                #[trigger] front[j],
                "oss.delay"@,
            ) by {
                assert(front[j] == items[j]);
            }
            last_delay_counts(front, path_key, playback, i, v);
        } else if !playback {
            capture_has_the_default_delay(front, path_key);
        }
    }
}

proof fn capture_has_the_default_delay(items: Seq<InitItem>, path_key: Seq<char>)
    requires
        path_key != "oss.fragment"@,
        path_key != "oss.delay"@,
    ensures
        props_of(items, path_key, false).oss_delay == 10,
    decreases items.len(),
{
    if items.len() > 0 {
        let front = items.drop_last();
        capture_has_the_default_delay(front, path_key);
        one_item_is_read(props_of(front, path_key, false), items.last(), path_key, false);
    }
}

} // verus!
