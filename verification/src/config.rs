//! The static configuration: which peer address stands at which edge.
//!
//! The configuration is loaded once and never changed afterwards. Only the
//! live registry is mutable.

use crate::edge::Edge;
use vstd::hash_map::StringHashMap;
use vstd::prelude::*;

verus! {

/// One configured peer: its network address and the name of its edge.
#[derive(Debug, PartialEq, Eq)]
pub struct Device {
    pub address: String,
    pub edge: String,
}

/// The configured peers, in the order of the document.
#[derive(Debug, PartialEq, Eq)]
pub struct Config {
    pub devices: Vec<Device>,
}

/// The lookup table from address to edge name.
pub type AddressMap = StringHashMap<String>;

/// The edge name configured for each address. Where an address is listed more
/// than once, the entry listed last counts.
pub open spec fn edge_by_address(devices: Seq<Device>) -> Map<Seq<char>, Seq<char>>
    decreases devices.len(),
{
    if devices.len() == 0 {
        Map::empty()
    } else {
        edge_by_address(devices.drop_last()).insert(devices.last().address@, devices.last().edge@)
    }
}

/// The text of each value of a map of strings.
pub open spec fn texts(map: Map<Seq<char>, String>) -> Map<Seq<char>, Seq<char>> {
    map.map_values(|s: String| s@)
}

/// The edge that the configuration assigns to `address`: that of the last
/// entry for the address whose edge name names an edge.
pub open spec fn resolved(names: Map<Seq<char>, Seq<char>>, address: Seq<char>) -> Option<Edge> {
    match names.get(address) {
        Some(name) => Edge::named(name),
        None => None,
    }
}

/// An address is configured exactly if some entry lists it, and its edge name
/// is that of the last entry that does.
pub proof fn last_entry_counts(devices: Seq<Device>, address: Seq<char>)
    ensures
        edge_by_address(devices).contains_key(address) <==> exists|i: int|
            0 <= i < devices.len() && #[trigger] devices[i].address@ == address,
        forall|i: int|
            0 <= i < devices.len() && #[trigger] devices[i].address@ == address && (forall|j: int|
                i < j < devices.len() ==> #[trigger] devices[j].address@ != address)
                ==> edge_by_address(devices)[address] == devices[i].edge@,
    decreases devices.len(),
{
    if devices.len() > 0 {
        let front = devices.drop_last();
        last_entry_counts(front, address);
        let last = devices.len() - 1;
        if devices[last].address@ == address {
        } else {
            if edge_by_address(front).contains_key(address) {
                let i = choose|i: int| 0 <= i < front.len() && #[trigger] front[i].address@ == address;
                assert(devices[i].address@ == address);
            }
            if exists|i: int| 0 <= i < devices.len() && #[trigger] devices[i].address@ == address {
                let i = choose|i: int|
                    0 <= i < devices.len() && #[trigger] devices[i].address@ == address;
                assert(front[i].address@ == address);
            }
            assert forall|i: int|
                0 <= i < devices.len() && #[trigger] devices[i].address@ == address && (forall|
                    j: int,
                | i < j < devices.len() ==> #[trigger] devices[j].address@ != address) implies edge_by_address(
                devices,
            )[address] == devices[i].edge@ by {
                assert(front[i].address@ == address);
                assert forall|j: int| i < j < front.len() implies #[trigger] front[j].address@
                    != address by {
                    assert(devices[j].address@ != address);
                }
            }
        }
    }
}

/// Builds the lookup table from address to edge name.
pub fn build_map(config: &Config) -> (map: AddressMap)
    ensures
        texts(map@) == edge_by_address(config.devices@),
{
    let mut map: AddressMap = StringHashMap::new();
    let mut i: usize = 0;
    assert(config.devices@.take(0) =~= Seq::<Device>::empty());
    assert(texts(map@) =~= edge_by_address(config.devices@.take(0)));
    while i < config.devices.len()
        invariant
            i <= config.devices.len(),
            texts(map@) == edge_by_address(config.devices@.take(i as int)),
        decreases config.devices.len() - i,
    {
        let device = &config.devices[i];
        let ghost before = map@;
        map.insert(device.address.clone(), device.edge.clone());
        proof {
            let seen = config.devices@.take(i + 1);
            assert(seen.drop_last() =~= config.devices@.take(i as int));
            assert(seen.last() == config.devices@[i as int]);
            assert(texts(map@) =~= texts(before).insert(device.address@, device.edge@));
        }
        i = i + 1;
    }
    assert(config.devices@.take(i as int) =~= config.devices@);
    map
}

/// Looks up the edge of a connecting peer by its address. A peer whose
/// address is not configured, or is configured with a name that names no
/// edge, has no edge.
pub fn resolve_edge(map: &AddressMap, address: &str) -> (edge: Option<Edge>)
    ensures
        edge == resolved(texts(map@), address@),
{
    match map.get(address) {
        Some(name) => Edge::from_name(name.as_str()),
        None => None,
    }
}

} // verus!
