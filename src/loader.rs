//! Building a snapshot from what was read from the store: the list of
//! channels, then each channel's own configuration. A channel whose
//! configuration could not be read or parsed is left out; it does not make
//! the whole load fail.

use vstd::prelude::*;

use crate::channel::{ChannelConfig, ChannelConfigView};
use crate::snapshot::{entries_insert, names_distinct, ChannelsConfig};

verus! {

/// Why the list of channels could not be had. Either makes a whole load fail.
#[derive(Debug)]
pub enum ConfigError {
    /// The list could not be read from the store.
    Fetch,
    /// The list was read but is not a valid list of channels.
    Parse,
}

/// Why one channel's configuration could not be had. Such a channel is
/// left out of the snapshot.
#[derive(Debug)]
pub enum ChannelConfigError {
    /// Its object is missing or could not be read.
    Fetch,
    /// Its object is not a valid channel configuration.
    Parse,
}

/// The outcome of reading the configuration of one channel of the list.
pub struct FetchedChannel {
    pub name: String,
    pub config: Result<ChannelConfig, ChannelConfigError>,
}

impl View for FetchedChannel {
    type V = (Seq<char>, Option<ChannelConfigView>);

    open spec fn view(&self) -> (Seq<char>, Option<ChannelConfigView>) {
        (
            self.name@,
            match &self.config {
                Ok(c) => Some(c@),
                Err(_) => None,
            },
        )
    }
}

pub open spec fn fetched_view(v: Seq<FetchedChannel>) -> Seq<(Seq<char>, Option<ChannelConfigView>)> {
    v.map_values(|f: FetchedChannel| f@)
}

/// The channels that a load keeps: each one whose configuration was read,
/// with the configuration read last for its name.
pub open spec fn loaded_map(fetched: Seq<(Seq<char>, Option<ChannelConfigView>)>) -> Map<Seq<char>, ChannelConfigView>
    decreases fetched.len(),
{
    if fetched.len() == 0 {
        Map::empty()
    } else {
        let before = loaded_map(fetched.drop_last());
        match fetched.last().1 {
            Some(c) => before.insert(fetched.last().0, c),
            None => before,
        }
    }
}

/// The entries of the snapshot that a load builds: the channels whose
/// configuration was read, in the order of their first successful read.
pub open spec fn loaded_entries(fetched: Seq<(Seq<char>, Option<ChannelConfigView>)>) -> Seq<(Seq<char>, ChannelConfigView)>
    decreases fetched.len(),
{
    if fetched.len() == 0 {
        Seq::empty()
    } else {
        let before = loaded_entries(fetched.drop_last());
        match fetched.last().1 {
            Some(c) => entries_insert(before, fetched.last().0, c),
            None => before,
        }
    }
}

/// The snapshot holding every channel of `fetched` whose configuration was read.
pub fn assemble_snapshot(fetched: &Vec<FetchedChannel>) -> (r: ChannelsConfig)
    ensures
        r.entries() == loaded_entries(fetched_view(fetched@)),
        names_distinct(r.entries()),
        r@ == loaded_map(fetched_view(fetched@)),
{
    let mut snapshot = ChannelsConfig::new();
    let mut i: usize = 0;
    while i < fetched.len()
        invariant
            i <= fetched@.len(),
            snapshot@ == loaded_map(fetched_view(fetched@).subrange(0, i as int)),
            snapshot.entries() == loaded_entries(fetched_view(fetched@).subrange(0, i as int)),
        decreases fetched@.len() - i,
    {
        let ghost fv = fetched_view(fetched@);
        proof {
            assert(fv.subrange(0, i + 1).drop_last() =~= fv.subrange(0, i as int));
        }
        match &fetched[i].config {
            Ok(c) => {
                snapshot.insert(fetched[i].name.clone(), c.duplicate());
            },
            Err(_) => {},
        }
        i += 1;
    }
    assert(fetched_view(fetched@).subrange(0, fetched@.len() as int) =~= fetched_view(fetched@));
    snapshot.names_are_distinct();
    snapshot
}

/// A load keeps exactly the channels whose configuration could be read, and
/// no others: a name is in the snapshot if and only if a read of it
/// succeeded, and it then holds what the last successful read of that name
/// gave.
pub proof fn lemma_load_keeps_exactly_read(fetched: Seq<(Seq<char>, Option<ChannelConfigView>)>, name: Seq<char>)
    ensures
        loaded_map(fetched).contains_key(name) <==> exists|i: int|
            0 <= i < fetched.len() && fetched[i].0 == name && fetched[i].1 is Some,
        loaded_map(fetched).contains_key(name) ==> exists|i: int|
            0 <= i < fetched.len() && fetched[i].0 == name && fetched[i].1 == Some(loaded_map(fetched)[name])
                && forall|j: int| i < j < fetched.len() && fetched[j].0 == name ==> fetched[j].1 is None,
    decreases fetched.len(),
{
    if fetched.len() == 0 {
        return;
    }
    let before = fetched.drop_last();
    let n = before.len() as int;
    lemma_load_keeps_exactly_read(before, name);
    assert forall|j: int| 0 <= j < n implies fetched[j] == before[j] by {}
    let last = fetched.last();
    if last.0 == name && last.1 is Some {
        assert(fetched[n].0 == name && fetched[n].1 == Some(loaded_map(fetched)[name]));
    } else if loaded_map(before).contains_key(name) {
        let i = choose|i: int|
            0 <= i < before.len() && before[i].0 == name && before[i].1 == Some(loaded_map(before)[name])
                && forall|j: int| i < j < before.len() && before[j].0 == name ==> before[j].1 is None;
        assert(fetched[i].0 == name && fetched[i].1 == Some(loaded_map(fetched)[name]));
        assert forall|j: int| i < j < fetched.len() && fetched[j].0 == name implies fetched[j].1 is None by {
            if j < n {
                assert(fetched[j] == before[j]);
            }
        }
    } else {
        assert forall|i: int| 0 <= i < fetched.len() && fetched[i].0 == name implies fetched[i].1 is None by {
            if i < n {
                assert(fetched[i] == before[i]);
            }
        }
    }
}

} // verus!
