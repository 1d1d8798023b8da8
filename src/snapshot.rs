//! The snapshot of all channels: a mapping from channel name to its
//! configuration, kept in the order in which the channels were added.

use vstd::prelude::*;

use crate::channel::{ChannelConfig, ChannelConfigView};
use crate::text::same_text;

verus! {

/// One channel of a snapshot.
#[derive(Debug)]
pub struct ChannelEntry {
    pub name: String,
    pub config: ChannelConfig,
}

impl View for ChannelEntry {
    type V = (Seq<char>, ChannelConfigView);

    open spec fn view(&self) -> (Seq<char>, ChannelConfigView) {
        (self.name@, self.config@)
    }
}

/// The views of a list of entries.
pub open spec fn entries_of(v: Seq<ChannelEntry>) -> Seq<(Seq<char>, ChannelConfigView)> {
    v.map_values(|e: ChannelEntry| e@)
}

/// The channel names of `es` are pairwise distinct.
pub open spec fn names_distinct(es: Seq<(Seq<char>, ChannelConfigView)>) -> bool {
    forall|i: int, j: int| 0 <= i < j < es.len() ==> es[i].0 != es[j].0
}

/// `name` is the name of some entry of `es`.
pub open spec fn names_channel(es: Seq<(Seq<char>, ChannelConfigView)>, name: Seq<char>) -> bool {
    exists|i: int| 0 <= i < es.len() && es[i].0 == name
}

/// The mapping from name to configuration that a list of entries stands for.
pub open spec fn entries_map(es: Seq<(Seq<char>, ChannelConfigView)>) -> Map<Seq<char>, ChannelConfigView> {
    Map::new(
        |n: Seq<char>| names_channel(es, n),
        |n: Seq<char>| es[choose|i: int| 0 <= i < es.len() && es[i].0 == n].1,
    )
}

/// In a list with distinct names, the entry at `k` is what the mapping gives for its name.
pub proof fn lemma_entries_map_at(es: Seq<(Seq<char>, ChannelConfigView)>, k: int)
    requires
        names_distinct(es),
        0 <= k < es.len(),
    ensures
        (choose|i: int| 0 <= i < es.len() && es[i].0 == es[k].0) == k,
        entries_map(es).contains_key(es[k].0),
        entries_map(es)[es[k].0] == es[k].1,
{
    let n = es[k].0;
    assert(names_channel(es, n));
    let c = choose|i: int| 0 <= i < es.len() && es[i].0 == n;
    assert(c == k) by {
        if c < k {
            assert(es[c].0 != es[k].0);
        } else if c > k {
            assert(es[k].0 != es[c].0);
        }
    }
}

/// The entries after setting channel `name` to `c`: its entry is replaced in
/// place where the name is there already, and a new entry is appended otherwise.
pub open spec fn entries_insert(
    es: Seq<(Seq<char>, ChannelConfigView)>,
    name: Seq<char>,
    c: ChannelConfigView,
) -> Seq<(Seq<char>, ChannelConfigView)> {
    if names_channel(es, name) {
        es.update(choose|i: int| 0 <= i < es.len() && es[i].0 == name, (name, c))
    } else {
        es.push((name, c))
    }
}

/// Replacing the configuration at `k` updates the mapping at that name only.
proof fn lemma_entries_map_update(es: Seq<(Seq<char>, ChannelConfigView)>, k: int, c: ChannelConfigView)
    requires
        names_distinct(es),
        0 <= k < es.len(),
    ensures
        names_distinct(es.update(k, (es[k].0, c))),
        entries_map(es.update(k, (es[k].0, c))) == entries_map(es).insert(es[k].0, c),
{
    let es2 = es.update(k, (es[k].0, c));
    let m1 = entries_map(es2);
    let m2 = entries_map(es).insert(es[k].0, c);
    assert forall|n: Seq<char>| m1.contains_key(n) == m2.contains_key(n) by {
        if names_channel(es, n) {
            let i = choose|i: int| 0 <= i < es.len() && es[i].0 == n;
            assert(es2[i].0 == n);
        }
        if names_channel(es2, n) {
            let i = choose|i: int| 0 <= i < es2.len() && es2[i].0 == n;
            assert(es[i].0 == n);
        }
    }
    assert forall|n: Seq<char>| #[trigger] m1.contains_key(n) implies m1[n] == m2[n] by {
        let i = choose|i: int| 0 <= i < es2.len() && es2[i].0 == n;
        lemma_entries_map_at(es2, i);
        if i != k {
            lemma_entries_map_at(es, i);
        }
    }
    assert(m1 =~= m2);
}

/// Appending an entry with a new name adds that name to the mapping.
proof fn lemma_entries_map_push(es: Seq<(Seq<char>, ChannelConfigView)>, e: (Seq<char>, ChannelConfigView))
    requires
        names_distinct(es),
        !names_channel(es, e.0),
    ensures
        names_distinct(es.push(e)),
        entries_map(es.push(e)) == entries_map(es).insert(e.0, e.1),
{
    let es2 = es.push(e);
    assert forall|i: int, j: int| 0 <= i < j < es2.len() implies es2[i].0 != es2[j].0 by {
        if j == es.len() {
            assert(es[i].0 == es2[i].0);
        }
    }
    let m1 = entries_map(es2);
    let m2 = entries_map(es).insert(e.0, e.1);
    assert forall|n: Seq<char>| m1.contains_key(n) == m2.contains_key(n) by {
        if names_channel(es, n) {
            let i = choose|i: int| 0 <= i < es.len() && es[i].0 == n;
            assert(es2[i].0 == n);
        }
        if n == e.0 {
            assert(es2[es.len() as int].0 == n);
        }
        if names_channel(es2, n) {
            let i = choose|i: int| 0 <= i < es2.len() && es2[i].0 == n;
            if i < es.len() {
                assert(es[i].0 == n);
            }
        }
    }
    assert forall|n: Seq<char>| #[trigger] m1.contains_key(n) implies m1[n] == m2[n] by {
        let i = choose|i: int| 0 <= i < es2.len() && es2[i].0 == n;
        lemma_entries_map_at(es2, i);
        if i < es.len() {
            lemma_entries_map_at(es, i);
        }
    }
    assert(m1 =~= m2);
}

/// The channels being served, by name. Names are unique.
#[derive(Debug)]
pub struct ChannelsConfig {
    entries: Vec<ChannelEntry>,
}

impl ChannelsConfig {
    #[verifier::type_invariant]
    spec fn names_unique(&self) -> bool {
        names_distinct(self.entries())
    }

    /// The channels, in the order in which they were added.
    pub closed spec fn entries(&self) -> Seq<(Seq<char>, ChannelConfigView)> {
        entries_of(self.entries@)
    }
}

impl View for ChannelsConfig {
    type V = Map<Seq<char>, ChannelConfigView>;

    open spec fn view(&self) -> Map<Seq<char>, ChannelConfigView> {
        entries_map(self.entries())
    }
}

impl ChannelsConfig {
    /// A snapshot without channels.
    pub fn new() -> (r: ChannelsConfig)
        ensures
            r.entries() == Seq::<(Seq<char>, ChannelConfigView)>::empty(),
            r@ == Map::<Seq<char>, ChannelConfigView>::empty(),
    {
        let r = ChannelsConfig { entries: Vec::new() };
        assert(r.entries() =~= Seq::<(Seq<char>, ChannelConfigView)>::empty());
        assert(r@ =~= Map::<Seq<char>, ChannelConfigView>::empty());
        r
    }

    /// The names in this snapshot are pairwise distinct.
    pub fn names_are_distinct(&self)
        ensures
            names_distinct(self.entries()),
    {
        proof {
            use_type_invariant(self);
        }
    }

    /// Where the channel `name` stands in the list of entries.
    fn position(&self, name: &str) -> (r: Option<usize>)
        ensures
            match r {
                Some(k) => k < self.entries().len() && self.entries()[k as int].0 == name@,
                None => !names_channel(self.entries(), name@),
            },
    {
        let mut i: usize = 0;
        while i < self.entries.len()
            invariant
                i <= self.entries@.len(),
                forall|j: int| 0 <= j < i ==> self.entries()[j].0 != name@,
            decreases self.entries@.len() - i,
        {
            if same_text(self.entries[i].name.as_str(), name) {
                return Some(i);
            }
            i += 1;
        }
        None
    }

    /// Sets the configuration of channel `name`, adding the channel where it
    /// is not there yet.
    pub fn insert(&mut self, name: String, config: ChannelConfig)
        ensures
            final(self).entries() == entries_insert(old(self).entries(), name@, config@),
            names_distinct(final(self).entries()),
            final(self)@ == old(self)@.insert(name@, config@),
    {
        proof {
            use_type_invariant(&*self);
        }
        let ghost es = self.entries();
        let ghost cv = config@;
        match self.position(name.as_str()) {
            Some(k) => {
                let ghost nm = name@;
                let mut entries: Vec<ChannelEntry> = Vec::new();
                std::mem::swap(&mut entries, &mut self.entries);
                entries.set(k, ChannelEntry { name, config });
                proof {
                    lemma_entries_map_at(es, k as int);
                    lemma_entries_map_update(es, k as int, cv);
                    assert(entries_of(entries@) =~= es.update(k as int, (es[k as int].0, cv)));
                }
                self.entries = entries;
            },
            None => {
                let ghost e = (name@, config@);
                let mut entries: Vec<ChannelEntry> = Vec::new();
                std::mem::swap(&mut entries, &mut self.entries);
                entries.push(ChannelEntry { name, config });
                proof {
                    lemma_entries_map_push(es, e);
                    assert(entries_of(entries@) =~= es.push(e));
                }
                self.entries = entries;
            },
        }
    }

    /// All channels, in the order in which they were added.
    pub fn channels(&self) -> (r: &Vec<ChannelEntry>)
        ensures
            entries_of(r@) == self.entries(),
    {
        &self.entries
    }

    /// The configuration of channel `channel_name`, if it is served.
    pub fn channel(&self, channel_name: &str) -> (r: Option<ChannelConfig>)
        ensures
            match r {
                Some(c) => self@.contains_key(channel_name@) && c@ == self@[channel_name@],
                None => !self@.contains_key(channel_name@),
            },
    {
        proof {
            use_type_invariant(self);
        }
        match self.position(channel_name) {
            Some(k) => {
                proof {
                    lemma_entries_map_at(self.entries(), k as int);
                }
                Some(self.entries[k].config.duplicate())
            },
            None => None,
        }
    }

    /// The latest key of channel `channel_name`, as stored: the base key,
    /// without the channel's extension.
    pub fn latest_object_key(&self, channel_name: &str) -> (r: Option<String>)
        ensures
            r is Some <==> self@.contains_key(channel_name@) && self@[channel_name@].latest is Some,
            r is Some ==> r->0@ == self@[channel_name@].latest->0,
    {
        match self.channel(channel_name) {
            Some(c) => c.latest,
            None => None,
        }
    }
}

impl Default for ChannelsConfig {
    fn default() -> (r: ChannelsConfig)
        ensures
            r@ == Map::<Seq<char>, ChannelConfigView>::empty(),
    {
        ChannelsConfig::new()
    }
}

} // verus!
