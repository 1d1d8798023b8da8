//! Channel configurations and the snapshot of all channels.

use vstd::prelude::*;

verus! {

/// The extension that a channel serves when its configuration names none.
pub open spec fn default_extension() -> Seq<char> {
    seq!['.', 't', 'a', 'r', '.', 'x', 'z']
}

/// The file extension used by channels whose configuration does not name one.
pub fn default_channel_file_extension() -> (r: String)
    ensures
        r@ == default_extension(),
{
    let s = ".tar.xz";
    proof {
        reveal_strlit(".tar.xz");
    }
    assert(s@ =~= default_extension());
    s.to_owned()
}

/// The view of an optional string.
pub open spec fn opt_text(o: Option<String>) -> Option<Seq<char>> {
    match o {
        Some(s) => Some(s@),
        None => None,
    }
}

/// The view of a list of strings.
pub open spec fn texts(v: Seq<String>) -> Seq<Seq<char>> {
    v.map_values(|s: String| s@)
}

/// The persistent configuration of a single channel.
#[derive(Debug)]
pub struct ChannelConfig {
    /// The base key (without extension) of the artifact the channel points to.
    /// `None` until something has been published.
    pub latest: Option<String>,
    /// The extension of the files served by this channel, leading period
    /// included (for example `.tar.xz` or `.iso`).
    pub file_extension: String,
    /// The base keys this channel pointed to before, oldest first.
    pub previous: Vec<String>,
}

/// What a channel configuration holds, as plain values.
pub struct ChannelConfigView {
    pub latest: Option<Seq<char>>,
    pub file_extension: Seq<char>,
    pub previous: Seq<Seq<char>>,
}

impl View for ChannelConfig {
    type V = ChannelConfigView;

    open spec fn view(&self) -> ChannelConfigView {
        ChannelConfigView {
            latest: opt_text(self.latest),
            file_extension: self.file_extension@,
            previous: texts(self.previous@),
        }
    }
}

/// A copy of a list of strings.
pub fn copy_texts(v: &Vec<String>) -> (r: Vec<String>)
    ensures
        r@ == v@,
{
    let mut out: Vec<String> = Vec::new();
    let mut i: usize = 0;
    while i < v.len()
        invariant
            i <= v@.len(),
            out@ == v@.subrange(0, i as int),
        decreases v@.len() - i,
    {
        out.push(v[i].clone());
        i += 1;
        assert(out@ =~= v@.subrange(0, i as int));
    }
    assert(v@.subrange(0, v@.len() as int) =~= v@);
    out
}

/// A copy of an optional string.
pub fn copy_opt_text(o: &Option<String>) -> (r: Option<String>)
    ensures
        r == *o,
{
    match o {
        Some(s) => Some(s.clone()),
        None => None,
    }
}

impl ChannelConfig {
    /// The configuration of a channel that has never been published to.
    pub fn unpublished() -> (r: ChannelConfig)
        ensures
            r@ == unpublished_view(),
    {
        let r = ChannelConfig {
            latest: None,
            file_extension: default_channel_file_extension(),
            previous: Vec::new(),
        };
        assert(r@.previous =~= Seq::<Seq<char>>::empty());
        r
    }

    /// A copy of this configuration.
    pub fn duplicate(&self) -> (r: ChannelConfig)
        ensures
            r@ == self@,
    {
        ChannelConfig {
            latest: copy_opt_text(&self.latest),
            file_extension: self.file_extension.clone(),
            previous: copy_texts(&self.previous),
        }
    }
}

impl Clone for ChannelConfig {
    fn clone(&self) -> (r: Self)
        ensures
            r@ == self@,
    {
        self.duplicate()
    }
}

/// The key of the object that lists all channels.
pub const MANIFEST_KEY: &'static str = "channels.json";

/// The key of the object that holds the configuration of channel `name`.
pub open spec fn config_key(name: Seq<char>) -> Seq<char> {
    name + seq!['.', 'j', 's', 'o', 'n']
}

/// The key of the object that holds the configuration of channel `channel_name`.
pub fn channel_config_key(channel_name: &str) -> (r: String)
    ensures
        r@ == config_key(channel_name@),
{
    let ext = ".json";
    proof {
        reveal_strlit(".json");
    }
    assert(ext@ =~= seq!['.', 'j', 's', 'o', 'n']);
    crate::text::concat(channel_name, ext)
}

/// The configuration of a channel that nothing has been published to.
pub open spec fn unpublished_view() -> ChannelConfigView {
    ChannelConfigView {
        latest: None,
        file_extension: default_extension(),
        previous: Seq::empty(),
    }
}

} // verus!
