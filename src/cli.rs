//! What the command-line tool decides and prints, apart from talking to the
//! store: which bucket a command names and how channels are shown.

use vstd::prelude::*;

use crate::channel::ChannelConfig;
use crate::snapshot::{entries_of, ChannelEntry, ChannelsConfig};
use crate::text::concat;

verus! {

/// The tool's commands.
pub enum Commands {
    /// List all channels.
    ListChannels { bucket: String },
    /// Show what a channel points to.
    ShowChannel { bucket: String, channel: String },
    /// Publish a file to a channel, creating the channel where `create` is set.
    Publish { bucket: String, channel: String, file: String, create: bool },
}

/// The tool's arguments.
pub struct Args {
    pub commands: Commands,
}

/// The bucket that a command works on.
pub open spec fn bucket_of(c: Commands) -> Seq<char> {
    match c {
        Commands::ListChannels { bucket } => bucket@,
        Commands::ShowChannel { bucket, .. } => bucket@,
        Commands::Publish { bucket, .. } => bucket@,
    }
}

impl Args {
    /// The bucket that the command works on.
    pub fn bucket(&self) -> (r: &str)
        ensures
            r@ == bucket_of(self.commands),
    {
        match &self.commands {
            Commands::ListChannels { bucket } => bucket.as_str(),
            Commands::ShowChannel { bucket, .. } => bucket.as_str(),
            Commands::Publish { bucket, .. } => bucket.as_str(),
        }
    }
}

/// How one channel is listed: its name, then its extension in parentheses.
pub open spec fn listing_line(name: Seq<char>, extension: Seq<char>) -> Seq<char> {
    name + " ("@ + extension + ")"@
}

/// One line per channel of `snapshot`, in its order: `name (extension)`.
pub fn channel_listing(snapshot: &ChannelsConfig) -> (r: Vec<String>)
    ensures
        r@.len() == snapshot.entries().len(),
        forall|i: int|
            0 <= i < r@.len() ==> #[trigger] r@[i]@ == listing_line(
                snapshot.entries()[i].0,
                snapshot.entries()[i].1.file_extension,
            ),
{
    let channels = snapshot.channels();
    let ghost es = entries_of(channels@);
    let mut lines: Vec<String> = Vec::new();
    let mut i: usize = 0;
    while i < channels.len()
        invariant
            i <= channels@.len(),
            es == entries_of(channels@),
            es == snapshot.entries(),
            lines@.len() == i,
            forall|j: int| 0 <= j < i ==> #[trigger] lines@[j]@ == listing_line(es[j].0, es[j].1.file_extension),
        decreases channels@.len() - i,
    {
        let entry: &ChannelEntry = &channels[i];
        let a = concat(entry.name.as_str(), " (");
        let b = concat(a.as_str(), entry.config.file_extension.as_str());
        let line = concat(b.as_str(), ")");
        lines.push(line);
        i += 1;
    }
    lines
}

/// What a channel's latest artifact is shown as.
pub open spec fn latest_text(c: crate::channel::ChannelConfigView) -> Seq<char> {
    "Latest: "@ + match c.latest {
        Some(l) => l,
        None => "(nothing yet)"@,
    }
}

/// The line that shows what `config` points to.
pub fn latest_line(config: &ChannelConfig) -> (r: String)
    ensures
        r@ == latest_text(config@),
{
    match &config.latest {
        Some(l) => concat("Latest: ", l.as_str()),
        None => concat("Latest: ", "(nothing yet)"),
    }
}

} // verus!
