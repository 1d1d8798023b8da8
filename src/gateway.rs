//! Answering requests for channels and for permanent objects: which object
//! to presign, and the redirect that carries the presigned URL.

use vstd::prelude::*;
use vstd::string::StrSliceExecFns;

use crate::channel::ChannelConfigView;
use crate::error::{RequestError, RequestErrorView};
use crate::snapshot::{entries_of, ChannelEntry, ChannelsConfig};
use crate::text::{concat, ends_with, has_suffix, same_text};

verus! {

/// How long a presigned URL stays valid, in seconds.
pub const PRESIGN_TTL_SECONDS: u64 = 600;

/// The status code of the redirect that answers a resolved request.
pub const TEMPORARY_REDIRECT: u16 = 307;

/// The request kinds the store presigns.
#[derive(Debug, PartialEq, Eq, Structural)]
pub enum PresignMethod {
    Get,
    Head,
}

/// The presign method for an HTTP method name: only GET and HEAD.
pub fn presign_method(method: &str) -> (r: Result<PresignMethod, RequestError>)
    ensures
        method@ == "GET"@ ==> r == Ok::<PresignMethod, RequestError>(PresignMethod::Get),
        method@ == "HEAD"@ ==> r == Ok::<PresignMethod, RequestError>(PresignMethod::Head),
        method@ != "GET"@ && method@ != "HEAD"@ ==> r is Err && r->Err_0@ == RequestErrorView::UnsupportedMethod(method@),
{
    proof {
        reveal_strlit("GET");
        reveal_strlit("HEAD");
        assert("GET"@.len() != "HEAD"@.len());
    }
    if same_text(method, "GET") {
        Ok(PresignMethod::Get)
    } else if same_text(method, "HEAD") {
        Ok(PresignMethod::Head)
    } else {
        Err(RequestError::UnsupportedMethod { method: method.to_owned() })
    }
}

/// A character that HTTP header values may hold (a byte of a multi-byte
/// character is always at least 128, which is allowed).
pub open spec fn header_char(c: char) -> bool {
    c == '\t' || (c as u32 >= 32 && c as u32 != 127)
}

/// `s` can be sent as the value of an HTTP header.
pub open spec fn header_safe(s: Seq<char>) -> bool {
    forall|i: int| 0 <= i < s.len() ==> header_char(#[trigger] s[i])
}

/// Whether `s` can be sent as the value of an HTTP header.
pub fn is_header_safe(s: &str) -> (r: bool)
    ensures
        r == header_safe(s@),
{
    let n = s.unicode_len();
    let mut i: usize = 0;
    while i < n
        invariant
            n == s@.len(),
            i <= n,
            forall|j: int| 0 <= j < i ==> header_char(#[trigger] s@[j]),
        decreases n - i,
    {
        let c = s.get_char(i);
        if !(c == '\t' || (c as u32 >= 32 && c as u32 != 127)) {
            return false;
        }
        i += 1;
    }
    true
}

/// The `Link` header value that advertises the permanent URL of `object_key`.
pub open spec fn link_value(base_url: Seq<char>, object_key: Seq<char>) -> Seq<char> {
    "<"@ + base_url + "/permanent/"@ + object_key + ">; rel=\"immutable\""@
}

/// The `Link` header value that advertises the permanent URL of `object_key`,
/// served under `base_url`.
pub fn immutable_link(base_url: &str, object_key: &str) -> (r: String)
    ensures
        r@ == link_value(base_url@, object_key@),
{
    let a = concat("<", base_url);
    let b = concat(a.as_str(), "/permanent/");
    let c = concat(b.as_str(), object_key);
    concat(c.as_str(), ">; rel=\"immutable\"")
}

/// The file name under which a channel is requested: its name followed by
/// its extension.
pub open spec fn channel_file(e: (Seq<char>, ChannelConfigView)) -> Seq<char> {
    e.0 + e.1.file_extension
}

/// `i` is the first channel of `es` requested as `path`.
pub open spec fn is_first_match(es: Seq<(Seq<char>, ChannelConfigView)>, path: Seq<char>, i: int) -> bool {
    &&& 0 <= i < es.len()
    &&& channel_file(es[i]) == path
    &&& forall|j: int| 0 <= j < i ==> channel_file(#[trigger] es[j]) != path
}

/// `path` ends with the extension of one of the channels.
pub open spec fn extension_known(es: Seq<(Seq<char>, ChannelConfigView)>, path: Seq<char>) -> bool {
    exists|i: int| 0 <= i < es.len() && has_suffix(path, #[trigger] es[i].1.file_extension)
}

/// What to presign, and the `Link` header to send along where there is one.
#[derive(Debug)]
pub struct Resolution {
    pub object_key: String,
    pub link: Option<String>,
}

pub struct ResolutionView {
    pub object_key: Seq<char>,
    pub link: Option<Seq<char>>,
}

impl View for Resolution {
    type V = ResolutionView;

    open spec fn view(&self) -> ResolutionView {
        ResolutionView {
            object_key: self.object_key@,
            link: match &self.link {
                Some(l) => Some(l@),
                None => None,
            },
        }
    }
}

pub open spec fn resolution_view(r: Result<Resolution, RequestError>) -> Result<ResolutionView, RequestErrorView> {
    match r {
        Ok(x) => Ok(x@),
        Err(e) => Err(e@),
    }
}

/// How a request for channel file `path` is answered: the object that the
/// first channel requested as `path` points to, with its permanent URL
/// under `base_url` as the link.
pub open spec fn channel_resolution(
    es: Seq<(Seq<char>, ChannelConfigView)>,
    base_url: Seq<char>,
    path: Seq<char>,
) -> Result<ResolutionView, RequestErrorView> {
    if !extension_known(es, path) {
        Err(RequestErrorView::InvalidFile(path))
    } else if !(exists|i: int| is_first_match(es, path, i)) {
        Err(RequestErrorView::NoSuchChannel(path))
    } else {
        let c = es[choose|i: int| is_first_match(es, path, i)].1;
        match c.latest {
            None => Err(RequestErrorView::NoSuchChannel(path)),
            Some(l) => {
                let key = l + c.file_extension;
                let link = link_value(base_url, key);
                if header_safe(link) {
                    Ok(ResolutionView { object_key: key, link: Some(link) })
                } else {
                    Err(RequestErrorView::Unknown)
                }
            },
        }
    }
}

/// How a request for permanent object `path` is answered: that very object,
/// where its name ends with the extension of one of the channels.
pub open spec fn permanent_resolution(es: Seq<(Seq<char>, ChannelConfigView)>, path: Seq<char>) -> Result<ResolutionView, RequestErrorView> {
    if extension_known(es, path) {
        Ok(ResolutionView { object_key: path, link: None })
    } else {
        Err(RequestErrorView::InvalidFile(path))
    }
}

/// Whether `path` ends with one of the channels' extensions.
fn has_known_extension(channels: &Vec<ChannelEntry>, path: &str) -> (r: bool)
    ensures
        r == extension_known(entries_of(channels@), path@),
{
    let ghost es = entries_of(channels@);
    let mut i: usize = 0;
    while i < channels.len()
        invariant
            i <= channels@.len(),
            es == entries_of(channels@),
            forall|j: int| 0 <= j < i ==> !has_suffix(path@, #[trigger] es[j].1.file_extension),
        decreases channels@.len() - i,
    {
        if ends_with(path, channels[i].config.file_extension.as_str()) {
            assert(has_suffix(path@, es[i as int].1.file_extension));
            return true;
        }
        i += 1;
    }
    false
}

/// The first channel requested as `path`.
fn first_match(channels: &Vec<ChannelEntry>, path: &str) -> (r: Option<usize>)
    ensures
        match r {
            Some(i) => is_first_match(entries_of(channels@), path@, i as int),
            None => !(exists|i: int| #[trigger] is_first_match(entries_of(channels@), path@, i)),
        },
{
    let ghost es = entries_of(channels@);
    let mut i: usize = 0;
    while i < channels.len()
        invariant
            i <= channels@.len(),
            es == entries_of(channels@),
            forall|j: int| 0 <= j < i ==> channel_file(#[trigger] es[j]) != path@,
        decreases channels@.len() - i,
    {
        let file = concat(channels[i].name.as_str(), channels[i].config.file_extension.as_str());
        if same_text(file.as_str(), path) {
            return Some(i);
        }
        i += 1;
    }
    None
}

/// The answer to a request for channel file `path` (a channel name followed
/// by that channel's extension) against `snapshot`.
pub fn resolve_channel(snapshot: &ChannelsConfig, base_url: &str, path: &str) -> (r: Result<Resolution, RequestError>)
    ensures
        resolution_view(r) == channel_resolution(snapshot.entries(), base_url@, path@),
{
    let channels = snapshot.channels();
    if !has_known_extension(channels, path) {
        return Err(RequestError::InvalidFile { file_name: path.to_owned() });
    }
    match first_match(channels, path) {
        None => Err(RequestError::NoSuchChannel { file_name: path.to_owned() }),
        Some(i) => {
            let ghost es = snapshot.entries();
            proof {
                let c = choose|k: int| is_first_match(es, path@, k);
                if c < i {
                    assert(channel_file(es[c]) != path@);
                } else if c > i {
                    assert(channel_file(es[i as int]) != path@);
                }
            }
            let config = &channels[i].config;
            match &config.latest {
                None => Err(RequestError::NoSuchChannel { file_name: path.to_owned() }),
                Some(latest) => {
                    let object_key = concat(latest.as_str(), config.file_extension.as_str());
                    let link = immutable_link(base_url, object_key.as_str());
                    if is_header_safe(link.as_str()) {
                        Ok(Resolution { object_key, link: Some(link) })
                    } else {
                        Err(RequestError::Unknown)
                    }
                },
            }
        },
    }
}

/// The answer to a request for the permanent object `path` against `snapshot`.
/// Whether the object exists is not checked: a made-up key gives a URL that
/// the store answers with "not found".
pub fn resolve_permanent(snapshot: &ChannelsConfig, path: &str) -> (r: Result<Resolution, RequestError>)
    ensures
        resolution_view(r) == permanent_resolution(snapshot.entries(), path@),
{
    if has_known_extension(snapshot.channels(), path) {
        Ok(Resolution { object_key: path.to_owned(), link: None })
    } else {
        Err(RequestError::InvalidFile { file_name: path.to_owned() })
    }
}

/// What the store answered when asked to presign.
pub enum PresignOutcome {
    /// The presigned URL.
    Signed(String),
    /// The presigning parameters were refused.
    ConfigRejected,
    /// Presigning failed.
    Failed,
}

/// A temporary redirect to `location`, with the `Link` header where there is one.
#[derive(Debug)]
pub struct Redirect {
    pub location: String,
    pub link: Option<String>,
}

/// The response to a resolved request once the store has answered the
/// presign request.
pub fn redirect_for(resolution: Resolution, outcome: PresignOutcome) -> (r: Result<Redirect, RequestError>)
    ensures
        match outcome {
            PresignOutcome::Signed(url) => r is Ok && r->Ok_0.location@ == url@ && r->Ok_0.link == resolution.link,
            PresignOutcome::ConfigRejected => r is Err && r->Err_0@ == RequestErrorView::PresignConfigFailure,
            PresignOutcome::Failed => r is Err && r->Err_0@ == RequestErrorView::PresignFailure(resolution.object_key@),
        },
{
    match outcome {
        PresignOutcome::Signed(url) => Ok(Redirect { location: url, link: resolution.link }),
        PresignOutcome::ConfigRejected => Err(RequestError::PresignConfigFailure),
        PresignOutcome::Failed => Err(RequestError::PresignFailure { object_key: resolution.object_key }),
    }
}

} // verus!
