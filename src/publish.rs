//! Publishing a new artifact to a channel: upload the object under a key that
//! is not taken yet, and only then move the channel's pointer to it.
//!
//! The workflow is a state machine. The caller performs each action against
//! the object store and reports what happened as the next event.

use vstd::prelude::*;

use crate::channel::{
    channel_config_key, config_key, unpublished_view, ChannelConfig, ChannelConfigView,
};
use crate::snapshot::ChannelsConfig;
use crate::text::{base_name, has_suffix, last_component, strip_suffix};

verus! {

/// Why publishing failed.
#[derive(Debug)]
pub enum PublishError {
    /// The configuration could not be read from the store.
    ConfigUnavailable,
    /// The channel is not configured, and creating it was not asked for.
    ChannelNotFound { channel_name: String },
    /// The file name does not end with the channel's extension.
    InvalidFileName { file_name: String },
    /// An object with this key exists already; artifacts are never overwritten.
    UploadConflict { object_key: String },
    /// Whether the key is taken could not be found out.
    ExistenceCheckFailed { object_key: String },
    /// The upload did not succeed.
    UploadFailed { object_key: String },
    /// The object was uploaded but the channel still points to its old
    /// artifact; the new object is left unreferenced.
    PointerWriteFailed { object_key: String },
    /// An event came that the current state does not wait for.
    UnexpectedEvent,
}

pub enum PublishErrorView {
    ConfigUnavailable,
    ChannelNotFound(Seq<char>),
    InvalidFileName(Seq<char>),
    UploadConflict(Seq<char>),
    ExistenceCheckFailed(Seq<char>),
    UploadFailed(Seq<char>),
    PointerWriteFailed(Seq<char>),
    UnexpectedEvent,
}

impl View for PublishError {
    type V = PublishErrorView;

    open spec fn view(&self) -> PublishErrorView {
        match self {
            PublishError::ConfigUnavailable => PublishErrorView::ConfigUnavailable,
            PublishError::ChannelNotFound { channel_name } => PublishErrorView::ChannelNotFound(channel_name@),
            PublishError::InvalidFileName { file_name } => PublishErrorView::InvalidFileName(file_name@),
            PublishError::UploadConflict { object_key } => PublishErrorView::UploadConflict(object_key@),
            PublishError::ExistenceCheckFailed { object_key } => PublishErrorView::ExistenceCheckFailed(object_key@),
            PublishError::UploadFailed { object_key } => PublishErrorView::UploadFailed(object_key@),
            PublishError::PointerWriteFailed { object_key } => PublishErrorView::PointerWriteFailed(object_key@),
            PublishError::UnexpectedEvent => PublishErrorView::UnexpectedEvent,
        }
    }
}

/// The object a file is published as.
#[derive(Debug)]
pub struct UploadTarget {
    /// The object key: the file's name, extension included.
    pub object_key: String,
    /// The object key without the channel's extension.
    pub base: String,
}

/// The base key of `object_key` for a channel serving `extension`.
pub open spec fn base_key(object_key: Seq<char>, extension: Seq<char>) -> Seq<char> {
    object_key.subrange(0, object_key.len() - extension.len())
}

/// The object that a file named `file_name` is published as on `channel`:
/// the name must end with the channel's extension.
pub fn upload_target(file_name: &str, channel: &ChannelConfig) -> (r: Result<UploadTarget, PublishError>)
    ensures
        r is Ok <==> has_suffix(file_name@, channel@.file_extension),
        r is Ok ==> r->Ok_0.object_key@ == file_name@,
        r is Ok ==> r->Ok_0.base@ == base_key(file_name@, channel@.file_extension),
        r is Err ==> r->Err_0@ == PublishErrorView::InvalidFileName(file_name@),
{
    match strip_suffix(file_name, channel.file_extension.as_str()) {
        Some(base) => Ok(UploadTarget { object_key: file_name.to_owned(), base }),
        None => Err(PublishError::InvalidFileName { file_name: file_name.to_owned() }),
    }
}

/// The configuration of a channel after `base` has been published to it:
/// the former latest artifact moves to the end of the history.
pub open spec fn advanced(c: ChannelConfigView, base: Seq<char>) -> ChannelConfigView {
    ChannelConfigView {
        latest: Some(base),
        file_extension: c.file_extension,
        previous: match c.latest {
            Some(l) => c.previous.push(l),
            None => c.previous,
        },
    }
}

/// Points `channel` to `base`, keeping what it pointed to before in its history.
pub fn advance_channel(channel: &mut ChannelConfig, base: String)
    ensures
        final(channel)@ == advanced(old(channel)@, base@),
{
    if let Some(previous) = channel.latest.take() {
        channel.previous.push(previous);
    }
    channel.latest = Some(base);
    proof {
        assert(final(channel)@.previous =~= advanced(old(channel)@, base@).previous);
    }
}

/// What is to be published where.
pub struct PublishRequest {
    pub channel_name: String,
    pub file_path: String,
    /// Start the channel afresh where it is not configured yet.
    pub create_if_missing: bool,
}

pub struct PublishRequestView {
    pub channel_name: Seq<char>,
    pub file_path: Seq<char>,
    pub create_if_missing: bool,
}

impl View for PublishRequest {
    type V = PublishRequestView;

    open spec fn view(&self) -> PublishRequestView {
        PublishRequestView {
            channel_name: self.channel_name@,
            file_path: self.file_path@,
            create_if_missing: self.create_if_missing,
        }
    }
}

/// Where a publish stands.
pub enum PublishState {
    /// Waiting for the configuration.
    LoadingConfig,
    /// Waiting to learn whether `object_key` is taken.
    CheckingExistence { object_key: String, base: String, channel: ChannelConfig },
    /// Waiting for the upload of `object_key`.
    Uploading { object_key: String, base: String, channel: ChannelConfig },
    /// Waiting for the channel's new configuration to be written.
    WritingPointer { object_key: String },
    /// Done, with success or not.
    Finished,
}

pub enum PublishStateView {
    LoadingConfig,
    CheckingExistence { object_key: Seq<char>, base: Seq<char>, channel: ChannelConfigView },
    Uploading { object_key: Seq<char>, base: Seq<char>, channel: ChannelConfigView },
    WritingPointer { object_key: Seq<char> },
    Finished,
}

impl View for PublishState {
    type V = PublishStateView;

    open spec fn view(&self) -> PublishStateView {
        match self {
            PublishState::LoadingConfig => PublishStateView::LoadingConfig,
            PublishState::CheckingExistence { object_key, base, channel } => PublishStateView::CheckingExistence {
                object_key: object_key@,
                base: base@,
                channel: channel@,
            },
            PublishState::Uploading { object_key, base, channel } => PublishStateView::Uploading {
                object_key: object_key@,
                base: base@,
                channel: channel@,
            },
            PublishState::WritingPointer { object_key } => PublishStateView::WritingPointer { object_key: object_key@ },
            PublishState::Finished => PublishStateView::Finished,
        }
    }
}

/// What happened when the caller performed the last action.
pub enum PublishEvent {
    ConfigLoaded(ChannelsConfig),
    ConfigLoadFailed,
    /// Whether an object with the key exists.
    ExistenceChecked(bool),
    ExistenceCheckFailed,
    Uploaded,
    UploadFailed,
    PointerWritten,
    PointerWriteFailed,
}

pub enum PublishEventView {
    ConfigLoaded(Map<Seq<char>, ChannelConfigView>),
    ConfigLoadFailed,
    ExistenceChecked(bool),
    ExistenceCheckFailed,
    Uploaded,
    UploadFailed,
    PointerWritten,
    PointerWriteFailed,
}

impl View for PublishEvent {
    type V = PublishEventView;

    open spec fn view(&self) -> PublishEventView {
        match self {
            PublishEvent::ConfigLoaded(c) => PublishEventView::ConfigLoaded(c@),
            PublishEvent::ConfigLoadFailed => PublishEventView::ConfigLoadFailed,
            PublishEvent::ExistenceChecked(b) => PublishEventView::ExistenceChecked(*b),
            PublishEvent::ExistenceCheckFailed => PublishEventView::ExistenceCheckFailed,
            PublishEvent::Uploaded => PublishEventView::Uploaded,
            PublishEvent::UploadFailed => PublishEventView::UploadFailed,
            PublishEvent::PointerWritten => PublishEventView::PointerWritten,
            PublishEvent::PointerWriteFailed => PublishEventView::PointerWriteFailed,
        }
    }
}

/// What the caller is to do next.
pub enum PublishAction {
    /// Read the configuration of all channels from the store.
    LoadConfig,
    /// Find out whether an object with this key exists.
    CheckExists { object_key: String },
    /// Upload the file at `file_path` as `object_key`.
    Upload { object_key: String, file_path: String },
    /// Store `channel` as the channel's configuration under `config_key`.
    WritePointer { config_key: String, channel: ChannelConfig },
    /// Stop, reporting the outcome.
    Done(Result<(), PublishError>),
}

pub enum PublishActionView {
    LoadConfig,
    CheckExists(Seq<char>),
    Upload { object_key: Seq<char>, file_path: Seq<char> },
    WritePointer { config_key: Seq<char>, channel: ChannelConfigView },
    Done(Result<(), PublishErrorView>),
}

impl View for PublishAction {
    type V = PublishActionView;

    open spec fn view(&self) -> PublishActionView {
        match self {
            PublishAction::LoadConfig => PublishActionView::LoadConfig,
            PublishAction::CheckExists { object_key } => PublishActionView::CheckExists(object_key@),
            PublishAction::Upload { object_key, file_path } => PublishActionView::Upload {
                object_key: object_key@,
                file_path: file_path@,
            },
            PublishAction::WritePointer { config_key, channel } => PublishActionView::WritePointer {
                config_key: config_key@,
                channel: channel@,
            },
            PublishAction::Done(r) => PublishActionView::Done(
                match r {
                    Ok(()) => Ok(()),
                    Err(e) => Err(e@),
                },
            ),
        }
    }
}

/// The configuration that publishing to the requested channel starts from.
pub open spec fn loaded_channel(req: PublishRequestView, m: Map<Seq<char>, ChannelConfigView>) -> Option<ChannelConfigView> {
    if m.contains_key(req.channel_name) {
        Some(m[req.channel_name])
    } else if req.create_if_missing {
        Some(unpublished_view())
    } else {
        None
    }
}

pub open spec fn fail(e: PublishErrorView) -> (PublishStateView, PublishActionView) {
    (PublishStateView::Finished, PublishActionView::Done(Err(e)))
}

/// The step taken once the configuration `m` has been read.
pub open spec fn after_config(req: PublishRequestView, m: Map<Seq<char>, ChannelConfigView>) -> (PublishStateView, PublishActionView) {
    match loaded_channel(req, m) {
        None => fail(PublishErrorView::ChannelNotFound(req.channel_name)),
        Some(c) => {
            let f = base_name(req.file_path);
            if has_suffix(f, c.file_extension) {
                (
                    PublishStateView::CheckingExistence {
                        object_key: f,
                        base: base_key(f, c.file_extension),
                        channel: c,
                    },
                    PublishActionView::CheckExists(f),
                )
            } else {
                fail(PublishErrorView::InvalidFileName(f))
            }
        },
    }
}

/// The next state and action of a publish of `req` in state `s` on event `e`.
pub open spec fn next(req: PublishRequestView, s: PublishStateView, e: PublishEventView) -> (PublishStateView, PublishActionView) {
    match s {
        PublishStateView::LoadingConfig => match e {
            PublishEventView::ConfigLoaded(m) => after_config(req, m),
            PublishEventView::ConfigLoadFailed => fail(PublishErrorView::ConfigUnavailable),
            _ => fail(PublishErrorView::UnexpectedEvent),
        },
        PublishStateView::CheckingExistence { object_key, base, channel } => match e {
            PublishEventView::ExistenceChecked(true) => fail(PublishErrorView::UploadConflict(object_key)),
            PublishEventView::ExistenceChecked(false) => (
                PublishStateView::Uploading { object_key, base, channel },
                PublishActionView::Upload { object_key, file_path: req.file_path },
            ),
            PublishEventView::ExistenceCheckFailed => fail(PublishErrorView::ExistenceCheckFailed(object_key)),
            _ => fail(PublishErrorView::UnexpectedEvent),
        },
        PublishStateView::Uploading { object_key, base, channel } => match e {
            PublishEventView::Uploaded => (
                PublishStateView::WritingPointer { object_key },
                PublishActionView::WritePointer {
                    config_key: config_key(req.channel_name),
                    channel: advanced(channel, base),
                },
            ),
            PublishEventView::UploadFailed => fail(PublishErrorView::UploadFailed(object_key)),
            _ => fail(PublishErrorView::UnexpectedEvent),
        },
        PublishStateView::WritingPointer { object_key } => match e {
            PublishEventView::PointerWritten => (PublishStateView::Finished, PublishActionView::Done(Ok(()))),
            PublishEventView::PointerWriteFailed => fail(PublishErrorView::PointerWriteFailed(object_key)),
            _ => fail(PublishErrorView::UnexpectedEvent),
        },
        PublishStateView::Finished => fail(PublishErrorView::UnexpectedEvent),
    }
}

fn finish(e: PublishError) -> (r: (PublishState, PublishAction))
    ensures
        (r.0@, r.1@) == fail(e@),
{
    (PublishState::Finished, PublishAction::Done(Err(e)))
}

/// A publish in progress.
pub struct Publisher {
    pub request: PublishRequest,
    pub state: PublishState,
}

impl Publisher {
    /// Starts publishing the file at `file_path` to `channel_name`; the first
    /// action is to load the configuration.
    pub fn start(channel_name: String, file_path: String, create_if_missing: bool) -> (r: (Publisher, PublishAction))
        ensures
            r.0.request@ == (PublishRequestView {
                channel_name: channel_name@,
                file_path: file_path@,
                create_if_missing,
            }),
            r.0.state@ == PublishStateView::LoadingConfig,
            r.1@ == PublishActionView::LoadConfig,
    {
        (
            Publisher {
                request: PublishRequest { channel_name, file_path, create_if_missing },
                state: PublishState::LoadingConfig,
            },
            PublishAction::LoadConfig,
        )
    }

    /// The step taken once the configuration has been read.
    fn on_config(&self, snapshot: &ChannelsConfig) -> (r: (PublishState, PublishAction))
        ensures
            (r.0@, r.1@) == after_config(self.request@, snapshot@),
    {
        let channel = match snapshot.channel(self.request.channel_name.as_str()) {
            Some(c) => c,
            None => {
                if self.request.create_if_missing {
                    ChannelConfig::unpublished()
                } else {
                    return finish(PublishError::ChannelNotFound { channel_name: self.request.channel_name.clone() });
                }
            },
        };
        let file_name = last_component(self.request.file_path.as_str());
        match upload_target(file_name.as_str(), &channel) {
            Ok(target) => {
                let object_key = target.object_key.clone();
                (
                    PublishState::CheckingExistence { object_key: target.object_key, base: target.base, channel },
                    PublishAction::CheckExists { object_key },
                )
            },
            Err(e) => finish(e),
        }
    }

    /// Moves on after `event`, and says what to do next.
    pub fn step(&mut self, event: PublishEvent) -> (r: PublishAction)
        ensures
            final(self).request@ == old(self).request@,
            (final(self).state@, r@) == next(old(self).request@, old(self).state@, event@),
    {
        let mut state = PublishState::Finished;
        std::mem::swap(&mut state, &mut self.state);
        let (s, a) = match state {
            PublishState::LoadingConfig => match event {
                PublishEvent::ConfigLoaded(snapshot) => self.on_config(&snapshot),
                PublishEvent::ConfigLoadFailed => finish(PublishError::ConfigUnavailable),
                _ => finish(PublishError::UnexpectedEvent),
            },
            PublishState::CheckingExistence { object_key, base, channel } => match event {
                PublishEvent::ExistenceChecked(true) => finish(PublishError::UploadConflict { object_key }),
                PublishEvent::ExistenceChecked(false) => {
                    let action = PublishAction::Upload {
                        object_key: object_key.clone(),
                        file_path: self.request.file_path.clone(),
                    };
                    (PublishState::Uploading { object_key, base, channel }, action)
                },
                PublishEvent::ExistenceCheckFailed => finish(PublishError::ExistenceCheckFailed { object_key }),
                _ => finish(PublishError::UnexpectedEvent),
            },
            PublishState::Uploading { object_key, base, channel } => match event {
                PublishEvent::Uploaded => {
                    let mut channel = channel;
                    advance_channel(&mut channel, base);
                    let config_key = channel_config_key(self.request.channel_name.as_str());
                    (PublishState::WritingPointer { object_key }, PublishAction::WritePointer { config_key, channel })
                },
                PublishEvent::UploadFailed => finish(PublishError::UploadFailed { object_key }),
                _ => finish(PublishError::UnexpectedEvent),
            },
            PublishState::WritingPointer { object_key } => match event {
                PublishEvent::PointerWritten => (PublishState::Finished, PublishAction::Done(Ok(()))),
                PublishEvent::PointerWriteFailed => finish(PublishError::PointerWriteFailed { object_key }),
                _ => finish(PublishError::UnexpectedEvent),
            },
            PublishState::Finished => finish(PublishError::UnexpectedEvent),
        };
        self.state = s;
        a
    }
}

/// The state reached, and every action asked for, when a publish of `req` is
/// answered with `events`: one event after each action but the last.
pub open spec fn run(req: PublishRequestView, events: Seq<PublishEventView>) -> (PublishStateView, Seq<PublishActionView>)
    decreases events.len(),
{
    if events.len() == 0 {
        (PublishStateView::LoadingConfig, seq![PublishActionView::LoadConfig])
    } else {
        let before = run(req, events.drop_last());
        let step = next(req, before.0, events.last());
        (step.0, before.1.push(step.1))
    }
}

/// The action reports that the object key was taken.
pub open spec fn is_conflict(a: PublishActionView) -> bool {
    a matches PublishActionView::Done(Err(PublishErrorView::UploadConflict(_)))
}

/// The configuration was read and named a free object key: the run went on
/// to the upload.
pub open spec fn key_was_free(req: PublishRequestView, events: Seq<PublishEventView>) -> bool {
    &&& events.len() >= 2
    &&& events[0] is ConfigLoaded
    &&& after_config(req, events[0]->ConfigLoaded_0).0 is CheckingExistence
    &&& events[1] == PublishEventView::ExistenceChecked(false)
}

/// The pointer write that a run of `req` on `events` asks for, when it gets there.
pub open spec fn expected_pointer(req: PublishRequestView, events: Seq<PublishEventView>) -> PublishActionView {
    let c = loaded_channel(req, events[0]->ConfigLoaded_0)->0;
    let k = base_name(req.file_path);
    PublishActionView::WritePointer {
        config_key: config_key(req.channel_name),
        channel: advanced(c, base_key(k, c.file_extension)),
    }
}

spec fn upload_shape(req: PublishRequestView, events: Seq<PublishEventView>, acts: Seq<PublishActionView>, i: int) -> bool {
    &&& i == 2
    &&& key_was_free(req, events)
    &&& acts[2] == (PublishActionView::Upload { object_key: base_name(req.file_path), file_path: req.file_path })
}

spec fn write_shape(req: PublishRequestView, events: Seq<PublishEventView>, acts: Seq<PublishActionView>, i: int) -> bool {
    &&& i == 3
    &&& upload_shape(req, events, acts, 2)
    &&& events[2] == PublishEventView::Uploaded
    &&& acts[3] == expected_pointer(req, events)
}

spec fn state_shape(req: PublishRequestView, events: Seq<PublishEventView>, s: PublishStateView, acts: Seq<PublishActionView>) -> bool {
    match s {
        PublishStateView::LoadingConfig => events.len() == 0,
        PublishStateView::CheckingExistence { .. } => {
            &&& events.len() == 1
            &&& events[0] is ConfigLoaded
            &&& s == after_config(req, events[0]->ConfigLoaded_0).0
        },
        PublishStateView::Uploading { object_key, base, channel } => {
            &&& events.len() == 2
            &&& key_was_free(req, events)
            &&& after_config(req, events[0]->ConfigLoaded_0).0 == (PublishStateView::CheckingExistence { object_key, base, channel })
            &&& upload_shape(req, events, acts, 2)
        },
        PublishStateView::WritingPointer { .. } => events.len() == 3,
        PublishStateView::Finished => true,
    }
}

spec fn run_shape(req: PublishRequestView, events: Seq<PublishEventView>) -> bool {
    let (s, acts) = run(req, events);
    &&& acts.len() == events.len() + 1
    &&& state_shape(req, events, s, acts)
    &&& forall|i: int| 0 <= i < acts.len() && #[trigger] acts[i] is Upload ==> upload_shape(req, events, acts, i)
    &&& forall|i: int| 0 <= i < acts.len() && #[trigger] acts[i] is WritePointer ==> write_shape(req, events, acts, i)
    &&& forall|i: int| 0 <= i < acts.len() && #[trigger] is_conflict(acts[i]) ==> i == 2 && events.len() >= 2
        && events[1] == PublishEventView::ExistenceChecked(true)
}

proof fn lemma_run_shape(req: PublishRequestView, events: Seq<PublishEventView>)
    ensures
        run_shape(req, events),
    decreases events.len(),
{
    if events.len() == 0 {
        return;
    }
    let prefix = events.drop_last();
    lemma_run_shape(req, prefix);
    let (s, acts) = run(req, prefix);
    let e = events.last();
    let (s2, a) = next(req, s, e);
    let acts2 = acts.push(a);
    assert(run(req, events) == (s2, acts2));
    assert forall|j: int| 0 <= j < prefix.len() implies events[j] == prefix[j] by {}
    let n = acts.len() as int;
    assert(acts2[n] == a);
    match s {
        PublishStateView::LoadingConfig => {
            assert(events.len() == 1);
            assert(!(a is Upload) && !(a is WritePointer) && !is_conflict(a));
        },
        PublishStateView::CheckingExistence { object_key, base, channel } => {
            assert(events[0] == prefix[0]);
            if e == PublishEventView::ExistenceChecked(false) {
                assert(key_was_free(req, events));
                assert(upload_shape(req, events, acts2, 2));
            }
        },
        PublishStateView::Uploading { object_key, base, channel } => {
            assert(events[0] == prefix[0]);
            assert(events[1] == prefix[1]);
            assert(acts2[2] == acts[2]);
            assert(upload_shape(req, events, acts2, 2));
            if e == PublishEventView::Uploaded {
                assert(write_shape(req, events, acts2, 3));
            }
        },
        PublishStateView::WritingPointer { .. } => {},
        PublishStateView::Finished => {},
    }
    assert forall|i: int| 0 <= i < acts2.len() && #[trigger] acts2[i] is Upload implies upload_shape(req, events, acts2, i) by {
        if i < n {
            assert(acts2[i] == acts[i]);
            assert(upload_shape(req, prefix, acts, i));
            assert(events[0] == prefix[0] && events[1] == prefix[1]);
        }
    }
    assert forall|i: int| 0 <= i < acts2.len() && #[trigger] acts2[i] is WritePointer implies write_shape(req, events, acts2, i) by {
        if i < n {
            assert(acts2[i] == acts[i]);
            assert(write_shape(req, prefix, acts, i));
            assert(events[0] == prefix[0] && events[1] == prefix[1] && events[2] == prefix[2]);
            assert(acts2[2] == acts[2]);
        }
    }
    assert forall|i: int| 0 <= i < acts2.len() && #[trigger] is_conflict(acts2[i]) implies i == 2 && events.len() >= 2
        && events[1] == PublishEventView::ExistenceChecked(true) by {
        if i < n {
            assert(acts2[i] == acts[i]);
            assert(events[1] == prefix[1]);
        }
    }
}

/// A publish that finds the object key taken neither uploads nor touches
/// the channel's pointer: a run that reports the conflict holds no upload
/// and no pointer write, before the report or after it.
pub proof fn lemma_conflict_leaves_pointer(req: PublishRequestView, events: Seq<PublishEventView>, i: int, j: int)
    requires
        0 <= i < run(req, events).1.len(),
        0 <= j < run(req, events).1.len(),
        is_conflict(run(req, events).1[i]),
    ensures
        !(run(req, events).1[j] is Upload),
        !(run(req, events).1[j] is WritePointer),
{
    lemma_run_shape(req, events);
    let acts = run(req, events).1;
    assert(is_conflict(acts[i]));
    if acts[j] is Upload {
        assert(upload_shape(req, events, acts, j));
    }
    if acts[j] is WritePointer {
        assert(write_shape(req, events, acts, j));
    }
}

/// The channel's pointer is written only right after the upload of the new
/// object was reported done, and it then names the new base key, with the
/// former latest artifact appended to the history.
pub proof fn lemma_pointer_follows_upload(req: PublishRequestView, events: Seq<PublishEventView>, i: int)
    requires
        0 <= i < run(req, events).1.len(),
        run(req, events).1[i] is WritePointer,
    ensures
        i == 3,
        key_was_free(req, events),
        run(req, events).1[2] == (PublishActionView::Upload { object_key: base_name(req.file_path), file_path: req.file_path }),
        events[2] == PublishEventView::Uploaded,
        run(req, events).1[3] == expected_pointer(req, events),
{
    lemma_run_shape(req, events);
    let acts = run(req, events).1;
    assert(acts[i] is WritePointer);
    assert(write_shape(req, events, acts, i));
}

} // verus!
