//! The order in which a request is handled: the authorization guard first,
//! resolution only for requests the guard let through.

use vstd::prelude::*;

use crate::auth::{gate_outcome, unit_view};
use crate::channel::ChannelConfigView;
use crate::error::{status_of, RequestError, RequestErrorView, UNAUTHORIZED};
use crate::gateway::{
    channel_resolution, permanent_resolution, resolution_view, resolve_channel, resolve_permanent, Resolution,
    ResolutionView,
};
use crate::snapshot::ChannelsConfig;

verus! {

/// The two kinds of request that are served.
pub enum Route {
    /// `/channel/<name><extension>`: the latest artifact of a channel.
    Channel,
    /// `/permanent/<object key>`: one artifact, for good.
    Permanent,
}

/// How a request on `route` for `path` is resolved.
pub open spec fn route_resolution(
    es: Seq<(Seq<char>, ChannelConfigView)>,
    base_url: Seq<char>,
    route: Route,
    path: Seq<char>,
) -> Result<ResolutionView, RequestErrorView> {
    match route {
        Route::Channel => channel_resolution(es, base_url, path),
        Route::Permanent => permanent_resolution(es, path),
    }
}

/// How a request is answered once the guard has decided `auth`.
pub open spec fn request_outcome(
    auth: Result<(), RequestErrorView>,
    es: Seq<(Seq<char>, ChannelConfigView)>,
    base_url: Seq<char>,
    route: Route,
    path: Seq<char>,
) -> Result<ResolutionView, RequestErrorView> {
    match auth {
        Err(e) => Err(e),
        Ok(()) => route_resolution(es, base_url, route, path),
    }
}

/// Resolves a request on `route` for `path` that the guard answered with
/// `auth`; a refused request is answered with the guard's error and not resolved.
pub fn handle_request(
    auth: Result<(), RequestError>,
    snapshot: &ChannelsConfig,
    base_url: &str,
    route: Route,
    path: &str,
) -> (r: Result<Resolution, RequestError>)
    ensures
        resolution_view(r) == request_outcome(unit_view(auth), snapshot.entries(), base_url@, route, path@),
{
    match auth {
        Err(e) => Err(e),
        Ok(()) => match route {
            Route::Channel => resolve_channel(snapshot, base_url, path),
            Route::Permanent => resolve_permanent(snapshot, path),
        },
    }
}

/// With the guard enabled, a request without credentials or whose token is
/// not accepted is answered 401 and is never resolved, so nothing is
/// presigned for it; with the guard disabled, the same request is resolved
/// exactly as if there were no guard.
pub proof fn lemma_gate_precedes_resolution(
    password: Option<Seq<char>>,
    accepted: bool,
    es: Seq<(Seq<char>, ChannelConfigView)>,
    base_url: Seq<char>,
    route: Route,
    path: Seq<char>,
)
    ensures
        !(password is Some && accepted) ==> {
            let r = request_outcome(gate_outcome(true, password, accepted), es, base_url, route, path);
            r is Err && status_of(r->Err_0) == UNAUTHORIZED
        },
        request_outcome(gate_outcome(false, password, accepted), es, base_url, route, path)
            == route_resolution(es, base_url, route, path),
{
}

} // verus!
