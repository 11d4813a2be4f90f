use vstd::prelude::*;

use crate::FerrisError;
use crate::Response;
use crate::Track;
use crate::TrackView;
use crate::commands::Action;
use crate::commands::ActionView;
use crate::commands::CommandPlan;
use crate::commands::plan_actions;
use crate::commands::spec_description_only;

verus! {

/// Whether the play argument is passed through verbatim: it starts with `http`.
pub open spec fn spec_is_http(s: Seq<char>) -> bool {
    s.len() >= 4 && s.subrange(0, 4) == "http"@
}

/// Prefix classifier for the play argument.
fn is_http_url(s: &str) -> (r: bool)
    ensures
        r == spec_is_http(s@),
{
    proof {
        reveal_strlit("http");
    }
    let len = s.unicode_len();
    if len < 4 {
        return false;
    }
    let r = s.get_char(0) == 'h' && s.get_char(1) == 't' && s.get_char(2) == 't' && s.get_char(3)
        == 'p';
    proof {
        if r {
            assert(s@.subrange(0, 4) =~= "http"@);
        } else {
            if s@.subrange(0, 4) == "http"@ {
                assert(s@.subrange(0, 4)[0] == 'h');
                assert(s@.subrange(0, 4)[1] == 't');
                assert(s@.subrange(0, 4)[2] == 't');
                assert(s@.subrange(0, 4)[3] == 'p');
            }
        }
    }
    r
}

/// Relies on lavalink_rs's `SearchEngines::to_query`: for the YouTube engine
/// it always returns `Ok` of `"ytsearch:"` followed by the query text.
#[verifier::external_body]
fn youtube_query(base_query: &str) -> (r: String)
    ensures
        r@ == "ytsearch:"@ + base_query@,
{
    lavalink_rs::model::search::SearchEngines::YouTube
        .to_query(base_query)
        .expect("the YouTube engine never fails to build a query")
}

/// What the loadable query looks like: a `http`-prefixed argument verbatim,
/// anything else wrapped as a YouTube search.
pub open spec fn spec_build_query(s: Seq<char>) -> Seq<char> {
    if spec_is_http(s) {
        s
    } else {
        "ytsearch:"@ + s
    }
}

/// Builds the query handed to the streaming node's track loader: an argument
/// that looks like a URL is passed through verbatim, anything else becomes a
/// search against the configured search backend.
pub fn build_query(url: &str) -> (r: String)
    ensures
        r@ == spec_build_query(url@),
{
    if is_http_url(url) {
        url.to_owned()
    } else {
        youtube_query(url)
    }
}

/// Play joins first and swallows only an AlreadyConnected failure, so that an
/// existing session is reused; any other join failure propagates.
pub fn join_or_reuse(join_error: Option<FerrisError>) -> (r: Result<(), FerrisError>)
    ensures
        match join_error {
            None => r == Ok::<(), FerrisError>(()),
            Some(e) => if e == FerrisError::AlreadyOnCallError {
                r == Ok::<(), FerrisError>(())
            } else {
                r == Err::<(), FerrisError>(e)
            },
        },
{
    match join_error {
        None => Ok(()),
        Some(FerrisError::AlreadyOnCallError) => Ok(()),
        Some(e) => Err(e),
    }
}

/// What the streaming node's loader answered: one track, a search result list,
/// a named playlist, or nothing.
#[derive(Debug)]
pub enum TrackLoad {
    Single(Track),
    Search(Vec<Track>),
    Playlist(String, Vec<Track>),
    NotFound,
}

/// Mathematical model of a `TrackLoad`.
pub enum TrackLoadView {
    Single(TrackView),
    Search(Seq<TrackView>),
    Playlist(Seq<char>, Seq<TrackView>),
    NotFound,
}

impl View for TrackLoad {
    type V = TrackLoadView;

    open spec fn view(&self) -> TrackLoadView {
        match self {
            TrackLoad::Single(t) => TrackLoadView::Single(t@),
            TrackLoad::Search(ts) => TrackLoadView::Search(ts@.map_values(|t: Track| t@)),
            TrackLoad::Playlist(name, ts) => TrackLoadView::Playlist(
                name@,
                ts@.map_values(|t: Track| t@),
            ),
            TrackLoad::NotFound => TrackLoadView::NotFound,
        }
    }
}

/// The response text after queueing: the track links to its uri when it has
/// one, a playlist or an uri-less track is named plainly.
pub open spec fn spec_added_description(title: Seq<char>, uri: Option<Seq<char>>) -> Seq<char> {
    match uri {
        Some(u) => "Added ["@ + title + "]("@ + u + ") to queue"@,
        None => "Added "@ + title + " to queue"@,
    }
}

/// Renders the queued-track response text.
fn added_description(title: &str, uri: &Option<String>) -> (r: String)
    ensures
        r@ == spec_added_description(
            title@,
            match uri {
                Some(u) => Some(u@),
                None => None,
            },
        ),
{
    proof {
        reveal_strlit("Added [");
        reveal_strlit("](");
        reveal_strlit(") to queue");
        reveal_strlit("Added ");
        reveal_strlit(" to queue");
    }
    let mut description = String::new();
    match uri {
        Some(u) => {
            description.append("Added [");
            description.append(title);
            description.append("](");
            description.append(u.as_str());
            description.append(") to queue");
        },
        None => {
            description.append("Added ");
            description.append(title);
            description.append(" to queue");
        },
    }
    proof {
        assert(description@ =~= spec_added_description(
            title@,
            match uri {
                Some(u) => Some(u@),
                None => None,
            },
        ));
    }
    description
}

/// Decides what play does with the loader's answer. A single track is queued;
/// of a search only the first result is queued; a playlist is queued whole and
/// named in the response; an empty answer — or an empty search result list —
/// fails with TrackNotFound and queues nothing.
pub fn play(load: TrackLoad) -> (r: Result<CommandPlan, FerrisError>)
    ensures
        load@ is NotFound ==> r == Err::<CommandPlan, FerrisError>(FerrisError::TrackNotFoundError),
        load@ matches TrackLoadView::Search(ts) ==> (ts.len() == 0 ==> r == Err::<
            CommandPlan,
            FerrisError,
        >(FerrisError::TrackNotFoundError)),
        r is Ok <==> (load@ is Single || load@ is Playlist || (load@ matches TrackLoadView::Search(
            ts,
        ) && ts.len() > 0)),
        r matches Ok(p) ==> (load@ matches TrackLoadView::Single(t) ==> {
            &&& plan_actions(p) == seq![ActionView::Append(seq![t])]
            &&& spec_description_only(p.response@, spec_added_description(t.title, t.uri))
        }),
        r matches Ok(p) ==> (load@ matches TrackLoadView::Search(ts) ==> {
            &&& plan_actions(p) == seq![ActionView::Append(seq![ts[0]])]
            &&& spec_description_only(p.response@, spec_added_description(ts[0].title, ts[0].uri))
        }),
        r matches Ok(p) ==> (load@ matches TrackLoadView::Playlist(name, ts) ==> {
            &&& plan_actions(p) == seq![ActionView::Append(ts)]
            &&& spec_description_only(p.response@, "Added "@ + name + " to queue"@)
        }),
{
    match load {
        TrackLoad::NotFound => Err(FerrisError::TrackNotFoundError),
        TrackLoad::Single(t) => {
            let ghost t_view = t@;
            let description = added_description(t.title.as_str(), &t.uri);
            let tracks_vec = vec![t];
            let ghost tv = tracks_vec@;
            let plan = CommandPlan {
                actions: vec![Action::Append(tracks_vec)],
                response: Response::new().description(description.as_str()),
            };
            proof {
                assert(tv.map_values(|tr: Track| tr@) =~= seq![t_view]);
                assert(plan_actions(plan) =~= seq![ActionView::Append(seq![t_view])]);
            }
            Ok(plan)
        },
        TrackLoad::Search(ts) => {
            if ts.len() == 0 {
                return Err(FerrisError::TrackNotFoundError);
            }
            let ghost all_views = ts@.map_values(|t: Track| t@);
            let first = ts[0].clone();
            let ghost t_view = first@;
            let description = added_description(first.title.as_str(), &first.uri);
            let tracks_vec = vec![first];
            let ghost tv = tracks_vec@;
            let plan = CommandPlan {
                actions: vec![Action::Append(tracks_vec)],
                response: Response::new().description(description.as_str()),
            };
            proof {
                assert(t_view == all_views[0]);
                assert(tv.map_values(|tr: Track| tr@) =~= seq![t_view]);
                assert(plan_actions(plan) =~= seq![ActionView::Append(seq![t_view])]);
            }
            Ok(plan)
        },
        TrackLoad::Playlist(name, ts) => {
            let ghost all_views = ts@.map_values(|t: Track| t@);
            proof {
                reveal_strlit("Added ");
                reveal_strlit(" to queue");
            }
            let mut description = String::new();
            description.append("Added ");
            description.append(name.as_str());
            description.append(" to queue");
            let plan = CommandPlan {
                actions: vec![Action::Append(ts)],
                response: Response::new().description(description.as_str()),
            };
            proof {
                assert(description@ =~= "Added "@ + name@ + " to queue"@);
                assert(plan_actions(plan) =~= seq![ActionView::Append(all_views)]);
            }
            Ok(plan)
        },
    }
}

} // verus!
