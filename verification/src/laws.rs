//! Properties that hold across the library's operations.

use vstd::prelude::*;
use crate::assets::{AssetType, FiletypeSpec, ImageSpec};
use crate::client::{client_setup_spec, known_client};
use crate::config::{Config, InitArgs};
use crate::presence::{asset_presence_spec, resolved_image_spec, AssetArgs, PresenceArgs};
use crate::session::{
    disconnected, established, failed, failure_status, init_answer, last_error_status,
    presence_plan_spec, settings_present, timed, workspace_set, workspace_updated, ConnectFailure,
    Session,
};
use crate::config::ActivityButton;
use crate::status::Status;
use crate::text::{fill, has_placeholder, opt_view};

verus! {

/// A template without the placeholder `{}` is shown as it is, whatever it is
/// filled with.
pub proof fn law_fill_without_placeholder(t: Seq<char>, v: Seq<char>)
    requires
        !has_placeholder(t),
    ensures
        fill(t, v) == t,
    decreases t.len(),
{
    if t.len() > 0 {
        if t.len() >= 2 && t[0] == '{' && t[1] == '}' {
            assert(t[0int + 1] == '}');
        }
        assert forall|i: int| 0 <= i && i + 1 < t.skip(1).len() && t.skip(1)[i] == '{' implies #[trigger] t.skip(1)[i + 1] != '}' by {
            assert(t[(i + 1) + 1] != '}');
        }
        law_fill_without_placeholder(t.skip(1), v);
        assert(seq![t[0]] + t.skip(1) =~= t);
    }
}

/// The template that is only the placeholder shows exactly what it is filled with.
pub proof fn law_fill_placeholder_only(v: Seq<char>)
    ensures
        fill("{}"@, v) == v,
{
    reveal_strlit("{}");
    let t = "{}"@;
    assert(t.len() == 2 && t[0] == '{' && t[1] == '}');
    assert(t.skip(2) =~= Seq::<char>::empty());
    assert(fill(t.skip(2), v) == Seq::<char>::empty());
    assert(fill(t, v) == v + fill(t.skip(2), v));
    assert(v + Seq::<char>::empty() =~= v);
}

/// Resolving a large image twice gives what resolving it once gives, whatever
/// the second lookup finds.
pub proof fn law_resolve_idempotent(
    custom: bool,
    image: ImageSpec,
    lookup: Option<FiletypeSpec>,
    at: Option<AssetType>,
    lookup2: Option<FiletypeSpec>,
    at2: Option<AssetType>,
)
    ensures
        resolved_image_spec(custom, resolved_image_spec(custom, image, lookup, at), lookup2, at2)
            == resolved_image_spec(custom, image, lookup, at),
{
}

/// An image or tooltip the editor gives for a buffer is the one shown.
pub proof fn law_given_icon_and_tooltip_win(
    c: Config,
    a: AssetArgs,
    r: PresenceArgs,
    ft: Option<FiletypeSpec>,
    at: Option<AssetType>,
)
    requires
        asset_presence_spec(c, a, r, ft, at) is Some,
    ensures
        a.icon@.len() > 0 ==> asset_presence_spec(c, a, r, ft, at)->0.large_image
            == ImageSpec::Text(a.icon@),
        a.tooltip@.len() > 0 ==> asset_presence_spec(c, a, r, ft, at)->0.large_text == a.tooltip@,
{
}

/// A running session refuses to be started again.
pub proof fn law_no_second_start(s: Session, opts: InitArgs)
    requires
        s.connected,
    ensures
        init_answer(s, opts) == (Status::Uninitialized, false),
{
}

/// A start is refused for an unknown client, and otherwise always goes on to
/// connect, blacklisted workspace or not.
pub proof fn law_start_connects_unless_refused(s: Session, opts: InitArgs)
    requires
        !s.connected,
    ensures
        init_answer(s, opts).1 == (client_setup_spec(opts.client@, opt_view(opts.image))
            is Some),
{
}

/// A known editor name always gives a non-custom client.
pub proof fn law_known_editor_not_custom(name: Seq<char>, image: Option<Seq<char>>)
    requires
        known_client(name) is Some,
    ensures
        client_setup_spec(name, image) is Some,
        ({
            let (id, custom, _) = client_setup_spec(name, image)->0;
            let (kid, _) = known_client(name)->0;
            !custom && id == kid
        }),
{
}

/// Once connected with settings `c`, the session is up with exactly those
/// settings, and disconnecting takes it down and drops them, keeping the
/// rest.
pub proof fn law_connect_then_disconnect(s: Session, c: Config)
    ensures
        established(s, c).connected,
        established(s, c).config == Some(c),
        disconnected(established(s, c)) == (Session { connected: false, config: None, ..s }),
{
}

/// Disconnecting twice is disconnecting once.
pub proof fn law_disconnect_idempotent(s: Session)
    ensures
        disconnected(disconnected(s)) == disconnected(s),
{
}

/// A failed handshake or read is what the last error then reports; a failure
/// to reach Discord leaves the last error as it was.
pub proof fn law_failure_is_reported(s: Session, f: ConnectFailure)
    ensures
        match failure_status(f) {
            Some(e) => last_error_status(failed(s, f)) == e,
            None => last_error_status(failed(s, f)) == last_error_status(s),
        },
{
}

/// A request or report that changes a session.
pub enum SessionEvent {
    Established(Config),
    Failed(ConnectFailure),
    Disconnect,
    Time(u128),
    SetWorkspace(String),
    UpdateWorkspace(Option<String>, Vec<ActivityButton>),
}

/// The session after one event.
pub open spec fn step(s: Session, e: SessionEvent) -> Session {
    match e {
        SessionEvent::Established(c) => established(s, c),
        SessionEvent::Failed(f) => failed(s, f),
        SessionEvent::Disconnect => disconnected(s),
        SessionEvent::Time(m) => timed(s, m),
        SessionEvent::SetWorkspace(v) => workspace_set(s, v),
        SessionEvent::UpdateWorkspace(n, b) => workspace_updated(s, n, b),
    }
}

/// The session after a run of events, first to last.
pub open spec fn run(s: Session, events: Seq<SessionEvent>) -> Session
    decreases events.len(),
{
    if events.len() == 0 {
        s
    } else {
        step(run(s, events.drop_last()), events.last())
    }
}

/// The session `Session::new` gives.
pub open spec fn fresh() -> Session {
    Session { connected: false, config: None, start_time: None, last_error: None }
}

/// A connection comes up only together with its settings, and every other
/// event (a failed connection, a disconnect, the timer, a workspace change)
/// keeps a connection that is up with its settings. `init` and the presence
/// requests do not change a session.
pub proof fn law_step_keeps_settings(s: Session, e: SessionEvent)
    requires
        settings_present(s),
    ensures
        settings_present(step(s, e)),
{
}

/// Whatever runs of events a new session goes through, at every point a
/// connection that is up has its settings.
pub proof fn law_settings_present_always(events: Seq<SessionEvent>)
    ensures
        forall|k: int| 0 <= k <= events.len() ==> settings_present(#[trigger] run(fresh(), events.take(k))),
    decreases events.len(),
{
    if events.len() > 0 {
        law_settings_present_always(events.drop_last());
        assert forall|k: int| 0 <= k <= events.len() implies settings_present(#[trigger] run(fresh(), events.take(k))) by {
            if k < events.len() {
                assert(events.take(k) =~= events.drop_last().take(k));
            } else {
                assert(events.take(k) =~= events);
                assert(events.drop_last() =~= events.drop_last().take(events.len() - 1));
                law_step_keeps_settings(run(fresh(), events.drop_last()), events.last());
            }
        }
    } else {
        assert forall|k: int| 0 <= k <= events.len() implies settings_present(#[trigger] run(fresh(), events.take(k))) by {
            assert(events.take(k) =~= Seq::<SessionEvent>::empty());
        }
    }
}

/// The start of the editor's timer that a session's activities carry is the
/// one the last `update_time` recorded: recording sets it, and no other event
/// changes it.
pub proof fn law_timer_kept(s: Session, e: SessionEvent)
    ensures
        match e {
            SessionEvent::Time(m) => step(s, e).start_time == Some(m),
            _ => step(s, e).start_time == s.start_time,
        },
{
}

/// A session that is down sends no presence.
pub proof fn law_down_session_sends_nothing(s: Session, filetype: Seq<char>)
    requires
        !s.connected,
    ensures
        presence_plan_spec(s, filetype) is None,
{
}

} // verus!
