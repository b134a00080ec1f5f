//! The state of an editor's presence session and the decisions taken on each
//! request. The connection itself is driven by the caller: a decision names the
//! work to do, and the caller reports back what came of it.

use vstd::prelude::*;
use crate::assets::{filetype_view, AssetType, Filetype, Image};
use crate::config::{
    blacklisted, prepare_session, ActivityButton, Config, InitArgs, PendingSession,
};
use crate::client::client_setup_spec;
use crate::activity::{activity_of, fields_spec, Activity};
use crate::presence::{
    plain_presence, plain_presence_spec, asset_presence, asset_presence_spec, resolve_large_image, resolved_image_spec, AssetArgs, PresenceArgs,
    Presence, PresenceSpec,
};
use crate::status::{last_error_or_success, Status};
use crate::text::{contains_text, is_empty, opt_view, text_eq};

verus! {

/// A presence session: whether the connection is up, the settings it runs
/// with, when the editor started its timer, and the last connection error.
pub struct Session {
    pub connected: bool,
    pub config: Option<Config>,
    pub start_time: Option<u128>,
    pub last_error: Option<Status>,
}

/// How setting up a connection failed.
#[derive(Clone, Copy, Debug, PartialEq, Eq, Structural)]
pub enum ConnectFailure {
    /// Discord could not be reached.
    Connect,
    /// The handshake was refused.
    Handshake,
    /// Discord's reply to the handshake could not be read.
    Read,
}

/// What to do for a plain presence update.
pub enum PresencePlan {
    /// Nothing to send: the update fails.
    Skip,
    /// Send the idle presence.
    Idle(Presence),
    /// Send the presence built for the buffer.
    Build,
}

/// The editor's marker filetype for an idle editor.
pub open spec fn is_idle_filetype(filetype: Seq<char>) -> bool {
    filetype == "Cord.idle"@
}

/// The status `init` answers with, and whether a connection is to be set up.
pub open spec fn init_answer(s: Session, opts: InitArgs) -> (Status, bool) {
    if s.connected {
        (Status::Uninitialized, false)
    } else if client_setup_spec(opts.client@, opt_view(opts.image)) is None {
        (Status::InvalidClientId, false)
    } else if blacklisted(opts.workspace_blacklist@, opts.workspace@) {
        (Status::WorkspaceBlacklisted, true)
    } else {
        (Status::Success, true)
    }
}

/// The session once the connection is up with settings `c`.
pub open spec fn established(s: Session, c: Config) -> Session {
    Session { connected: true, config: Some(c), ..s }
}

/// The status a connection failure is recorded as, if any.
pub open spec fn failure_status(f: ConnectFailure) -> Option<Status> {
    match f {
        ConnectFailure::Connect => None,
        ConnectFailure::Handshake => Some(Status::HandshakeFailed),
        ConnectFailure::Read => Some(Status::ReadFailed),
    }
}

/// The session once setting up the connection failed with `f`.
pub open spec fn failed(s: Session, f: ConnectFailure) -> Session {
    match failure_status(f) {
        Some(e) => Session { last_error: Some(e), ..s },
        None => s,
    }
}

/// The session after a disconnect request.
pub open spec fn disconnected(s: Session) -> Session {
    if s.connected && s.config is Some {
        Session { connected: false, config: None, ..s }
    } else {
        s
    }
}

/// The session's law: a connection that is up always has its settings.
pub open spec fn settings_present(s: Session) -> bool {
    s.connected ==> s.config is Some
}

/// The session after the editor starts its timer at `millis`.
pub open spec fn timed(s: Session, millis: u128) -> Session {
    Session { start_time: Some(millis), ..s }
}

/// The session after `set_workspace(value)`.
pub open spec fn workspace_set(s: Session, value: String) -> Session {
    match s.config {
        Some(c) => Session { config: Some(Config { workspace: value, ..c }), ..s },
        None => s,
    }
}

/// The session after `update_workspace(name, buttons)`.
pub open spec fn workspace_updated(s: Session, name: Option<String>, buttons: Vec<ActivityButton>) -> Session {
    match (s.config, name) {
        (Some(c), Some(n)) => Session { config: Some(Config { workspace: n, buttons, ..c }), ..s },
        _ => s,
    }
}

/// The status of the last error: success when none was recorded.
pub open spec fn last_error_status(s: Session) -> Status {
    match s.last_error {
        Some(e) => e,
        None => Status::Success,
    }
}

/// The plan for a plain presence update of a buffer of `filetype`.
pub open spec fn presence_plan_spec(s: Session, filetype: Seq<char>) -> Option<Option<PresenceSpec>> {
    if !s.connected || s.config is None {
        None
    } else if is_idle_filetype(filetype) {
        let c = s.config->0;
        if c.idle_text@.len() == 0 {
            None
        } else {
            Some(
                Some(
                    PresenceSpec {
                        details: c.idle_text@,
                        large_image: c.idle_icon@,
                        large_text: c.idle_tooltip@,
                    },
                ),
            )
        }
    } else {
        Some(None)
    }
}

impl Session {
    /// A session that has not connected yet.
    pub fn new() -> (s: Session)
        ensures
            !s.connected,
            s.config is None,
            s.start_time is None,
            s.last_error is None,
            settings_present(s),
    {
        Session { connected: false, config: None, start_time: None, last_error: None }
    }

    /// The status of the last connection error, success if there was none.
    pub fn get_last_error(&self) -> (st: Status)
        ensures
            st == last_error_status(*self),
    {
        last_error_or_success(self.last_error)
    }

    /// Whether the connection is up.
    pub fn is_connected(&self) -> (b: bool)
        ensures
            b == self.connected,
    {
        self.connected
    }

    /// The settings of the session, once connected.
    pub fn config(&self) -> (c: Option<&Config>)
        ensures
            match self.config {
                Some(x) => c == Some(&x),
                None => c is None,
            },
    {
        match &self.config {
            Some(x) => Some(x),
            None => None,
        }
    }

    /// Starts a session from the editor's options.
    ///
    /// A session that is up refuses with `Uninitialized`; an unknown client
    /// with `InvalidClientId`. Otherwise the connection is to be set up with
    /// the returned settings, and the answer is `WorkspaceBlacklisted` when the
    /// starting workspace is on the blacklist, `Success` otherwise. The
    /// session itself changes only once the connection is reported.
    pub fn init(&self, opts: InitArgs) -> (r: (Status, Option<PendingSession>))
        ensures
            r.0 == init_answer(*self, opts).0,
            r.1 is Some == init_answer(*self, opts).1,
            match client_setup_spec(opts.client@, opt_view(opts.image)) {
                Some((id, custom, img)) => r.1 matches Some(p) ==> p.client_id == id
                    && crate::config::config_matches(p.config, opts, custom, img) && p.blacklisted
                    == blacklisted(opts.workspace_blacklist@, opts.workspace@),
                None => true,
            },
    {
        if self.connected {
            return (Status::Uninitialized, None);
        }
        match prepare_session(opts) {
            Ok(p) => {
                let st = if p.blacklisted {
                    Status::WorkspaceBlacklisted
                } else {
                    Status::Success
                };
                (st, Some(p))
            },
            Err(e) => (e, None),
        }
    }

    /// Records that the connection is up and runs with `config`.
    pub fn connection_established(&mut self, config: Config)
        ensures
            *final(self) == established(*old(self), config),
            settings_present(*final(self)),
    {
        self.config = Some(config);
        self.connected = true;
    }

    /// Records that setting up the connection failed.
    pub fn connection_failed(&mut self, failure: ConnectFailure)
        ensures
            *final(self) == failed(*old(self), failure),
            settings_present(*old(self)) ==> settings_present(*final(self)),
    {
        match failure {
            ConnectFailure::Connect => {},
            ConnectFailure::Handshake => {
                self.last_error = Some(Status::HandshakeFailed);
            },
            ConnectFailure::Read => {
                self.last_error = Some(Status::ReadFailed);
            },
        }
    }

    /// Decides a plain presence update: skipped when the session is down or
    /// the editor is idle without an idle text; the idle presence when the
    /// editor is idle; otherwise the presence is built for the buffer.
    pub fn update_presence(&self, filetype: &str) -> (p: PresencePlan)
        ensures
            match presence_plan_spec(*self, filetype@) {
                None => p is Skip,
                Some(None) => p is Build,
                Some(Some(v)) => p matches PresencePlan::Idle(q) && q@ == v,
            },
    {
        if !self.connected {
            return PresencePlan::Skip;
        }
        match &self.config {
            None => PresencePlan::Skip,
            Some(c) => {
                if text_eq(filetype, "Cord.idle") {
                    if is_empty(c.idle_text.as_str()) {
                        PresencePlan::Skip
                    } else {
                        PresencePlan::Idle(
                            Presence {
                                details: c.idle_text.clone(),
                                large_image: c.idle_icon.duplicate(),
                                large_text: c.idle_tooltip.clone(),
                            },
                        )
                    }
                } else {
                    PresencePlan::Build
                }
            },
        }
    }

    /// The presence for a buffer whose icon and tooltip the editor may give,
    /// before its large image is resolved: `None` when the session is down or
    /// there is nothing to show for the buffer.
    pub fn update_presence_with_assets(
        &self,
        assets: &AssetArgs,
        at: Option<AssetType>,
        args: &PresenceArgs,
        ft: Option<&Filetype>,
    ) -> (p: Option<Presence>)
        ensures
            match p {
                Some(p) => self.connected && self.config is Some && asset_presence_spec(
                    self.config->0,
                    *assets,
                    *args,
                    filetype_view(ft),
                    at,
                ) == Some(p@),
                None => !self.connected || self.config is None || asset_presence_spec(
                    self.config->0,
                    *assets,
                    *args,
                    filetype_view(ft),
                    at,
                ) is None,
            },
    {
        if !self.connected {
            return None;
        }
        match &self.config {
            None => None,
            Some(c) => asset_presence(c, assets, args, ft, at),
        }
    }

    /// The presence of a plain update of a buffer that is not idle, from the
    /// filetype table's entry `ft` for it: `None` when the session is down.
    pub fn plain_update(&self, args: &PresenceArgs, ft: Option<&Filetype>) -> (p: Option<Presence>)
        ensures
            match p {
                Some(p) => self.connected && self.config is Some && p@ == plain_presence_spec(
                    self.config->0,
                    *args,
                    filetype_view(ft),
                ),
                None => !self.connected || self.config is None,
            },
    {
        if !self.connected {
            return None;
        }
        match &self.config {
            Some(c) => Some(plain_presence(c, args, ft)),
            None => None,
        }
    }

    /// The activity a presence is sent as in this session: laid out with the
    /// session's settings, carrying the start of the editor's timer as the
    /// session recorded it and the configured buttons. `None` without settings.
    pub fn activity_of(&self, p: Presence) -> (a: Option<Activity>)
        ensures
            match a {
                Some(a) => self.config is Some && a.fields@ == fields_spec(self.config->0, p@)
                    && a.start_time == self.start_time && a.buttons@ == self.config->0.buttons@,
                None => self.config is None,
            },
    {
        match &self.config {
            Some(c) => Some(activity_of(c, self.start_time, p)),
            None => None,
        }
    }

    /// Resolves a presence's large image with the session's client: the
    /// images of a custom client are kept as given.
    pub fn resolve_image(&self, image: Image, lookup: Option<&Filetype>, at: Option<AssetType>) -> (i: Image)
        requires
            self.config is Some,
        ensures
            i@ == resolved_image_spec(self.config->0.is_custom_client, image@, filetype_view(lookup), at),
    {
        let c = self.config.as_ref().unwrap();
        resolve_large_image(c.is_custom_client, image, lookup, at)
    }

    /// Decides a request to clear the presence: `Some` answers it at once
    /// (`Uninitialized` when the session is down), `None` means the presence
    /// is to be cleared on the connection.
    pub fn clear_presence(&self) -> (r: Option<Status>)
        ensures
            r == (if self.connected && self.config is Some {
                None
            } else {
                Some(Status::Uninitialized)
            }),
    {
        if !self.connected {
            return Some(Status::Uninitialized);
        }
        match &self.config {
            Some(_) => None,
            None => Some(Status::Uninitialized),
        }
    }

    /// Closes the session: returns `true` when there was a connection to close,
    /// which is then down and without settings.
    pub fn disconnect(&mut self) -> (closed: bool)
        ensures
            *final(self) == disconnected(*old(self)),
            closed == (old(self).connected && old(self).config is Some),
            settings_present(*old(self)) ==> settings_present(*final(self)),
    {
        if !self.connected {
            return false;
        }
        match self.config.take() {
            Some(_) => {
                self.connected = false;
                true
            },
            None => false,
        }
    }

    /// Records when the editor started its timer, in milliseconds since the
    /// Unix epoch.
    pub fn update_time(&mut self, millis: u128)
        ensures
            *final(self) == timed(*old(self), millis),
            settings_present(*old(self)) ==> settings_present(*final(self)),
    {
        self.start_time = Some(millis);
    }

    /// Sets the workspace's name. Answers `false` when the new workspace is on
    /// the blacklist, `true` otherwise or when there are no settings yet.
    pub fn set_workspace(&mut self, value: String) -> (ok: bool)
        ensures
            *final(self) == workspace_set(*old(self), value),
            settings_present(*old(self)) ==> settings_present(*final(self)),
            match old(self).config {
                Some(c) => final(self).config == Some(Config { workspace: value, ..c })
                    && ok == !blacklisted(c.workspace_blacklist@, value@)
                    && final(self).connected == old(self).connected
                    && final(self).start_time == old(self).start_time
                    && final(self).last_error == old(self).last_error,
                None => *final(self) == *old(self) && ok,
            },
    {
        match &mut self.config {
            Some(c) => {
                c.workspace = value;
                !contains_text(&c.workspace_blacklist, c.workspace.as_str())
            },
            None => true,
        }
    }

    /// Moves to another workspace: `name` is its name, if it has one, and
    /// `buttons` the configured buttons checked against it. Without a name or
    /// settings nothing changes and the answer is `true`; otherwise the
    /// workspace and buttons are replaced and the answer is `false` exactly
    /// when the workspace is on the blacklist.
    pub fn update_workspace(&mut self, name: Option<String>, buttons: Vec<ActivityButton>) -> (ok: bool)
        ensures
            *final(self) == workspace_updated(*old(self), name, buttons),
            settings_present(*old(self)) ==> settings_present(*final(self)),
            match (old(self).config, name) {
                (Some(c), Some(n)) => final(self).config == Some(
                    Config { workspace: n, buttons, ..c },
                ) && ok == !blacklisted(c.workspace_blacklist@, n@) && final(self).connected
                    == old(self).connected && final(self).start_time == old(self).start_time
                    && final(self).last_error == old(self).last_error,
                _ => *final(self) == *old(self) && ok,
            },
    {
        match &mut self.config {
            Some(c) => match name {
                Some(n) => {
                    c.workspace = n;
                    c.buttons = buttons;
                    !contains_text(&c.workspace_blacklist, c.workspace.as_str())
                },
                None => true,
            },
            None => true,
        }
    }
}

/// The answer to a clear request that went to the connection.
pub fn clear_outcome(write_ok: bool) -> (st: Status)
    ensures
        st == (if write_ok { Status::Success } else { Status::WriteFailed }),
{
    if write_ok {
        Status::Success
    } else {
        Status::WriteFailed
    }
}

} // verus!
