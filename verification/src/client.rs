//! The session client's decision logic: the login handshake, the
//! redirect rule that makes session expiry observable, and the
//! decoding of one status poll into named, validated machine
//! statuses.
//!
//! The transport layer performs the requests; every decision about
//! what a request means — which state a page puts the session in,
//! whether a response is a recoverable session loss, what each status
//! record says — is taken here and verified.

use vstd::prelude::*;

use crate::model::{
    spec_decode_status, spec_derive_state, DecodeError, FromMachineStatusError, MachineState,
    MachineStatus, RawMachineStatus, RawMachineStatusView, decode_machine_status,
};
use crate::session::{
    spec_lookup, AuthenticatedSession, AuthenticatedSessionView, Pay2WashSession,
    UnauthenticatedSession,
};
use crate::strict_types::{Email, Password, PasswordRef};
use crate::text::{is_prefix_of, str_starts_with};

verus! {

/// The session client: the credentials it signs in with.  The
/// transport it drives (cookie persistence, the redirect policy of
/// [`should_stop_redirect`]) lives with the caller.
pub struct Pay2WashClient {
    email: Email,
    password: Password,
}

/// The login form POSTed to the login page: the CSRF token echoed
/// back, and the credentials.
pub struct LoginForm<'s> {
    pub csrf_token: &'s str,
    pub email: &'s str,
    pub password: PasswordRef<'s>,
}

/// What a parsed login page means for the handshake: the session is
/// already live, or the login form must be submitted.
#[derive(Debug, Clone, PartialEq, Eq)]
pub enum LoginAdvance {
    /// The page was already authenticated; calling authenticate on a
    /// live session is anomalous but idempotent.
    Complete(AuthenticatedSession),
    /// The page was unauthenticated; the handshake continues with a
    /// form POST.
    MustSubmit(UnauthenticatedSession),
}

/// The login handshake's failure: the post-login page still was not
/// authenticated (credentials rejected, or the page layout changed).
#[derive(Debug, Clone, Copy, PartialEq, Eq, Structural)]
pub enum AuthenticationError {
    AuthenticationFailed,
}

impl Pay2WashClient {
    /// The configured account email.
    pub closed spec fn spec_email(&self) -> Seq<char> {
        self.email@
    }

    /// The configured account password.
    pub closed spec fn spec_password(&self) -> Seq<char> {
        self.password@
    }

    /// A client that will sign in with the given credentials.
    pub fn new(email: Email, password: Password) -> (r: Self)
        ensures
            r.spec_email() == email@,
            r.spec_password() == password@,
    {
        Pay2WashClient { email, password }
    }

    /// The form that continues the handshake from an unauthenticated
    /// page: its CSRF token echoed back, with this client's
    /// credentials.
    pub fn login_form<'s>(&'s self, session: &'s UnauthenticatedSession) -> (form: LoginForm<'s>)
        ensures
            form.csrf_token@ == session.csrf_token@,
            form.email@ == self.spec_email(),
            form.password@ == self.spec_password(),
    {
        LoginForm {
            csrf_token: session.csrf_token.as_str(),
            email: self.email.as_str(),
            password: self.password.as_ref(),
        }
    }

    /// Decides how the handshake proceeds from the session extracted
    /// off the login page: an authenticated page short-circuits, an
    /// unauthenticated one must submit the login form.
    pub fn advance_login(session: Pay2WashSession) -> (r: LoginAdvance)
        ensures
            (match session {
                Pay2WashSession::Authenticated(live) => r == LoginAdvance::Complete(live),
                Pay2WashSession::Unauthenticated(fresh) => r == LoginAdvance::MustSubmit(fresh),
            }),
    {
        match session {
            Pay2WashSession::Authenticated(live) => LoginAdvance::Complete(live),
            Pay2WashSession::Unauthenticated(fresh) => LoginAdvance::MustSubmit(fresh),
        }
    }

    /// Requires the session extracted off the post-login response to
    /// be authenticated; anything else means the credentials were
    /// rejected or the page layout changed.
    pub fn finish_authentication(session: Pay2WashSession) -> (r: Result<
        AuthenticatedSession,
        AuthenticationError,
    >)
        ensures
            (match session {
                Pay2WashSession::Authenticated(live) => r == Ok::<
                    AuthenticatedSession,
                    AuthenticationError,
                >(live),
                Pay2WashSession::Unauthenticated(_) => r == Err::<
                    AuthenticatedSession,
                    AuthenticationError,
                >(AuthenticationError::AuthenticationFailed),
            }),
    {
        match session {
            Pay2WashSession::Authenticated(live) => Ok(live),
            Pay2WashSession::Unauthenticated(_) => Err(AuthenticationError::AuthenticationFailed),
        }
    }
}

/// The path prefix of the machine-status endpoint.
pub open spec fn spec_status_endpoint_prefix() -> Seq<char> {
    "/machine_statuses/"@
}

/// The transport's redirect rule, asked before following one more
/// redirect: stop once the chain holds five hops, and stop at once
/// when the previous hop targeted the machine-status endpoint, so a
/// session-expiry redirect on that path is observed as a redirect
/// instead of being followed into a login page that would masquerade
/// as success.
pub fn should_stop_redirect(previous_hops: usize, last_path: &str) -> (r: bool)
    ensures
        r == (previous_hops == 5 || is_prefix_of(spec_status_endpoint_prefix(), last_path@)),
{
    previous_hops == 5 || str_starts_with(last_path, "/machine_statuses/")
}

/// The non-recoverable failures of one status poll, each carrying the
/// context an operator needs.
#[derive(Debug, Clone, PartialEq, Eq)]
pub enum StatusError {
    /// The request never produced a usable response (network failure,
    /// timeout, or a non-success status); the transport's own
    /// description is carried.  Never retried here.
    Transport { message: String },
    /// The response body was not the expected JSON shape; the
    /// transport's own description of the mismatch is carried.
    MalformedBody { message: String },
    /// The feed names a machine ID the scraped page did not map:
    /// schema drift between the HTML scrape and the JSON feed, fatal
    /// for this poll since the mapping is immutable within a session.
    UnknownMachineId { machine_id: String },
    /// One machine's scalars were malformed on the wire.
    Decode { machine_id: String, error: DecodeError },
    /// One machine's fields contradict the state table.
    BadState { machine_id: String, error: FromMachineStatusError },
}

/// Mathematical image of a [`StatusError`].
pub enum StatusErrorView {
    Transport { message: Seq<char> },
    MalformedBody { message: Seq<char> },
    UnknownMachineId { machine_id: Seq<char> },
    Decode { machine_id: Seq<char>, error: DecodeError },
    BadState { machine_id: Seq<char>, error: FromMachineStatusError },
}

impl View for StatusError {
    type V = StatusErrorView;

    open spec fn view(&self) -> StatusErrorView {
        match self {
            StatusError::Transport { message } => StatusErrorView::Transport {
                message: message@,
            },
            StatusError::MalformedBody { message } => StatusErrorView::MalformedBody {
                message: message@,
            },
            StatusError::UnknownMachineId { machine_id } => StatusErrorView::UnknownMachineId {
                machine_id: machine_id@,
            },
            StatusError::Decode { machine_id, error } => StatusErrorView::Decode {
                machine_id: machine_id@,
                error: *error,
            },
            StatusError::BadState { machine_id, error } => StatusErrorView::BadState {
                machine_id: machine_id@,
                error: *error,
            },
        }
    }
}

/// A status poll's failure: the one explicitly recoverable condition
/// — the session is no longer authenticated — kept distinguished from
/// everything else, so the caller knows whether to re-authenticate or
/// abort.
#[derive(Debug, Clone, PartialEq, Eq)]
pub enum AuthenticatedSessionError {
    /// The endpoint answered with a redirect: the session expired.
    /// Recoverable by authenticating afresh.
    BadSession,
    /// Any other failure of the poll; fatal.
    Other(StatusError),
}

/// Mathematical image of an [`AuthenticatedSessionError`].
pub enum AuthenticatedSessionErrorView {
    BadSession,
    Other(StatusErrorView),
}

impl View for AuthenticatedSessionError {
    type V = AuthenticatedSessionErrorView;

    open spec fn view(&self) -> AuthenticatedSessionErrorView {
        match self {
            AuthenticatedSessionError::BadSession => AuthenticatedSessionErrorView::BadSession,
            AuthenticatedSessionError::Other(e) => AuthenticatedSessionErrorView::Other(e@),
        }
    }
}

/// What the transport observed of one status request: the final HTTP
/// status code, and the body parsed into raw records keyed by their
/// decimal-string machine IDs — or the transport's description of why
/// the body was not that shape.
pub struct StatusResponse {
    pub status_code: u16,
    pub body: Result<Vec<(String, RawMachineStatus)>, String>,
}

/// Mathematical image of a [`StatusResponse`].
pub struct StatusResponseView {
    pub status_code: u16,
    pub body: Result<Seq<(Seq<char>, RawMachineStatusView)>, Seq<char>>,
}

impl View for StatusResponse {
    type V = StatusResponseView;

    open spec fn view(&self) -> StatusResponseView {
        StatusResponseView {
            status_code: self.status_code,
            body: match &self.body {
                Ok(entries) => Ok(
                    entries@.map_values(
                        |entry: (String, RawMachineStatus)| (entry.0@, entry.1@),
                    ),
                ),
                Err(message) => Err(message@),
            },
        }
    }
}

/// The first `n` raw records resolved against the session's machine
/// mappings: each key must be mapped, each record must decode and
/// admit a state; the earliest failure wins, otherwise the validated
/// statuses keyed by display name, in feed order.
pub open spec fn spec_resolve_upto(
    mappings: Seq<(Seq<char>, Seq<char>)>,
    entries: Seq<(Seq<char>, RawMachineStatusView)>,
    n: int,
) -> Result<Seq<(Seq<char>, MachineStatus)>, StatusErrorView>
    recommends
        0 <= n <= entries.len(),
    decreases n,
{
    if n <= 0 {
        Ok(Seq::empty())
    } else {
        match spec_resolve_upto(mappings, entries, n - 1) {
            Err(e) => Err(e),
            Ok(acc) => {
                let machine_id = entries[n - 1].0;
                let raw = entries[n - 1].1;
                match spec_lookup(mappings, machine_id) {
                    None => Err(StatusErrorView::UnknownMachineId { machine_id }),
                    Some(name) => match spec_decode_status(raw) {
                        Err(error) => Err(StatusErrorView::Decode { machine_id, error }),
                        Ok(decoded) => match spec_derive_state(decoded) {
                            Err(error) => Err(StatusErrorView::BadState { machine_id, error }),
                            Ok(state) => Ok(
                                acc.push((name, MachineStatus { state, raw: decoded })),
                            ),
                        },
                    },
                }
            },
        }
    }
}

/// What one status poll yields, for every possible response: a
/// redirect (status 3xx) is the recoverable session-expiry signal and
/// is decided before the body is even considered; a malformed body,
/// an unmapped machine ID, or a record that will not validate is
/// fatal for the poll; otherwise every record resolves.
pub open spec fn spec_get_machine_statuses(
    session: AuthenticatedSessionView,
    response: StatusResponseView,
) -> Result<Seq<(Seq<char>, MachineStatus)>, AuthenticatedSessionErrorView> {
    if 300 <= response.status_code && response.status_code < 400 {
        Err(AuthenticatedSessionErrorView::BadSession)
    } else {
        match response.body {
            Err(message) => Err(
                AuthenticatedSessionErrorView::Other(StatusErrorView::MalformedBody { message }),
            ),
            Ok(entries) => match spec_resolve_upto(
                session.machine_mappings,
                entries,
                entries.len() as int,
            ) {
                Err(e) => Err(AuthenticatedSessionErrorView::Other(e)),
                Ok(statuses) => Ok(statuses),
            },
        }
    }
}

/// A per-record failure keeps its error through every later prefix.
proof fn lemma_resolve_upto_err_persists(
    mappings: Seq<(Seq<char>, Seq<char>)>,
    entries: Seq<(Seq<char>, RawMachineStatusView)>,
    m: int,
    n: int,
    e: StatusErrorView,
)
    requires
        0 <= m <= n <= entries.len(),
        spec_resolve_upto(mappings, entries, m) == Err::<
            Seq<(Seq<char>, MachineStatus)>,
            StatusErrorView,
        >(e),
    ensures
        spec_resolve_upto(mappings, entries, n) == Err::<
            Seq<(Seq<char>, MachineStatus)>,
            StatusErrorView,
        >(e),
    decreases n - m,
{
    if m < n {
        lemma_resolve_upto_err_persists(mappings, entries, m, n - 1, e);
    }
}

/// A redirect from the status endpoint always means the session is
/// bad — never a generic failure — whatever the body held.
pub proof fn lemma_redirect_means_bad_session(
    session: AuthenticatedSessionView,
    response: StatusResponseView,
)
    requires
        300 <= response.status_code < 400,
    ensures
        spec_get_machine_statuses(session, response) == Err::<
            Seq<(Seq<char>, MachineStatus)>,
            AuthenticatedSessionErrorView,
        >(AuthenticatedSessionErrorView::BadSession),
{
}

impl Pay2WashClient {
    /// Decodes one status poll for the given session: a redirect is
    /// the recoverable `BadSession`; otherwise every raw record is
    /// remapped through the session's machine mappings, validated,
    /// and keyed by display name, the first failing record failing
    /// the poll.
    #[verifier::loop_isolation(false)]
    pub fn get_machine_statuses(
        &self,
        session: &AuthenticatedSession,
        response: StatusResponse,
    ) -> (r: Result<Vec<(String, MachineStatus)>, AuthenticatedSessionError>)
        ensures
            (match (r, spec_get_machine_statuses(session@, response@)) {
                (Ok(statuses), Ok(expected)) => statuses@.map_values(
                    |entry: (String, MachineStatus)| (entry.0@, entry.1),
                ) == expected,
                (Err(actual), Err(expected)) => actual@ == expected,
                _ => false,
            }),
    {
        if 300 <= response.status_code && response.status_code < 400 {
            return Err(AuthenticatedSessionError::BadSession);
        }
        let entries: Vec<(String, RawMachineStatus)> = match response.body {
            Err(message) => {
                return Err(
                    AuthenticatedSessionError::Other(StatusError::MalformedBody { message }),
                );
            },
            Ok(entries) => entries,
        };
        let ghost entry_views = entries@.map_values(
            |entry: (String, RawMachineStatus)| (entry.0@, entry.1@),
        );
        let ghost mappings = session@.machine_mappings;
        let count = entries.len();
        let mut statuses: Vec<(String, MachineStatus)> = Vec::new();
        proof {
            assert(statuses@.map_values(|entry: (String, MachineStatus)| (entry.0@, entry.1))
                =~= Seq::<(Seq<char>, MachineStatus)>::empty());
        }
        let mut i: usize = 0;
        while i < count
            invariant
                0 <= i <= count,
                count == entries@.len(),
                entry_views == entries@.map_values(
                    |entry: (String, RawMachineStatus)| (entry.0@, entry.1@),
                ),
                entry_views.len() == count,
                mappings == session@.machine_mappings,
                statuses@.len() == i,
                spec_resolve_upto(mappings, entry_views, i as int) == Ok::<
                    Seq<(Seq<char>, MachineStatus)>,
                    StatusErrorView,
                >(statuses@.map_values(|entry: (String, MachineStatus)| (entry.0@, entry.1))),
            decreases count - i,
        {
            let machine_id: &String = &entries[i].0;
            let raw: &RawMachineStatus = &entries[i].1;
            proof {
                assert(entry_views[i as int] == (machine_id@, raw@));
            }
            let name: String = match session.machine_name(machine_id) {
                None => {
                    let e = StatusError::UnknownMachineId { machine_id: machine_id.clone() };
                    proof {
                        lemma_resolve_upto_err_persists(
                            mappings,
                            entry_views,
                            i as int + 1,
                            count as int,
                            e@,
                        );
                    }
                    return Err(AuthenticatedSessionError::Other(e));
                },
                Some(name) => name,
            };
            let decoded = match crate::model::decode_machine_status(raw) {
                Err(error) => {
                    let e = StatusError::Decode { machine_id: machine_id.clone(), error };
                    proof {
                        lemma_resolve_upto_err_persists(
                            mappings,
                            entry_views,
                            i as int + 1,
                            count as int,
                            e@,
                        );
                    }
                    return Err(AuthenticatedSessionError::Other(e));
                },
                Ok(decoded) => decoded,
            };
            let state = match MachineState::try_from(&decoded) {
                Err(error) => {
                    let e = StatusError::BadState { machine_id: machine_id.clone(), error };
                    proof {
                        lemma_resolve_upto_err_persists(
                            mappings,
                            entry_views,
                            i as int + 1,
                            count as int,
                            e@,
                        );
                    }
                    return Err(AuthenticatedSessionError::Other(e));
                },
                Ok(state) => state,
            };
            let ghost prev = statuses@;
            let ghost pushed = (name@, MachineStatus { state, raw: decoded });
            statuses.push((name, MachineStatus { state, raw: decoded }));
            proof {
                assert(statuses@ == prev.push((statuses@.last().0, statuses@.last().1)));
                assert(statuses@.map_values(|entry: (String, MachineStatus)| (entry.0@, entry.1))
                    =~= prev.map_values(
                    |entry: (String, MachineStatus)| (entry.0@, entry.1),
                ).push(pushed));
            }
            i = i + 1;
        }
        Ok(statuses)
    }
}

} // verus!
