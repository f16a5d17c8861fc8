//! Session descriptors and the session extractor.
//!
//! The extractor is a pure function over a queryable-document model:
//! the transport layer answers the five fixed queries the protocol
//! depends on (two meta tags, the location input, the machine-ID
//! inputs and their sibling labels) and hands the answers in as plain
//! data, so extraction is deterministic, testable against synthetic
//! documents, and verified for every possible document shape.

use vstd::prelude::*;

use crate::model::UserId;
use crate::text::{spec_parse_u32, spec_trim, parse_u32, trim_text};

verus! {

/// What a `meta` tag of interest carries: its `content` attribute,
/// absent when the tag has none.
#[derive(Debug, Clone, PartialEq, Eq)]
pub struct MetaTag {
    pub content: Option<String>,
}

/// What the location-bearing input element (`#location`) carries: its
/// `value` attribute, absent when the element has none.
#[derive(Debug, Clone, PartialEq, Eq)]
pub struct LocationInput {
    pub value: Option<String>,
}

/// The first text node of a sibling reservation label
/// (`span.js-reservation`), absent when the label has no text node.
#[derive(Debug, Clone, PartialEq, Eq)]
pub struct LabelSpan {
    pub first_text: Option<String>,
}

/// The nearest enclosing container of a machine-ID input, and the
/// first reservation label found beneath it.
#[derive(Debug, Clone, PartialEq, Eq)]
pub struct MachineContainer {
    pub label: Option<LabelSpan>,
}

/// One machine-identifier input element (`input.machine_pk`): its
/// `value` attribute (the opaque numeric machine ID) and its
/// enclosing container, each absent when the document lacks it.
#[derive(Debug, Clone, PartialEq, Eq)]
pub struct MachineInput {
    pub value: Option<String>,
    pub container: Option<MachineContainer>,
}

/// A server-rendered page reduced to the five queries the session
/// protocol reads: the CSRF meta tag (`meta[name=csrf-token]`), the
/// user-token meta tag (`meta[name=user-token]`), the location input
/// (`#location`), and every machine-ID input (`input.machine_pk`) in
/// document order.  A `None` means the respective query selected no
/// element.
#[derive(Debug, Clone, PartialEq, Eq)]
pub struct HtmlDocument {
    pub csrf_meta: Option<MetaTag>,
    pub user_token_meta: Option<MetaTag>,
    pub location_input: Option<LocationInput>,
    pub machine_inputs: Vec<MachineInput>,
}

/// Which required element or attribute was absent, or which scalar
/// was malformed, when extraction failed.  The index names the
/// machine-ID input (in document order) a per-machine failure belongs
/// to, for diagnostics.
#[derive(Debug, Clone, Copy, PartialEq, Eq, Structural)]
pub enum ExtractionError {
    MissingCsrfMeta,
    MissingCsrfContent,
    MissingUserTokenMeta,
    MissingUserTokenContent,
    MissingLocation,
    MissingLocationValue,
    MissingMachineIdValue { index: usize },
    MissingMachineContainer { index: usize },
    MissingMachineLabel { index: usize },
    MissingMachineLabelText { index: usize },
    MalformedUserToken,
}

/// A pre-login session: only the anti-forgery token, to be echoed in
/// the login form.
#[derive(Debug, Clone, PartialEq, Eq)]
pub struct UnauthenticatedSession {
    pub csrf_token: String,
}

/// A post-login session, scoped to one physical location.  The
/// machine mappings translate each opaque numeric machine ID to its
/// human-readable display name.  Keys are unique and entries keep the
/// order in which their IDs first appeared in the document; a machine
/// ID the document repeats keeps one entry, its last display name
/// (see [`lemma_extracted_mappings_keys_unique`]).
#[derive(Debug, Clone, PartialEq, Eq)]
pub struct AuthenticatedSession {
    pub csrf_token: String,
    pub user_token: UserId,
    pub location: String,
    pub machine_mappings: Vec<(String, String)>,
}

/// The authentication state derived from one parsed page.  The sole
/// discriminator is the user-token meta tag: an empty content selects
/// `Unauthenticated`, a non-empty one `Authenticated`.
#[derive(Debug, Clone, PartialEq, Eq)]
pub enum Pay2WashSession {
    Unauthenticated(UnauthenticatedSession),
    Authenticated(AuthenticatedSession),
}

/// Mathematical image of an [`UnauthenticatedSession`].
pub struct UnauthenticatedSessionView {
    pub csrf_token: Seq<char>,
}

/// Mathematical image of an [`AuthenticatedSession`].
pub struct AuthenticatedSessionView {
    pub csrf_token: Seq<char>,
    pub user_token: u32,
    pub location: Seq<char>,
    pub machine_mappings: Seq<(Seq<char>, Seq<char>)>,
}

/// Mathematical image of a [`Pay2WashSession`].
pub enum SessionView {
    Unauthenticated(UnauthenticatedSessionView),
    Authenticated(AuthenticatedSessionView),
}

impl View for UnauthenticatedSession {
    type V = UnauthenticatedSessionView;

    open spec fn view(&self) -> UnauthenticatedSessionView {
        UnauthenticatedSessionView { csrf_token: self.csrf_token@ }
    }
}

impl View for AuthenticatedSession {
    type V = AuthenticatedSessionView;

    open spec fn view(&self) -> AuthenticatedSessionView {
        AuthenticatedSessionView {
            csrf_token: self.csrf_token@,
            user_token: self.user_token.0,
            location: self.location@,
            machine_mappings: self.machine_mappings@.map_values(
                |pair: (String, String)| (pair.0@, pair.1@),
            ),
        }
    }
}

impl View for Pay2WashSession {
    type V = SessionView;

    open spec fn view(&self) -> SessionView {
        match self {
            Pay2WashSession::Unauthenticated(session) => SessionView::Unauthenticated(session@),
            Pay2WashSession::Authenticated(session) => SessionView::Authenticated(session@),
        }
    }
}

impl Pay2WashSession {
    /// The anti-forgery token of either state.
    pub fn csrf_token(&self) -> (r: &str)
        ensures
            (match self {
                Pay2WashSession::Unauthenticated(session) => r@ == session.csrf_token@,
                Pay2WashSession::Authenticated(session) => r@ == session.csrf_token@,
            }),
    {
        match self {
            Pay2WashSession::Unauthenticated(UnauthenticatedSession { csrf_token }) => csrf_token
                .as_str(),
            Pay2WashSession::Authenticated(AuthenticatedSession { csrf_token, .. }) => csrf_token
                .as_str(),
        }
    }
}

/// The display name a machine mapping gives an opaque machine ID:
/// that of the first matching entry, or nothing when the ID is absent.
pub open spec fn spec_lookup(mappings: Seq<(Seq<char>, Seq<char>)>, key: Seq<char>) -> Option<
    Seq<char>,
>
    decreases mappings.len(),
{
    if mappings.len() == 0 {
        None
    } else if mappings[0].0 == key {
        Some(mappings[0].1)
    } else {
        spec_lookup(mappings.skip(1), key)
    }
}

impl AuthenticatedSession {
    /// Resolves an opaque numeric machine ID to its display name, or
    /// nothing when the status feed names a machine the scraped page
    /// did not.
    pub fn machine_name(&self, machine_id: &String) -> (r: Option<String>)
        ensures
            (match r {
                Some(name) => spec_lookup(self@.machine_mappings, machine_id@) == Some(name@),
                None => spec_lookup(self@.machine_mappings, machine_id@) is None,
            }),
    {
        let ghost maps = self@.machine_mappings;
        let count = self.machine_mappings.len();
        let mut i: usize = 0;
        proof {
            assert(maps.skip(0) =~= maps);
        }
        while i < count
            invariant
                0 <= i <= count,
                count == self.machine_mappings@.len(),
                maps == self@.machine_mappings,
                maps.len() == count,
                spec_lookup(maps.skip(i as int), machine_id@) == spec_lookup(maps, machine_id@),
            decreases count - i,
        {
            let entry = &self.machine_mappings[i];
            proof {
                assert(maps[i as int] == (entry.0@, entry.1@));
                assert(maps.skip(i as int)[0] == maps[i as int]);
            }
            if entry.0.eq(machine_id) {
                return Some(entry.1.clone());
            }
            proof {
                assert(maps.skip(i as int).skip(1) =~= maps.skip(i as int + 1));
            }
            i = i + 1;
        }
        proof {
            assert(maps.skip(count as int) =~= Seq::<(Seq<char>, Seq<char>)>::empty());
        }
        None
    }
}

/// The CSRF token of a document: the `content` of the CSRF meta tag,
/// required in both authentication states.
pub open spec fn spec_csrf_step(doc: HtmlDocument) -> Result<Seq<char>, ExtractionError> {
    match doc.csrf_meta {
        None => Err(ExtractionError::MissingCsrfMeta),
        Some(meta) => match meta.content {
            None => Err(ExtractionError::MissingCsrfContent),
            Some(content) => Ok(content@),
        },
    }
}

/// The user-token marker of a document: the `content` of the
/// user-token meta tag, possibly empty.
pub open spec fn spec_user_token_step(doc: HtmlDocument) -> Result<Seq<char>, ExtractionError> {
    match doc.user_token_meta {
        None => Err(ExtractionError::MissingUserTokenMeta),
        Some(meta) => match meta.content {
            None => Err(ExtractionError::MissingUserTokenContent),
            Some(content) => Ok(content@),
        },
    }
}

/// The location identifier of an authenticated document: the `value`
/// of the location input, which must be present and non-empty.
pub open spec fn spec_location_step(doc: HtmlDocument) -> Result<Seq<char>, ExtractionError> {
    match doc.location_input {
        None => Err(ExtractionError::MissingLocation),
        Some(input) => match input.value {
            None => Err(ExtractionError::MissingLocationValue),
            Some(value) => if value@.len() == 0 {
                Err(ExtractionError::MissingLocationValue)
            } else {
                Ok(value@)
            },
        },
    }
}

/// One machine-ID input resolved to a `(machine ID, display name)`
/// pair: the input's `value`, and the whitespace-trimmed first text
/// of the sibling reservation label under its container.  Absence at
/// any step is a hard failure naming the input's document position.
pub open spec fn spec_machine_step(input: MachineInput, index: usize) -> Result<
    (Seq<char>, Seq<char>),
    ExtractionError,
> {
    match input.value {
        None => Err(ExtractionError::MissingMachineIdValue { index }),
        Some(id) => match input.container {
            None => Err(ExtractionError::MissingMachineContainer { index }),
            Some(container) => match container.label {
                None => Err(ExtractionError::MissingMachineLabel { index }),
                Some(label) => match label.first_text {
                    None => Err(ExtractionError::MissingMachineLabelText { index }),
                    Some(text) => Ok((id@, spec_trim(text@))),
                },
            },
        },
    }
}

/// The first index whose entry carries the key, or the sequence's
/// length when no entry does.
pub open spec fn key_index(mappings: Seq<(Seq<char>, Seq<char>)>, key: Seq<char>) -> int
    decreases mappings.len(),
{
    if mappings.len() == 0 {
        0
    } else if mappings[0].0 == key {
        0
    } else {
        1 + key_index(mappings.skip(1), key)
    }
}

/// Inserting one pair into a machine mapping: a fresh machine ID is
/// appended, a repeated one overwrites its earlier entry — the last
/// occurrence in the document wins — so keys stay unique.
pub open spec fn spec_insert_mapping(
    mappings: Seq<(Seq<char>, Seq<char>)>,
    pair: (Seq<char>, Seq<char>),
) -> Seq<(Seq<char>, Seq<char>)> {
    let i = key_index(mappings, pair.0);
    if i == mappings.len() {
        mappings.push(pair)
    } else {
        mappings.update(i, pair)
    }
}

/// No two entries of the mapping carry the same machine ID.
pub open spec fn keys_unique(mappings: Seq<(Seq<char>, Seq<char>)>) -> bool {
    forall|i: int, j: int|
        0 <= i < j < mappings.len() ==> (#[trigger] mappings[i]).0 != (#[trigger] mappings[j]).0
}

/// `key_index` is in bounds, misses every earlier entry, and hits the
/// key when it is short of the length.
proof fn lemma_key_index_spec(mappings: Seq<(Seq<char>, Seq<char>)>, key: Seq<char>)
    ensures
        0 <= key_index(mappings, key) <= mappings.len(),
        forall|j: int| 0 <= j < key_index(mappings, key) ==> (#[trigger] mappings[j]).0 != key,
        key_index(mappings, key) < mappings.len() ==> mappings[key_index(mappings, key)].0 == key,
    decreases mappings.len(),
{
    if mappings.len() > 0 && mappings[0].0 != key {
        lemma_key_index_spec(mappings.skip(1), key);
        assert forall|j: int| 0 <= j < key_index(mappings, key) implies (#[trigger] mappings[j]).0
            != key by {
            if j > 0 {
                assert(mappings.skip(1)[j - 1] == mappings[j]);
            }
        }
    }
}

/// The first index found by scanning is `key_index`.
proof fn lemma_key_index_at(mappings: Seq<(Seq<char>, Seq<char>)>, i: int, key: Seq<char>)
    requires
        0 <= i <= mappings.len(),
        forall|j: int| 0 <= j < i ==> (#[trigger] mappings[j]).0 != key,
        i == mappings.len() || mappings[i].0 == key,
    ensures
        key_index(mappings, key) == i,
    decreases i,
{
    if i > 0 {
        lemma_key_index_at(mappings.skip(1), i - 1, key);
    }
}

/// Inserting keeps the keys unique.
proof fn lemma_insert_preserves_unique(
    mappings: Seq<(Seq<char>, Seq<char>)>,
    pair: (Seq<char>, Seq<char>),
)
    requires
        keys_unique(mappings),
    ensures
        keys_unique(spec_insert_mapping(mappings, pair)),
{
    lemma_key_index_spec(mappings, pair.0);
}

/// The machine mappings drawn from the first `n` machine-ID inputs:
/// the earliest per-machine failure wins; otherwise each resolved
/// pair is inserted in document order, a repeated machine ID
/// overwriting its earlier entry.
pub open spec fn spec_mappings_upto(inputs: Seq<MachineInput>, n: int) -> Result<
    Seq<(Seq<char>, Seq<char>)>,
    ExtractionError,
>
    recommends
        0 <= n <= inputs.len(),
    decreases n,
{
    if n <= 0 {
        Ok(Seq::empty())
    } else {
        match spec_mappings_upto(inputs, n - 1) {
            Err(e) => Err(e),
            Ok(acc) => match spec_machine_step(inputs[n - 1], (n - 1) as usize) {
                Err(e) => Err(e),
                Ok(pair) => Ok(spec_insert_mapping(acc, pair)),
            },
        }
    }
}

/// The keys-unique invariant of machine mappings: whatever the
/// document, an extracted mapping never carries the same machine ID
/// twice, a repeated ID having overwritten its earlier entry.
pub proof fn lemma_extracted_mappings_keys_unique(doc: HtmlDocument)
    ensures
        (match spec_extract_session(doc) {
            Ok(SessionView::Authenticated(session)) => keys_unique(session.machine_mappings),
            _ => true,
        }),
{
    lemma_mappings_upto_keys_unique(doc.machine_inputs@, doc.machine_inputs@.len() as int);
}

proof fn lemma_mappings_upto_keys_unique(inputs: Seq<MachineInput>, n: int)
    requires
        0 <= n <= inputs.len(),
    ensures
        (match spec_mappings_upto(inputs, n) {
            Ok(acc) => keys_unique(acc),
            Err(_) => true,
        }),
    decreases n,
{
    if n > 0 {
        lemma_mappings_upto_keys_unique(inputs, n - 1);
        if let Ok(acc) = spec_mappings_upto(inputs, n - 1) {
            if let Ok(pair) = spec_machine_step(inputs[n - 1], (n - 1) as usize) {
                lemma_insert_preserves_unique(acc, pair);
            }
        }
    }
}

/// What extracting a session from a document yields, for every
/// possible document: the CSRF token is read first, then the
/// user-token marker decides the state; an authenticated document
/// additionally needs its location, a complete machine mapping, and a
/// user token that parses as a non-negative integer.
pub open spec fn spec_extract_session(doc: HtmlDocument) -> Result<SessionView, ExtractionError> {
    match spec_csrf_step(doc) {
        Err(e) => Err(e),
        Ok(csrf_token) => match spec_user_token_step(doc) {
            Err(e) => Err(e),
            Ok(user_token) => if user_token.len() == 0 {
                Ok(SessionView::Unauthenticated(UnauthenticatedSessionView { csrf_token }))
            } else {
                match spec_location_step(doc) {
                    Err(e) => Err(e),
                    Ok(location) => match spec_mappings_upto(
                        doc.machine_inputs@,
                        doc.machine_inputs@.len() as int,
                    ) {
                        Err(e) => Err(e),
                        Ok(machine_mappings) => match spec_parse_u32(user_token) {
                            None => Err(ExtractionError::MalformedUserToken),
                            Some(token) => Ok(
                                SessionView::Authenticated(
                                    AuthenticatedSessionView {
                                        csrf_token,
                                        user_token: token,
                                        location,
                                        machine_mappings,
                                    },
                                ),
                            ),
                        },
                    },
                }
            },
        },
    }
}

/// A per-machine failure keeps its error through every later prefix.
proof fn lemma_mappings_upto_err_persists(
    inputs: Seq<MachineInput>,
    m: int,
    n: int,
    e: ExtractionError,
)
    requires
        0 <= m <= n <= inputs.len(),
        spec_mappings_upto(inputs, m) == Err::<Seq<(Seq<char>, Seq<char>)>, ExtractionError>(e),
    ensures
        spec_mappings_upto(inputs, n) == Err::<Seq<(Seq<char>, Seq<char>)>, ExtractionError>(e),
    decreases n - m,
{
    if m < n {
        lemma_mappings_upto_err_persists(inputs, m, n - 1, e);
    }
}

/// Resolves one machine-ID input into its `(machine ID, display
/// name)` pair.
fn extract_machine_pair(input: &MachineInput, index: usize) -> (r: Result<
    (String, String),
    ExtractionError,
>)
    ensures
        (match (r, spec_machine_step(*input, index)) {
            (Ok(pair), Ok(expected)) => pair.0@ == expected.0 && pair.1@ == expected.1,
            (Err(actual), Err(expected)) => actual == expected,
            _ => false,
        }),
{
    let id: String = match &input.value {
        None => {
            return Err(ExtractionError::MissingMachineIdValue { index });
        },
        Some(id) => id.clone(),
    };
    let container = match &input.container {
        None => {
            return Err(ExtractionError::MissingMachineContainer { index });
        },
        Some(container) => container,
    };
    let label = match &container.label {
        None => {
            return Err(ExtractionError::MissingMachineLabel { index });
        },
        Some(label) => label,
    };
    let text = match &label.first_text {
        None => {
            return Err(ExtractionError::MissingMachineLabelText { index });
        },
        Some(text) => text,
    };
    Ok((id, trim_text(text.as_str())))
}

/// Inserts one resolved `(machine ID, display name)` pair into the
/// mapping being built, overwriting the entry of a repeated machine
/// ID so that the last occurrence wins.
#[verifier::loop_isolation(false)]
fn insert_mapping(mappings: &mut Vec<(String, String)>, pair: (String, String))
    ensures
        final(mappings)@.map_values(|entry: (String, String)| (entry.0@, entry.1@))
            == spec_insert_mapping(
            old(mappings)@.map_values(|entry: (String, String)| (entry.0@, entry.1@)),
            (pair.0@, pair.1@),
        ),
{
    let ghost orig = mappings@;
    let ghost maps = mappings@.map_values(|entry: (String, String)| (entry.0@, entry.1@));
    let ghost pair_view = (pair.0@, pair.1@);
    let count = mappings.len();
    let mut j: usize = 0;
    while j < count
        invariant
            0 <= j <= count,
            mappings@ == orig,
            count == orig.len(),
            maps == orig.map_values(|entry: (String, String)| (entry.0@, entry.1@)),
            pair_view == (pair.0@, pair.1@),
            forall|t: int| 0 <= t < j ==> (#[trigger] maps[t]).0 != pair_view.0,
        decreases count - j,
    {
        proof {
            assert(maps[j as int] == (mappings@[j as int].0@, mappings@[j as int].1@));
        }
        if mappings[j].0.eq(&pair.0) {
            proof {
                lemma_key_index_at(maps, j as int, pair_view.0);
            }
            mappings[j] = pair;
            proof {
                assert(mappings@ == orig.update(j as int, mappings@[j as int]));
                assert(mappings@.map_values(|entry: (String, String)| (entry.0@, entry.1@))
                    =~= maps.update(j as int, pair_view));
            }
            return;
        }
        j = j + 1;
    }
    proof {
        lemma_key_index_at(maps, count as int, pair_view.0);
    }
    let ghost prev = mappings@;
    mappings.push(pair);
    proof {
        assert(mappings@ == prev.push((mappings@.last().0, mappings@.last().1)));
        assert(mappings@.map_values(|entry: (String, String)| (entry.0@, entry.1@)) =~= maps.push(
            pair_view,
        ));
    }
}

/// Parses a document into either an `Unauthenticated` or an
/// `Authenticated` session descriptor.  Extraction is pure and
/// deterministic over its input document; it fails, naming the step,
/// whenever a required element or attribute is absent or the
/// user-token marker is not a non-negative integer.  Retries belong
/// to the caller issuing a new request, never here.
pub fn extract_session(doc: &HtmlDocument) -> (r: Result<Pay2WashSession, ExtractionError>)
    ensures
        (match (r, spec_extract_session(*doc)) {
            (Ok(session), Ok(expected)) => session@ == expected,
            (Err(actual), Err(expected)) => actual == expected,
            _ => false,
        }),
{
    let csrf_token: String = match &doc.csrf_meta {
        None => {
            return Err(ExtractionError::MissingCsrfMeta);
        },
        Some(meta) => match &meta.content {
            None => {
                return Err(ExtractionError::MissingCsrfContent);
            },
            Some(content) => content.clone(),
        },
    };
    let user_token: &String = match &doc.user_token_meta {
        None => {
            return Err(ExtractionError::MissingUserTokenMeta);
        },
        Some(meta) => match &meta.content {
            None => {
                return Err(ExtractionError::MissingUserTokenContent);
            },
            Some(content) => content,
        },
    };
    if user_token.as_str().is_empty() {
        return Ok(
            Pay2WashSession::Unauthenticated(UnauthenticatedSession { csrf_token }),
        );
    }
    let location: String = match &doc.location_input {
        None => {
            return Err(ExtractionError::MissingLocation);
        },
        Some(input) => match &input.value {
            None => {
                return Err(ExtractionError::MissingLocationValue);
            },
            Some(value) => if value.as_str().is_empty() {
                return Err(ExtractionError::MissingLocationValue);
            } else {
                value.clone()
            },
        },
    };
    let ghost inputs = doc.machine_inputs@;
    let count = doc.machine_inputs.len();
    let mut machine_mappings: Vec<(String, String)> = Vec::new();
    proof {
        assert(machine_mappings@.map_values(|pair: (String, String)| (pair.0@, pair.1@)) =~= Seq::<
            (Seq<char>, Seq<char>),
        >::empty());
    }
    let mut i: usize = 0;
    while i < count
        invariant
            0 <= i <= count,
            count == inputs.len(),
            inputs == doc.machine_inputs@,
            spec_csrf_step(*doc) == Ok::<Seq<char>, ExtractionError>(csrf_token@),
            spec_user_token_step(*doc) == Ok::<Seq<char>, ExtractionError>(user_token@),
            user_token@.len() != 0,
            spec_location_step(*doc) == Ok::<Seq<char>, ExtractionError>(location@),
            spec_mappings_upto(inputs, i as int) == Ok::<
                Seq<(Seq<char>, Seq<char>)>,
                ExtractionError,
            >(machine_mappings@.map_values(|pair: (String, String)| (pair.0@, pair.1@))),
        decreases count - i,
    {
        let pair = match extract_machine_pair(&doc.machine_inputs[i], i) {
            Err(e) => {
                proof {
                    lemma_mappings_upto_err_persists(inputs, i as int + 1, count as int, e);
                }
                return Err(e);
            },
            Ok(pair) => pair,
        };
        insert_mapping(&mut machine_mappings, pair);
        i = i + 1;
    }
    let token: u32 = match parse_u32(user_token.as_str()) {
        None => {
            return Err(ExtractionError::MalformedUserToken);
        },
        Some(token) => token,
    };
    Ok(
        Pay2WashSession::Authenticated(
            AuthenticatedSession {
                csrf_token,
                user_token: UserId(token),
                location,
                machine_mappings,
            },
        ),
    )
}

} // verus!
