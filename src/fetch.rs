//! One `download` call as a state machine: look for a cached copy, fetch,
//! write, return. The caller performs each action and reports the result.

use vstd::prelude::*;
use crate::download::{accept_download, cached_copy_valid, download_file_name, download_name_of};
use crate::error::BuildError;
use crate::hashing::fingerprint_of;

verus! {

/// Where a download stands.
#[derive(Debug, Clone, Copy, PartialEq, Eq, Structural)]
pub enum FetchPhase {
    /// Read the file already stored under the download name, if any.
    Lookup,
    /// Fetch the URL.
    Fetch,
    /// Write the fetched bytes under the download name.
    Write,
    /// Finished: the download name holds the expected bytes.
    Done,
    /// Finished: the download failed.
    Failed,
}

/// What the caller is to do next.
#[derive(Debug, Clone, Copy, PartialEq, Eq, Structural)]
pub enum FetchAction {
    ReadCached,
    Fetch,
    Write,
    Finish,
}

/// What the caller reports after performing an action.
pub enum FetchEvent {
    /// The contents of the file under the download name, if it exists.
    Cached { contents: Option<Vec<u8>> },
    /// The bytes the server returned.
    Fetched { body: Vec<u8> },
    /// The fetched bytes were written.
    Written,
    /// The action could not be carried out.
    Failed { error: BuildError },
}

/// The phase, and the bytes that the download name holds or is to hold.
pub struct FetchState {
    pub phase: FetchPhase,
    pub body: Seq<u8>,
}

pub open spec fn fetch_action_of(p: FetchPhase) -> FetchAction {
    match p {
        FetchPhase::Lookup => FetchAction::ReadCached,
        FetchPhase::Fetch => FetchAction::Fetch,
        FetchPhase::Write => FetchAction::Write,
        _ => FetchAction::Finish,
    }
}

/// One step of a download of bytes whose fingerprint is to be `expected`.
pub open spec fn fetch_step(s: FetchState, expected: Seq<char>, e: FetchEvent) -> FetchState {
    match s.phase {
        FetchPhase::Lookup => match e {
            FetchEvent::Cached { contents } => match contents {
                Some(bytes) => if fingerprint_of(bytes@) == expected {
                    FetchState { phase: FetchPhase::Done, body: bytes@ }
                } else {
                    FetchState { phase: FetchPhase::Fetch, body: s.body }
                },
                None => FetchState { phase: FetchPhase::Fetch, body: s.body },
            },
            _ => FetchState { phase: FetchPhase::Failed, body: s.body },
        },
        FetchPhase::Fetch => match e {
            FetchEvent::Fetched { body } => if fingerprint_of(body@) == expected {
                FetchState { phase: FetchPhase::Write, body: body@ }
            } else {
                FetchState { phase: FetchPhase::Failed, body: s.body }
            },
            _ => FetchState { phase: FetchPhase::Failed, body: s.body },
        },
        FetchPhase::Write => FetchState {
            phase: if e is Written {
                FetchPhase::Done
            } else {
                FetchPhase::Failed
            },
            body: s.body,
        },
        _ => s,
    }
}

/// A download in progress.
pub struct Download {
    url: String,
    expected: String,
    name: String,
    phase: FetchPhase,
    body: Vec<u8>,
    error: Option<BuildError>,
}

/// What a `Download` stands for.
pub struct DownloadView {
    pub url: Seq<char>,
    pub expected: Seq<char>,
    pub name: Seq<char>,
    pub phase: FetchPhase,
    pub body: Seq<u8>,
    pub error: Option<BuildError>,
}

impl View for Download {
    type V = DownloadView;

    closed spec fn view(&self) -> DownloadView {
        DownloadView {
            url: self.url@,
            expected: self.expected@,
            name: self.name@,
            phase: self.phase,
            body: self.body@,
            error: self.error,
        }
    }
}

impl DownloadView {
    pub open spec fn state(self) -> FetchState {
        FetchState { phase: self.phase, body: self.body }
    }

    /// Bytes about to be written, or returned, have the expected
    /// fingerprint; a failed download holds its error.
    pub open spec fn wf(self) -> bool {
        &&& (self.phase is Write || self.phase is Done) ==> fingerprint_of(self.body)
            == self.expected
        &&& self.phase is Failed ==> self.error is Some
    }
}

impl Download {
    /// A download of `url` whose SHA-256 is to be `expected_hash`. It fails
    /// at once when the URL names no file.
    pub fn new(url: &str, expected_hash: &str) -> (r: Download)
        ensures
            r@.wf(),
            r@.url == url@,
            r@.expected == expected_hash@,
            match download_name_of(url@) {
                Some(name) => r@.phase is Lookup && r@.name == name && r@.body.len() == 0,
                None => r@.phase is Failed && (r@.error matches Some(BuildError::InvalidUrl { url: u })
                    && u@ == url@),
            },
    {
        match download_file_name(url) {
            Ok(name) => Download {
                url: url.to_owned(),
                expected: expected_hash.to_owned(),
                name,
                phase: FetchPhase::Lookup,
                body: Vec::new(),
                error: None,
            },
            Err(error) => Download {
                url: url.to_owned(),
                expected: expected_hash.to_owned(),
                name: String::new(),
                phase: FetchPhase::Failed,
                body: Vec::new(),
                error: Some(error),
            },
        }
    }

    /// The action the caller is to perform next.
    pub fn next_action(&self) -> (r: FetchAction)
        ensures
            r == fetch_action_of(self@.phase),
    {
        match self.phase {
            FetchPhase::Lookup => FetchAction::ReadCached,
            FetchPhase::Fetch => FetchAction::Fetch,
            FetchPhase::Write => FetchAction::Write,
            _ => FetchAction::Finish,
        }
    }

    pub fn url(&self) -> (r: &str)
        ensures
            r@ == self@.url,
    {
        self.url.as_str()
    }

    /// The file the download is stored in.
    pub fn file_name(&self) -> (r: &str)
        ensures
            r@ == self@.name,
    {
        self.name.as_str()
    }

    /// The bytes to write; while the action is `Write`, they have the
    /// expected fingerprint.
    pub fn body(&self) -> (r: &[u8])
        requires
            self@.wf(),
        ensures
            r@ == self@.body,
            self@.phase is Write ==> fingerprint_of(r@) == self@.expected,
    {
        self.body.as_slice()
    }

    /// Takes in the report on the last action.
    pub fn handle(&mut self, event: FetchEvent)
        requires
            old(self)@.wf(),
        ensures
            final(self)@.wf(),
            final(self)@.state() == fetch_step(old(self)@.state(), old(self)@.expected, event),
            final(self)@.url == old(self)@.url,
            final(self)@.expected == old(self)@.expected,
            final(self)@.name == old(self)@.name,
            old(self)@.phase is Fetch ==> (event matches FetchEvent::Fetched { body } ==> (
            fingerprint_of(body@) != old(self)@.expected ==> (final(self)@.error matches Some(
                BuildError::HashMismatch { url: u, expected: x, computed: c },
            ) && u@ == old(self)@.url && x@ == old(self)@.expected && c@ == fingerprint_of(
                body@,
            )))),
            final(self)@.phase is Failed && !(old(self)@.phase is Failed) && !(event is Fetched)
                ==> final(self)@.error == Some(
                match event {
                    FetchEvent::Failed { error } => error,
                    _ => BuildError::UnexpectedEvent,
                },
            ),
            old(self)@.phase is Failed ==> final(self)@.error == old(self)@.error,
    {
        match self.phase {
            FetchPhase::Lookup => match event {
                FetchEvent::Cached { contents } => {
                    let valid = match &contents {
                        Some(bytes) => cached_copy_valid(Some(bytes.as_slice()), self.expected.as_str()),
                        None => false,
                    };
                    if valid {
                        match contents {
                            Some(bytes) => {
                                self.body = bytes;
                                self.phase = FetchPhase::Done;
                            },
                            None => {},
                        }
                    } else {
                        self.phase = FetchPhase::Fetch;
                    }
                },
                other => self.fail_with(other),
            },
            FetchPhase::Fetch => match event {
                FetchEvent::Fetched { body } => {
                    match accept_download(self.url.as_str(), self.expected.as_str(), body.as_slice()) {
                        Ok(()) => {
                            self.body = body;
                            self.phase = FetchPhase::Write;
                        },
                        Err(error) => {
                            self.phase = FetchPhase::Failed;
                            self.error = Some(error);
                        },
                    }
                },
                other => self.fail_with(other),
            },
            FetchPhase::Write => match event {
                FetchEvent::Written => {
                    self.phase = FetchPhase::Done;
                },
                other => self.fail_with(other),
            },
            _ => {},
        }
    }

    fn fail_with(&mut self, event: FetchEvent)
        ensures
            final(self)@ == (DownloadView {
                phase: FetchPhase::Failed,
                error: final(self)@.error,
                ..old(self)@
            }),
            final(self)@.error == Some(
                match event {
                    FetchEvent::Failed { error } => error,
                    _ => BuildError::UnexpectedEvent,
                },
            ),
    {
        self.phase = FetchPhase::Failed;
        self.error = Some(
            match event {
                FetchEvent::Failed { error } => error,
                _ => BuildError::UnexpectedEvent,
            },
        );
    }

    /// The file name on success, else the failure.
    pub fn finish(self) -> (r: Result<String, BuildError>)
        requires
            self@.wf(),
            self@.phase is Done || self@.phase is Failed,
        ensures
            self@.phase is Done ==> (r matches Ok(n) && n@ == self@.name),
            self@.phase is Failed ==> (r matches Err(err) && self@.error == Some(err)),
    {
        match self.phase {
            FetchPhase::Done => Ok(self.name),
            _ => match self.error {
                Some(err) => Err(err),
                None => Err(BuildError::UnexpectedEvent),
            },
        }
    }
}

/// The state of a fresh download of a URL that names a file.
pub open spec fn fetch_initial() -> FetchState {
    FetchState { phase: FetchPhase::Lookup, body: Seq::empty() }
}

/// The state of a fresh download after the first `i` of `events`.
pub open spec fn fetch_state_at(expected: Seq<char>, events: Seq<FetchEvent>, i: nat) -> FetchState
    decreases i,
{
    if i == 0 || i > events.len() {
        fetch_initial()
    } else {
        fetch_step(fetch_state_at(expected, events, (i - 1) as nat), expected, events[i - 1])
    }
}

/// A set of states that no step of a download towards `expected` leaves.
pub open spec fn fetch_closed(expected: Seq<char>, p: spec_fn(FetchState) -> bool) -> bool {
    forall|s: FetchState, e: FetchEvent| p(s) ==> p(#[trigger] fetch_step(s, expected, e))
}

proof fn lemma_fetch_stays(
    expected: Seq<char>,
    events: Seq<FetchEvent>,
    p: spec_fn(FetchState) -> bool,
    i: nat,
    j: nat,
)
    requires
        fetch_closed(expected, p),
        i <= j <= events.len(),
        p(fetch_state_at(expected, events, i)),
    ensures
        p(fetch_state_at(expected, events, j)),
    decreases j - i,
{
    if i < j {
        assert(fetch_state_at(expected, events, i + 1) == fetch_step(
            fetch_state_at(expected, events, i),
            expected,
            events[i as int],
        ));
        lemma_fetch_stays(expected, events, p, i + 1, j);
    }
}

proof fn lemma_done_has_source(expected: Seq<char>, events: Seq<FetchEvent>, i: nat)
    requires
        i <= events.len(),
        fetch_state_at(expected, events, i).phase is Done,
    ensures
        exists|j: nat|
            j < i && #[trigger] fetch_body_source(expected, events, j, fetch_state_at(expected, events, i).body),
    decreases i,
{
    if i > 0 {
        let i0 = (i - 1) as nat;
        assert(fetch_state_at(expected, events, i) == fetch_step(
            fetch_state_at(expected, events, i0),
            expected,
            events[i0 as int],
        ));
        if fetch_state_at(expected, events, i0).phase is Done {
            lemma_done_has_source(expected, events, i0);
        } else {
            assert(fetch_body_source(expected, events, i0, fetch_state_at(expected, events, i).body));
        }
    }
}

/// Whether step `j` put `body` under the download name: a cached copy
/// holding it was found, or it was written.
pub open spec fn fetch_body_source(expected: Seq<char>, events: Seq<FetchEvent>, j: nat, body: Seq<u8>) -> bool {
    let s = fetch_state_at(expected, events, j);
    ||| s.phase is Lookup && (events[j as int] matches FetchEvent::Cached { contents: Some(b) } && b@ == body)
    ||| s.phase is Write && events[j as int] is Written && s.body == body
}

/// A download asks to write only bytes with the expected SHA-256, and it
/// returns its file name only once the file holds such bytes: a cached copy
/// that was read, or the bytes it wrote.
pub proof fn lemma_download_hands_out_verified_bytes(expected: Seq<char>, events: Seq<FetchEvent>)
    ensures
        forall|i: nat|
            i <= events.len() && ((#[trigger] fetch_state_at(expected, events, i)).phase is Write
                || fetch_state_at(expected, events, i).phase is Done) ==> fingerprint_of(
                fetch_state_at(expected, events, i).body,
            ) == expected,
        forall|i: nat|
            i <= events.len() && (#[trigger] fetch_state_at(expected, events, i)).phase is Done
                ==> exists|j: nat|
                j < i && #[trigger] fetch_body_source(
                    expected,
                    events,
                    j,
                    fetch_state_at(expected, events, i).body,
                ),
{
    let verified = |s: FetchState|
        (s.phase is Write || s.phase is Done) ==> fingerprint_of(s.body) == expected;
    assert(fetch_closed(expected, verified));
    assert forall|i: nat|
        i <= events.len() && ((#[trigger] fetch_state_at(expected, events, i)).phase is Write
            || fetch_state_at(expected, events, i).phase is Done) implies fingerprint_of(
        fetch_state_at(expected, events, i).body,
    ) == expected by {
        lemma_fetch_stays(expected, events, verified, 0, i);
    }
    assert forall|i: nat|
        i <= events.len() && (#[trigger] fetch_state_at(expected, events, i)).phase is Done implies exists|
        j: nat,
    | j < i && #[trigger] fetch_body_source(expected, events, j, fetch_state_at(expected, events, i).body) by {
        lemma_done_has_source(expected, events, i);
    }
}

/// When the fetched bytes do not have the expected SHA-256, the download
/// fails and never asks to write anything, before or after.
pub proof fn lemma_mismatch_writes_nothing(expected: Seq<char>, events: Seq<FetchEvent>, i: nat)
    requires
        i < events.len(),
        fetch_state_at(expected, events, i).phase is Fetch,
        events[i as int] matches FetchEvent::Fetched { body } && fingerprint_of(body@) != expected,
    ensures
        forall|j: nat| j <= events.len() ==> !((#[trigger] fetch_state_at(expected, events, j)).phase is Write),
        forall|j: nat| i < j <= events.len() ==> (#[trigger] fetch_state_at(expected, events, j)).phase is Failed,
{
    let failed = |s: FetchState| s.phase is Failed;
    assert(fetch_closed(expected, failed));
    assert(fetch_state_at(expected, events, i + 1) == fetch_step(
        fetch_state_at(expected, events, i),
        expected,
        events[i as int],
    ));
    assert forall|j: nat| i < j <= events.len() implies (#[trigger] fetch_state_at(expected, events, j)).phase is Failed by {
        lemma_fetch_stays(expected, events, failed, i + 1, j);
    }
    let written = |s: FetchState| s.phase is Write || s.phase is Done || s.phase is Failed;
    assert(fetch_closed(expected, written));
    assert forall|j: nat| j <= events.len() implies !((#[trigger] fetch_state_at(expected, events, j)).phase is Write) by {
        if j <= i && fetch_state_at(expected, events, j).phase is Write {
            lemma_fetch_stays(expected, events, written, j, i);
        }
    }
}

} // verus!
