use vstd::prelude::*;

use crate::text::{is_clean, lead_end, trail_start, trim_quotes, trimmed, Strip};

verus! {

/// Event the shell emits, with the version as payload, to show the update toast.
pub const EVENT_UPDATE_AVAILABLE: &'static str = "ww-update-available";

/// Event the webview emits when the user asks to install the update.
pub const EVENT_INSTALL_UPDATE: &'static str = "ww-install-update";

/// Event the webview emits once its update listener is wired.
pub const EVENT_WEBVIEW_READY: &'static str = "ww-ready";

/// Event the webview emits, with the JSON-encoded version, once the toast is shown.
pub const EVENT_TOAST_SHOWN: &'static str = "ww-toast-shown";

/// Seconds between start-up and the first update check.
pub const FIRST_CHECK_DELAY_SECS: u64 = 5;

/// Seconds between two periodic update checks.
pub const CHECK_INTERVAL_SECS: u64 = 1800;

/// What an update check gave.
pub enum CheckOutcome {
    /// A newer build with this version is available.
    Available(String),
    /// The running build is the newest.
    UpToDate,
    /// The updater could not be set up or the check failed.
    Failed,
}

/// The update-prompt state of one app session, as plain values.
pub struct PrompterView {
    /// The latest version a check found, kept for a webview that was not
    /// listening yet.
    pub pending: Option<Seq<char>>,
    /// The latest version whose toast the webview confirmed as shown.
    pub last_prompted: Option<Seq<char>>,
}

pub open spec fn opt_view(o: Option<String>) -> Option<Seq<char>> {
    match o {
        Some(s) => Some(s@),
        None => None,
    }
}

/// State and emitted version after a check that found `found` (or nothing).
/// A found version becomes pending; it is emitted unless the webview has
/// already confirmed showing that very version.
pub open spec fn after_check(s: PrompterView, found: Option<Seq<char>>) -> (PrompterView, Option<
    Seq<char>,
>) {
    match found {
        None => (s, None),
        Some(v) => (
            PrompterView { pending: Some(v), last_prompted: s.last_prompted },
            if s.last_prompted == Some(v) {
                None
            } else {
                Some(v)
            },
        ),
    }
}

/// State after the webview confirms a shown toast with `payload`, the
/// JSON-encoded version: its quotes are removed and a non-empty version is
/// recorded as prompted.
pub open spec fn after_toast_shown(s: PrompterView, payload: Seq<char>) -> PrompterView {
    let v = trimmed(payload, Strip::Quote);
    if v.len() > 0 {
        PrompterView { pending: s.pending, last_prompted: Some(v) }
    } else {
        s
    }
}

/// Which update toasts were asked for and which were confirmed in this session.
pub struct UpdatePrompter {
    pending: Option<String>,
    last_prompted: Option<String>,
}

impl View for UpdatePrompter {
    type V = PrompterView;

    closed spec fn view(&self) -> PrompterView {
        PrompterView { pending: opt_view(self.pending), last_prompted: opt_view(self.last_prompted) }
    }
}

fn clone_opt(o: &Option<String>) -> (c: Option<String>)
    ensures
        opt_view(c) == opt_view(*o),
{
    match o {
        Some(s) => Some(s.clone()),
        None => None,
    }
}

impl UpdatePrompter {
    /// A session in which nothing was found or shown yet.
    pub fn new() -> (p: Self)
        ensures
            p@.pending is None,
            p@.last_prompted is None,
    {
        UpdatePrompter { pending: None, last_prompted: None }
    }

    /// Record the outcome of a periodic check; returns the version to emit
    /// to the webview, if any.
    pub fn on_check_result(&mut self, outcome: CheckOutcome) -> (emit: Option<String>)
        ensures
            ({
                let found = match outcome {
                    CheckOutcome::Available(v) => Some(v@),
                    _ => None,
                };
                &&& final(self)@ == after_check(old(self)@, found).0
                &&& opt_view(emit) == after_check(old(self)@, found).1
            }),
            final(self)@.last_prompted == old(self)@.last_prompted,
            (outcome is Available) ==> final(self)@.pending == opt_view(
                Some(outcome->Available_0),
            ),
            (outcome is Available) ==> (emit is None <==> old(self)@.last_prompted == opt_view(
                Some(outcome->Available_0),
            )),
            (outcome is Available && emit is Some) ==> opt_view(emit) == opt_view(
                Some(outcome->Available_0),
            ),
            !(outcome is Available) ==> emit is None && final(self)@ == old(self)@,
    {
        match outcome {
            CheckOutcome::Available(version) => {
                self.pending = Some(version.clone());
                let already = match &self.last_prompted {
                    Some(prev) => *prev == version,
                    None => false,
                };
                if already {
                    None
                } else {
                    Some(version)
                }
            },
            _ => None,
        }
    }

    /// The webview's listener is wired: the pending version, if any, is
    /// emitted again.
    pub fn on_webview_ready(&self) -> (emit: Option<String>)
        ensures
            opt_view(emit) == self@.pending,
    {
        clone_opt(&self.pending)
    }

    /// The webview confirmed that it showed the toast; `payload` is the
    /// JSON-encoded version.
    pub fn on_toast_shown(&mut self, payload: &str)
        ensures
            final(self)@ == after_toast_shown(old(self)@, payload@),
            final(self)@.pending == old(self)@.pending,
    {
        let version = trim_quotes(payload);
        if !version.as_str().is_empty() {
            self.last_prompted = Some(version);
        }
    }
}

/// A version quoted as JSON, `"v"`, loses exactly its quotes when the
/// confirmation payload is read.
pub proof fn lemma_json_quoted_version(v: Seq<char>)
    requires
        v.len() > 0,
        is_clean(v, Strip::Quote),
    ensures
        trimmed(seq!['"'] + v + seq!['"'], Strip::Quote) == v,
{
    let s = seq!['"'] + v + seq!['"'];
    let n = s.len();
    assert(s[0] == '"');
    assert(s[1] == v[0]);
    assert(lead_end(s, Strip::Quote, 1) == 1);
    assert(lead_end(s, Strip::Quote, 0) == 1);
    assert(s[n - 1] == '"');
    assert(s[n - 2] == v[v.len() - 1]);
    assert(trail_start(s, Strip::Quote, 1, (n - 1) as nat) == n - 1);
    assert(trail_start(s, Strip::Quote, 1, n) == n - 1);
    assert(s.subrange(1, n - 1) =~= v);
}

/// Once the webview confirmed showing the toast for version `v`, a later
/// check finding `v` again emits nothing: no repeat prompts for a version
/// already shown in this session.
pub proof fn lemma_confirmed_version_not_prompted_again(s: PrompterView, v: Seq<char>)
    requires
        v.len() > 0,
        is_clean(v, Strip::Quote),
    ensures
        after_check(after_toast_shown(s, seq!['"'] + v + seq!['"']), Some(v)).1 is None,
{
    lemma_json_quoted_version(v);
}

/// A found version the webview has not confirmed is emitted, however often
/// it was emitted before: a lost emit never silences later checks, and a
/// newer version prompts again.
pub proof fn lemma_unconfirmed_version_prompted(s: PrompterView, v: Seq<char>)
    requires
        s.last_prompted != Some(v),
    ensures
        after_check(s, Some(v)).1 == Some(v),
{
}

/// After a check found `v`, a webview that becomes ready later still gets
/// `v` (the start-up race loses no prompt).
pub proof fn lemma_ready_replays_found_version(s: PrompterView, v: Seq<char>)
    ensures
        after_check(s, Some(v)).0.pending == Some(v),
{
}

/// Checks never change which version the webview confirmed: only a
/// confirmation from the webview does.
pub proof fn lemma_check_keeps_confirmation(s: PrompterView, found: Option<Seq<char>>)
    ensures
        after_check(s, found).0.last_prompted == s.last_prompted,
{
}

/// The state after a series of checks finding `founds` in turn, and what
/// each check emitted.
pub open spec fn run_checks(s: PrompterView, founds: Seq<Option<Seq<char>>>) -> (
    PrompterView,
    Seq<Option<Seq<char>>>,
)
    decreases founds.len(),
{
    if founds.len() == 0 {
        (s, Seq::empty())
    } else {
        let (s1, e1) = after_check(s, founds[0]);
        let (s2, rest) = run_checks(s1, founds.drop_first());
        (s2, seq![e1] + rest)
    }
}

/// Once the webview confirmed version `v`, no series of later checks that
/// find `v` (or nothing) ever emits anything, and the confirmation stays.
pub proof fn lemma_confirmed_version_stays_silent(
    s: PrompterView,
    v: Seq<char>,
    founds: Seq<Option<Seq<char>>>,
)
    requires
        s.last_prompted == Some(v),
        forall|k: int| 0 <= k < founds.len() ==> #[trigger] founds[k] == Some(v) || founds[k] is None,
    ensures
        run_checks(s, founds).0.last_prompted == Some(v),
        run_checks(s, founds).1.len() == founds.len(),
        forall|k: int| 0 <= k < founds.len() ==> #[trigger] run_checks(s, founds).1[k] is None,
    decreases founds.len(),
{
    if founds.len() > 0 {
        let s1 = after_check(s, founds[0]).0;
        let rest = founds.drop_first();
        assert forall|k: int| 0 <= k < rest.len() implies #[trigger] rest[k] == Some(v) || rest[k] is None by {
            assert(rest[k] == founds[k + 1]);
        }
        lemma_confirmed_version_stays_silent(s1, v, rest);
        let out = run_checks(s, founds).1;
        assert forall|k: int| 0 <= k < founds.len() implies #[trigger] out[k] is None by {
            if k > 0 {
                assert(out[k] == run_checks(s1, rest).1[k - 1]);
            }
        }
    }
}

/// A check that found no update changes nothing and emits nothing.
pub proof fn lemma_no_update_is_silent(s: PrompterView)
    ensures
        after_check(s, None) == (s, None::<Seq<char>>),
{
}

} // verus!
