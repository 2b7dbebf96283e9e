//! The progress-event stream of a streaming pull: the typed events, the
//! translation of the tool's output lines, the last-stderr-line candidate,
//! and the full event sequence a pull produces for a given tool run.
//!
//! An invalid reference terminates the sequence immediately after its error
//! event, without an end marker; every other failure emits an error followed
//! by the end marker. This asymmetry is part of the interface, not a defect.

use vstd::prelude::*;
use vstd::string::*;
use crate::artifact::spec_make_filename;
use crate::credentials::spec_creds_present;
use crate::pull::{resolve_format, spec_resolve_format, PullRequest};
use crate::reference::{parse_repo_tag, spec_repo_tag, spec_valid_ref, is_blank, valid_ref};

verus! {

/// One event of the progress stream.
pub enum ProgressEvent {
    Start,
    Auth,
    Progress(String),
    Error(String),
    Ready(String, String),
    End,
}

/// The mathematical shape of an event.
#[verifier::ext_equal]
pub enum EventView {
    Start,
    Auth,
    Progress(Seq<char>),
    Error(Seq<char>),
    Ready(Seq<char>, Seq<char>),
    End,
}

impl View for ProgressEvent {
    type V = EventView;

    open spec fn view(&self) -> EventView {
        match self {
            ProgressEvent::Start => EventView::Start,
            ProgressEvent::Auth => EventView::Auth,
            ProgressEvent::Progress(t) => EventView::Progress(t@),
            ProgressEvent::Error(m) => EventView::Error(m@),
            ProgressEvent::Ready(id, name) => EventView::Ready(id@, name@),
            ProgressEvent::End => EventView::End,
        }
    }
}

/// One line of the child process's output, tagged by its channel.
pub enum ToolLine {
    Stdout(String),
    Stderr(String),
}

/// The mathematical shape of an output line.
#[verifier::ext_equal]
pub enum LineView {
    Stdout(Seq<char>),
    Stderr(Seq<char>),
}

impl View for ToolLine {
    type V = LineView;

    open spec fn view(&self) -> LineView {
        match self {
            ToolLine::Stdout(t) => LineView::Stdout(t@),
            ToolLine::Stderr(t) => LineView::Stderr(t@),
        }
    }
}

/// What the outside world did for one pull: the credential file failed to be
/// written, the tool failed to spawn, or the process ran to an exit status
/// after producing its output lines in arrival order.
pub enum ToolRun {
    AuthfileFailed(String),
    SpawnFailed(String),
    Exited(bool, Vec<ToolLine>),
}

/// The mathematical shape of a tool run.
#[verifier::ext_equal]
pub enum RunView {
    AuthfileFailed(Seq<char>),
    SpawnFailed(Seq<char>),
    Exited(bool, Seq<LineView>),
}

impl View for ToolRun {
    type V = RunView;

    open spec fn view(&self) -> RunView {
        match self {
            ToolRun::AuthfileFailed(m) => RunView::AuthfileFailed(m@),
            ToolRun::SpawnFailed(m) => RunView::SpawnFailed(m@),
            ToolRun::Exited(ok, lines) => RunView::Exited(
                *ok,
                lines@.map_values(|l: ToolLine| l@),
            ),
        }
    }
}

/// The views of a sequence of events.
pub open spec fn spec_events_view(evs: Seq<ProgressEvent>) -> Seq<EventView> {
    evs.map_values(|e: ProgressEvent| e@)
}

/// The progress event an output line is forwarded as: its text, whichever
/// channel it came from.
pub open spec fn spec_progress_of(l: LineView) -> EventView {
    match l {
        LineView::Stdout(t) => EventView::Progress(t),
        LineView::Stderr(t) => EventView::Progress(t),
    }
}

/// The progress events of all output lines, in arrival order.
pub open spec fn spec_progress_events(lines: Seq<LineView>) -> Seq<EventView> {
    lines.map_values(|l: LineView| spec_progress_of(l))
}

/// The last stderr line among the first `to` lines, if any: the value of the
/// shared last-error cell after those lines, last write winning.
pub open spec fn last_stderr_before(lines: Seq<LineView>, to: int) -> Option<Seq<char>>
    decreases to,
{
    if to <= 0 {
        None
    } else {
        match lines[to - 1] {
            LineView::Stderr(t) => Some(t),
            LineView::Stdout(_) => last_stderr_before(lines, to - 1),
        }
    }
}

/// The last stderr line of the whole run, if any.
pub open spec fn spec_last_stderr(lines: Seq<LineView>) -> Option<Seq<char>> {
    last_stderr_before(lines, lines.len() as int)
}

/// The message of the terminal error event of a failed run: the last
/// recorded stderr line, or a generic fallback.
pub open spec fn spec_failure_message(last: Option<Seq<char>>) -> Seq<char> {
    match last {
        Some(m) => m,
        None => "skopeo failed"@,
    }
}

/// The auth event emitted when credentials are materialized.
pub open spec fn spec_auth_events(creds: bool) -> Seq<EventView> {
    if creds {
        seq![EventView::Auth]
    } else {
        Seq::empty()
    }
}

/// The download filename announced by the ready event.
pub open spec fn spec_ready_filename(reference: Seq<char>, format: Seq<char>) -> Seq<char> {
    spec_make_filename(
        spec_repo_tag(reference).0,
        spec_repo_tag(reference).1,
        spec_resolve_format(format),
    )
}

/// The whole event sequence of one streaming pull, given the reference and
/// format of the request, whether credentials were present, what the outside
/// world did, and the artifact identifier that was drawn.
pub open spec fn spec_stream_events(
    reference: Seq<char>,
    format: Seq<char>,
    creds: bool,
    run: RunView,
    uid: Seq<char>,
) -> Seq<EventView> {
    if !spec_valid_ref(reference) {
        seq![EventView::Start, EventView::Error("invalid reference"@)]
    } else {
        seq![EventView::Start] + match run {
            RunView::AuthfileFailed(m) => seq![
                EventView::Error("authfile error: "@ + m),
                EventView::End,
            ],
            RunView::SpawnFailed(m) => spec_auth_events(creds) + seq![
                EventView::Error("spawn error: "@ + m),
                EventView::End,
            ],
            RunView::Exited(success, lines) => spec_auth_events(creds) + spec_progress_events(
                lines,
            ) + (if success {
                seq![EventView::Ready(uid, spec_ready_filename(reference, format)), EventView::End]
            } else {
                seq![
                    EventView::Error(spec_failure_message(spec_last_stderr(lines))),
                    EventView::End,
                ]
            }),
        }
    }
}

/// Whether both credentials of a request are present and non-blank.
pub fn has_credentials(username: &Option<String>, password: &Option<String>) -> (b: bool)
    ensures
        b == spec_creds_present(username.deep_view(), password.deep_view()),
{
    let u_ok = match username {
        Some(u) => !is_blank(u.as_str()),
        None => false,
    };
    let p_ok = match password {
        Some(p) => !is_blank(p.as_str()),
        None => false,
    };
    u_ok && p_ok
}

/// The error event of a rejected reference.
pub fn invalid_reference_event() -> (e: ProgressEvent)
    ensures
        e@ == EventView::Error("invalid reference"@),
{
    ProgressEvent::Error(String::from_str("invalid reference"))
}

/// The error event of a failed credential-file write.
pub fn authfile_error_event(msg: &str) -> (e: ProgressEvent)
    ensures
        e@ == EventView::Error("authfile error: "@ + msg@),
{
    ProgressEvent::Error(String::from_str("authfile error: ").concat(msg))
}

/// The error event of a failed spawn.
pub fn spawn_error_event(msg: &str) -> (e: ProgressEvent)
    ensures
        e@ == EventView::Error("spawn error: "@ + msg@),
{
    ProgressEvent::Error(String::from_str("spawn error: ").concat(msg))
}

/// The progress event an output line is forwarded as.
pub fn progress_event(line: &ToolLine) -> (e: ProgressEvent)
    ensures
        e@ == spec_progress_of(line@),
{
    match line {
        ToolLine::Stdout(t) => ProgressEvent::Progress(String::from_str(t.as_str())),
        ToolLine::Stderr(t) => ProgressEvent::Progress(String::from_str(t.as_str())),
    }
}

/// The next value of the last-error cell after one line: a stderr line
/// overwrites it, a stdout line leaves it.
pub open spec fn spec_next_last(l: LineView, prev: Option<Seq<char>>) -> Option<Seq<char>> {
    match l {
        LineView::Stderr(t) => Some(t),
        LineView::Stdout(_) => prev,
    }
}

/// Record one output line into the last-error cell.
pub fn next_last_error(line: &ToolLine, prev: Option<String>) -> (r: Option<String>)
    ensures
        r.deep_view() == spec_next_last(line@, prev.deep_view()),
{
    match line {
        ToolLine::Stderr(t) => Some(String::from_str(t.as_str())),
        ToolLine::Stdout(_) => prev,
    }
}

/// The structured payload of a ready event: the artifact identifier and the
/// download filename.
pub open spec fn spec_ready_payload(id: Seq<char>, filename: Seq<char>) -> Seq<char> {
    "{\"id\":\""@ + id + "\",\"filename\":\""@ + filename + "\"}"@
}

/// Build the structured payload of a ready event.
pub fn ready_payload(id: &str, filename: &str) -> (r: String)
    ensures
        r@ == spec_ready_payload(id@, filename@),
{
    let s = String::from_str("{\"id\":\"");
    let s = s.concat(id);
    let s = s.concat("\",\"filename\":\"");
    let s = s.concat(filename);
    s.concat("\"}")
}

/// The wire name of an event.
pub open spec fn spec_event_name(e: EventView) -> Seq<char> {
    match e {
        EventView::Start => "start"@,
        EventView::Auth => "auth"@,
        EventView::Progress(_) => "progress"@,
        EventView::Error(_) => "error"@,
        EventView::Ready(_, _) => "ready"@,
        EventView::End => "end"@,
    }
}

/// The wire name of an event.
pub fn event_name(e: &ProgressEvent) -> (r: &'static str)
    ensures
        r@ == spec_event_name(e@),
{
    match e {
        ProgressEvent::Start => "start",
        ProgressEvent::Auth => "auth",
        ProgressEvent::Progress(_) => "progress",
        ProgressEvent::Error(_) => "error",
        ProgressEvent::Ready(_, _) => "ready",
        ProgressEvent::End => "end",
    }
}

/// The wire data of an event: fixed markers for the lifecycle events, the
/// forwarded line or message for progress and error, the structured payload
/// for ready.
pub open spec fn spec_event_data(e: EventView) -> Seq<char> {
    match e {
        EventView::Start => "starting"@,
        EventView::Auth => "using credentials"@,
        EventView::Progress(t) => t,
        EventView::Error(m) => m,
        EventView::Ready(id, filename) => spec_ready_payload(id, filename),
        EventView::End => "done"@,
    }
}

/// The wire data of an event.
pub fn event_data(e: &ProgressEvent) -> (r: String)
    ensures
        r@ == spec_event_data(e@),
{
    match e {
        ProgressEvent::Start => String::from_str("starting"),
        ProgressEvent::Auth => String::from_str("using credentials"),
        ProgressEvent::Progress(t) => String::from_str(t.as_str()),
        ProgressEvent::Error(m) => String::from_str(m.as_str()),
        ProgressEvent::Ready(id, filename) => ready_payload(id.as_str(), filename.as_str()),
        ProgressEvent::End => String::from_str("done"),
    }
}

/// The terminal error message of a failed run.
pub fn failure_message(last: Option<String>) -> (r: String)
    ensures
        r@ == spec_failure_message(last.deep_view()),
{
    match last {
        Some(m) => m,
        None => String::from_str("skopeo failed"),
    }
}

/// The whole event sequence of one streaming pull, computed from the request,
/// the recorded tool run and the drawn artifact identifier.
#[verifier::loop_isolation(false)]
pub fn stream_events(req: &PullRequest, run: &ToolRun, uid: &str) -> (evs: Vec<ProgressEvent>)
    ensures
        spec_events_view(evs@) == spec_stream_events(
            req.reference@,
            req.format@,
            spec_creds_present(req.username.deep_view(), req.password.deep_view()),
            run@,
            uid@,
        ),
{
    let ghost creds_spec = spec_creds_present(
        req.username.deep_view(),
        req.password.deep_view(),
    );
    let ghost goal = spec_stream_events(req.reference@, req.format@, creds_spec, run@, uid@);
    let mut evs: Vec<ProgressEvent> = Vec::new();
    evs.push(ProgressEvent::Start);
    if !valid_ref(req.reference.as_str()) {
        evs.push(invalid_reference_event());
        proof {
            assert(spec_events_view(evs@) =~~= goal);
        }
        return evs;
    }
    let creds = has_credentials(&req.username, &req.password);
    match run {
        ToolRun::AuthfileFailed(m) => {
            evs.push(authfile_error_event(m.as_str()));
            evs.push(ProgressEvent::End);
            proof {
                assert(spec_events_view(evs@) =~~= goal);
            }
        },
        ToolRun::SpawnFailed(m) => {
            if creds {
                evs.push(ProgressEvent::Auth);
            }
            evs.push(spawn_error_event(m.as_str()));
            evs.push(ProgressEvent::End);
            proof {
                assert(spec_events_view(evs@) =~~= goal);
            }
        },
        ToolRun::Exited(ok, lines) => {
            if creds {
                evs.push(ProgressEvent::Auth);
            }
            let ghost lv = run@->Exited_1;
            let ghost base = seq![EventView::Start] + spec_auth_events(creds_spec);
            proof {
                assert(spec_events_view(evs@) =~~= base + spec_progress_events(
                    lv.subrange(0, 0),
                ));
            }
            let mut last: Option<String> = None;
            let mut i: usize = 0;
            while i < lines.len()
                invariant
                    i <= lines.len(),
                    lv == run@->Exited_1,
                    lv.len() == lines@.len(),
                    spec_events_view(evs@) == base + spec_progress_events(
                        lv.subrange(0, i as int),
                    ),
                    last.deep_view() == last_stderr_before(lv, i as int),
                decreases lines.len() - i,
            {
                let line = &lines[i];
                last = next_last_error(line, last);
                evs.push(progress_event(line));
                proof {
                    assert(lv[i as int] == lines@[i as int]@);
                    assert(lv.subrange(0, i + 1).drop_last() =~= lv.subrange(0, i as int));
                    assert(lv.subrange(0, i + 1).last() == lv[i as int]);
                    let rhs = base + spec_progress_events(lv.subrange(0, i + 1));
                    assert(spec_events_view(evs@).len() == base.len() + i + 1);
                    assert(rhs.len() == base.len() + i + 1);
                    assert(spec_events_view(evs@)[base.len() + i as int] == spec_progress_of(
                        lv[i as int],
                    ));
                    assert(rhs[base.len() + i as int] == spec_progress_of(lv[i as int]));
                    assert forall|k: int| 0 <= k < base.len() + i implies spec_events_view(
                        evs@,
                    )[k] == rhs[k] by {
                        assert(spec_events_view(evs@)[k] == (base + spec_progress_events(
                            lv.subrange(0, i as int),
                        ))[k]);
                    }
                    assert(spec_events_view(evs@) =~~= rhs);
                }
                i += 1;
            }
            proof {
                assert(lv.subrange(0, lines.len() as int) =~= lv);
            }
            if *ok {
                let (repo, tag) = parse_repo_tag(req.reference.as_str());
                let fmt = resolve_format(req.format.as_str());
                let filename = crate::artifact::make_filename(
                    repo.as_str(),
                    tag.as_str(),
                    fmt.as_str(),
                );
                evs.push(ProgressEvent::Ready(String::from_str(uid), filename));
                evs.push(ProgressEvent::End);
                proof {
                    let term = EventView::Ready(
                        uid@,
                        spec_ready_filename(req.reference@, req.format@),
                    );
                    let pre = base + spec_progress_events(lv);
                    assert(spec_events_view(evs@).len() == pre.len() + 2);
                    assert(spec_events_view(evs@)[pre.len() as int] == term);
                    assert(spec_events_view(evs@)[pre.len() as int + 1] == EventView::End);
                    assert forall|k: int| 0 <= k < pre.len() implies spec_events_view(
                        evs@,
                    )[k] == pre[k] by {}
                    assert(run@ is Exited);
                    assert(run@->Exited_0 == *ok);
                    assert(goal =~~= pre + seq![term, EventView::End]);
                    assert(spec_events_view(evs@) =~~= pre + seq![term, EventView::End]);
                    assert(spec_events_view(evs@) == goal);
                }
            } else {
                evs.push(ProgressEvent::Error(failure_message(last)));
                evs.push(ProgressEvent::End);
                proof {
                    let term = EventView::Error(spec_failure_message(spec_last_stderr(lv)));
                    let pre = base + spec_progress_events(lv);
                    assert(spec_events_view(evs@).len() == pre.len() + 2);
                    assert(spec_events_view(evs@)[pre.len() as int] == term);
                    assert(spec_events_view(evs@)[pre.len() as int + 1] == EventView::End);
                    assert forall|k: int| 0 <= k < pre.len() implies spec_events_view(
                        evs@,
                    )[k] == pre[k] by {}
                    assert(run@ is Exited);
                    assert(run@->Exited_0 == *ok);
                    assert(goal =~~= pre + seq![term, EventView::End]);
                    assert(spec_events_view(evs@) =~~= pre + seq![term, EventView::End]);
                    assert(spec_events_view(evs@) == goal);
                }
            }
        },
    }
    evs
}

/// A streaming pull against an invalid reference emits exactly one error
/// event — preceded by the start event — and no end marker: the sequence
/// terminates immediately, whatever the outside world did.
pub proof fn lemma_invalid_reference_stream(
    reference: Seq<char>,
    format: Seq<char>,
    creds: bool,
    run: RunView,
    uid: Seq<char>,
)
    requires
        !spec_valid_ref(reference),
    ensures
        ({
            let evs = spec_stream_events(reference, format, creds, run, uid);
            &&& evs.len() == 2
            &&& evs[0] == EventView::Start
            &&& evs[1] == EventView::Error("invalid reference"@)
            &&& forall|i: int| 0 <= i < evs.len() ==> !(#[trigger] evs[i] is End)
            &&& forall|i: int| 0 <= i < evs.len() && (#[trigger] evs[i] is Error) ==> i == 1
        }),
{
}

/// For every valid reference the stream ends with exactly one end marker,
/// directly preceded by its terminal ready or error event; the start event
/// comes first.
pub proof fn lemma_stream_terminal_shape(
    reference: Seq<char>,
    format: Seq<char>,
    creds: bool,
    run: RunView,
    uid: Seq<char>,
)
    requires
        spec_valid_ref(reference),
    ensures
        ({
            let evs = spec_stream_events(reference, format, creds, run, uid);
            &&& evs.len() >= 3
            &&& evs[0] == EventView::Start
            &&& evs.last() == EventView::End
            &&& (evs[evs.len() - 2] is Ready || evs[evs.len() - 2] is Error)
            &&& forall|i: int| 0 <= i < evs.len() - 1 ==> !(#[trigger] evs[i] is End)
        }),
{
    let evs = spec_stream_events(reference, format, creds, run, uid);
    match run {
        RunView::AuthfileFailed(m) => {
            assert(forall|i: int|
                0 <= i < evs.len() - 1 ==> !(#[trigger] evs[i] is End));
        },
        RunView::SpawnFailed(m) => {
            assert(forall|i: int|
                0 <= i < evs.len() - 1 ==> !(#[trigger] evs[i] is End));
        },
        RunView::Exited(success, lines) => {
            assert forall|i: int| 0 <= i < evs.len() - 1 implies !(#[trigger] evs[i] is End) by {
                let pre = seq![EventView::Start] + spec_auth_events(creds);
                if pre.len() <= i < pre.len() + lines.len() {
                    assert(evs[i] == spec_progress_of(lines[i - pre.len()]));
                }
            }
        },
    }
}

} // verus!
