//! The liveness prober: one endpoint's perpetual cycle of waiting, probing and
//! classifying, written as a state machine that the program around it drives.
use vstd::prelude::*;
use crate::catalog::{EndpointModel, EndpointSpec, HttpMethod};

verus! {

/// Seconds that one probe request may take before it counts as a transport
/// failure; shorter than the minimum polling interval.
pub const PROBE_TIMEOUT_SECS: u64 = 3;

/// Whether the url crate, as re-exported by reqwest, parses the text as an
/// absolute URL.
pub uninterp spec fn url_valid(s: Seq<char>) -> bool;

/// Relies on reqwest::Url::parse: whether the text parses as a URL.
#[verifier::external_body]
fn parses_as_url(s: &str) -> (r: bool)
    ensures
        r == url_valid(s@),
{
    reqwest::Url::parse(s).is_ok()
}

/// How one probe ended.
#[derive(Debug, Clone, Copy, PartialEq, Eq, Structural)]
pub enum ProbeOutcome {
    /// The request could not be sent or answered: refused, unresolved,
    /// timed out, or failed in TLS.
    Unreachable,
    /// A response arrived but its body could not be read to the end.
    Incomplete,
    /// A response arrived with its whole body; the status code it carried.
    Complete(u16),
}

/// The two kinds of failure that raise an alert.
#[derive(Debug, Clone, Copy, PartialEq, Eq, Structural)]
pub enum FailureClass {
    /// The host could not be reached.
    HostDown,
    /// The host answered but did not deliver a complete response.
    ServiceDown,
}

/// The failure class of a probe outcome; the status code plays no part.
pub open spec fn classify_spec(o: ProbeOutcome) -> Option<FailureClass> {
    match o {
        ProbeOutcome::Unreachable => Some(FailureClass::HostDown),
        ProbeOutcome::Incomplete => Some(FailureClass::ServiceDown),
        ProbeOutcome::Complete(_) => None,
    }
}

/// Classifies a probe outcome.
pub fn classify(o: ProbeOutcome) -> (r: Option<FailureClass>)
    ensures
        r == classify_spec(o),
{
    match o {
        ProbeOutcome::Unreachable => Some(FailureClass::HostDown),
        ProbeOutcome::Incomplete => Some(FailureClass::ServiceDown),
        ProbeOutcome::Complete(_) => None,
    }
}

/// The first line of an alert's body for each failure class.
pub open spec fn headline_spec(c: FailureClass) -> Seq<char> {
    match c {
        FailureClass::HostDown => "主機死掉了！！！！\n"@,
        FailureClass::ServiceDown => "服務死掉了！！！！\n"@,
    }
}

/// A notification for the operator.
#[derive(Debug, Clone)]
pub struct Alert {
    pub title: String,
    pub body: String,
}

/// The alert for an endpoint and a failure class: titled with the endpoint's
/// name, its body the class's headline followed by the endpoint's URL.
pub open spec fn alert_spec(e: EndpointModel, c: FailureClass) -> (Seq<char>, Seq<char>) {
    (e.name, headline_spec(c) + e.url)
}

/// Builds the alert for an endpoint and a failure class.
pub fn alert_for(e: &EndpointSpec, c: FailureClass) -> (r: Alert)
    ensures
        (r.title@, r.body@) == alert_spec(e@, c),
{
    let headline = match c {
        FailureClass::HostDown => "主機死掉了！！！！\n",
        FailureClass::ServiceDown => "服務死掉了！！！！\n",
    };
    let body = String::from_str(headline).concat(e.url.as_str());
    Alert { title: e.name.clone(), body }
}

/// The message given when an endpoint's URL does not parse.
pub open spec fn bad_url_message_spec(url: Seq<char>) -> Seq<char> {
    "Unable to parse \""@ + url + "\" as url."@
}

/// One HTTP request to send, with its timeout in seconds.
#[derive(Debug, Clone)]
pub struct ProbeRequest {
    pub method: HttpMethod,
    pub url: String,
    pub timeout_secs: u64,
}

/// What the program must do next for one prober.
#[derive(Debug, Clone)]
pub enum Command {
    /// Wait this many seconds, then report `Event::Woke`.
    Sleep(u64),
    /// Send the request, then report `Event::Finished` with its outcome.
    Send(ProbeRequest),
    /// Deliver the alert to the operator.
    Notify(Alert),
    /// Report the message and end the whole process with a failure status.
    Exit(String),
}

/// The mathematical value of a [`Command`].
pub ghost enum CommandModel {
    Sleep(u64),
    Send(HttpMethod, Seq<char>, u64),
    Notify(Seq<char>, Seq<char>),
    Exit(Seq<char>),
}

impl View for Command {
    type V = CommandModel;

    open spec fn view(&self) -> CommandModel {
        match self {
            Command::Sleep(s) => CommandModel::Sleep(*s),
            Command::Send(r) => CommandModel::Send(r.method, r.url@, r.timeout_secs),
            Command::Notify(a) => CommandModel::Notify(a.title@, a.body@),
            Command::Exit(m) => CommandModel::Exit(m@),
        }
    }
}

pub open spec fn commands_view(v: Seq<Command>) -> Seq<CommandModel> {
    v.map_values(|c: Command| c@)
}

/// What the program reports back to a prober.
#[derive(Debug, Clone, Copy, PartialEq, Eq, Structural)]
pub enum Event {
    /// The wait asked for has elapsed.
    Woke,
    /// The request asked for has ended so.
    Finished(ProbeOutcome),
}

/// Where a prober stands in its cycle.
#[derive(Debug, Clone, Copy, PartialEq, Eq, Structural)]
pub enum Phase {
    /// Waiting for the interval to elapse.
    Waiting,
    /// Waiting for the outcome of a request.
    Probing,
    /// Its endpoint's URL was found invalid; nothing more is done.
    Stopped,
}

/// The state of one endpoint's probe loop.
pub struct Prober {
    endpoint: EndpointSpec,
    interval: u64,
    phase: Phase,
}

/// The mathematical value of a [`Prober`].
pub ghost struct ProberModel {
    pub endpoint: EndpointModel,
    pub interval: u64,
    pub phase: Phase,
}

impl View for Prober {
    type V = ProberModel;

    closed spec fn view(&self) -> ProberModel {
        ProberModel { endpoint: self.endpoint@, interval: self.interval, phase: self.phase }
    }
}

/// The commands that follow a finished probe: the alert, if the outcome is a
/// failure, and then the next wait.
pub open spec fn after_probe_spec(p: ProberModel, o: ProbeOutcome) -> Seq<CommandModel> {
    match classify_spec(o) {
        Some(c) => {
            let a = alert_spec(p.endpoint, c);
            seq![CommandModel::Notify(a.0, a.1), CommandModel::Sleep(p.interval)]
        },
        None => seq![CommandModel::Sleep(p.interval)],
    }
}

/// The request that probes an endpoint.
pub open spec fn request_spec(e: EndpointModel) -> CommandModel {
    CommandModel::Send(e.method, e.url, PROBE_TIMEOUT_SECS as u64)
}

/// One step of a prober whose URL check gave `url_ok`: its next state and
/// the commands to perform, in order. An event that does not fit the phase
/// changes nothing.
pub open spec fn step_with_spec(p: ProberModel, e: Event, url_ok: bool) -> (ProberModel, Seq<CommandModel>) {
    match (p.phase, e) {
        (Phase::Waiting, Event::Woke) => if url_ok {
            (ProberModel { phase: Phase::Probing, ..p }, seq![request_spec(p.endpoint)])
        } else {
            (
                ProberModel { phase: Phase::Stopped, ..p },
                seq![CommandModel::Exit(bad_url_message_spec(p.endpoint.url))],
            )
        },
        (Phase::Probing, Event::Finished(o)) => (
            ProberModel { phase: Phase::Waiting, ..p },
            after_probe_spec(p, o),
        ),
        _ => (p, Seq::empty()),
    }
}

/// One step of a prober, with its URL checked by the URL parser.
pub open spec fn step_spec(p: ProberModel, e: Event) -> (ProberModel, Seq<CommandModel>) {
    step_with_spec(p, e, url_valid(p.endpoint.url))
}

impl Prober {
    /// A prober for an endpoint, waiting for its first interval to elapse.
    pub fn new(endpoint: EndpointSpec, interval: u64) -> (r: Prober)
        ensures
            r@ == (ProberModel { endpoint: endpoint@, interval, phase: Phase::Waiting }),
    {
        Prober { endpoint, interval, phase: Phase::Waiting }
    }

    pub fn endpoint(&self) -> (r: &EndpointSpec)
        ensures
            r@ == self@.endpoint,
    {
        &self.endpoint
    }

    pub fn interval(&self) -> (r: u64)
        ensures
            r == self@.interval,
    {
        self.interval
    }

    pub fn phase(&self) -> (r: Phase)
        ensures
            r == self@.phase,
    {
        self.phase
    }

    /// The command that starts the loop: the first wait.
    pub fn first_command(&self) -> (r: Command)
        ensures
            r@ == CommandModel::Sleep(self@.interval),
    {
        Command::Sleep(self.interval)
    }

    /// Takes one event, given whether the endpoint's URL parses, and returns
    /// the commands to perform in order.
    pub fn on_event_with(&mut self, e: Event, url_ok: bool) -> (r: Vec<Command>)
        ensures
            (final(self)@, commands_view(r@)) == step_with_spec(old(self)@, e, url_ok),
    {
        let ghost p = self@;
        match (self.phase, e) {
            (Phase::Waiting, Event::Woke) => {
                if url_ok {
                    self.phase = Phase::Probing;
                    let req = ProbeRequest {
                        method: self.endpoint.method,
                        url: self.endpoint.url.clone(),
                        timeout_secs: PROBE_TIMEOUT_SECS,
                    };
                    let r = vec![Command::Send(req)];
                    assert(commands_view(r@) =~= seq![request_spec(p.endpoint)]);
                    r
                } else {
                    self.phase = Phase::Stopped;
                    let msg = String::from_str("Unable to parse \"")
                        .concat(self.endpoint.url.as_str())
                        .concat("\" as url.");
                    let r = vec![Command::Exit(msg)];
                    assert(commands_view(r@) =~= seq![CommandModel::Exit(bad_url_message_spec(p.endpoint.url))]);
                    r
                }
            },
            (Phase::Probing, Event::Finished(o)) => {
                self.phase = Phase::Waiting;
                let r = match classify(o) {
                    Some(c) => vec![Command::Notify(alert_for(&self.endpoint, c)), Command::Sleep(self.interval)],
                    None => vec![Command::Sleep(self.interval)],
                };
                assert(commands_view(r@) =~= after_probe_spec(p, o));
                r
            },
            _ => {
                let r: Vec<Command> = Vec::new();
                assert(commands_view(r@) =~= Seq::<CommandModel>::empty());
                r
            },
        }
    }

    /// Takes one event and returns the commands to perform in order; on
    /// waking it checks the endpoint's URL with the URL parser. A URL that
    /// does not parse ends the whole process, as a sign that the catalog
    /// itself cannot be trusted.
    pub fn on_event(&mut self, e: Event) -> (r: Vec<Command>)
        ensures
            (final(self)@, commands_view(r@)) == step_spec(old(self)@, e),
    {
        let url_ok = match e {
            Event::Woke => parses_as_url(self.endpoint.url.as_str()),
            Event::Finished(_) => true,
        };
        self.on_event_with(e, url_ok)
    }
}

/// The state and the commands after a run of whole probe cycles (a wake, then
/// a request that ends with each outcome in turn).
pub open spec fn run_cycles(p: ProberModel, outcomes: Seq<ProbeOutcome>) -> (ProberModel, Seq<CommandModel>)
    decreases outcomes.len(),
{
    if outcomes.len() == 0 {
        (p, Seq::empty())
    } else {
        let (q, cs) = run_cycles(p, outcomes.drop_last());
        let (q1, c1) = step_spec(q, Event::Woke);
        let (q2, c2) = step_spec(q1, Event::Finished(outcomes.last()));
        (q2, cs + c1 + c2)
    }
}

/// The commands of a run of whole probe cycles, cycle after cycle: the
/// request, then what follows its outcome.
pub open spec fn cycle_commands(p: ProberModel, outcomes: Seq<ProbeOutcome>) -> Seq<CommandModel>
    decreases outcomes.len(),
{
    if outcomes.len() == 0 {
        Seq::empty()
    } else {
        cycle_commands(p, outcomes.drop_last()) + seq![request_spec(p.endpoint)]
            + after_probe_spec(p, outcomes.last())
    }
}

/// A waiting prober with a valid URL goes through whole cycles and is back
/// to waiting after each; every cycle sends one request and then performs
/// what its outcome calls for.
pub proof fn lemma_run_cycles(p: ProberModel, outcomes: Seq<ProbeOutcome>)
    requires
        p.phase == Phase::Waiting,
        url_valid(p.endpoint.url),
    ensures
        run_cycles(p, outcomes) == (p, cycle_commands(p, outcomes)),
    decreases outcomes.len(),
{
    if outcomes.len() > 0 {
        lemma_run_cycles(p, outcomes.drop_last());
    }
}

/// Probes that always receive a complete response never raise an alert:
/// each cycle is one request followed by the next wait.
pub proof fn lemma_complete_probes_never_alert(p: ProberModel, outcomes: Seq<ProbeOutcome>)
    requires
        p.phase == Phase::Waiting,
        url_valid(p.endpoint.url),
        forall|i: int| 0 <= i < outcomes.len() ==> (#[trigger] outcomes[i]) is Complete,
    ensures
        run_cycles(p, outcomes).0 == p,
        run_cycles(p, outcomes).1.len() == 2 * outcomes.len(),
        forall|k: int| 0 <= k < outcomes.len() ==> {
            &&& #[trigger] run_cycles(p, outcomes).1[2 * k] == request_spec(p.endpoint)
            &&& run_cycles(p, outcomes).1[2 * k + 1] == CommandModel::Sleep(p.interval)
        },
        forall|j: int| 0 <= j < run_cycles(p, outcomes).1.len() ==> !(#[trigger] run_cycles(p, outcomes).1[j] is Notify),
    decreases outcomes.len(),
{
    lemma_run_cycles(p, outcomes);
    if outcomes.len() > 0 {
        let init = outcomes.drop_last();
        lemma_complete_probes_never_alert(p, init);
        lemma_run_cycles(p, init);
        let cs = cycle_commands(p, outcomes);
        assert(init.len() == outcomes.len() - 1);
        assert(outcomes.last() == outcomes[outcomes.len() - 1]);
        assert forall|k: int| 0 <= k < outcomes.len() implies {
            &&& #[trigger] cs[2 * k] == request_spec(p.endpoint)
            &&& cs[2 * k + 1] == CommandModel::Sleep(p.interval)
        } by {
            if k < init.len() {
                assert(init[k] == outcomes[k]);
            }
        }
        assert forall|j: int| 0 <= j < cs.len() implies !(#[trigger] cs[j] is Notify) by {
            if j < 2 * init.len() {
                assert(run_cycles(p, init).1[j] == cs[j]);
            }
        }
    }
}

/// The commands of a run in which every cycle fails with the same class:
/// one request, one alert of that class, one wait, for each cycle.
pub open spec fn failing_cycle_command(p: ProberModel, c: FailureClass, j: int) -> CommandModel {
    if j % 3 == 0 {
        request_spec(p.endpoint)
    } else if j % 3 == 1 {
        CommandModel::Notify(alert_spec(p.endpoint, c).0, alert_spec(p.endpoint, c).1)
    } else {
        CommandModel::Sleep(p.interval)
    }
}

/// When every probe of a run fails alike, each cycle raises exactly one
/// alert of that class, with nothing suppressed or merged.
pub proof fn lemma_failing_probes_alert_each_cycle(
    p: ProberModel,
    outcomes: Seq<ProbeOutcome>,
    c: FailureClass,
)
    requires
        p.phase == Phase::Waiting,
        url_valid(p.endpoint.url),
        forall|i: int| 0 <= i < outcomes.len() ==> classify_spec(#[trigger] outcomes[i]) == Some(c),
    ensures
        run_cycles(p, outcomes).0 == p,
        run_cycles(p, outcomes).1 =~= Seq::new(
            (3 * outcomes.len()) as nat,
            |j: int| failing_cycle_command(p, c, j),
        ),
    decreases outcomes.len(),
{
    lemma_run_cycles(p, outcomes);
    if outcomes.len() > 0 {
        let init = outcomes.drop_last();
        assert forall|i: int| 0 <= i < init.len() implies classify_spec(#[trigger] init[i]) == Some(c) by {
            assert(init[i] == outcomes[i]);
        }
        lemma_failing_probes_alert_each_cycle(p, init, c);
        lemma_run_cycles(p, init);
        assert(classify_spec(outcomes[outcomes.len() - 1]) == Some(c));
        let n = init.len();
        assert forall|j: int| 3 * n <= j < 3 * n + 3 implies #[trigger] failing_cycle_command(p, c, j)
            == (seq![request_spec(p.endpoint)] + after_probe_spec(p, outcomes.last()))[j - 3 * n] by {
            assert(j % 3 == (j - 3 * n) % 3) by (nonlinear_arith)
                requires 3 * n <= j < 3 * n + 3;
        }
    }
}

/// A connection that is refused raises one host-down alert in every cycle.
pub proof fn lemma_unreachable_alerts_each_cycle(p: ProberModel, outcomes: Seq<ProbeOutcome>)
    requires
        p.phase == Phase::Waiting,
        url_valid(p.endpoint.url),
        forall|i: int| 0 <= i < outcomes.len() ==> (#[trigger] outcomes[i]) == ProbeOutcome::Unreachable,
    ensures
        run_cycles(p, outcomes).1 =~= Seq::new(
            (3 * outcomes.len()) as nat,
            |j: int| failing_cycle_command(p, FailureClass::HostDown, j),
        ),
{
    assert forall|i: int| 0 <= i < outcomes.len() implies classify_spec(#[trigger] outcomes[i])
        == Some(FailureClass::HostDown) by {}
    lemma_failing_probes_alert_each_cycle(p, outcomes, FailureClass::HostDown);
}

/// A body cut off mid-stream raises one service-down alert in every cycle.
pub proof fn lemma_incomplete_alerts_each_cycle(p: ProberModel, outcomes: Seq<ProbeOutcome>)
    requires
        p.phase == Phase::Waiting,
        url_valid(p.endpoint.url),
        forall|i: int| 0 <= i < outcomes.len() ==> (#[trigger] outcomes[i]) == ProbeOutcome::Incomplete,
    ensures
        run_cycles(p, outcomes).1 =~= Seq::new(
            (3 * outcomes.len()) as nat,
            |j: int| failing_cycle_command(p, FailureClass::ServiceDown, j),
        ),
{
    assert forall|i: int| 0 <= i < outcomes.len() implies classify_spec(#[trigger] outcomes[i])
        == Some(FailureClass::ServiceDown) by {}
    lemma_failing_probes_alert_each_cycle(p, outcomes, FailureClass::ServiceDown);
}

/// A host-down alert and a service-down alert for the same endpoint have
/// different bodies.
pub proof fn lemma_alert_classes_distinguishable(e: EndpointModel)
    ensures
        alert_spec(e, FailureClass::HostDown).1 != alert_spec(e, FailureClass::ServiceDown).1,
{
    reveal_strlit("主機死掉了！！！！\n");
    reveal_strlit("服務死掉了！！！！\n");
    assert(alert_spec(e, FailureClass::HostDown).1[1] != alert_spec(e, FailureClass::ServiceDown).1[1]);
}

/// A complete response raises no alert whatever its status code: the prober
/// only goes back to waiting.
pub proof fn lemma_status_code_ignored(p: ProberModel, status: u16)
    requires
        p.phase == Phase::Probing,
    ensures
        step_spec(p, Event::Finished(ProbeOutcome::Complete(status))) == (
            ProberModel { phase: Phase::Waiting, ..p },
            seq![CommandModel::Sleep(p.interval)],
        ),
{
}

} // verus!
