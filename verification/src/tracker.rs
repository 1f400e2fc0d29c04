//! Clone tracking: the event recorded when the repository is built from a
//! fresh clone, the log of such events, and the decisions around them.
use vstd::prelude::*;
use crate::paths::{join_path, spec_join_path};
use crate::text::{concat, str_eq};

verus! {

/// The machine a clone was built on.
#[derive(Debug, Clone)]
pub struct SystemInfo {
    pub os: String,
    pub arch: String,
}

/// The environment a clone was built in.
#[derive(Debug, Clone)]
pub struct EnvironmentInfo {
    pub ci_system: Option<String>,
    pub shell: Option<String>,
}

/// One recorded clone.
#[derive(Debug, Clone)]
pub struct CloneEvent {
    pub timestamp: String,
    pub repo: String,
    pub repo_url: String,
    pub system: SystemInfo,
    pub environment: EnvironmentInfo,
    pub clone_source: Option<String>,
}

/// Where tracked events go, and whether tracking announces itself.
#[derive(Debug, Clone)]
pub struct TrackerConfig {
    pub endpoint: Option<String>,
    /// Whether remote delivery is switched on; off by default, in which case
    /// nothing is sent even when an endpoint is configured.
    pub remote_enabled: bool,
    pub verbose: bool,
    pub repo_path: String,
}

impl Default for TrackerConfig {
    fn default() -> (r: Self)
        ensures
            r.endpoint is None,
            !r.remote_enabled,
            !r.verbose,
            r.repo_path@ == "."@,
    {
        TrackerConfig {
            endpoint: None,
            remote_enabled: false,
            verbose: false,
            repo_path: ".".to_owned(),
        }
    }
}

/// The continuous-integration services recognised, each by an environment
/// variable it sets, in the order they are checked.
pub open spec fn ci_services() -> Seq<(Seq<char>, Seq<char>)> {
    seq![
        ("GITHUB_ACTIONS"@, "github_actions"@),
        ("GITLAB_CI"@, "gitlab_ci"@),
        ("TRAVIS"@, "travis"@),
        ("CIRCLECI"@, "circleci"@),
        ("JENKINS_URL"@, "jenkins"@),
        ("DOCKER_BUILDKIT"@, "docker"@),
    ]
}

/// The first service, from position `k` of [`ci_services`] on, whose variable
/// is among `set_vars`.
pub open spec fn ci_service_from(set_vars: Seq<Seq<char>>, k: nat) -> Option<Seq<char>>
    decreases ci_services().len() - k,
{
    if k >= ci_services().len() {
        None
    } else if set_vars.contains(ci_services()[k as int].0) {
        Some(ci_services()[k as int].1)
    } else {
        ci_service_from(set_vars, k + 1)
    }
}

/// Each recognised CI service is detected from its own variable, and the
/// earliest in the order GitHub Actions, GitLab CI, Travis, CircleCI,
/// Jenkins, Docker wins when several are set; with none of the six set, no
/// service is detected.
pub proof fn law_ci_detection(set_vars: Seq<Seq<char>>)
    ensures
        set_vars.contains("GITHUB_ACTIONS"@) ==> ci_service_from(set_vars, 0) == Some(
            "github_actions"@,
        ),
        !set_vars.contains("GITHUB_ACTIONS"@) && set_vars.contains("GITLAB_CI"@) ==> ci_service_from(
            set_vars,
            0,
        ) == Some("gitlab_ci"@),
        !set_vars.contains("GITHUB_ACTIONS"@) && !set_vars.contains("GITLAB_CI"@)
            && set_vars.contains("TRAVIS"@) ==> ci_service_from(set_vars, 0) == Some("travis"@),
        !set_vars.contains("GITHUB_ACTIONS"@) && !set_vars.contains("GITLAB_CI"@)
            && !set_vars.contains("TRAVIS"@) && set_vars.contains("CIRCLECI"@) ==> ci_service_from(
            set_vars,
            0,
        ) == Some("circleci"@),
        !set_vars.contains("GITHUB_ACTIONS"@) && !set_vars.contains("GITLAB_CI"@)
            && !set_vars.contains("TRAVIS"@) && !set_vars.contains("CIRCLECI"@)
            && set_vars.contains("JENKINS_URL"@) ==> ci_service_from(set_vars, 0) == Some(
            "jenkins"@,
        ),
        !set_vars.contains("GITHUB_ACTIONS"@) && !set_vars.contains("GITLAB_CI"@)
            && !set_vars.contains("TRAVIS"@) && !set_vars.contains("CIRCLECI"@)
            && !set_vars.contains("JENKINS_URL"@) && set_vars.contains("DOCKER_BUILDKIT"@)
            ==> ci_service_from(set_vars, 0) == Some("docker"@),
        !set_vars.contains("GITHUB_ACTIONS"@) && !set_vars.contains("GITLAB_CI"@)
            && !set_vars.contains("TRAVIS"@) && !set_vars.contains("CIRCLECI"@)
            && !set_vars.contains("JENKINS_URL"@) && !set_vars.contains("DOCKER_BUILDKIT"@)
            ==> ci_service_from(set_vars, 0) is None,
{
    reveal_with_fuel(ci_service_from, 7);
}

fn ci_table() -> (r: Vec<(&'static str, &'static str)>)
    ensures
        r@.len() == ci_services().len(),
        forall|i: int|
            0 <= i < r@.len() ==> (#[trigger] r@[i]).0@ == ci_services()[i].0 && r@[i].1@
                == ci_services()[i].1,
{
    let r = vec![
        ("GITHUB_ACTIONS", "github_actions"),
        ("GITLAB_CI", "gitlab_ci"),
        ("TRAVIS", "travis"),
        ("CIRCLECI", "circleci"),
        ("JENKINS_URL", "jenkins"),
        ("DOCKER_BUILDKIT", "docker"),
    ];
    r
}

/// The environment variables that identify a CI service, in the order they are checked.
pub fn ci_variables() -> (r: Vec<String>)
    ensures
        r.deep_view().len() == ci_services().len(),
        forall|i: int| 0 <= i < r.deep_view().len() ==> r.deep_view()[i] == ci_services()[i].0,
{
    let table = ci_table();
    let mut r: Vec<String> = Vec::new();
    let mut i: usize = 0;
    while i < table.len()
        invariant
            table@.len() == ci_services().len(),
            forall|j: int|
                0 <= j < table@.len() ==> (#[trigger] table@[j]).0@ == ci_services()[j].0,
            i <= table@.len(),
            r@.len() == i,
            forall|j: int| 0 <= j < i ==> r@[j]@ == ci_services()[j].0,
        decreases table@.len() - i,
    {
        r.push(table[i].0.to_owned());
        i += 1;
    }
    assert forall|j: int| 0 <= j < r.deep_view().len() implies r.deep_view()[j]
        == ci_services()[j].0 by {
        assert(r.deep_view()[j] == r@[j]@);
    }
    r
}

fn contains_str(items: &Vec<String>, s: &str) -> (r: bool)
    ensures
        r == items.deep_view().contains(s@),
{
    let mut i: usize = 0;
    while i < items.len()
        invariant
            i <= items@.len(),
            forall|j: int| 0 <= j < i ==> items@[j]@ != s@,
        decreases items@.len() - i,
    {
        if str_eq(items[i].as_str(), s) {
            assert(items.deep_view()[i as int] == s@);
            return true;
        }
        i += 1;
    }
    assert forall|j: int| 0 <= j < items.deep_view().len() implies items.deep_view()[j] != s@ by {
        assert(items.deep_view()[j] == items@[j]@);
    }
    false
}

/// The CI service a build runs under, given the names of the environment
/// variables that are set: the first service of [`ci_services`] whose
/// variable is among them.
pub fn detect_ci_system(set_vars: &Vec<String>) -> (r: Option<String>)
    ensures
        r.deep_view() == ci_service_from(set_vars.deep_view(), 0),
{
    let table = ci_table();
    let mut i: usize = 0;
    while i < table.len()
        invariant
            table@.len() == ci_services().len(),
            forall|j: int|
                0 <= j < table@.len() ==> (#[trigger] table@[j]).0@ == ci_services()[j].0
                    && table@[j].1@ == ci_services()[j].1,
            i <= table@.len(),
            ci_service_from(set_vars.deep_view(), 0) == ci_service_from(set_vars.deep_view(), i as nat),
        decreases table@.len() - i,
    {
        let (var, service) = table[i];
        if contains_str(set_vars, var) {
            return Some(service.to_owned());
        }
        i += 1;
    }
    None
}

/// How the repository came to be here: through the CI service when there is
/// one, else as a git clone when a `.git` directory is present.
pub open spec fn spec_clone_source(ci_system: Option<Seq<char>>, git_dir_present: bool) -> Option<
    Seq<char>,
> {
    match ci_system {
        Some(ci) => Some("ci_"@ + ci),
        None => if git_dir_present {
            Some("git_clone"@)
        } else {
            None
        },
    }
}

/// A build under a CI service is recorded as coming from that service
/// (`"ci_"` and its name), whether or not a `.git` directory is present; a
/// build outside CI is a git clone exactly when `.git` is present, and has no
/// recorded source otherwise.
pub proof fn law_clone_source(ci_system: Option<Seq<char>>, git_dir_present: bool)
    ensures
        ci_system is Some ==> spec_clone_source(ci_system, git_dir_present) == Some(
            "ci_"@ + ci_system->0,
        ),
        ci_system is None && git_dir_present ==> spec_clone_source(ci_system, git_dir_present)
            == Some("git_clone"@),
        ci_system is None && !git_dir_present ==> spec_clone_source(ci_system, git_dir_present) is None,
{
}

/// The clone source of a build, from its environment and whether a `.git`
/// directory is present in the working directory.
pub fn detect_clone_source(env_info: &EnvironmentInfo, git_dir_present: bool) -> (r: Option<String>)
    ensures
        r.deep_view() == spec_clone_source(env_info.ci_system.deep_view(), git_dir_present),
{
    match &env_info.ci_system {
        Some(ci) => Some(concat("ci_", ci.as_str())),
        None => if git_dir_present {
            Some("git_clone".to_owned())
        } else {
            None
        },
    }
}

/// The event recorded at `timestamp` (the time of the build, as RFC 3339
/// text read from the clock by the caller) for this repository.
pub fn clone_event_at(
    timestamp: String,
    system: SystemInfo,
    environment: EnvironmentInfo,
    git_dir_present: bool,
) -> (r: CloneEvent)
    ensures
        r.timestamp == timestamp,
        r.repo@ == "RemeMnemosyne"@,
        r.repo_url@ == "https://github.com/jph-value/RemeMnemosyne"@,
        r.system == system,
        r.environment == environment,
        r.clone_source.deep_view() == spec_clone_source(
            environment.ci_system.deep_view(),
            git_dir_present,
        ),
{
    let clone_source = detect_clone_source(&environment, git_dir_present);
    CloneEvent {
        timestamp,
        repo: "RemeMnemosyne".to_owned(),
        repo_url: "https://github.com/jph-value/RemeMnemosyne".to_owned(),
        system,
        environment,
        clone_source,
    }
}

/// How many events the local log keeps.
pub const LOG_CAPACITY: usize = 100;

/// The log after `event` is added to `events`: the most recent
/// [`LOG_CAPACITY`] events, oldest first.
pub open spec fn spec_append_to_log(events: Seq<CloneEvent>, event: CloneEvent) -> Seq<CloneEvent> {
    let all = events.push(event);
    if all.len() > LOG_CAPACITY {
        all.subrange(all.len() - LOG_CAPACITY, all.len() as int)
    } else {
        all
    }
}

/// Adds `event` to the log `events`, dropping the oldest entries beyond
/// [`LOG_CAPACITY`].
pub fn append_to_log(events: Vec<CloneEvent>, event: CloneEvent) -> (r: Vec<CloneEvent>)
    ensures
        r@ == spec_append_to_log(events@, event),
{
    let mut events = events;
    events.push(event);
    let n = events.len();
    if n > LOG_CAPACITY {
        events.split_off(n - LOG_CAPACITY)
    } else {
        events
    }
}

/// The log never holds more than [`LOG_CAPACITY`] events; the newest is the
/// one just added; the older ones keep their order, and none is dropped while
/// the log has room.
pub proof fn law_log_keeps_latest(events: Seq<CloneEvent>, event: CloneEvent)
    ensures
        spec_append_to_log(events, event).len() <= LOG_CAPACITY,
        spec_append_to_log(events, event).last() == event,
        events.len() < LOG_CAPACITY ==> spec_append_to_log(events, event) == events.push(event),
        ({
            let all = events.push(event);
            let kept = spec_append_to_log(events, event);
            kept =~= all.subrange(all.len() - kept.len(), all.len() as int)
        }),
{
    let all = events.push(event);
    if all.len() > LOG_CAPACITY {
        assert(spec_append_to_log(events, event).last() == all.last());
    } else {
        assert(all.subrange(0, all.len() as int) =~= all);
    }
}

/// The directory tracking files live in: `$HOME`, or the working directory.
pub open spec fn tracking_dir(home: Option<Seq<char>>) -> Seq<char> {
    match home {
        Some(h) => h,
        None => "."@,
    }
}

fn tracking_dir_str(home: Option<&str>) -> (r: &str)
    ensures
        r@ == tracking_dir(
            match home {
                Some(h) => Some(h@),
                None => None,
            },
        ),
{
    match home {
        Some(h) => h,
        None => ".",
    }
}

/// The files whose presence turns tracking off: one in the home directory
/// (or the working directory when `$HOME` is unset), one in the working directory.
pub fn opt_out_markers(home: Option<&str>) -> (r: Vec<String>)
    ensures
        r.deep_view() == seq![
            spec_join_path(
                tracking_dir(
                    match home {
                        Some(h) => Some(h@),
                        None => None,
                    },
                ),
                ".no_rememnemosyne_tracking"@,
            ),
            ".no_tracking"@,
        ],
{
    let dir = tracking_dir_str(home);
    let mut r: Vec<String> = Vec::new();
    r.push(join_path(dir, ".no_rememnemosyne_tracking"));
    r.push(".no_tracking".to_owned());
    assert(r.deep_view() =~= seq![
        spec_join_path(dir@, ".no_rememnemosyne_tracking"@),
        ".no_tracking"@,
    ]);
    r
}

/// The file the local event log is kept in.
pub fn tracking_log_path(home: Option<&str>) -> (r: String)
    ensures
        r@ == spec_join_path(
            tracking_dir(
                match home {
                    Some(h) => Some(h@),
                    None => None,
                },
            ),
            ".rememnemosyne_tracking"@,
        ),
{
    join_path(tracking_dir_str(home), ".rememnemosyne_tracking")
}

/// How long a remote delivery may take, in seconds.
pub const REMOTE_TIMEOUT_SECS: u64 = 2;

/// A delivery of a tracked event: a JSON `POST` of the event to `endpoint`,
/// given up after `timeout_secs` seconds.
#[derive(Debug, Clone)]
pub struct RemoteDelivery {
    pub endpoint: String,
    pub timeout_secs: u64,
}

/// The delivery of a tracked event to `endpoint`: none unless remote
/// delivery is switched on, otherwise a JSON `POST` with the fixed timeout.
pub fn send_remote(endpoint: &str, remote_enabled: bool) -> (r: Option<RemoteDelivery>)
    ensures
        match r {
            Some(d) => remote_enabled && d.endpoint@ == endpoint@ && d.timeout_secs
                == REMOTE_TIMEOUT_SECS,
            None => !remote_enabled,
        },
{
    if remote_enabled {
        Some(RemoteDelivery { endpoint: endpoint.to_owned(), timeout_secs: REMOTE_TIMEOUT_SECS })
    } else {
        None
    }
}

/// What one tracking run does.
#[derive(Debug, Clone)]
pub struct TrackingPlan {
    /// Build the event and add it to the local log.
    pub record: bool,
    /// Deliver the event to a remote endpoint.
    pub remote: Option<RemoteDelivery>,
    /// Report on standard error that the clone was tracked.
    pub announce: bool,
}

/// The actions of a tracking run: none when tracking is opted out; otherwise
/// record the event, deliver it to the configured endpoint when there is one
/// and remote delivery is switched on, and announce it when verbose.
pub fn plan_tracking(config: &TrackerConfig, opted_out: bool) -> (r: TrackingPlan)
    ensures
        r.record == !opted_out,
        match r.remote {
            Some(d) => !opted_out && config.remote_enabled && config.endpoint.deep_view() == Some(
                d.endpoint@,
            ) && d.timeout_secs == REMOTE_TIMEOUT_SECS,
            None => opted_out || !config.remote_enabled || config.endpoint is None,
        },
        r.announce == (!opted_out && config.verbose),
{
    if opted_out {
        return TrackingPlan { record: false, remote: None, announce: false };
    }
    let remote = match &config.endpoint {
        Some(e) => send_remote(e.as_str(), config.remote_enabled),
        None => None,
    };
    TrackingPlan { record: true, remote, announce: config.verbose }
}

} // verus!
