//! Flattened view models.
//!
//! The Docker API's response types are optional all the way down. Resolving all
//! that once, at the edge, keeps the UI code free of it.

use vstd::prelude::*;

use crate::order::{
    by_text, is_sorted, key_le, number_key, sort_by_keys, sort_texts, sorted_by,
    sorting_keeps_members, sorting_maps, sorting_orders, KeyView, SortKey,
};
use crate::text::{
    after_last, cat3, cat5, chars_of, copy_texts, dec, decimal, find_last, has_char, join,
    joined, owned, put, same, string_between,
};
use crate::util::format::{short, short_id};

verus! {

broadcast use vstd::string::group_string_axioms;

// ---------------------------------------------------------------------------
// Containers
// ---------------------------------------------------------------------------

/// What a container is doing.
#[derive(Debug, Clone, Copy, PartialEq, Eq, Structural)]
pub enum State {
    Running,
    Restarting,
    Paused,
    Created,
    Stopping,
    Removing,
    Exited,
    Dead,
    Unknown,
}

/// The state the daemon means by a name.
pub open spec fn state_named(name: Option<Seq<char>>) -> State {
    match name {
        None => State::Unknown,
        Some(s) => if s == "running"@ {
            State::Running
        } else if s == "restarting"@ {
            State::Restarting
        } else if s == "paused"@ {
            State::Paused
        } else if s == "created"@ {
            State::Created
        } else if s == "stopping"@ {
            State::Stopping
        } else if s == "removing"@ {
            State::Removing
        } else if s == "exited"@ {
            State::Exited
        } else if s == "dead"@ {
            State::Dead
        } else {
            State::Unknown
        },
    }
}

impl State {
    /// The state the daemon means by a name.
    pub fn from_api(state: &Option<String>) -> (out: State)
        ensures
            out == state_named(state.deep_view()),
    {
        match state {
            None => State::Unknown,
            Some(s) => if same(s, "running") {
                State::Running
            } else if same(s, "restarting") {
                State::Restarting
            } else if same(s, "paused") {
                State::Paused
            } else if same(s, "created") {
                State::Created
            } else if same(s, "stopping") {
                State::Stopping
            } else if same(s, "removing") {
                State::Removing
            } else if same(s, "exited") {
                State::Exited
            } else if same(s, "dead") {
                State::Dead
            } else {
                State::Unknown
            },
        }
    }

    /// The word for a state.
    pub open spec fn label_text(self) -> Seq<char> {
        match self {
            State::Running => "running"@,
            State::Restarting => "restarting"@,
            State::Paused => "paused"@,
            State::Created => "created"@,
            State::Stopping => "stopping"@,
            State::Removing => "removing"@,
            State::Exited => "exited"@,
            State::Dead => "dead"@,
            State::Unknown => "unknown"@,
        }
    }

    /// The word for a state.
    pub fn label(self) -> (out: &'static str)
        ensures
            out@ == self.label_text(),
    {
        match self {
            State::Running => "running",
            State::Restarting => "restarting",
            State::Paused => "paused",
            State::Created => "created",
            State::Stopping => "stopping",
            State::Removing => "removing",
            State::Exited => "exited",
            State::Dead => "dead",
            State::Unknown => "unknown",
        }
    }

    /// Whether the container's processes are up.
    pub open spec fn running(self) -> bool {
        self == State::Running || self == State::Restarting
    }

    /// Whether the container's processes are up.
    pub fn is_running(self) -> (out: bool)
        ensures
            out == self.running(),
    {
        matches!(self, State::Running | State::Restarting)
    }

    /// Whether there is something to stop.
    pub open spec fn live(self) -> bool {
        self == State::Running || self == State::Restarting || self == State::Paused || self
            == State::Stopping
    }

    /// Running-ish states can be stopped; everything else can be started.
    pub fn is_live(self) -> (out: bool)
        ensures
            out == self.live(),
    {
        matches!(self, State::Running | State::Restarting | State::Paused | State::Stopping)
    }

    /// Where a state comes when containers are sorted by it.
    pub open spec fn rank(self) -> int {
        match self {
            State::Running => 0,
            State::Restarting => 1,
            State::Paused => 2,
            State::Created => 3,
            State::Stopping => 4,
            State::Removing => 5,
            State::Exited => 6,
            State::Dead => 7,
            State::Unknown => 8,
        }
    }

    /// Where a state comes when containers are sorted by it.
    pub fn order(self) -> (out: i128)
        ensures
            out == self.rank(),
    {
        match self {
            State::Running => 0,
            State::Restarting => 1,
            State::Paused => 2,
            State::Created => 3,
            State::Stopping => 4,
            State::Removing => 5,
            State::Exited => 6,
            State::Dead => 7,
            State::Unknown => 8,
        }
    }
}

/// What a container's health check says.
#[derive(Debug, Clone, Copy, PartialEq, Eq, Structural)]
pub enum Health {
    Absent,
    Starting,
    Healthy,
    Unhealthy,
}

/// The health the daemon means by a name.
pub open spec fn health_named(name: Option<Seq<char>>) -> Health {
    match name {
        None => Health::Absent,
        Some(s) => if s == "starting"@ {
            Health::Starting
        } else if s == "healthy"@ {
            Health::Healthy
        } else if s == "unhealthy"@ {
            Health::Unhealthy
        } else {
            Health::Absent
        },
    }
}

impl Health {
    /// The health the daemon means by a name.
    pub fn from_api(status: &Option<String>) -> (out: Health)
        ensures
            out == health_named(status.deep_view()),
    {
        match status {
            None => Health::Absent,
            Some(s) => if same(s, "starting") {
                Health::Starting
            } else if same(s, "healthy") {
                Health::Healthy
            } else if same(s, "unhealthy") {
                Health::Unhealthy
            } else {
                Health::Absent
            },
        }
    }
}

/// A container port and, when published, the host port in front of it.
#[derive(Debug, Clone)]
pub struct PortBinding {
    pub ip: Option<String>,
    pub public: Option<u16>,
    pub private: u16,
    pub proto: String,
}

/// The mathematical value of a [`PortBinding`].
#[verifier::ext_equal]
pub struct PortView {
    pub ip: Option<Seq<char>>,
    pub public: Option<u16>,
    pub private: u16,
    pub proto: Seq<char>,
}

impl DeepView for PortBinding {
    type V = PortView;

    open spec fn deep_view(&self) -> PortView {
        PortView {
            ip: self.ip.deep_view(),
            public: self.public,
            private: self.private,
            proto: self.proto@,
        }
    }
}

/// `80/tcp`, with the host side and an arrow in front when the port is published.
/// The wildcard addresses are noise and stay unsaid.
pub open spec fn port_text_with(p: PortView, arrow: Seq<char>) -> Seq<char> {
    let inside = dec(p.private as nat) + "/"@ + p.proto;
    match p.public {
        None => inside,
        Some(host) => {
            let front = dec(host as nat) + arrow + inside;
            match p.ip {
                Some(ip) => if ip == "::"@ || ip == "0.0.0.0"@ {
                    front
                } else {
                    ip + ":"@ + front
                },
                None => front,
            }
        },
    }
}

/// `80/tcp`, with the host side in front when the port is published.
pub open spec fn port_text(p: PortView) -> Seq<char> {
    port_text_with(p, "→"@)
}

impl PortBinding {
    /// `80/tcp`, with the host side in front when the port is published.
    pub fn display(&self) -> (out: String)
        ensures
            out@ == port_text(self.deep_view()),
    {
        self.display_with("→")
    }

    /// The same with an arrow of the caller's choice.
    pub fn display_with(&self, arrow: &str) -> (out: String)
        ensures
            out@ == port_text_with(self.deep_view(), arrow@),
    {
        let inside = cat3(&decimal(self.private as u64), "/", &self.proto);
        match self.public {
            None => inside,
            Some(host) => {
                let front = cat3(&decimal(host as u64), arrow, &inside);
                match &self.ip {
                    // The v6 wildcard is noise; collapse it like the CLI does.
                    Some(ip) => if same(ip, "::") || same(ip, "0.0.0.0") {
                        front
                    } else {
                        cat3(ip, ":", &front)
                    },
                    None => front,
                }
            },
        }
    }
}

/// One container, as the UI lists it.
#[derive(Debug, Clone)]
pub struct ContainerRow {
    pub id: String,
    pub name: String,
    pub image: String,
    pub image_id: String,
    pub command: String,
    pub state: State,
    pub health: Health,
    /// Docker's own free-text status, e.g. `Up 2 days (healthy)`.
    pub status: String,
    pub created: i64,
    pub ports: Vec<PortBinding>,
    pub networks: Vec<String>,
    pub mounts: Vec<String>,
    /// The compose project or swarm stack the container belongs to.
    pub stack: Option<String>,
    /// The compose service it runs.
    pub service: Option<String>,
}

/// The mathematical value of a [`ContainerRow`].
#[verifier::ext_equal]
pub struct ContainerView {
    pub id: Seq<char>,
    pub name: Seq<char>,
    pub image: Seq<char>,
    pub image_id: Seq<char>,
    pub command: Seq<char>,
    pub state: State,
    pub health: Health,
    pub status: Seq<char>,
    pub created: i64,
    pub ports: Seq<PortView>,
    pub networks: Seq<Seq<char>>,
    pub mounts: Seq<Seq<char>>,
    pub stack: Option<Seq<char>>,
    pub service: Option<Seq<char>>,
}

impl DeepView for ContainerRow {
    type V = ContainerView;

    open spec fn deep_view(&self) -> ContainerView {
        ContainerView {
            id: self.id@,
            name: self.name@,
            image: self.image@,
            image_id: self.image_id@,
            command: self.command@,
            state: self.state,
            health: self.health,
            status: self.status@,
            created: self.created,
            ports: self.ports.deep_view(),
            networks: self.networks.deep_view(),
            mounts: self.mounts.deep_view(),
            stack: self.stack.deep_view(),
            service: self.service.deep_view(),
        }
    }
}

/// A port as the daemon lists it.
#[derive(Debug, Clone)]
pub struct PortSummary {
    pub ip: Option<String>,
    pub public_port: Option<u16>,
    pub private_port: u16,
    pub typ: Option<String>,
}

/// A mount as the daemon lists it.
#[derive(Debug, Clone)]
pub struct MountPoint {
    pub name: Option<String>,
    pub source: Option<String>,
}

/// A container as the daemon lists it: everything may be missing.
#[derive(Debug, Clone)]
pub struct ContainerSummary {
    pub id: Option<String>,
    pub names: Option<Vec<String>>,
    pub image: Option<String>,
    pub image_id: Option<String>,
    pub command: Option<String>,
    pub created: Option<i64>,
    pub ports: Option<Vec<PortSummary>>,
    pub labels: Vec<(String, String)>,
    pub state: Option<String>,
    pub status: Option<String>,
    pub health: Option<String>,
    /// The names of the networks the container is attached to, in any order.
    pub networks: Vec<String>,
    pub mounts: Option<Vec<MountPoint>>,
}

/// The text, or nothing where there is none.
pub open spec fn or_empty(s: Option<Seq<char>>) -> Seq<char> {
    match s {
        Some(t) => t,
        None => Seq::empty(),
    }
}

/// The text, or nothing where there is none.
pub fn unwrap_text(s: Option<String>) -> (out: String)
    ensures
        out@ == or_empty(s.deep_view()),
{
    match s {
        Some(t) => t,
        None => {
            let out = String::new();
            assert(out@ =~= Seq::<char>::empty());
            out
        },
    }
}

/// The value of the first of `labels` called `key`.
pub open spec fn label_of(labels: Seq<(Seq<char>, Seq<char>)>, key: Seq<char>) -> Option<Seq<char>>
    decreases labels.len(),
{
    if labels.len() == 0 {
        None
    } else if labels[0].0 == key {
        Some(labels[0].1)
    } else {
        label_of(labels.drop_first(), key)
    }
}

fn label(labels: &Vec<(String, String)>, key: &str) -> (out: Option<String>)
    ensures
        out.deep_view() == label_of(labels.deep_view(), key@),
{
    let ghost all = labels.deep_view();
    let mut i: usize = 0;
    assert(all.skip(0) =~= all);
    while i < labels.len()
        invariant
            i <= labels.len(),
            all == labels.deep_view(),
            label_of(all, key@) == label_of(all.skip(i as int), key@),
        decreases labels.len() - i,
    {
        assert(all.skip(i as int)[0] == (labels@[i as int].0@, labels@[i as int].1@));
        assert(all.skip(i as int).drop_first() =~= all.skip(i + 1));
        if same(&labels[i].0, key) {
            return Some(owned(&labels[i].1));
        }
        i += 1;
    }
    None
}

/// The stack that labels place a container in: its compose project, or else
/// the namespace `docker stack deploy` writes.
pub open spec fn stack_of(labels: Seq<(Seq<char>, Seq<char>)>) -> Option<Seq<char>> {
    match label_of(labels, "com.docker.compose.project"@) {
        Some(p) => Some(p),
        None => label_of(labels, "com.docker.stack.namespace"@),
    }
}

/// `name` without the slashes the daemon puts in front.
pub open spec fn without_slashes(name: Seq<char>) -> Seq<char>
    decreases name.len(),
{
    if name.len() > 0 && name[0] == '/' {
        without_slashes(name.drop_first())
    } else {
        name
    }
}

fn strip_slashes(name: &str) -> (out: String)
    ensures
        out@ == without_slashes(name@),
{
    let v = chars_of(name);
    let mut i: usize = 0;
    assert(v@.skip(0) =~= v@);
    while i < v.len() && v[i] == '/'
        invariant
            i <= v.len(),
            without_slashes(v@) == without_slashes(v@.skip(i as int)),
        decreases v.len() - i,
    {
        assert(v@.skip(i as int).drop_first() =~= v@.skip(i + 1));
        i += 1;
    }
    assert(v@.skip(i as int) =~= v@.subrange(i as int, v@.len() as int));
    string_between(&v, i, v.len())
}

/// The name a container goes by.
pub open spec fn display_name(names: Option<Seq<Seq<char>>>) -> Seq<char> {
    match names {
        Some(all) => if all.len() > 0 {
            without_slashes(all[0])
        } else {
            "<unnamed>"@
        },
        None => "<unnamed>"@,
    }
}

/// The mathematical value of a [`PortSummary`].
#[verifier::ext_equal]
pub struct PortSummaryView {
    pub ip: Option<Seq<char>>,
    pub public_port: Option<u16>,
    pub private_port: u16,
    pub typ: Option<Seq<char>>,
}

impl DeepView for PortSummary {
    type V = PortSummaryView;

    open spec fn deep_view(&self) -> PortSummaryView {
        PortSummaryView {
            ip: self.ip.deep_view(),
            public_port: self.public_port,
            private_port: self.private_port,
            typ: self.typ.deep_view(),
        }
    }
}

/// The mathematical value of a [`MountPoint`].
#[verifier::ext_equal]
pub struct MountView {
    pub name: Option<Seq<char>>,
    pub source: Option<Seq<char>>,
}

impl DeepView for MountPoint {
    type V = MountView;

    open spec fn deep_view(&self) -> MountView {
        MountView { name: self.name.deep_view(), source: self.source.deep_view() }
    }
}

/// The mathematical value of a [`ContainerSummary`].
#[verifier::ext_equal]
pub struct ContainerSummaryView {
    pub id: Option<Seq<char>>,
    pub names: Option<Seq<Seq<char>>>,
    pub image: Option<Seq<char>>,
    pub image_id: Option<Seq<char>>,
    pub command: Option<Seq<char>>,
    pub created: Option<i64>,
    pub ports: Option<Seq<PortSummaryView>>,
    pub labels: Seq<(Seq<char>, Seq<char>)>,
    pub state: Option<Seq<char>>,
    pub status: Option<Seq<char>>,
    pub health: Option<Seq<char>>,
    pub networks: Seq<Seq<char>>,
    pub mounts: Option<Seq<MountView>>,
}

impl DeepView for ContainerSummary {
    type V = ContainerSummaryView;

    open spec fn deep_view(&self) -> ContainerSummaryView {
        ContainerSummaryView {
            id: self.id.deep_view(),
            names: self.names.deep_view(),
            image: self.image.deep_view(),
            image_id: self.image_id.deep_view(),
            command: self.command.deep_view(),
            created: self.created,
            ports: self.ports.deep_view(),
            labels: self.labels.deep_view(),
            state: self.state.deep_view(),
            status: self.status.deep_view(),
            health: self.health.deep_view(),
            networks: self.networks.deep_view(),
            mounts: self.mounts.deep_view(),
        }
    }
}

/// A listed port as a binding; the protocol is TCP unless it says otherwise.
pub open spec fn port_from(p: PortSummaryView) -> PortView {
    PortView {
        ip: p.ip,
        public: p.public_port,
        private: p.private_port,
        proto: match p.typ {
            Some(t) => t,
            None => "tcp"@,
        },
    }
}

/// Host port first, then container port; unpublished ports lead.
pub open spec fn by_port() -> spec_fn(PortView) -> KeyView {
    |p: PortView|
        number_key(
            (match p.public {
                Some(n) => n as int,
                None => 0,
            }) * 0x1_0000 + p.private,
        )
}

/// Two bindings that differ in the host address at most.
pub open spec fn same_port(a: PortView, b: PortView) -> bool {
    a.public == b.public && a.private == b.private && a.proto == b.proto
}

/// Whether a binding for the same port is among `ports`.
pub open spec fn lists_port(ports: Seq<PortView>, p: PortView) -> bool {
    exists|i: int| 0 <= i < ports.len() && same_port(#[trigger] ports[i], p)
}

/// `ports` with the bindings for the same port cut down to the first.
pub open spec fn without_repeats(ports: Seq<PortView>) -> Seq<PortView>
    decreases ports.len(),
{
    if ports.len() == 0 {
        ports
    } else {
        let kept = without_repeats(ports.drop_last());
        if lists_port(kept, ports.last()) {
            kept
        } else {
            kept.push(ports.last())
        }
    }
}

/// The bindings to list for a container's ports. Docker reports one entry per
/// host IP family; the duplicates are collapsed.
pub open spec fn ports_from(ports: Seq<PortSummaryView>) -> Seq<PortView> {
    without_repeats(sorted_by(ports.map_values(|p: PortSummaryView| port_from(p)), by_port()))
}

/// What to call each mount, leaving out the nameless.
pub open spec fn mounts_from(mounts: Seq<MountView>) -> Seq<Seq<char>>
    decreases mounts.len(),
{
    if mounts.len() == 0 {
        Seq::empty()
    } else {
        let kept = mounts_from(mounts.drop_last());
        let name = or_empty(
            match mounts.last().name {
                Some(n) => Some(n),
                None => mounts.last().source,
            },
        );
        if name.len() > 0 {
            kept.push(name)
        } else {
            kept
        }
    }
}

/// A listed container as a row.
pub open spec fn container_from(c: ContainerSummaryView) -> ContainerView {
    ContainerView {
        id: or_empty(c.id),
        name: display_name(c.names),
        image: or_empty(c.image),
        image_id: or_empty(c.image_id),
        command: or_empty(c.command),
        state: state_named(c.state),
        health: health_named(c.health),
        status: or_empty(c.status),
        created: match c.created {
            Some(t) => t,
            None => 0,
        },
        ports: match c.ports {
            Some(p) => ports_from(p),
            None => Seq::empty(),
        },
        networks: sorted_by(c.networks, by_text()),
        mounts: match c.mounts {
            Some(m) => mounts_from(m),
            None => Seq::empty(),
        },
        stack: stack_of(c.labels),
        service: label_of(c.labels, "com.docker.compose.service"@),
    }
}

fn port_listed(ports: &Vec<PortBinding>, p: &PortBinding) -> (out: bool)
    ensures
        out == lists_port(ports.deep_view(), p.deep_view()),
{
    let ghost all = ports.deep_view();
    let mut i: usize = 0;
    while i < ports.len()
        invariant
            i <= ports.len(),
            all == ports.deep_view(),
            all.len() == ports.len(),
            forall|k: int| 0 <= k < i ==> !same_port(#[trigger] all[k], p.deep_view()),
        decreases ports.len() - i,
    {
        let q = &ports[i];
        assert(all[i as int] == q.deep_view());
        if q.public == p.public && q.private == p.private && same(&q.proto, &p.proto) {
            assert(same_port(all[i as int], p.deep_view()));
            return true;
        }
        i += 1;
    }
    false
}

fn bindings(listed: Vec<PortSummary>) -> (out: Vec<PortBinding>)
    ensures
        out.deep_view() == ports_from(listed.deep_view()),
{
    let ghost all = listed.deep_view();
    let ghost from = |p: PortSummaryView| port_from(p);
    let ghost view = |p: PortBinding| p.deep_view();
    let ghost key = |p: PortBinding| by_port()(p.deep_view());
    let mut listed = listed;
    let mut made: Vec<PortBinding> = Vec::new();
    let mut keys: Vec<SortKey> = Vec::new();
    let ghost mut n: int = 0;
    assert(listed.deep_view() =~= all.skip(0));
    assert(made.deep_view() =~= all.take(0).map_values(from));
    while listed.len() > 0
        invariant
            0 <= n,
            n + listed.len() == all.len(),
            listed.deep_view() == all.skip(n),
            from == (|p: PortSummaryView| port_from(p)),
            key == (|p: PortBinding| by_port()(p.deep_view())),
            made.deep_view() == all.take(n).map_values(from),
            made.len() == n,
            keys.len() == n,
            forall|k: int| 0 <= k < n ==> #[trigger] keys@[k]@ == key(made@[k]),
        decreases listed.len(),
    {
        let ghost before = listed.deep_view();
        let p = listed.remove(0);
        assert(before[0] == p.deep_view());
        assert(listed.deep_view() =~= before.drop_first());
        assert(all.skip(n).drop_first() =~= all.skip(n + 1));
        let proto = match p.typ {
            Some(t) => t,
            None => owned("tcp"),
        };
        let host: u16 = match p.public_port {
            Some(h) => h,
            None => 0,
        };
        keys.push(SortKey::number(host as i128 * 0x1_0000 + p.private_port as i128));
        let made_port = PortBinding {
            ip: p.ip,
            public: p.public_port,
            private: p.private_port,
            proto,
        };
        assert(made_port.deep_view() == port_from(all[n]));
        put(&mut made, made_port);
        assert(all.take(n + 1).map_values(from) =~= all.take(n).map_values(from).push(
            port_from(all[n]),
        ));
        proof {
            n = n + 1;
        }
    }
    assert(all.take(n) =~= all);
    proof {
        sorting_maps(made@, view, key, by_port());
        assert(made.deep_view() =~= made@.map_values(view));
    }
    let mut sorted = sort_by_keys(made, keys, Ghost(key));
    assert(sorted.deep_view() =~= sorted@.map_values(view));
    let ghost whole = sorted.deep_view();
    let mut out: Vec<PortBinding> = Vec::new();
    let ghost mut k: int = 0;
    assert(sorted.deep_view() =~= whole.skip(0));
    assert(out.deep_view() =~= without_repeats(whole.take(0)));
    while sorted.len() > 0
        invariant
            0 <= k,
            k + sorted.len() == whole.len(),
            sorted.deep_view() == whole.skip(k),
            out.deep_view() == without_repeats(whole.take(k)),
        decreases sorted.len(),
    {
        let ghost before = sorted.deep_view();
        let p = sorted.remove(0);
        assert(before[0] == p.deep_view());
        assert(sorted.deep_view() =~= before.drop_first());
        assert(whole.skip(k).drop_first() =~= whole.skip(k + 1));
        assert(whole.take(k + 1).drop_last() =~= whole.take(k));
        assert(whole.take(k + 1).last() == p.deep_view());
        if !port_listed(&out, &p) {
            put(&mut out, p);
        }
        proof {
            k = k + 1;
        }
    }
    assert(whole.take(k) =~= whole);
    out
}

fn mount_names(mounts: Vec<MountPoint>) -> (out: Vec<String>)
    ensures
        out.deep_view() == mounts_from(mounts.deep_view()),
{
    let ghost all = mounts.deep_view();
    let mut mounts = mounts;
    let mut out: Vec<String> = Vec::new();
    let ghost mut k: int = 0;
    assert(mounts.deep_view() =~= all.skip(0));
    assert(out.deep_view() =~= mounts_from(all.take(0)));
    while mounts.len() > 0
        invariant
            0 <= k,
            k + mounts.len() == all.len(),
            mounts.deep_view() == all.skip(k),
            out.deep_view() == mounts_from(all.take(k)),
        decreases mounts.len(),
    {
        let ghost before = mounts.deep_view();
        let m = mounts.remove(0);
        assert(before[0] == m.deep_view());
        assert(mounts.deep_view() =~= before.drop_first());
        assert(all.skip(k).drop_first() =~= all.skip(k + 1));
        assert(all.take(k + 1).drop_last() =~= all.take(k));
        assert(all.take(k + 1).last() == m.deep_view());
        let name = unwrap_text(
            match m.name {
                Some(n) => Some(n),
                None => m.source,
            },
        );
        if chars_of(&name).len() > 0 {
            put(&mut out, name);
        }
        proof {
            k = k + 1;
        }
    }
    assert(all.take(k) =~= all);
    out
}

/// Everything the fuzzy filter should be able to see of a container: its name,
/// its image, its id, and the stack it belongs to.
pub open spec fn container_key(c: ContainerView) -> Seq<char> {
    let own = c.name + " "@ + c.image + " "@ + short(c.id);
    match c.stack {
        Some(stack) => own + " "@ + stack,
        None => own,
    }
}

/// The ports of a container, as one piece of text.
pub open spec fn ports_text_with(ports: Seq<PortView>, arrow: Seq<char>) -> Seq<char> {
    if ports.len() == 0 {
        "-"@
    } else {
        join(ports.map_values(|p: PortView| port_text_with(p, arrow)), ", "@)
    }
}

/// The ports of a container, as one piece of text.
pub open spec fn ports_text(ports: Seq<PortView>) -> Seq<char> {
    ports_text_with(ports, "→"@)
}

/// What to call a container under its stack's header.
pub open spec fn service_text(c: ContainerView) -> Seq<char> {
    match c.service {
        Some(s) => s,
        None => c.name,
    }
}

impl ContainerRow {
    /// A listed container as a row.
    pub fn from_api(c: ContainerSummary) -> (out: ContainerRow)
        ensures
            out.deep_view() == container_from(c.deep_view()),
    {
        let ghost cv = c.deep_view();
        let stack = match label(&c.labels, "com.docker.compose.project") {
            Some(p) => Some(p),
            None => label(&c.labels, "com.docker.stack.namespace"),
        };
        let service = label(&c.labels, "com.docker.compose.service");
        let name = match &c.names {
            Some(all) => if all.len() > 0 {
                assert(cv.names->0[0] == all@[0]@);
                strip_slashes(&all[0])
            } else {
                owned("<unnamed>")
            },
            None => owned("<unnamed>"),
        };
        let state = State::from_api(&c.state);
        let health = Health::from_api(&c.health);
        let ports = match c.ports {
            Some(p) => bindings(p),
            None => {
                let none: Vec<PortBinding> = Vec::new();
                assert(none.deep_view() =~= Seq::<PortView>::empty());
                none
            },
        };
        let mounts = match c.mounts {
            Some(m) => mount_names(m),
            None => {
                let none: Vec<String> = Vec::new();
                assert(none.deep_view() =~= Seq::<Seq<char>>::empty());
                none
            },
        };
        ContainerRow {
            id: unwrap_text(c.id),
            name,
            image: unwrap_text(c.image),
            image_id: unwrap_text(c.image_id),
            command: unwrap_text(c.command),
            state,
            health,
            status: unwrap_text(c.status),
            created: match c.created {
                Some(t) => t,
                None => 0,
            },
            ports,
            networks: sort_texts(c.networks),
            mounts,
            stack,
            service,
        }
    }

    /// Everything the fuzzy filter should be able to see.
    pub fn search_key(&self) -> (out: String)
        ensures
            out@ == container_key(self.deep_view()),
    {
        let own = cat5(&self.name, " ", &self.image, " ", &short_id(&self.id));
        match &self.stack {
            Some(stack) => cat3(&own, " ", stack),
            None => own,
        }
    }

    /// The ports of a container, as one piece of text.
    pub fn ports_display(&self) -> (out: String)
        ensures
            out@ == ports_text(self.ports.deep_view()),
    {
        self.ports_display_with("→")
    }

    /// The same with an arrow of the caller's choice.
    pub fn ports_display_with(&self, arrow: &str) -> (out: String)
        ensures
            out@ == ports_text_with(self.ports.deep_view(), arrow@),
    {
        if self.ports.len() == 0 {
            return owned("-");
        }
        let ghost text = |p: PortView| port_text_with(p, arrow@);
        let ghost all = self.ports.deep_view();
        let mut parts: Vec<String> = Vec::new();
        let mut i: usize = 0;
        assert(parts.deep_view() =~= all.take(0).map_values(text));
        while i < self.ports.len()
            invariant
                i <= self.ports.len(),
                all == self.ports.deep_view(),
                text == (|p: PortView| port_text_with(p, arrow@)),
                parts.deep_view() == all.take(i as int).map_values(text),
            decreases self.ports.len() - i,
        {
            put(&mut parts, self.ports[i].display_with(arrow));
            assert(all.take(i + 1).map_values(text) =~= all.take(i as int).map_values(text).push(
                port_text_with(all[i as int], arrow@),
            ));
            i += 1;
        }
        assert(all.take(all.len() as int) =~= all);
        joined(&parts, ", ")
    }

    /// What to call the container under its stack's header, where the stack's
    /// own name need not be repeated.
    pub fn service_label(&self) -> (out: &str)
        ensures
            out@ == service_text(self.deep_view()),
    {
        match &self.service {
            Some(s) => s.as_str(),
            None => self.name.as_str(),
        }
    }
}

// ---------------------------------------------------------------------------
// Images
// ---------------------------------------------------------------------------

/// One tag of one image, as the UI lists it.
#[derive(Debug, Clone)]
pub struct ImageRow {
    pub id: String,
    pub repository: String,
    pub tag: String,
    pub all_tags: Vec<String>,
    pub size: i64,
    pub shared_size: i64,
    pub created: i64,
    pub containers: i64,
    pub dangling: bool,
}

/// The mathematical value of an [`ImageRow`].
#[verifier::ext_equal]
pub struct ImageView {
    pub id: Seq<char>,
    pub repository: Seq<char>,
    pub tag: Seq<char>,
    pub all_tags: Seq<Seq<char>>,
    pub size: i64,
    pub shared_size: i64,
    pub created: i64,
    pub containers: i64,
    pub dangling: bool,
}

impl DeepView for ImageRow {
    type V = ImageView;

    open spec fn deep_view(&self) -> ImageView {
        ImageView {
            id: self.id@,
            repository: self.repository@,
            tag: self.tag@,
            all_tags: self.all_tags.deep_view(),
            size: self.size,
            shared_size: self.shared_size,
            created: self.created,
            containers: self.containers,
            dangling: self.dangling,
        }
    }
}

/// An image as the daemon lists it.
#[derive(Debug, Clone)]
pub struct ImageSummary {
    pub id: String,
    pub repo_tags: Vec<String>,
    pub created: i64,
    pub size: i64,
    pub shared_size: i64,
    pub containers: i64,
}

/// The mathematical value of an [`ImageSummary`].
#[verifier::ext_equal]
pub struct ImageSummaryView {
    pub id: Seq<char>,
    pub repo_tags: Seq<Seq<char>>,
    pub created: i64,
    pub size: i64,
    pub shared_size: i64,
    pub containers: i64,
}

impl DeepView for ImageSummary {
    type V = ImageSummaryView;

    open spec fn deep_view(&self) -> ImageSummaryView {
        ImageSummaryView {
            id: self.id@,
            repo_tags: self.repo_tags.deep_view(),
            created: self.created,
            size: self.size,
            shared_size: self.shared_size,
            containers: self.containers,
        }
    }
}

/// The repository and tag that a reference names: what stands before and after
/// its last colon, unless that colon belongs to a registry's port.
pub open spec fn repo_and_tag(t: Seq<char>) -> (Seq<char>, Seq<char>) {
    let p = after_last(t, ':', t.len() as int);
    if p > 0 && !t.skip(p).contains('/') {
        (t.take(p - 1), t.skip(p))
    } else {
        (t, "latest"@)
    }
}

/// The row for one tag of an image.
pub open spec fn image_row(
    img: ImageSummaryView,
    repository: Seq<char>,
    tag: Seq<char>,
    dangling: bool,
) -> ImageView {
    ImageView {
        id: img.id,
        repository,
        tag,
        all_tags: img.repo_tags,
        size: img.size,
        shared_size: img.shared_size,
        created: img.created,
        containers: img.containers,
        dangling,
    }
}

/// A row for each of the first `n` tags that names something.
pub open spec fn tagged_rows(img: ImageSummaryView, n: int) -> Seq<ImageView>
    decreases n,
{
    if n <= 0 {
        Seq::empty()
    } else {
        let low = tagged_rows(img, n - 1);
        let t = img.repo_tags[n - 1];
        if t == "<none>:<none>"@ {
            low
        } else {
            low.push(image_row(img, repo_and_tag(t).0, repo_and_tag(t).1, false))
        }
    }
}

/// The rows for an image: one per tag, or one dangling row when it has none.
pub open spec fn images_from(img: ImageSummaryView) -> Seq<ImageView> {
    let tagged = tagged_rows(img, img.repo_tags.len() as int);
    if tagged.len() == 0 {
        seq![image_row(img, "<none>"@, "<none>"@, true)]
    } else {
        tagged
    }
}

/// How an image is referred to.
pub open spec fn reference_text(i: ImageView) -> Seq<char> {
    if i.dangling {
        short(i.id)
    } else {
        i.repository + ":"@ + i.tag
    }
}

proof fn last_is_there(s: Seq<char>, c: char, to: int)
    requires
        to <= s.len(),
    ensures
        after_last(s, c, to) <= s.len(),
        after_last(s, c, to) > 0 ==> s[after_last(s, c, to) - 1] == c,
    decreases to,
{
    if to > 0 && s[to - 1] != c {
        last_is_there(s, c, to - 1);
    }
}

/// The row for a tag is referred to by that tag, and by `:latest` of it where it
/// names none.
pub proof fn references_read_back(img: ImageSummaryView, t: Seq<char>)
    ensures
        ({
            let (repository, tag) = repo_and_tag(t);
            let row = image_row(img, repository, tag, false);
            reference_text(row) == t || reference_text(row) == t + ":latest"@
        }),
{
    let p = after_last(t, ':', t.len() as int);
    reveal_strlit(":");
    reveal_strlit("latest");
    reveal_strlit(":latest");
    if p > 0 && !t.skip(p).contains('/') {
        last_is_there(t, ':', t.len() as int);
        assert(t.take(p - 1) + ":"@ + t.skip(p) =~= t);
    } else {
        assert(t + ":"@ + "latest"@ =~= t + ":latest"@);
    }
}

/// An image has a row for each tag that names something, or a single row that
/// says it dangles.
pub proof fn images_are_never_lost(img: ImageSummaryView, i: int)
    requires
        0 <= i < images_from(img).len(),
    ensures
        images_from(img).len() > 0,
        images_from(img)[i].id == img.id,
        images_from(img)[i].dangling <==> (forall|k: int|
            0 <= k < img.repo_tags.len() ==> #[trigger] img.repo_tags[k] == "<none>:<none>"@),
{
    tagged_rows_hold(img, img.repo_tags.len() as int);
}

proof fn tagged_rows_hold(img: ImageSummaryView, n: int)
    requires
        0 <= n <= img.repo_tags.len(),
    ensures
        forall|i: int|
            0 <= i < tagged_rows(img, n).len() ==> (#[trigger] tagged_rows(img, n)[i]).id == img.id
                && !tagged_rows(img, n)[i].dangling,
        tagged_rows(img, n).len() == 0 <==> (forall|k: int|
            0 <= k < n ==> #[trigger] img.repo_tags[k] == "<none>:<none>"@),
    decreases n,
{
    if n > 0 {
        tagged_rows_hold(img, n - 1);
        assert(img.repo_tags[n - 1] == img.repo_tags[n - 1]);
    }
}

/// Everything the fuzzy filter should be able to see of an image.
pub open spec fn image_key(i: ImageView) -> Seq<char> {
    reference_text(i) + " "@ + short(i.id)
}

impl ImageRow {
    fn row(img: &ImageSummary, repository: String, tag: String, dangling: bool) -> (out: ImageRow)
        ensures
            out.deep_view() == image_row(img.deep_view(), repository@, tag@, dangling),
    {
        ImageRow {
            id: owned(&img.id),
            repository,
            tag,
            all_tags: copy_texts(&img.repo_tags),
            size: img.size,
            shared_size: img.shared_size,
            created: img.created,
            containers: img.containers,
            dangling,
        }
    }

    /// One API image can carry several tags; Docker shows one row per tag, and
    /// so do we, because that's how people think about them.
    pub fn from_api(img: &ImageSummary) -> (out: Vec<ImageRow>)
        ensures
            out.deep_view() == images_from(img.deep_view()),
    {
        let ghost view = img.deep_view();
        let mut out: Vec<ImageRow> = Vec::new();
        let mut i: usize = 0;
        assert(out.deep_view() =~= tagged_rows(view, 0));
        while i < img.repo_tags.len()
            invariant
                i <= img.repo_tags.len(),
                view == img.deep_view(),
                out.deep_view() == tagged_rows(view, i as int),
            decreases img.repo_tags.len() - i,
        {
            assert(view.repo_tags[i as int] == img.repo_tags@[i as int]@);
            if !same(&img.repo_tags[i], "<none>:<none>") {
                let t = chars_of(&img.repo_tags[i]);
                let p = find_last(&t, ':');
                let tail = string_between(&t, p, t.len());
                assert(tail@ =~= t@.skip(p as int));
                // Split on the last colon, but only if it's part of the tag and
                // not a registry port (`registry:5000/app`).
                if p > 0 && !has_char(&chars_of(&tail), '/') {
                    let repo = string_between(&t, 0, p - 1);
                    assert(repo@ =~= t@.take(p - 1));
                    put(&mut out, ImageRow::row(img, repo, tail, false));
                } else {
                    put(
                        &mut out,
                        ImageRow::row(img, owned(&img.repo_tags[i]), owned("latest"), false),
                    );
                }
            }
            i += 1;
        }
        if out.len() == 0 {
            put(&mut out, ImageRow::row(img, owned("<none>"), owned("<none>"), true));
            assert(out.deep_view() =~= images_from(view));
        }
        out
    }

    /// How the image is referred to: `repository:tag`, or its id when it has
    /// no tag.
    pub fn reference(&self) -> (out: String)
        ensures
            out@ == reference_text(self.deep_view()),
    {
        if self.dangling {
            short_id(&self.id)
        } else {
            cat3(&self.repository, ":", &self.tag)
        }
    }

    /// Everything the fuzzy filter should be able to see.
    pub fn search_key(&self) -> (out: String)
        ensures
            out@ == image_key(self.deep_view()),
    {
        cat3(&self.reference(), " ", &short_id(&self.id))
    }
}

// ---------------------------------------------------------------------------
// Volumes
// ---------------------------------------------------------------------------

/// One volume, as the UI lists it.
#[derive(Debug, Clone)]
pub struct VolumeRow {
    pub name: String,
    pub driver: String,
    pub mountpoint: String,
    pub created: Option<i64>,
    /// Only populated when Docker gave us usage data (it usually doesn't
    /// without a `df` call).
    pub size: Option<i64>,
    pub compose_project: Option<String>,
    /// Filled in by cross-referencing container mounts.
    pub used_by: usize,
}

/// The mathematical value of a [`VolumeRow`].
#[verifier::ext_equal]
pub struct VolumeView {
    pub name: Seq<char>,
    pub driver: Seq<char>,
    pub mountpoint: Seq<char>,
    pub created: Option<i64>,
    pub size: Option<i64>,
    pub compose_project: Option<Seq<char>>,
    pub used_by: nat,
}

impl DeepView for VolumeRow {
    type V = VolumeView;

    open spec fn deep_view(&self) -> VolumeView {
        VolumeView {
            name: self.name@,
            driver: self.driver@,
            mountpoint: self.mountpoint@,
            created: self.created,
            size: self.size,
            compose_project: self.compose_project.deep_view(),
            used_by: self.used_by as nat,
        }
    }
}

/// A volume as the daemon lists it.
#[derive(Debug, Clone)]
pub struct Volume {
    pub name: String,
    pub driver: String,
    pub mountpoint: String,
    /// Seconds since the Unix epoch.
    pub created_at: Option<i64>,
    pub labels: Vec<(String, String)>,
    /// The size in the usage data, negative when it was not computed.
    pub usage_size: Option<i64>,
}

/// The mathematical value of a [`Volume`].
#[verifier::ext_equal]
pub struct VolumeSummaryView {
    pub name: Seq<char>,
    pub driver: Seq<char>,
    pub mountpoint: Seq<char>,
    pub created_at: Option<i64>,
    pub labels: Seq<(Seq<char>, Seq<char>)>,
    pub usage_size: Option<i64>,
}

impl DeepView for Volume {
    type V = VolumeSummaryView;

    open spec fn deep_view(&self) -> VolumeSummaryView {
        VolumeSummaryView {
            name: self.name@,
            driver: self.driver@,
            mountpoint: self.mountpoint@,
            created_at: self.created_at,
            labels: self.labels.deep_view(),
            usage_size: self.usage_size,
        }
    }
}

/// A listed volume as a row, not yet cross-referenced.
pub open spec fn volume_from(v: VolumeSummaryView) -> VolumeView {
    VolumeView {
        name: v.name,
        driver: v.driver,
        mountpoint: v.mountpoint,
        created: v.created_at,
        size: match v.usage_size {
            Some(n) => if n < 0 {
                None
            } else {
                Some(n)
            },
            None => None,
        },
        compose_project: label_of(v.labels, "com.docker.compose.project"@),
        used_by: 0,
    }
}

impl VolumeRow {
    /// A listed volume as a row, not yet cross-referenced.
    pub fn from_api(v: Volume) -> (out: VolumeRow)
        ensures
            out.deep_view() == volume_from(v.deep_view()),
    {
        let compose_project = label(&v.labels, "com.docker.compose.project");
        VolumeRow {
            name: v.name,
            driver: v.driver,
            mountpoint: v.mountpoint,
            created: v.created_at,
            size: match v.usage_size {
                Some(n) => if n < 0 {
                    None
                } else {
                    Some(n)
                },
                None => None,
            },
            compose_project,
            used_by: 0,
        }
    }

    /// Everything the fuzzy filter should be able to see.
    pub fn search_key(&self) -> (out: String)
        ensures
            out@ == self.name@,
    {
        owned(&self.name)
    }
}

// ---------------------------------------------------------------------------
// Networks
// ---------------------------------------------------------------------------

/// One network, as the UI lists it.
#[derive(Debug, Clone)]
pub struct NetworkRow {
    pub id: String,
    pub name: String,
    pub driver: String,
    pub scope: String,
    pub subnets: Vec<String>,
    pub internal: bool,
    pub ipv6: bool,
    pub created: Option<i64>,
    pub compose_project: Option<String>,
    /// Filled in by cross-referencing container networks.
    pub used_by: usize,
}

/// The mathematical value of a [`NetworkRow`].
#[verifier::ext_equal]
pub struct NetworkView {
    pub id: Seq<char>,
    pub name: Seq<char>,
    pub driver: Seq<char>,
    pub scope: Seq<char>,
    pub subnets: Seq<Seq<char>>,
    pub internal: bool,
    pub ipv6: bool,
    pub created: Option<i64>,
    pub compose_project: Option<Seq<char>>,
    pub used_by: nat,
}

impl DeepView for NetworkRow {
    type V = NetworkView;

    open spec fn deep_view(&self) -> NetworkView {
        NetworkView {
            id: self.id@,
            name: self.name@,
            driver: self.driver@,
            scope: self.scope@,
            subnets: self.subnets.deep_view(),
            internal: self.internal,
            ipv6: self.ipv6,
            created: self.created,
            compose_project: self.compose_project.deep_view(),
            used_by: self.used_by as nat,
        }
    }
}

/// A network as the daemon lists it: everything may be missing.
#[derive(Debug, Clone)]
pub struct Network {
    pub id: Option<String>,
    pub name: Option<String>,
    pub driver: Option<String>,
    pub scope: Option<String>,
    /// The subnet of each address pool, where it has one.
    pub subnets: Vec<Option<String>>,
    pub internal: Option<bool>,
    pub enable_ipv6: Option<bool>,
    /// Seconds since the Unix epoch.
    pub created: Option<i64>,
    pub labels: Vec<(String, String)>,
}

/// The mathematical value of a [`Network`].
#[verifier::ext_equal]
pub struct NetworkSummaryView {
    pub id: Option<Seq<char>>,
    pub name: Option<Seq<char>>,
    pub driver: Option<Seq<char>>,
    pub scope: Option<Seq<char>>,
    pub subnets: Seq<Option<Seq<char>>>,
    pub internal: Option<bool>,
    pub enable_ipv6: Option<bool>,
    pub created: Option<i64>,
    pub labels: Seq<(Seq<char>, Seq<char>)>,
}

impl DeepView for Network {
    type V = NetworkSummaryView;

    open spec fn deep_view(&self) -> NetworkSummaryView {
        NetworkSummaryView {
            id: self.id.deep_view(),
            name: self.name.deep_view(),
            driver: self.driver.deep_view(),
            scope: self.scope.deep_view(),
            subnets: self.subnets.deep_view(),
            internal: self.internal,
            enable_ipv6: self.enable_ipv6,
            created: self.created,
            labels: self.labels.deep_view(),
        }
    }
}

/// The texts that are there.
pub open spec fn present(s: Seq<Option<Seq<char>>>) -> Seq<Seq<char>>
    decreases s.len(),
{
    if s.len() == 0 {
        Seq::empty()
    } else {
        match s.last() {
            Some(t) => present(s.drop_last()).push(t),
            None => present(s.drop_last()),
        }
    }
}

fn present_texts(v: &Vec<Option<String>>) -> (out: Vec<String>)
    ensures
        out.deep_view() == present(v.deep_view()),
{
    let ghost all = v.deep_view();
    let mut out: Vec<String> = Vec::new();
    let mut i: usize = 0;
    assert(out.deep_view() =~= present(all.take(0)));
    while i < v.len()
        invariant
            i <= v.len(),
            all == v.deep_view(),
            out.deep_view() == present(all.take(i as int)),
        decreases v.len() - i,
    {
        assert(all.take(i + 1).drop_last() =~= all.take(i as int));
        assert(all.take(i + 1).last() == v@[i as int].deep_view());
        if let Some(t) = &v[i] {
            put(&mut out, owned(t));
        }
        i += 1;
    }
    assert(all.take(all.len() as int) =~= all);
    out
}

/// A listed network as a row, not yet cross-referenced.
pub open spec fn network_from(n: NetworkSummaryView) -> NetworkView {
    NetworkView {
        id: or_empty(n.id),
        name: or_empty(n.name),
        driver: or_empty(n.driver),
        scope: or_empty(n.scope),
        subnets: present(n.subnets),
        internal: n.internal == Some(true),
        ipv6: n.enable_ipv6 == Some(true),
        created: n.created,
        compose_project: label_of(n.labels, "com.docker.compose.project"@),
        used_by: 0,
    }
}

/// The names of the networks Docker comes with.
pub open spec fn predefined(name: Seq<char>) -> bool {
    name == "bridge"@ || name == "host"@ || name == "none"@
}

/// Whether `name` is one of the networks Docker comes with.
pub fn is_predefined_name(name: &str) -> (out: bool)
    ensures
        out == predefined(name@),
{
    same(name, "bridge") || same(name, "host") || same(name, "none")
}

fn is_set(b: Option<bool>) -> (out: bool)
    ensures
        out == (b == Some(true)),
{
    match b {
        Some(x) => x,
        None => false,
    }
}

impl NetworkRow {
    /// A listed network as a row, not yet cross-referenced.
    pub fn from_api(n: Network) -> (out: NetworkRow)
        ensures
            out.deep_view() == network_from(n.deep_view()),
    {
        let compose_project = label(&n.labels, "com.docker.compose.project");
        let subnets = present_texts(&n.subnets);
        NetworkRow {
            id: unwrap_text(n.id),
            name: unwrap_text(n.name),
            driver: unwrap_text(n.driver),
            scope: unwrap_text(n.scope),
            subnets,
            internal: is_set(n.internal),
            ipv6: is_set(n.enable_ipv6),
            created: n.created,
            compose_project,
            used_by: 0,
        }
    }

    /// The three built-in networks can't be removed; don't offer to.
    pub fn is_predefined(&self) -> (out: bool)
        ensures
            out == predefined(self.name@),
    {
        is_predefined_name(&self.name)
    }

    /// Everything the fuzzy filter should be able to see.
    pub fn search_key(&self) -> (out: String)
        ensures
            out@ == self.name@ + " "@ + self.driver@,
    {
        cat3(&self.name, " ", &self.driver)
    }
}

// ---------------------------------------------------------------------------
// Cross-referencing
// ---------------------------------------------------------------------------

/// How many of the containers mount the volume `name`. A container mounting
/// the same volume twice still counts once.
pub open spec fn volume_users(containers: Seq<ContainerView>, name: Seq<char>) -> nat
    decreases containers.len(),
{
    if containers.len() == 0 {
        0
    } else {
        volume_users(containers.drop_last(), name) + (if containers.last().mounts.contains(name) {
            1nat
        } else {
            0
        })
    }
}

/// How often `name` occurs among `names`.
pub open spec fn occurrences(names: Seq<Seq<char>>, name: Seq<char>) -> nat
    decreases names.len(),
{
    if names.len() == 0 {
        0
    } else {
        occurrences(names.drop_last(), name) + (if names.last() == name {
            1nat
        } else {
            0
        })
    }
}

/// How many attachments the containers have to the network `name`.
pub open spec fn network_users(containers: Seq<ContainerView>, name: Seq<char>) -> nat
    decreases containers.len(),
{
    if containers.len() == 0 {
        0
    } else {
        network_users(containers.drop_last(), name) + occurrences(containers.last().networks, name)
    }
}

/// `n` as far as a `usize` can count.
pub open spec fn countable(n: nat) -> nat {
    if n > usize::MAX {
        usize::MAX as nat
    } else {
        n
    }
}

/// A volume with its users filled in.
pub open spec fn used_volume(containers: Seq<ContainerView>, v: VolumeView) -> VolumeView {
    VolumeView { used_by: volume_users(containers, v.name), ..v }
}

/// A network with its users filled in.
pub open spec fn used_network(containers: Seq<ContainerView>, n: NetworkView) -> NetworkView {
    NetworkView { used_by: countable(network_users(containers, n.name)), ..n }
}

/// Every volume with its users filled in.
pub open spec fn used_volumes(containers: Seq<ContainerView>, v: Seq<VolumeView>) -> Seq<VolumeView> {
    Seq::new(v.len(), |i: int| used_volume(containers, v[i]))
}

/// Every network with its users filled in.
pub open spec fn used_networks(containers: Seq<ContainerView>, n: Seq<NetworkView>) -> Seq<
    NetworkView,
> {
    Seq::new(n.len(), |i: int| used_network(containers, n[i]))
}

/// A volume's users are the containers that mount it, each counted once however
/// often it does.
pub proof fn volumes_count_their_containers(containers: Seq<ContainerView>, name: Seq<char>)
    ensures
        volume_users(containers, name) == containers.filter(
            |c: ContainerView| c.mounts.contains(name),
        ).len(),
    decreases containers.len(),
{
    reveal(Seq::filter);
    if containers.len() > 0 {
        volumes_count_their_containers(containers.drop_last(), name);
    }
}

/// Filling in the users again changes nothing.
pub proof fn filling_in_users_is_idempotent(
    containers: Seq<ContainerView>,
    v: Seq<VolumeView>,
    n: Seq<NetworkView>,
)
    ensures
        used_volumes(containers, used_volumes(containers, v)) == used_volumes(containers, v),
        used_networks(containers, used_networks(containers, n)) == used_networks(containers, n),
{
    assert(used_volumes(containers, used_volumes(containers, v)) =~= used_volumes(containers, v));
    assert(used_networks(containers, used_networks(containers, n)) =~= used_networks(
        containers,
        n,
    ));
}

fn mentions(names: &Vec<String>, name: &str) -> (out: bool)
    ensures
        out == names.deep_view().contains(name@),
{
    let mut i: usize = 0;
    while i < names.len()
        invariant
            i <= names.len(),
            forall|k: int| 0 <= k < i ==> #[trigger] names.deep_view()[k] != name@,
        decreases names.len() - i,
    {
        assert(names.deep_view()[i as int] == names@[i as int]@);
        if same(&names[i], name) {
            return true;
        }
        i += 1;
    }
    false
}

fn count_volume_users(containers: &Vec<ContainerRow>, name: &str) -> (out: usize)
    ensures
        out == volume_users(containers.deep_view(), name@),
{
    let ghost all = containers.deep_view();
    let mut n: usize = 0;
    let mut i: usize = 0;
    while i < containers.len()
        invariant
            n <= i <= containers.len(),
            all == containers.deep_view(),
            n == volume_users(all.take(i as int), name@),
        decreases containers.len() - i,
    {
        assert(all.take(i + 1).drop_last() =~= all.take(i as int));
        assert(all.take(i + 1).last() == containers@[i as int].deep_view());
        if mentions(&containers[i].mounts, name) {
            n += 1;
        }
        i += 1;
    }
    assert(all.take(all.len() as int) =~= all);
    n
}

fn count_network_users(containers: &Vec<ContainerRow>, name: &str) -> (out: usize)
    ensures
        out == countable(network_users(containers.deep_view(), name@)),
{
    let ghost all = containers.deep_view();
    let mut n: usize = 0;
    let mut i: usize = 0;
    while i < containers.len()
        invariant
            i <= containers.len(),
            all == containers.deep_view(),
            n == countable(network_users(all.take(i as int), name@)),
        decreases containers.len() - i,
    {
        let ghost networks = containers@[i as int].networks.deep_view();
        let ghost before = network_users(all.take(i as int), name@);
        assert(all.take(i + 1).drop_last() =~= all.take(i as int));
        assert(all.take(i + 1).last() == containers@[i as int].deep_view());
        let mut j: usize = 0;
        assert(networks.take(0) =~= Seq::<Seq<char>>::empty());
        while j < containers[i as usize].networks.len()
            invariant
                i < containers.len(),
                networks == containers@[i as int].networks.deep_view(),
                j <= containers@[i as int].networks.len(),
                n == countable(before + occurrences(networks.take(j as int), name@)),
            decreases containers@[i as int].networks.len() - j,
        {
            assert(networks.take(j + 1).drop_last() =~= networks.take(j as int));
            assert(networks.take(j + 1).last() == containers@[i as int].networks@[j as int]@);
            if same(&containers[i].networks[j], name) && n < usize::MAX {
                n += 1;
            }
            j += 1;
        }
        assert(networks.take(networks.len() as int) =~= networks);
        i += 1;
    }
    assert(all.take(all.len() as int) =~= all);
    n
}

/// Docker's volume and network listings don't say what is using them, but the
/// container listing does. Recomputing the reverse index whenever containers
/// refresh is cheap and lets the UI grey out things that are safe to prune.
pub fn annotate_usage(
    containers: &Vec<ContainerRow>,
    volumes: &mut Vec<VolumeRow>,
    networks: &mut Vec<NetworkRow>,
)
    ensures
        final(volumes).deep_view() == used_volumes(
            containers.deep_view(),
            old(volumes).deep_view(),
        ),
        final(networks).deep_view() == used_networks(
            containers.deep_view(),
            old(networks).deep_view(),
        ),
{
    let ghost all = containers.deep_view();
    let ghost vols = volumes.deep_view();
    let ghost nets = networks.deep_view();
    let mut i: usize = 0;
    while i < volumes.len()
        invariant
            i <= volumes.len(),
            volumes.len() == vols.len(),
            all == containers.deep_view(),
            forall|k: int|
                0 <= k < i ==> (#[trigger] volumes@[k]).deep_view() == used_volume(all, vols[k]),
            forall|k: int| i <= k < vols.len() ==> (#[trigger] volumes@[k]).deep_view() == vols[k],
        decreases volumes.len() - i,
    {
        let n = count_volume_users(containers, &volumes[i].name);
        volumes[i].used_by = n;
        i += 1;
    }
    let mut j: usize = 0;
    while j < networks.len()
        invariant
            j <= networks.len(),
            networks.len() == nets.len(),
            all == containers.deep_view(),
            forall|k: int|
                0 <= k < j ==> (#[trigger] networks@[k]).deep_view() == used_network(all, nets[k]),
            forall|k: int| j <= k < nets.len() ==> (#[trigger] networks@[k]).deep_view() == nets[k],
        decreases networks.len() - j,
    {
        let n = count_network_users(containers, &networks[j].name);
        networks[j].used_by = n;
        j += 1;
    }
    assert(volumes.deep_view() =~= used_volumes(all, vols));
    assert(networks.deep_view() =~= used_networks(all, nets));
}

// ---------------------------------------------------------------------------
// Daemon
// ---------------------------------------------------------------------------

/// What the daemon says about itself.
#[derive(Debug, Clone)]
pub struct DaemonInfo {
    pub version: String,
    pub api_version: String,
    pub os: String,
    pub arch: String,
}

/// The mathematical value of a [`DaemonInfo`].
#[verifier::ext_equal]
pub struct DaemonView {
    pub version: Seq<char>,
    pub api_version: Seq<char>,
    pub os: Seq<char>,
    pub arch: Seq<char>,
}

impl DeepView for DaemonInfo {
    type V = DaemonView;

    open spec fn deep_view(&self) -> DaemonView {
        DaemonView {
            version: self.version@,
            api_version: self.api_version@,
            os: self.os@,
            arch: self.arch@,
        }
    }
}

/// What is known of the daemon before it has answered.
pub open spec fn unknown_daemon() -> DaemonView {
    DaemonView {
        version: Seq::empty(),
        api_version: Seq::empty(),
        os: Seq::empty(),
        arch: Seq::empty(),
    }
}

impl Default for DaemonInfo {
    fn default() -> (out: DaemonInfo)
        ensures
            out.deep_view() == unknown_daemon(),
    {
        DaemonInfo {
            version: String::new(),
            api_version: String::new(),
            os: String::new(),
            arch: String::new(),
        }
    }
}

impl DaemonInfo {
    /// What the daemon answered about itself. A version that it does not give is
    /// `unknown`, so it is told from a daemon that has not answered.
    pub fn from_api(
        version: Option<String>,
        api_version: Option<String>,
        os: Option<String>,
        arch: Option<String>,
    ) -> (out: DaemonInfo)
        ensures
            out.deep_view() == (DaemonView {
                version: match version {
                    Some(text) => text@,
                    None => "unknown"@,
                },
                api_version: or_empty(api_version.deep_view()),
                os: or_empty(os.deep_view()),
                arch: or_empty(arch.deep_view()),
            }),
    {
        DaemonInfo {
            version: match version {
                Some(text) => text,
                None => owned("unknown"),
            },
            api_version: unwrap_text(api_version),
            os: unwrap_text(os),
            arch: unwrap_text(arch),
        }
    }
}

proof fn repeats_are_dropped(ports: Seq<PortView>)
    ensures
        forall|i: int, j: int|
            0 <= i < j < without_repeats(ports).len() ==> !same_port(
                #[trigger] without_repeats(ports)[i],
                #[trigger] without_repeats(ports)[j],
            ),
        forall|i: int|
            0 <= i < ports.len() ==> lists_port(without_repeats(ports), #[trigger] ports[i]),
        forall|i: int|
            0 <= i < without_repeats(ports).len() ==> ports.contains(
                #[trigger] without_repeats(ports)[i],
            ),
        is_sorted(ports, by_port()) ==> is_sorted(without_repeats(ports), by_port()),
    decreases ports.len(),
{
    if ports.len() > 0 {
        let rest = ports.drop_last();
        let low = without_repeats(rest);
        let all = without_repeats(ports);
        repeats_are_dropped(rest);
        assert forall|i: int| 0 <= i < ports.len() implies lists_port(all, #[trigger] ports[i]) by {
            if i < rest.len() {
                assert(lists_port(low, rest[i]));
                let k = choose|k: int| 0 <= k < low.len() && same_port(#[trigger] low[k], rest[i]);
                assert(same_port(all[k], ports[i]));
            } else if !lists_port(low, ports.last()) {
                assert(same_port(all[low.len() as int], ports[i]));
            }
        }
        assert forall|i: int| 0 <= i < all.len() implies ports.contains(#[trigger] all[i]) by {
            if i < low.len() {
                assert(rest.contains(low[i]));
                let k = choose|k: int| 0 <= k < rest.len() && rest[k] == low[i];
                assert(ports[k] == all[i]);
            } else {
                assert(ports[ports.len() - 1] == all[i]);
            }
        }
        if is_sorted(ports, by_port()) {
            assert forall|i: int, j: int| 0 <= i <= j < rest.len() implies key_le(
                by_port()(#[trigger] rest[i]),
                by_port()(#[trigger] rest[j]),
            ) by {
                assert(rest[i] == ports[i] && rest[j] == ports[j]);
            }
            assert forall|i: int, j: int| 0 <= i <= j < all.len() implies key_le(
                by_port()(#[trigger] all[i]),
                by_port()(#[trigger] all[j]),
            ) by {
                if j == low.len() {
                    assert(ports.contains(all[i]));
                    let k = choose|k: int| 0 <= k < ports.len() && ports[k] == all[i];
                    assert(key_le(by_port()(ports[k]), by_port()(ports[ports.len() - 1])));
                } else {
                    assert(all[i] == low[i] && all[j] == low[j]);
                }
            }
        }
    }
}

/// The daemon reports a port once per host address family, and the duplicates
/// collapse: no two bindings of a row agree in host port, container port and
/// protocol.
pub proof fn ports_are_listed_once(ports: Seq<PortSummaryView>, i: int, j: int)
    requires
        0 <= i < j < ports_from(ports).len(),
    ensures
        !same_port(ports_from(ports)[i], ports_from(ports)[j]),
{
    repeats_are_dropped(
        sorted_by(ports.map_values(|p: PortSummaryView| port_from(p)), by_port()),
    );
}

/// No port is lost to the collapsing, and none is made up.
pub proof fn every_port_is_listed(ports: Seq<PortSummaryView>)
    ensures
        forall|i: int|
            0 <= i < ports.len() ==> lists_port(ports_from(ports), port_from(#[trigger] ports[i])),
        forall|i: int|
            0 <= i < ports_from(ports).len() ==> exists|k: int|
                0 <= k < ports.len() && #[trigger] ports_from(ports)[i] == port_from(
                    #[trigger] ports[k],
                ),
{
    let made = ports.map_values(|p: PortSummaryView| port_from(p));
    let sorted = sorted_by(made, by_port());
    repeats_are_dropped(sorted);
    assert forall|i: int| 0 <= i < ports.len() implies lists_port(
        ports_from(ports),
        port_from(#[trigger] ports[i]),
    ) by {
        assert(made[i] == port_from(ports[i]));
        assert(made.contains(made[i]));
        sorting_keeps_members(made, by_port(), made[i]);
        let k = choose|k: int| 0 <= k < sorted.len() && sorted[k] == made[i];
        assert(lists_port(ports_from(ports), sorted[k]));
    }
    assert forall|i: int| 0 <= i < ports_from(ports).len() implies exists|k: int|
        0 <= k < ports.len() && #[trigger] ports_from(ports)[i] == port_from(
            #[trigger] ports[k],
        ) by {
        let p = ports_from(ports)[i];
        sorting_keeps_members(made, by_port(), p);
        let k = choose|k: int| 0 <= k < made.len() && made[k] == p;
        assert(p == port_from(ports[k]));
    }
}

/// The ports of a row ascend by host port, then by container port; its networks
/// are in dictionary order; and each of its mounts has a name.
pub proof fn rows_are_in_order(c: ContainerSummaryView)
    ensures
        is_sorted(container_from(c).ports, by_port()),
        is_sorted(container_from(c).networks, by_text()),
        forall|i: int|
            0 <= i < container_from(c).mounts.len() ==> (#[trigger] container_from(c).mounts[i]).len()
                > 0,
{
    sorting_orders(c.networks, by_text());
    if let Some(ports) = c.ports {
        let sorted = sorted_by(ports.map_values(|p: PortSummaryView| port_from(p)), by_port());
        sorting_orders(ports.map_values(|p: PortSummaryView| port_from(p)), by_port());
        repeats_are_dropped(sorted);
    }
    if let Some(mounts) = c.mounts {
        mounts_are_named(mounts);
    }
}

proof fn mounts_are_named(mounts: Seq<MountView>)
    ensures
        forall|i: int|
            0 <= i < mounts_from(mounts).len() ==> (#[trigger] mounts_from(mounts)[i]).len() > 0,
    decreases mounts.len(),
{
    if mounts.len() > 0 {
        let kept = mounts_from(mounts.drop_last());
        mounts_are_named(mounts.drop_last());
        assert forall|i: int| 0 <= i < mounts_from(mounts).len() implies (
        #[trigger] mounts_from(mounts)[i]).len() > 0 by {
            if i < kept.len() {
                assert(mounts_from(mounts)[i] == kept[i]);
            }
        }
    }
}

} // verus!
