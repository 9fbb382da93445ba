//! Keeping the resource lists current.
//!
//! Two cooperating tasks: a poller on a fixed interval, and a subscription to
//! the daemon's own event stream that nudges the poller the moment something
//! actually changes. Polling alone feels laggy; events alone miss things like a
//! container's health flipping without an event we filtered for. What each of
//! them does with what it hears is decided here.

use vstd::prelude::*;

use crate::docker::model::{
    annotate_usage, container_from, images_from, network_from, used_networks, used_volumes,
    volume_from, ContainerRow, ContainerSummary, ContainerSummaryView, ContainerView, ImageRow,
    ImageSummary, ImageSummaryView, ImageView, Network, NetworkRow, NetworkSummaryView,
    NetworkView, Volume, VolumeRow, VolumeSummaryView, VolumeView,
};
use crate::docker::{friendly, friendly_error, ApiError};
use crate::event::{AppEvent, AppEventView};
use crate::order::{number_key, sort_by_keys, sorted_by, sorting_maps, text_key, KeyView, SortKey};
use crate::text::{owned, put};

verus! {

broadcast use vstd::string::group_string_axioms;

/// One consistent read of every resource list.
#[derive(Debug)]
pub struct Snapshot {
    pub containers: Vec<ContainerRow>,
    pub images: Vec<ImageRow>,
    pub volumes: Vec<VolumeRow>,
    pub networks: Vec<NetworkRow>,
}

/// The mathematical value of a [`Snapshot`].
#[verifier::ext_equal]
pub struct SnapshotView {
    pub containers: Seq<ContainerView>,
    pub images: Seq<ImageView>,
    pub volumes: Seq<VolumeView>,
    pub networks: Seq<NetworkView>,
}

impl DeepView for Snapshot {
    type V = SnapshotView;

    open spec fn deep_view(&self) -> SnapshotView {
        SnapshotView {
            containers: self.containers.deep_view(),
            images: self.images.deep_view(),
            volumes: self.volumes.deep_view(),
            networks: self.networks.deep_view(),
        }
    }
}

/// What the daemon answered to each of the four list requests.
#[derive(Debug)]
pub struct Listings {
    pub containers: Result<Vec<ContainerSummary>, ApiError>,
    pub images: Option<Vec<ImageSummary>>,
    pub volumes: Option<Vec<Volume>>,
    pub networks: Option<Vec<Network>>,
}

/// Containers by name.
pub open spec fn by_container_name() -> spec_fn(ContainerView) -> KeyView {
    |c: ContainerView| text_key(c.name)
}

/// Images, newest first.
pub open spec fn by_image_age() -> spec_fn(ImageView) -> KeyView {
    |i: ImageView| number_key(-(i.created as int))
}

/// Volumes by name.
pub open spec fn by_volume_name() -> spec_fn(VolumeView) -> KeyView {
    |v: VolumeView| text_key(v.name)
}

/// Networks by name.
pub open spec fn by_network_name() -> spec_fn(NetworkView) -> KeyView {
    |n: NetworkView| text_key(n.name)
}

/// The rows of every image, one after the other.
pub open spec fn all_images(images: Seq<ImageSummaryView>) -> Seq<ImageView>
    decreases images.len(),
{
    if images.len() == 0 {
        Seq::empty()
    } else {
        all_images(images.drop_last()) + images_from(images.last())
    }
}

/// A listing that failed counts as empty.
pub open spec fn or_none<T>(listing: Option<Seq<T>>) -> Seq<T> {
    match listing {
        Some(s) => s,
        None => Seq::empty(),
    }
}

/// The snapshot that four listings amount to.
pub open spec fn snapshot_of(
    containers: Seq<ContainerSummaryView>,
    images: Option<Seq<ImageSummaryView>>,
    volumes: Option<Seq<VolumeSummaryView>>,
    networks: Option<Seq<NetworkSummaryView>>,
) -> SnapshotView {
    let cs = sorted_by(
        containers.map_values(|c: ContainerSummaryView| container_from(c)),
        by_container_name(),
    );
    SnapshotView {
        containers: cs,
        images: sorted_by(all_images(or_none(images)), by_image_age()),
        volumes: used_volumes(
            cs,
            sorted_by(
                or_none(volumes).map_values(|v: VolumeSummaryView| volume_from(v)),
                by_volume_name(),
            ),
        ),
        networks: used_networks(
            cs,
            sorted_by(
                or_none(networks).map_values(|n: NetworkSummaryView| network_from(n)),
                by_network_name(),
            ),
        ),
    }
}

fn load_containers(listed: Vec<ContainerSummary>) -> (out: Vec<ContainerRow>)
    ensures
        out.deep_view() == sorted_by(
            listed.deep_view().map_values(|c: ContainerSummaryView| container_from(c)),
            by_container_name(),
        ),
{
    let ghost all = listed.deep_view();
    let ghost from = |c: ContainerSummaryView| container_from(c);
    let ghost view = |c: ContainerRow| c.deep_view();
    let ghost key = |c: ContainerRow| by_container_name()(c.deep_view());
    let mut listed = listed;
    let mut rows: Vec<ContainerRow> = Vec::new();
    let mut keys: Vec<SortKey> = Vec::new();
    let ghost mut n: int = 0;
    assert(all.skip(0) =~= all);
    assert(rows.deep_view() =~= all.take(0).map_values(from));
    while listed.len() > 0
        invariant
            0 <= n,
            n + listed.len() == all.len(),
            listed.deep_view() == all.skip(n),
            from == (|c: ContainerSummaryView| container_from(c)),
            key == (|c: ContainerRow| by_container_name()(c.deep_view())),
            rows.deep_view() == all.take(n).map_values(from),
            rows.len() == n,
            keys.len() == n,
            forall|k: int| 0 <= k < n ==> #[trigger] keys@[k]@ == key(rows@[k]),
        decreases listed.len(),
    {
        let ghost before = listed.deep_view();
        let c = listed.remove(0);
        assert(before[0] == c.deep_view());
        assert(listed.deep_view() =~= before.drop_first());
        assert(all.skip(n).drop_first() =~= all.skip(n + 1));
        let row = ContainerRow::from_api(c);
        keys.push(SortKey::text(owned(&row.name)));
        put(&mut rows, row);
        assert(all.take(n + 1).map_values(from) =~= all.take(n).map_values(from).push(
            container_from(all[n]),
        ));
        proof {
            n = n + 1;
        }
    }
    assert(all.take(n) =~= all);
    proof {
        sorting_maps(rows@, view, key, by_container_name());
        assert(rows.deep_view() =~= rows@.map_values(view));
    }
    let out = sort_by_keys(rows, keys, Ghost(key));
    assert(out.deep_view() =~= out@.map_values(view));
    out
}

fn load_volumes(listed: Vec<Volume>) -> (out: Vec<VolumeRow>)
    ensures
        out.deep_view() == sorted_by(
            listed.deep_view().map_values(|v: VolumeSummaryView| volume_from(v)),
            by_volume_name(),
        ),
{
    let ghost all = listed.deep_view();
    let ghost from = |v: VolumeSummaryView| volume_from(v);
    let ghost view = |v: VolumeRow| v.deep_view();
    let ghost key = |v: VolumeRow| by_volume_name()(v.deep_view());
    let mut listed = listed;
    let mut rows: Vec<VolumeRow> = Vec::new();
    let mut keys: Vec<SortKey> = Vec::new();
    let ghost mut n: int = 0;
    assert(all.skip(0) =~= all);
    assert(rows.deep_view() =~= all.take(0).map_values(from));
    while listed.len() > 0
        invariant
            0 <= n,
            n + listed.len() == all.len(),
            listed.deep_view() == all.skip(n),
            from == (|v: VolumeSummaryView| volume_from(v)),
            key == (|v: VolumeRow| by_volume_name()(v.deep_view())),
            rows.deep_view() == all.take(n).map_values(from),
            rows.len() == n,
            keys.len() == n,
            forall|k: int| 0 <= k < n ==> #[trigger] keys@[k]@ == key(rows@[k]),
        decreases listed.len(),
    {
        let ghost before = listed.deep_view();
        let v = listed.remove(0);
        assert(before[0] == v.deep_view());
        assert(listed.deep_view() =~= before.drop_first());
        assert(all.skip(n).drop_first() =~= all.skip(n + 1));
        let row = VolumeRow::from_api(v);
        keys.push(SortKey::text(owned(&row.name)));
        put(&mut rows, row);
        assert(all.take(n + 1).map_values(from) =~= all.take(n).map_values(from).push(
            volume_from(all[n]),
        ));
        proof {
            n = n + 1;
        }
    }
    assert(all.take(n) =~= all);
    proof {
        sorting_maps(rows@, view, key, by_volume_name());
        assert(rows.deep_view() =~= rows@.map_values(view));
    }
    let out = sort_by_keys(rows, keys, Ghost(key));
    assert(out.deep_view() =~= out@.map_values(view));
    out
}

fn load_networks(listed: Vec<Network>) -> (out: Vec<NetworkRow>)
    ensures
        out.deep_view() == sorted_by(
            listed.deep_view().map_values(|n: NetworkSummaryView| network_from(n)),
            by_network_name(),
        ),
{
    let ghost all = listed.deep_view();
    let ghost from = |n: NetworkSummaryView| network_from(n);
    let ghost view = |n: NetworkRow| n.deep_view();
    let ghost key = |n: NetworkRow| by_network_name()(n.deep_view());
    let mut listed = listed;
    let mut rows: Vec<NetworkRow> = Vec::new();
    let mut keys: Vec<SortKey> = Vec::new();
    let ghost mut n: int = 0;
    assert(all.skip(0) =~= all);
    assert(rows.deep_view() =~= all.take(0).map_values(from));
    while listed.len() > 0
        invariant
            0 <= n,
            n + listed.len() == all.len(),
            listed.deep_view() == all.skip(n),
            from == (|n: NetworkSummaryView| network_from(n)),
            key == (|n: NetworkRow| by_network_name()(n.deep_view())),
            rows.deep_view() == all.take(n).map_values(from),
            rows.len() == n,
            keys.len() == n,
            forall|k: int| 0 <= k < n ==> #[trigger] keys@[k]@ == key(rows@[k]),
        decreases listed.len(),
    {
        let ghost before = listed.deep_view();
        let item = listed.remove(0);
        assert(before[0] == item.deep_view());
        assert(listed.deep_view() =~= before.drop_first());
        assert(all.skip(n).drop_first() =~= all.skip(n + 1));
        let row = NetworkRow::from_api(item);
        keys.push(SortKey::text(owned(&row.name)));
        put(&mut rows, row);
        assert(all.take(n + 1).map_values(from) =~= all.take(n).map_values(from).push(
            network_from(all[n]),
        ));
        proof {
            n = n + 1;
        }
    }
    assert(all.take(n) =~= all);
    proof {
        sorting_maps(rows@, view, key, by_network_name());
        assert(rows.deep_view() =~= rows@.map_values(view));
    }
    let out = sort_by_keys(rows, keys, Ghost(key));
    assert(out.deep_view() =~= out@.map_values(view));
    out
}

fn load_images(listed: &Vec<ImageSummary>) -> (out: Vec<ImageRow>)
    ensures
        out.deep_view() == sorted_by(all_images(listed.deep_view()), by_image_age()),
{
    let ghost all = listed.deep_view();
    let ghost view = |i: ImageRow| i.deep_view();
    let ghost key = |i: ImageRow| by_image_age()(i.deep_view());
    let mut rows: Vec<ImageRow> = Vec::new();
    let mut keys: Vec<SortKey> = Vec::new();
    let mut n: usize = 0;
    assert(rows.deep_view() =~= all_images(all.take(0)));
    while n < listed.len()
        invariant
            n <= listed.len(),
            all == listed.deep_view(),
            key == (|i: ImageRow| by_image_age()(i.deep_view())),
            rows.deep_view() == all_images(all.take(n as int)),
            keys.len() == rows.len(),
            forall|k: int| 0 <= k < rows.len() ==> #[trigger] keys@[k]@ == key(rows@[k]),
        decreases listed.len() - n,
    {
        assert(all.take(n + 1).drop_last() =~= all.take(n as int));
        assert(all.take(n + 1).last() == listed@[n as int].deep_view());
        let ghost before = rows.deep_view();
        let mut more = ImageRow::from_api(&listed[n]);
        let ghost added = more.deep_view();
        let ghost mut m: int = 0;
        assert(added.skip(0) =~= added);
        assert(before + added.take(0) =~= before);
        while more.len() > 0
            invariant
                0 <= m,
                m + more.len() == added.len(),
                more.deep_view() == added.skip(m),
                rows.deep_view() == before + added.take(m),
                key == (|i: ImageRow| by_image_age()(i.deep_view())),
                keys.len() == rows.len(),
                forall|k: int| 0 <= k < rows.len() ==> #[trigger] keys@[k]@ == key(rows@[k]),
            decreases more.len(),
        {
            let ghost left = more.deep_view();
            let row = more.remove(0);
            assert(left[0] == row.deep_view());
            assert(more.deep_view() =~= left.drop_first());
            assert(added.skip(m).drop_first() =~= added.skip(m + 1));
            keys.push(SortKey::number(-(row.created as i128)));
            put(&mut rows, row);
            assert(before + added.take(m + 1) =~= (before + added.take(m)).push(added[m]));
            proof {
                m = m + 1;
            }
        }
        assert(added.take(m) =~= added);
        n += 1;
    }
    assert(all.take(all.len() as int) =~= all);
    proof {
        sorting_maps(rows@, view, key, by_image_age());
        assert(rows.deep_view() =~= rows@.map_values(view));
    }
    let out = sort_by_keys(rows, keys, Ghost(key));
    assert(out.deep_view() =~= out@.map_values(view));
    out
}

/// Turn the daemon's listings into a snapshot.
///
/// The container list is the one we can't do without; the rest degrade to
/// empty so a permission quirk on, say, volumes doesn't blank the whole UI.
pub fn load(listings: Listings) -> (out: Result<Snapshot, String>)
    ensures
        match (listings.containers, out) {
            (Ok(cs), Ok(s)) => s.deep_view() == snapshot_of(
                cs.deep_view(),
                listings.images.deep_view(),
                listings.volumes.deep_view(),
                listings.networks.deep_view(),
            ),
            (Err(e), Err(msg)) => msg@ == friendly(e.deep_view()),
            _ => false,
        },
{
    let containers = match listings.containers {
        Ok(cs) => load_containers(cs),
        Err(e) => {
            return Err(friendly_error(&e));
        },
    };
    let images = match listings.images {
        Some(v) => load_images(&v),
        None => {
            let none: Vec<ImageSummary> = Vec::new();
            assert(none.deep_view() =~= Seq::<ImageSummaryView>::empty());
            load_images(&none)
        },
    };
    let mut volumes = match listings.volumes {
        Some(v) => load_volumes(v),
        None => {
            let none: Vec<Volume> = Vec::new();
            assert(none.deep_view() =~= Seq::<VolumeSummaryView>::empty());
            load_volumes(none)
        },
    };
    let mut networks = match listings.networks {
        Some(v) => load_networks(v),
        None => {
            let none: Vec<Network> = Vec::new();
            assert(none.deep_view() =~= Seq::<NetworkSummaryView>::empty());
            load_networks(none)
        },
    };
    annotate_usage(&containers, &mut volumes, &mut networks);
    Ok(Snapshot { containers, images, volumes, networks })
}

// ---------------------------------------------------------------------------
// Polling
// ---------------------------------------------------------------------------

/// The poller's memory: whether the daemon is currently out of reach, so that
/// only transitions are announced and not every failed poll.
pub struct Poller {
    pub degraded: bool,
}

/// What a poll has to say to the UI.
pub open spec fn poll_events(degraded: bool, result: Result<SnapshotView, Seq<char>>) -> Seq<
    AppEventView,
> {
    match result {
        Ok(s) => if degraded {
            seq![AppEventView::DaemonOk, AppEventView::Snapshot(s)]
        } else {
            seq![AppEventView::Snapshot(s)]
        },
        Err(msg) => if degraded {
            Seq::empty()
        } else {
            seq![AppEventView::DaemonError(msg)]
        },
    }
}

impl Poller {
    /// A poller that has heard nothing bad yet.
    pub fn new() -> (out: Poller)
        ensures
            !out.degraded,
    {
        Poller { degraded: false }
    }

    /// Take in the outcome of one poll.
    pub fn step(&mut self, result: Result<Snapshot, String>) -> (out: Vec<AppEvent>)
        ensures
            final(self).degraded == (result is Err),
            out.deep_view() == poll_events(
                old(self).degraded,
                match result {
                    Ok(s) => Ok(s.deep_view()),
                    Err(msg) => Err(msg@),
                },
            ),
    {
        let mut out: Vec<AppEvent> = Vec::new();
        assert(out.deep_view() =~= Seq::<AppEventView>::empty());
        match result {
            Ok(snapshot) => {
                if self.degraded {
                    self.degraded = false;
                    put(&mut out, AppEvent::DaemonOk);
                }
                put(&mut out, AppEvent::Snapshot(snapshot));
            },
            Err(msg) => {
                if !self.degraded {
                    self.degraded = true;
                    put(&mut out, AppEvent::DaemonError(msg));
                }
            },
        }
        assert(out.deep_view() =~= poll_events(
            old(self).degraded,
            match result {
                Ok(s) => Ok(s.deep_view()),
                Err(msg) => Err(msg@),
            },
        ));
        out
    }
}

/// An outage is announced once: after a failed poll, another failure says
/// nothing, and the next success says that the daemon is back.
pub proof fn outages_are_announced_once(
    result: Result<SnapshotView, Seq<char>>,
    snapshot: SnapshotView,
)
    ensures
        result is Err ==> poll_events(true, result).len() == 0,
        poll_events(true, Ok(snapshot))[0] == AppEventView::DaemonOk,
        !poll_events(false, Ok(snapshot)).contains(AppEventView::DaemonOk),
{
    if poll_events(false, Ok(snapshot)).contains(AppEventView::DaemonOk) {
        assert(poll_events(false, Ok(snapshot))[0] is Snapshot);
    }
}

/// The shortest wait before subscribing again, in milliseconds.
pub const FIRST_WAIT: u64 = 500;

/// The longest wait before subscribing again, in milliseconds.
pub const LONGEST_WAIT: u64 = 10_000;

/// The subscription to the daemon's event stream: how long to wait before
/// trying again, so that a daemon restart is survivable.
pub struct Subscription {
    pub wait: u64,
}

/// The wait after one of `wait` milliseconds.
pub open spec fn next_wait(wait: u64) -> int {
    if wait * 2 < LONGEST_WAIT {
        wait * 2
    } else {
        LONGEST_WAIT as int
    }
}

impl Subscription {
    /// Whether the wait is within bounds.
    pub open spec fn wf(&self) -> bool {
        FIRST_WAIT <= self.wait <= LONGEST_WAIT
    }

    /// A subscription that has not failed yet.
    pub fn new() -> (out: Subscription)
        ensures
            out.wf(),
            out.wait == FIRST_WAIT,
    {
        Subscription { wait: FIRST_WAIT }
    }

    /// An event arrived. Every event class we subscribe to (containers, images,
    /// volumes, networks) invalidates the snapshot, so there's nothing to
    /// discriminate on — the poller is woken, and the next wait is a short one.
    pub fn on_event(&mut self)
        ensures
            final(self).wf(),
            final(self).wait == FIRST_WAIT,
    {
        self.wait = FIRST_WAIT;
    }

    /// The stream failed: what to tell the UI.
    pub fn on_error(&self, err: &ApiError) -> (out: AppEvent)
        ensures
            out.deep_view() == AppEventView::DaemonError(friendly(err.deep_view())),
    {
        AppEvent::DaemonError(friendly_error(err))
    }

    /// How long to wait now, in milliseconds. Each wait is twice the one
    /// before, up to the longest.
    pub fn pause(&mut self) -> (out: u64)
        requires
            old(self).wf(),
        ensures
            final(self).wf(),
            out == old(self).wait,
            final(self).wait == next_wait(old(self).wait),
    {
        let out: u64 = self.wait;
        self.wait = if out * 2 < LONGEST_WAIT {
            out * 2
        } else {
            LONGEST_WAIT
        };
        out
    }
}

/// Waits start at half a second and double, up to ten seconds, where they stay.
pub proof fn waits_double_up_to_ten_seconds(wait: u64)
    ensures
        FIRST_WAIT == 500,
        wait <= 5_000 ==> next_wait(wait) == wait + wait,
        5_000 <= wait <= 10_000 ==> next_wait(wait) == 10_000,
{
}

} // verus!
