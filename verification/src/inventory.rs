//! Supervisor-owned normalized camera inventory.
use vstd::prelude::*;
use crate::contracts::{
    optional_text, BackendKind, CameraCapabilities, CameraGeneration, CameraInstanceId,
    IdentityStrength, PhysicalCameraId, StreamRole,
};
use crate::text::{
    chars_of, comes_before, precedes, precedes_irreflexive, precedes_total, precedes_transitive,
    texts,
};

verus! {

/// How many candidates an instance id is looked for among.
pub const MAX_INSTANCE_ID_ATTEMPTS: usize = 64;

/// What a backend says of one camera.
#[verifier::ext_equal]
pub ghost struct ObservationView {
    pub backend: BackendKind,
    pub path: Seq<char>,
    pub serial: Option<Seq<char>>,
    pub roles: Seq<StreamRole>,
    pub features: Seq<Seq<char>>,
    pub formats: Seq<Seq<char>>,
}

/// What a backend says of one camera, and the lifecycle identity that it was assigned.
#[verifier::ext_equal]
pub ghost struct DescriptorView {
    pub observation: ObservationView,
    pub id: CameraInstanceId,
    pub generation: CameraGeneration,
}

/// One backend observation before the supervisor assigns lifecycle identity.
#[derive(Clone, Debug, PartialEq, Eq)]
pub struct CameraObservation {
    pub backend: BackendKind,
    pub physical_id: PhysicalCameraId,
    pub capabilities: CameraCapabilities,
}

impl View for CameraObservation {
    type V = ObservationView;

    open spec fn view(&self) -> ObservationView {
        ObservationView {
            backend: self.backend,
            path: self.physical_id.topology_path@,
            serial: optional_text(self.physical_id.serial),
            roles: self.capabilities.roles@,
            features: texts(self.capabilities.features@),
            formats: texts(self.capabilities.formats@),
        }
    }
}

impl CameraObservation {
    pub fn new(
        backend: BackendKind,
        physical_id: PhysicalCameraId,
        capabilities: CameraCapabilities,
    ) -> (r: Self)
        ensures
            r == (CameraObservation { backend, physical_id, capabilities }),
    {
        CameraObservation { backend, physical_id, capabilities }
    }

    pub fn physical_id(&self) -> (r: &PhysicalCameraId)
        ensures
            *r == self.physical_id,
    {
        &self.physical_id
    }

    /// A copy of the observation.
    pub fn copy(&self) -> (r: Self)
        ensures
            r@ == self@,
    {
        CameraObservation {
            backend: self.backend,
            physical_id: self.physical_id.copy(),
            capabilities: self.capabilities.copy(),
        }
    }

    /// Whether two observations say the same.
    pub fn same_as(&self, other: &CameraObservation) -> (r: bool)
        ensures
            r == (self@ == other@),
    {
        let serials: bool = match (&self.physical_id.serial, &other.physical_id.serial) {
            (Some(a), Some(b)) => *a == *b,
            (None, None) => true,
            _ => false,
        };
        serials && self.backend == other.backend && self.physical_id.topology_path
            == other.physical_id.topology_path && self.capabilities.same_as(&other.capabilities)
    }

    /// The descriptor of the observed camera under a lifecycle identity.
    pub fn descriptor(
        &self,
        instance_id: &CameraInstanceId,
        generation: CameraGeneration,
    ) -> (r: CameraDescriptor)
        ensures
            r@ == (DescriptorView { observation: self@, id: *instance_id, generation }),
    {
        CameraDescriptor { observation: self.copy(), instance_id: *instance_id, generation }
    }
}

/// A camera under its lifecycle identity.
#[derive(Clone, Debug, PartialEq, Eq)]
pub struct CameraDescriptor {
    pub observation: CameraObservation,
    pub instance_id: CameraInstanceId,
    pub generation: CameraGeneration,
}

impl View for CameraDescriptor {
    type V = DescriptorView;

    open spec fn view(&self) -> DescriptorView {
        DescriptorView {
            observation: self.observation@,
            id: self.instance_id,
            generation: self.generation,
        }
    }
}

impl CameraDescriptor {
    pub fn new(
        backend: BackendKind,
        physical_id: PhysicalCameraId,
        instance_id: CameraInstanceId,
        generation: CameraGeneration,
        capabilities: CameraCapabilities,
    ) -> (r: Self)
        ensures
            r.observation == (CameraObservation { backend, physical_id, capabilities }),
            r.instance_id == instance_id,
            r.generation == generation,
    {
        CameraDescriptor {
            observation: CameraObservation { backend, physical_id, capabilities },
            instance_id,
            generation,
        }
    }

    #[must_use]
    pub fn backend(&self) -> (r: BackendKind)
        ensures
            r == self.observation.backend,
    {
        self.observation.backend
    }

    #[must_use]
    pub fn physical_id(&self) -> (r: &PhysicalCameraId)
        ensures
            *r == self.observation.physical_id,
    {
        &self.observation.physical_id
    }

    #[must_use]
    pub fn camera_instance_id(&self) -> (r: &CameraInstanceId)
        ensures
            *r == self.instance_id,
    {
        &self.instance_id
    }

    #[must_use]
    pub fn generation(&self) -> (r: CameraGeneration)
        ensures
            r == self.generation,
    {
        self.generation
    }

    /// How well the camera can be told from another of its model.
    #[must_use]
    pub fn identity_strength(&self) -> (r: IdentityStrength)
        ensures
            r == (if self@.observation.serial is Some {
                IdentityStrength::Serial
            } else {
                IdentityStrength::Ambiguous
            }),
    {
        match &self.observation.physical_id.serial {
            Some(_) => IdentityStrength::Serial,
            None => IdentityStrength::Ambiguous,
        }
    }

    /// A copy of the descriptor.
    pub fn copy(&self) -> (r: Self)
        ensures
            r@ == self@,
    {
        CameraDescriptor {
            observation: self.observation.copy(),
            instance_id: self.instance_id,
            generation: self.generation,
        }
    }
}

/// One deterministic inventory transition.
#[derive(Clone, Debug, PartialEq, Eq)]
pub enum CameraInventoryEvent {
    Added(CameraDescriptor),
    Changed { previous: CameraDescriptor, current: CameraDescriptor },
    Removed(CameraDescriptor),
}

/// One inventory transition.
pub ghost enum EventView {
    Added(DescriptorView),
    Changed(DescriptorView, DescriptorView),
    Removed(DescriptorView),
}

impl View for CameraInventoryEvent {
    type V = EventView;

    open spec fn view(&self) -> EventView {
        match *self {
            CameraInventoryEvent::Added(descriptor) => EventView::Added(descriptor@),
            CameraInventoryEvent::Changed { previous, current } => EventView::Changed(
                previous@,
                current@,
            ),
            CameraInventoryEvent::Removed(descriptor) => EventView::Removed(descriptor@),
        }
    }
}

impl EventView {
    /// The descriptor that the transition ends with, or the one that it removes.
    pub open spec fn descriptor(self) -> DescriptorView {
        match self {
            EventView::Added(descriptor) => descriptor,
            EventView::Changed(_, current) => current,
            EventView::Removed(descriptor) => descriptor,
        }
    }

    /// Removals come first, then changes, then additions.
    pub open spec fn rank(self) -> int {
        match self {
            EventView::Removed(_) => 0,
            EventView::Changed(_, _) => 1,
            EventView::Added(_) => 2,
        }
    }

    /// Whether a transition is reported before another: by rank, then by topology path.
    pub open spec fn before(self, other: EventView) -> bool {
        self.rank() < other.rank() || (self.rank() == other.rank() && precedes(
            self.descriptor().observation.path,
            other.descriptor().observation.path,
        ))
    }
}

impl CameraInventoryEvent {
    pub fn descriptor(&self) -> (r: &CameraDescriptor)
        ensures
            r@ == self@.descriptor(),
    {
        match self {
            CameraInventoryEvent::Added(descriptor) => descriptor,
            CameraInventoryEvent::Removed(descriptor) => descriptor,
            CameraInventoryEvent::Changed { previous: _, current } => current,
        }
    }

    pub fn topology_path(&self) -> (r: &str)
        ensures
            r@ == self@.descriptor().observation.path,
    {
        self.descriptor().physical_id().topology_path()
    }

    pub fn is_added(&self) -> (r: bool)
        ensures
            r == (self@ is Added),
    {
        matches!(self, CameraInventoryEvent::Added(_))
    }

    pub fn is_changed(&self) -> (r: bool)
        ensures
            r == (self@ is Changed),
    {
        matches!(self, CameraInventoryEvent::Changed { .. })
    }

    pub fn is_removed(&self) -> (r: bool)
        ensures
            r == (self@ is Removed),
    {
        matches!(self, CameraInventoryEvent::Removed(_))
    }

    /// The place of the transition's kind in a report.
    pub fn phase_rank(&self) -> (r: u8)
        ensures
            r == self@.rank(),
    {
        match self {
            CameraInventoryEvent::Removed(_) => 0,
            CameraInventoryEvent::Changed { .. } => 1,
            CameraInventoryEvent::Added(_) => 2,
        }
    }
}

/// Fail-closed inventory reconciliation or descriptor validation error.
#[derive(Clone, Debug, PartialEq, Eq)]
pub enum CameraInventoryError {
    DuplicateObservation(String),
    ForeignInstance,
    UnknownCamera,
    Removed,
    StaleGeneration,
    DescriptorMismatch,
    InstanceIdExhausted,
    Poisoned,
}

// ---------------------------------------------------------------------------------------------
// Candidates for instance ids
// ---------------------------------------------------------------------------------------------

/// Where candidates for instance ids come from: a list, whose last id is repeated, or chance
/// where the list is empty.
#[derive(Clone, Debug)]
pub struct InstanceIdSource {
    pub listed: Vec<CameraInstanceId>,
    pub drawn: usize,
}

impl InstanceIdSource {
    /// What a source keeps: ids that are well-formed, and a place in their list.
    pub open spec fn well_formed(self) -> bool {
        &&& self.drawn <= self.listed@.len()
        &&& forall|i: int| 0 <= i < self.listed@.len() ==> (#[trigger] self.listed@[i]).well_formed()
    }

    /// Whether the candidates are known beforehand.
    pub open spec fn is_listed(self) -> bool {
        self.listed@.len() > 0
    }

    /// The candidate that is drawn after `n` others.
    pub open spec fn upcoming(self, n: int) -> CameraInstanceId {
        if self.drawn + n < self.listed@.len() {
            self.listed@[self.drawn + n]
        } else {
            self.listed@.last()
        }
    }

    /// Whether this is the source `before` after `n` draws.
    pub open spec fn follows(self, before: InstanceIdSource, n: int) -> bool {
        &&& self.listed@ == before.listed@
        &&& before.is_listed() ==> self.drawn == (if before.drawn + n <= before.listed@.len() {
            before.drawn + n
        } else {
            before.listed@.len() as int
        })
    }

    /// Draws a candidate.
    pub fn draw(&mut self) -> (r: CameraInstanceId)
        requires
            old(self).well_formed(),
        ensures
            final(self).well_formed(),
            final(self).follows(*old(self), 1),
            r.well_formed(),
            old(self).is_listed() ==> r == old(self).upcoming(0),
    {
        let len: usize = self.listed.len();
        if len == 0 {
            return CameraInstanceId::generate();
        }
        if self.drawn < len {
            let id: CameraInstanceId = self.listed[self.drawn];
            self.drawn = self.drawn + 1;
            id
        } else {
            self.listed[len - 1]
        }
    }
}

// ---------------------------------------------------------------------------------------------
// The inventory
// ---------------------------------------------------------------------------------------------

/// The descriptors of a list.
pub open spec fn descriptor_views(list: Seq<CameraDescriptor>) -> Seq<DescriptorView> {
    Seq::new(list.len(), |i: int| list[i]@)
}

/// The observations of a list.
pub open spec fn observation_views(list: Seq<CameraObservation>) -> Seq<ObservationView> {
    Seq::new(list.len(), |i: int| list[i]@)
}

/// The transitions of a list.
pub open spec fn event_views(list: Seq<CameraInventoryEvent>) -> Seq<EventView> {
    Seq::new(list.len(), |i: int| list[i]@)
}

/// Whether the paths of descriptors increase.
pub open spec fn sorted_by_path(list: Seq<DescriptorView>) -> bool {
    forall|i: int, j: int|
        0 <= i < j < list.len() ==> precedes(
            (#[trigger] list[i]).observation.path,
            (#[trigger] list[j]).observation.path,
        )
}

/// The index of the descriptor with a path, if there is one.
pub open spec fn at_path(list: Seq<DescriptorView>, path: Seq<char>, i: int) -> bool {
    0 <= i < list.len() && list[i].observation.path == path
}

/// Whether a list has a descriptor with a path.
pub open spec fn has_path(list: Seq<DescriptorView>, path: Seq<char>) -> bool {
    exists|i: int| at_path(list, path, i)
}

/// The descriptor with a path.
pub open spec fn with_path(list: Seq<DescriptorView>, path: Seq<char>) -> DescriptorView {
    list[choose|i: int| at_path(list, path, i)]
}

/// Whether an observation with a path is among a snapshot's.
pub open spec fn observed(snapshot: Seq<ObservationView>, path: Seq<char>) -> bool {
    exists|i: int| 0 <= i < snapshot.len() && (#[trigger] snapshot[i]).path == path
}

/// Whether an observation repeats the path of one before it.
pub open spec fn repeats(snapshot: Seq<ObservationView>, i: int) -> bool {
    0 <= i < snapshot.len() && exists|j: int|
        0 <= j < i && (#[trigger] snapshot[j]).path == snapshot[i].path
}

/// Whether an id is that of a descriptor in a list.
pub open spec fn has_id(list: Seq<DescriptorView>, id: CameraInstanceId) -> bool {
    exists|i: int| 0 <= i < list.len() && (#[trigger] list[i]).id == id
}

/// Whether an observation is that of a descriptor in a list.
pub open spec fn has_observation(list: Seq<DescriptorView>, observation: ObservationView) -> bool {
    exists|i: int| 0 <= i < list.len() && (#[trigger] list[i]).observation == observation
}

/// Whether an observed camera needs an instance id that was never used: it is new at its place,
/// or it changed and its generations are exhausted.
pub open spec fn needs_id(active: Seq<DescriptorView>, observation: ObservationView) -> bool {
    !has_path(active, observation.path) || ({
        let known = with_path(active, observation.path);
        known.observation != observation && known.generation.value == u64::MAX
    })
}

/// What an observed camera becomes, given what the inventory held and the id that it is given
/// where it needs one.
pub open spec fn becomes(
    active: Seq<DescriptorView>,
    observation: ObservationView,
    id: CameraInstanceId,
) -> DescriptorView {
    let known = with_path(active, observation.path);
    if needs_id(active, observation) {
        DescriptorView { observation, id, generation: CameraGeneration { value: 1 } }
    } else if known.observation == observation {
        known
    } else {
        DescriptorView {
            observation,
            id: known.id,
            generation: CameraGeneration { value: (known.generation.value + 1) as u64 },
        }
    }
}

/// Whether a transition is one that a reconciliation makes.
pub open spec fn is_transition(
    before: Seq<DescriptorView>,
    snapshot: Seq<ObservationView>,
    after: Seq<DescriptorView>,
    event: EventView,
) -> bool {
    match event {
        EventView::Removed(descriptor) => before.contains(descriptor) && !observed(
            snapshot,
            descriptor.observation.path,
        ),
        EventView::Added(descriptor) => after.contains(descriptor) && !has_path(
            before,
            descriptor.observation.path,
        ),
        EventView::Changed(previous, current) => {
            &&& before.contains(previous)
            &&& after.contains(current)
            &&& previous.observation.path == current.observation.path
            &&& previous.observation != current.observation
        },
    }
}

/// Process-scoped physical-camera lifecycle state.
///
/// Reconciliation is transactional: malformed snapshots and instance-ID
/// exhaustion leave active entries, tombstones, and retired IDs unchanged.
pub struct CameraInventory {
    active: Vec<CameraDescriptor>,
    tombstones: Vec<String>,
    retired_instance_ids: Vec<CameraInstanceId>,
    instance_id_source: InstanceIdSource,
}

impl CameraInventory {
    /// The active cameras, in the order of their paths.
    pub closed spec fn active(self) -> Seq<DescriptorView> {
        descriptor_views(self.active@)
    }

    /// The paths at which a camera was and is no longer.
    pub closed spec fn tombstones(self) -> Set<Seq<char>> {
        texts(self.tombstones@).to_set()
    }

    /// The instance ids that are not used again.
    pub closed spec fn retired(self) -> Set<CameraInstanceId> {
        self.retired_instance_ids@.to_set()
    }

    /// Where candidates for instance ids come from.
    pub closed spec fn source(self) -> InstanceIdSource {
        self.instance_id_source
    }

    /// Whether an id belongs, or belonged, to a camera of this inventory.
    pub open spec fn knows(self, id: CameraInstanceId) -> bool {
        has_id(self.active(), id) || self.retired().contains(id)
    }

    /// What every inventory keeps: one entry for each path, in order; no id twice, none that was
    /// retired; no tombstone where a camera is.
    pub open spec fn well_formed(self) -> bool {
        let active = self.active();
        &&& sorted_by_path(active)
        &&& forall|i: int, j: int|
            0 <= i < j < active.len() ==> (#[trigger] active[i]).id != (#[trigger] active[j]).id
        &&& forall|i: int|
            0 <= i < active.len() ==> !self.retired().contains((#[trigger] active[i]).id)
        &&& forall|i: int|
            0 <= i < active.len() ==> !self.tombstones().contains(
                (#[trigger] active[i]).observation.path,
            )
        &&& forall|i: int| 0 <= i < active.len() ==> (#[trigger] active[i]).generation.well_formed()
        &&& self.source().well_formed()
    }

    /// Whether the cameras, tombstones and retired ids are the same.
    pub open spec fn same_state(self, other: CameraInventory) -> bool {
        &&& self.active() == other.active()
        &&& self.tombstones() == other.tombstones()
        &&& self.retired() == other.retired()
    }

    /// Whether this inventory is what `before` becomes when a snapshot without duplicates is
    /// taken in.
    pub open spec fn reconciled(
        self,
        before: CameraInventory,
        snapshot: Seq<ObservationView>,
    ) -> bool {
        let old_active = before.active();
        let new_active = self.active();
        &&& forall|path: Seq<char>|
            #[trigger] has_path(new_active, path) <==> observed(snapshot, path)
        &&& forall|i: int|
            0 <= i < new_active.len() ==> snapshot.contains((#[trigger] new_active[i]).observation)
        &&& forall|i: int|
            0 <= i < new_active.len() ==> ({
                let entry = #[trigger] new_active[i];
                entry == becomes(old_active, entry.observation, entry.id)
            })
        &&& forall|i: int|
            0 <= i < new_active.len() ==> ({
                let entry = #[trigger] new_active[i];
                needs_id(old_active, entry.observation) ==> !before.knows(entry.id)
            })
        &&& forall|path: Seq<char>|
            #[trigger] self.tombstones().contains(path) <==> !observed(snapshot, path) && (
            before.tombstones().contains(path) || has_path(old_active, path))
        &&& forall|id: CameraInstanceId|
            #[trigger] self.retired().contains(id) <==> before.retired().contains(id) || (has_id(
                old_active,
                id,
            ) && !has_id(new_active, id))
    }
}

// ---------------------------------------------------------------------------------------------
// Searching
// ---------------------------------------------------------------------------------------------

/// Whether the path `a` comes before the path `b`.
fn path_before(a: &str, b: &str) -> (r: bool)
    ensures
        r == precedes(a@, b@),
{
    comes_before(chars_of(a).as_slice(), chars_of(b).as_slice())
}

/// The index of the descriptor with a path, if there is one.
fn find_path(list: &Vec<CameraDescriptor>, path: &String) -> (r: Option<usize>)
    ensures
        match r {
            Some(i) => at_path(descriptor_views(list@), path@, i as int),
            None => !has_path(descriptor_views(list@), path@),
        },
{
    let mut i: usize = 0;
    while i < list.len()
        invariant
            i <= list@.len(),
            forall|k: int| 0 <= k < i ==> !#[trigger] at_path(descriptor_views(list@), path@, k),
        decreases list@.len() - i,
    {
        if list[i].observation.physical_id.topology_path == *path {
            return Some(i);
        }
        i = i + 1;
    }
    None
}

/// Whether an observation with a path is among a snapshot's.
fn find_observed(list: &Vec<CameraObservation>, path: &String) -> (r: bool)
    ensures
        r == observed(observation_views(list@), path@),
{
    let ghost views = observation_views(list@);
    let mut i: usize = 0;
    while i < list.len()
        invariant
            i <= list@.len(),
            views == observation_views(list@),
            forall|k: int| 0 <= k < i ==> (#[trigger] views[k]).path != path@,
        decreases list@.len() - i,
    {
        if list[i].physical_id.topology_path == *path {
            assert(views[i as int].path == path@);
            return true;
        }
        i = i + 1;
    }
    false
}

/// Whether an id is that of a descriptor in a list.
fn find_id(list: &Vec<CameraDescriptor>, id: CameraInstanceId) -> (r: bool)
    ensures
        r == has_id(descriptor_views(list@), id),
{
    let ghost views = descriptor_views(list@);
    let mut i: usize = 0;
    while i < list.len()
        invariant
            i <= list@.len(),
            views == descriptor_views(list@),
            forall|k: int| 0 <= k < i ==> (#[trigger] views[k]).id != id,
        decreases list@.len() - i,
    {
        if list[i].instance_id == id {
            assert(views[i as int].id == id);
            return true;
        }
        i = i + 1;
    }
    false
}

/// Whether an id is in a list.
fn find_retired(list: &Vec<CameraInstanceId>, id: CameraInstanceId) -> (r: bool)
    ensures
        r == list@.to_set().contains(id),
{
    let mut i: usize = 0;
    while i < list.len()
        invariant
            i <= list@.len(),
            forall|k: int| 0 <= k < i ==> list@[k] != id,
        decreases list@.len() - i,
    {
        if list[i] == id {
            assert(list@.contains(id));
            return true;
        }
        i = i + 1;
    }
    false
}

/// Whether a text is in a list.
fn find_text(list: &Vec<String>, text: &String) -> (r: bool)
    ensures
        r == texts(list@).to_set().contains(text@),
{
    let ghost views = texts(list@);
    let mut i: usize = 0;
    while i < list.len()
        invariant
            i <= list@.len(),
            views == texts(list@),
            forall|k: int| 0 <= k < i ==> views[k] != text@,
        decreases list@.len() - i,
    {
        if list[i] == *text {
            assert(views[i as int] == text@);
            return true;
        }
        i = i + 1;
    }
    false
}

/// In a list sorted by path no path occurs twice.
proof fn paths_are_unique(list: Seq<DescriptorView>, i: int, j: int)
    requires
        sorted_by_path(list),
        0 <= i < list.len(),
        0 <= j < list.len(),
        list[i].observation.path == list[j].observation.path,
    ensures
        i == j,
{
    precedes_irreflexive(list[i].observation.path);
}

/// The descriptor with a path is the one that was found.
proof fn found_is_with_path(list: Seq<DescriptorView>, path: Seq<char>, i: int)
    requires
        sorted_by_path(list),
        at_path(list, path, i),
    ensures
        has_path(list, path),
        with_path(list, path) == list[i],
{
    let chosen = choose|k: int| at_path(list, path, k);
    assert(at_path(list, path, chosen));
    paths_are_unique(list, chosen, i);
}

// ---------------------------------------------------------------------------------------------
// Snapshots
// ---------------------------------------------------------------------------------------------

/// Whether the paths of observations increase.
spec fn observations_sorted(list: Seq<ObservationView>) -> bool {
    forall|i: int, j: int|
        0 <= i < j < list.len() ==> precedes(
            (#[trigger] list[i]).path,
            (#[trigger] list[j]).path,
        )
}

/// Where a path belongs in a list sorted by path: before the first that it does not follow.
fn place_of(list: &Vec<CameraObservation>, path: &String) -> (r: usize)
    ensures
        r <= list@.len(),
        forall|k: int|
            0 <= k < r ==> precedes((#[trigger] observation_views(list@)[k]).path, path@),
        r < list@.len() ==> !precedes(observation_views(list@)[r as int].path, path@),
{
    let mut i: usize = 0;
    while i < list.len() && path_before(list[i].physical_id.topology_path.as_str(), path.as_str())
        invariant
            i <= list@.len(),
            forall|k: int|
                0 <= k < i ==> precedes((#[trigger] observation_views(list@)[k]).path, path@),
        decreases list@.len() - i,
    {
        assert(precedes(observation_views(list@)[i as int].path, path@));
        i = i + 1;
    }
    i
}

/// The observations of a snapshot in the order of their paths, or the first path that occurs a
/// second time.
fn sorted(observations: &Vec<CameraObservation>) -> (r: Result<
    Vec<CameraObservation>,
    CameraInventoryError,
>)
    ensures
        match r {
            Ok(list) => {
                &&& forall|i: int| !#[trigger] repeats(observation_views(observations@), i)
                &&& observations_sorted(observation_views(list@))
                &&& forall|o: ObservationView|
                    #[trigger] observation_views(list@).contains(o) <==> observation_views(
                        observations@,
                    ).contains(o)
                &&& list@.len() == observations@.len()
            },
            Err(error) => {
                &&& error matches CameraInventoryError::DuplicateObservation(path)
                &&& exists|i: int|
                    {
                        &&& #[trigger] repeats(observation_views(observations@), i)
                        &&& path@ == observation_views(observations@)[i].path
                        &&& forall|j: int|
                            0 <= j < i ==> !#[trigger] repeats(observation_views(observations@), j)
                    }
            },
        },
{
    let ghost snapshot = observation_views(observations@);
    let mut list: Vec<CameraObservation> = Vec::new();
    let mut k: usize = 0;
    while k < observations.len()
        invariant
            k <= observations@.len(),
            list@.len() == k,
            snapshot == observation_views(observations@),
            observations_sorted(observation_views(list@)),
            forall|j: int| 0 <= j < k ==> !#[trigger] repeats(snapshot, j),
            forall|j: int|
                0 <= j < k ==> observation_views(list@).contains(#[trigger] snapshot[j]),
            forall|j: int|
                0 <= j < list@.len() ==> snapshot.take(k as int).contains(
                    #[trigger] observation_views(list@)[j],
                ),
        decreases observations@.len() - k,
    {
        let next: CameraObservation = observations[k].copy();
        let path: String = next.physical_id.topology_path.clone();
        let at: usize = place_of(&list, &path);
        let ghost views = observation_views(list@);
        let ghost entry = next@;
        assert(entry == snapshot[k as int]);
        if at < list.len() && list[at].physical_id.topology_path == path {
            proof {
                let held = views[at as int];
                assert(snapshot.take(k as int).contains(held));
                let j = choose|j: int| 0 <= j < k && snapshot.take(k as int)[j] == held;
                assert(snapshot[j].path == snapshot[k as int].path);
                assert(repeats(snapshot, k as int));
            }
            return Err(CameraInventoryError::DuplicateObservation(path));
        }
        proof {
            // The path is new, and those from its place on come after it.
            if at < views.len() {
                precedes_total(views[at as int].path, path@);
            }
            assert forall|m: int| at <= m < views.len() implies precedes(
                path@,
                (#[trigger] views[m]).path,
            ) by {
                if m > at {
                    precedes_transitive(path@, views[at as int].path, views[m].path);
                }
            }
            assert(!repeats(snapshot, k as int)) by {
                if repeats(snapshot, k as int) {
                    let j = choose|j: int|
                        0 <= j < k && (#[trigger] snapshot[j]).path == snapshot[k as int].path;
                    assert(views.contains(snapshot[j]));
                    let m = choose|m: int| 0 <= m < views.len() && views[m] == snapshot[j];
                    precedes_irreflexive(path@);
                    assert(precedes(views[m].path, path@) || precedes(path@, views[m].path));
                }
            }
        }
        list.insert(at, next);
        let ghost after = observation_views(list@);
        proof {
            assert(after =~= views.insert(at as int, entry));
            assert forall|i: int, j: int| 0 <= i < j < after.len() implies precedes(
                (#[trigger] after[i]).path,
                (#[trigger] after[j]).path,
            ) by {
                let a = if i < at { i } else { i - 1 };
                let b = if j < at { j } else { j - 1 };
                if i == at {
                    assert(after[j] == views[b]);
                } else if j == at {
                    assert(after[i] == views[a]);
                } else {
                    assert(after[i] == views[a]);
                    assert(after[j] == views[b]);
                }
            }
            assert forall|j: int| 0 <= j < k + 1 implies after.contains(
                #[trigger] snapshot[j],
            ) by {
                if j == k {
                    assert(after[at as int] == entry);
                } else {
                    assert(views.contains(snapshot[j]));
                    let m = choose|m: int| 0 <= m < views.len() && views[m] == snapshot[j];
                    assert(after[if m < at { m } else { m + 1 }] == snapshot[j]);
                }
            }
            assert forall|j: int| 0 <= j < after.len() implies snapshot.take(
                k as int + 1,
            ).contains(#[trigger] after[j]) by {
                if j == at {
                    assert(snapshot.take(k as int + 1)[k as int] == entry);
                } else {
                    let m = if j < at { j } else { j - 1 };
                    assert(after[j] == views[m]);
                    let h = choose|h: int|
                        0 <= h < k && snapshot.take(k as int)[h] == views[m];
                    assert(snapshot.take(k as int + 1)[h] == after[j]);
                }
            }
        }
        k = k + 1;
    }
    assert(snapshot.take(k as int) =~= snapshot);
    proof {
        let views = observation_views(list@);
        assert forall|o: ObservationView| #[trigger] views.contains(o) <==> snapshot.contains(o) by {
            if views.contains(o) {
                let m = choose|m: int| 0 <= m < views.len() && views[m] == o;
                assert(snapshot.take(k as int).contains(views[m]));
            }
            if snapshot.contains(o) {
                let m = choose|m: int| 0 <= m < snapshot.len() && snapshot[m] == o;
                assert(views.contains(snapshot[m]));
            }
        }
    }
    Ok(list)
}

// ---------------------------------------------------------------------------------------------
// Reconciliation
// ---------------------------------------------------------------------------------------------

/// How many of the entries needed an instance id that was never used.
pub open spec fn ids_needed(active: Seq<DescriptorView>, entries: Seq<DescriptorView>) -> int
    decreases entries.len(),
{
    if entries.len() == 0 {
        0
    } else {
        ids_needed(active, entries.drop_last()) + (if needs_id(
            active,
            entries.last().observation,
        ) {
            1int
        } else {
            0int
        })
    }
}

impl CameraInventory {
    /// Whether the next `n` candidates are listed, differ, and belong to no camera.
    pub open spec fn plenty(self, n: int) -> bool {
        &&& self.source().is_listed()
        &&& forall|i: int| 0 <= i < n ==> !self.knows(#[trigger] self.source().upcoming(i))
        &&& forall|i: int, j: int|
            0 <= i < j < n ==> #[trigger] self.source().upcoming(i)
                != #[trigger] self.source().upcoming(j)
    }

    /// An inventory without cameras.
    #[must_use]
    pub fn new() -> (r: Self)
        ensures
            r.well_formed(),
            r.active() == Seq::<DescriptorView>::empty(),
            r.tombstones() == Set::<Seq<char>>::empty(),
            r.retired() == Set::<CameraInstanceId>::empty(),
            !r.source().is_listed(),
    {
        CameraInventory::with_instance_id_source(
            InstanceIdSource { listed: Vec::new(), drawn: 0 },
        )
    }

    /// An inventory without cameras that takes its candidates for instance ids from a source.
    #[must_use]
    pub fn with_instance_id_source(instance_id_source: InstanceIdSource) -> (r: Self)
        requires
            instance_id_source.well_formed(),
        ensures
            r.well_formed(),
            r.active() == Seq::<DescriptorView>::empty(),
            r.tombstones() == Set::<Seq<char>>::empty(),
            r.retired() == Set::<CameraInstanceId>::empty(),
            r.source() == instance_id_source,
    {
        let r = CameraInventory {
            active: Vec::new(),
            tombstones: Vec::new(),
            retired_instance_ids: Vec::new(),
            instance_id_source,
        };
        assert(r.active() =~= Seq::<DescriptorView>::empty());
        assert(r.tombstones() =~= Set::<Seq<char>>::empty());
        assert(r.retired() =~= Set::<CameraInstanceId>::empty());
        r
    }

    /// An inventory without cameras that takes its candidates for instance ids from a list.
    #[must_use]
    pub fn with_instance_ids_for_test(ids: Vec<CameraInstanceId>) -> (r: Self)
        requires
            ids@.len() > 0,
            forall|i: int| 0 <= i < ids@.len() ==> (#[trigger] ids@[i]).well_formed(),
        ensures
            r.well_formed(),
            r.active() == Seq::<DescriptorView>::empty(),
            r.tombstones() == Set::<Seq<char>>::empty(),
            r.retired() == Set::<CameraInstanceId>::empty(),
            r.source() == (InstanceIdSource { listed: ids, drawn: 0 }),
    {
        CameraInventory::with_instance_id_source(InstanceIdSource { listed: ids, drawn: 0 })
    }

    /// An inventory with one camera, whose next candidate for an instance id is always the same.
    #[must_use]
    pub fn with_active_for_test(
        observation: CameraObservation,
        instance_id: CameraInstanceId,
        generation: CameraGeneration,
        replacement_id: CameraInstanceId,
    ) -> (r: Self)
        requires
            generation.well_formed(),
            replacement_id.well_formed(),
        ensures
            r.well_formed(),
            r.active() == seq![
                DescriptorView { observation: observation@, id: instance_id, generation },
            ],
            r.tombstones() == Set::<Seq<char>>::empty(),
            r.retired() == Set::<CameraInstanceId>::empty(),
            r.source().listed@ == seq![replacement_id],
            r.source().drawn == 0,
    {
        let mut active: Vec<CameraDescriptor> = Vec::new();
        active.push(observation.descriptor(&instance_id, generation));
        let mut listed: Vec<CameraInstanceId> = Vec::new();
        listed.push(replacement_id);
        let r = CameraInventory {
            active,
            tombstones: Vec::new(),
            retired_instance_ids: Vec::new(),
            instance_id_source: InstanceIdSource { listed, drawn: 0 },
        };
        assert(r.active() =~= seq![
            DescriptorView { observation: observation@, id: instance_id, generation },
        ]);
        assert(r.tombstones() =~= Set::<Seq<char>>::empty());
        assert(r.retired() =~= Set::<CameraInstanceId>::empty());
        assert(r.source().listed@ =~= seq![replacement_id]);
        r
    }

    /// Whether a candidate belongs to a camera of this inventory or of its successor.
    pub open spec fn collides(
        self,
        next_active: Seq<DescriptorView>,
        candidate: CameraInstanceId,
    ) -> bool {
        self.knows(candidate) || has_id(next_active, candidate)
    }

    /// How many of the `limit` candidates that are drawn after `from` others collide before the
    /// first that does not, where `entries` have their ids already: all of them, if none is free.
    pub open spec fn skipped(self, entries: Seq<DescriptorView>, from: int, limit: nat) -> nat
        decreases limit,
    {
        if limit == 0 || !self.collides(entries, self.source().upcoming(from)) {
            0
        } else {
            1 + self.skipped(entries, from + 1, (limit - 1) as nat)
        }
    }

    /// How many candidates are drawn until entries have their ids: for each that needs one, those
    /// that collide and the first that does not.
    pub open spec fn drawn_for(self, entries: Seq<DescriptorView>) -> nat
        decreases entries.len(),
    {
        if entries.len() == 0 {
            0
        } else {
            let given = entries.drop_last();
            let from = self.drawn_for(given);
            if needs_id(self.active(), entries.last().observation) {
                from + self.skipped(given, from as int, MAX_INSTANCE_ID_ATTEMPTS as nat) + 1
            } else {
                from
            }
        }
    }

    /// Whether each entry that needs an id has the first upcoming candidate that collides with
    /// nothing, and that is among the candidates which are tried.
    pub open spec fn ids_as_drawn(self, entries: Seq<DescriptorView>) -> bool {
        forall|i: int|
            0 <= i < entries.len() && needs_id(
                self.active(),
                (#[trigger] entries[i]).observation,
            ) ==> {
                let given = entries.take(i);
                let from = self.drawn_for(given) as int;
                let skipped = self.skipped(given, from, MAX_INSTANCE_ID_ATTEMPTS as nat);
                skipped < MAX_INSTANCE_ID_ATTEMPTS && entries[i].id == self.source().upcoming(
                    from + skipped,
                )
            }
    }

    /// Whether an observation of a snapshot gets no id: it needs one, `entries` are what the
    /// observations at the paths before its own become, and every candidate that is then tried
    /// collides.
    pub open spec fn exhausted_at(
        self,
        snapshot: Seq<ObservationView>,
        entries: Seq<DescriptorView>,
        observation: ObservationView,
    ) -> bool {
        &&& snapshot.contains(observation)
        &&& needs_id(self.active(), observation)
        &&& sorted_by_path(entries)
        &&& forall|o: ObservationView|
            #[trigger] has_observation(entries, o) <==> snapshot.contains(o) && precedes(
                o.path,
                observation.path,
            )
        &&& forall|i: int|
            0 <= i < entries.len() ==> #[trigger] entries[i] == becomes(
                self.active(),
                entries[i].observation,
                entries[i].id,
            )
        &&& self.ids_as_drawn(entries)
        &&& forall|m: int|
            0 <= m < MAX_INSTANCE_ID_ATTEMPTS ==> self.collides(
                entries,
                #[trigger] self.source().upcoming(self.drawn_for(entries) + m),
            )
    }

    /// The candidates up to the first free one are those that are skipped.
    proof fn skipped_before(self, entries: Seq<DescriptorView>, from: int, limit: nat, n: nat)
        requires
            n <= limit,
            forall|m: int|
                0 <= m < n ==> self.collides(entries, #[trigger] self.source().upcoming(from + m)),
            n < limit ==> !self.collides(entries, self.source().upcoming(from + n)),
        ensures
            self.skipped(entries, from, limit) == n,
        decreases limit,
    {
        if n > 0 {
            assert(self.collides(entries, self.source().upcoming(from + 0)));
            assert forall|m: int| 0 <= m < n - 1 implies self.collides(
                entries,
                #[trigger] self.source().upcoming(from + 1 + m),
            ) by {
                assert(self.collides(entries, self.source().upcoming(from + (m + 1))));
            }
            self.skipped_before(entries, from + 1, (limit - 1) as nat, (n - 1) as nat);
        }
    }

    /// The candidate that a source gives after `n` that collide is the one that is drawn next.
    proof fn candidate_is_drawn(
        self,
        entries: Seq<DescriptorView>,
        source: InstanceIdSource,
        n: nat,
    )
        requires
            self.source().is_listed(),
            source.follows(self.source(), self.drawn_for(entries) as int),
            n < MAX_INSTANCE_ID_ATTEMPTS,
            !self.collides(entries, source.upcoming(n as int)),
            forall|m: int|
                0 <= m < n ==> self.collides(entries, #[trigger] source.upcoming(m)),
        ensures
            self.skipped(
                entries,
                self.drawn_for(entries) as int,
                MAX_INSTANCE_ID_ATTEMPTS as nat,
            ) == n,
            source.upcoming(n as int) == self.source().upcoming(self.drawn_for(entries) + n as int),
    {
        let from = self.drawn_for(entries) as int;
        assert forall|m: int| 0 <= m < n implies self.collides(
            entries,
            #[trigger] self.source().upcoming(from + m),
        ) by {
            assert(source.upcoming(m) == self.source().upcoming(from + m));
        }
        self.skipped_before(entries, from, MAX_INSTANCE_ID_ATTEMPTS as nat, n);
    }

    /// Where every candidate of a source collides, every one that is drawn next does.
    proof fn candidates_run_out(self, entries: Seq<DescriptorView>, source: InstanceIdSource)
        requires
            self.source().is_listed(),
            source.follows(self.source(), self.drawn_for(entries) as int),
            forall|m: int|
                0 <= m < MAX_INSTANCE_ID_ATTEMPTS ==> self.collides(
                    entries,
                    #[trigger] source.upcoming(m),
                ),
        ensures
            forall|m: int|
                0 <= m < MAX_INSTANCE_ID_ATTEMPTS ==> self.collides(
                    entries,
                    #[trigger] self.source().upcoming(self.drawn_for(entries) + m),
                ),
    {
        let from = self.drawn_for(entries) as int;
        assert forall|m: int| 0 <= m < MAX_INSTANCE_ID_ATTEMPTS implies self.collides(
            entries,
            #[trigger] self.source().upcoming(from + m),
        ) by {
            assert(source.upcoming(m) == self.source().upcoming(from + m));
        }
    }

    /// One more entry has the id that was drawn for it.
    proof fn drawn_extends(self, entries: Seq<DescriptorView>, entry: DescriptorView)
        requires
            self.ids_as_drawn(entries),
            needs_id(self.active(), entry.observation) ==> ({
                let from = self.drawn_for(entries) as int;
                let skipped = self.skipped(entries, from, MAX_INSTANCE_ID_ATTEMPTS as nat);
                skipped < MAX_INSTANCE_ID_ATTEMPTS && entry.id == self.source().upcoming(
                    from + skipped,
                )
            }),
        ensures
            self.ids_as_drawn(entries.push(entry)),
            self.drawn_for(entries.push(entry)) == self.drawn_for(entries) + (if needs_id(
                self.active(),
                entry.observation,
            ) {
                self.skipped(
                    entries,
                    self.drawn_for(entries) as int,
                    MAX_INSTANCE_ID_ATTEMPTS as nat,
                ) + 1
            } else {
                0nat
            }),
    {
        let longer = entries.push(entry);
        assert(longer.drop_last() =~= entries);
        assert(longer.take(entries.len() as int) =~= entries);
        assert forall|i: int| 0 <= i < entries.len() implies #[trigger] longer.take(i)
            == entries.take(i) by {
            assert(longer.take(i) =~= entries.take(i));
        }
        assert forall|i: int| 0 <= i < entries.len() implies longer[i] == #[trigger] entries[i] by {}
    }

    /// Whether the next of a sorted snapshot's observations, after those that became `entries`,
    /// gets no id.
    spec fn stuck(
        self,
        ordered: Seq<ObservationView>,
        entries: Seq<DescriptorView>,
    ) -> bool {
        &&& entries.len() < ordered.len()
        &&& Self::taken_in(self, ordered.take(entries.len() as int), entries)
        &&& self.ids_as_drawn(entries)
        &&& needs_id(self.active(), ordered[entries.len() as int])
        &&& forall|m: int|
            0 <= m < MAX_INSTANCE_ID_ATTEMPTS ==> self.collides(
                entries,
                #[trigger] self.source().upcoming(self.drawn_for(entries) + m),
            )
    }

    /// What a sorted snapshot is stuck at, the snapshot is.
    proof fn stuck_is_exhausted(
        self,
        snapshot: Seq<ObservationView>,
        ordered: Seq<ObservationView>,
        entries: Seq<DescriptorView>,
    )
        requires
            observations_sorted(ordered),
            forall|o: ObservationView|
                #[trigger] ordered.contains(o) <==> snapshot.contains(o),
            self.stuck(ordered, entries),
        ensures
            self.exhausted_at(snapshot, entries, ordered[entries.len() as int]),
    {
        let k = entries.len() as int;
        let observation = ordered[k];
        assert(ordered.contains(observation));
        assert forall|i: int| 0 <= i < k implies (#[trigger] entries[i]).observation
            == ordered[i] by {
            assert(entries[i].observation == ordered.take(k)[i]);
        }
        assert forall|o: ObservationView|
            #[trigger] has_observation(entries, o) <==> snapshot.contains(o) && precedes(
                o.path,
                observation.path,
            ) by {
            if has_observation(entries, o) {
                let i = choose|i: int|
                    0 <= i < entries.len() && (#[trigger] entries[i]).observation == o;
                assert(ordered[i] == o);
                assert(ordered.contains(o));
            }
            if snapshot.contains(o) && precedes(o.path, observation.path) {
                assert(ordered.contains(o));
                let i = choose|i: int| 0 <= i < ordered.len() && ordered[i] == o;
                if i >= k {
                    if i > k {
                        assert(precedes(ordered[k].path, ordered[i].path));
                        precedes_transitive(o.path, observation.path, o.path);
                    }
                    precedes_irreflexive(o.path);
                }
                assert(entries[i].observation == o);
            }
        }
    }

    /// Looks for an instance id that no camera has or had, among a bounded number of candidates:
    /// the first that collides with nothing.
    pub fn mint_unique_instance_id(&mut self, next_active: &Vec<CameraDescriptor>) -> (r: Result<
        CameraInstanceId,
        CameraInventoryError,
    >)
        requires
            old(self).source().well_formed(),
        ensures
            final(self).same_state(*old(self)),
            final(self).source().well_formed(),
            match r {
                Ok(id) => {
                    &&& id.well_formed()
                    &&& !old(self).collides(descriptor_views(next_active@), id)
                    &&& old(self).source().is_listed() ==> exists|n: int|
                        {
                            &&& 0 <= n < MAX_INSTANCE_ID_ATTEMPTS
                            &&& id == #[trigger] old(self).source().upcoming(n)
                            &&& final(self).source().follows(old(self).source(), n + 1)
                            &&& forall|m: int|
                                0 <= m < n ==> old(self).collides(
                                    descriptor_views(next_active@),
                                    #[trigger] old(self).source().upcoming(m),
                                )
                        }
                },
                Err(error) => {
                    &&& error == CameraInventoryError::InstanceIdExhausted
                    &&& old(self).source().is_listed() ==> forall|m: int|
                        0 <= m < MAX_INSTANCE_ID_ATTEMPTS ==> old(self).collides(
                            descriptor_views(next_active@),
                            #[trigger] old(self).source().upcoming(m),
                        )
                    &&& final(self).source().follows(
                        old(self).source(),
                        MAX_INSTANCE_ID_ATTEMPTS as int,
                    )
                },
            },
            final(self).source().listed@ == old(self).source().listed@,
    {
        let ghost before = *self;
        let ghost next = descriptor_views(next_active@);
        let mut tried: usize = 0;
        while tried < MAX_INSTANCE_ID_ATTEMPTS
            invariant
                tried <= MAX_INSTANCE_ID_ATTEMPTS,
                before == *old(self),
                self.same_state(before),
                self.source().well_formed(),
                before.source().well_formed(),
                next == descriptor_views(next_active@),
                self.source().follows(before.source(), tried as int),
                before.source().is_listed() ==> forall|m: int|
                    0 <= m < tried ==> before.collides(
                        next,
                        #[trigger] before.source().upcoming(m),
                    ),
            decreases MAX_INSTANCE_ID_ATTEMPTS - tried,
        {
            let candidate: CameraInstanceId = self.instance_id_source.draw();
            assert(before.source().is_listed() ==> candidate == before.source().upcoming(
                tried as int,
            ));
            let taken: bool = find_id(&self.active, candidate) || find_id(next_active, candidate)
                || find_retired(&self.retired_instance_ids, candidate);
            assert(taken == before.collides(next, candidate));
            if !taken {
                return Ok(candidate);
            }
            tried = tried + 1;
        }
        Err(CameraInventoryError::InstanceIdExhausted)
    }

    /// What the cameras of a sorted snapshot become, and the changes and additions among them.
    fn take_in(&mut self, incoming: &Vec<CameraObservation>) -> (r: Result<
        (Vec<CameraDescriptor>, Vec<CameraInventoryEvent>, Vec<CameraInventoryEvent>),
        CameraInventoryError,
    >)
        requires
            old(self).well_formed(),
            observations_sorted(observation_views(incoming@)),
        ensures
            final(self).same_state(*old(self)),
            final(self).source().well_formed(),
            final(self).source().listed@ == old(self).source().listed@,
            match r {
                Ok((next, changed, added)) => {
                    let entries = descriptor_views(next@);
                    &&& Self::taken_in(*old(self), observation_views(incoming@), entries)
                    &&& Self::reported(
                        old(self).active(),
                        entries,
                        event_views(changed@),
                        event_views(added@),
                    )
                    &&& old(self).plenty(incoming@.len() as int) ==> Self::ids_in_order(
                        *old(self),
                        entries,
                    )
                    &&& old(self).source().is_listed() ==> old(self).ids_as_drawn(entries)
                        && final(self).source().follows(
                        old(self).source(),
                        old(self).drawn_for(entries) as int,
                    )
                },
                Err(error) => {
                    &&& error == CameraInventoryError::InstanceIdExhausted
                    &&& old(self).source().is_listed() ==> exists|entries: Seq<DescriptorView>|
                        {
                            &&& #[trigger] old(self).stuck(observation_views(incoming@), entries)
                            &&& final(self).source().follows(
                                old(self).source(),
                                old(self).drawn_for(entries) + MAX_INSTANCE_ID_ATTEMPTS,
                            )
                        }
                    &&& exists|i: int|
                        0 <= i < incoming@.len() && needs_id(
                            old(self).active(),
                            #[trigger] observation_views(incoming@)[i],
                        )
                    &&& !old(self).plenty(incoming@.len() as int)
                },
            },
    {
        let ghost before = *self;
        let ghost active = self.active();
        let ghost snapshot = observation_views(incoming@);
        let mut next: Vec<CameraDescriptor> = Vec::new();
        let mut changed: Vec<CameraInventoryEvent> = Vec::new();
        let mut added: Vec<CameraInventoryEvent> = Vec::new();
        let mut k: usize = 0;
        assert(snapshot.take(0) =~= Seq::<ObservationView>::empty());
        while k < incoming.len()
            invariant
                k <= incoming@.len(),
                next@.len() == k,
                before == *old(self),
                before.well_formed(),
                active == before.active(),
                snapshot == observation_views(incoming@),
                observations_sorted(snapshot),
                self.same_state(before),
                self.source().well_formed(),
                self.source().listed@ == before.source().listed@,
                Self::taken_in(before, snapshot.take(k as int), descriptor_views(next@)),
                Self::reported(
                    active,
                    descriptor_views(next@),
                    event_views(changed@),
                    event_views(added@),
                ),
                before.plenty(incoming@.len() as int) ==> {
                    &&& Self::ids_in_order(before, descriptor_views(next@))
                    &&& self.source().follows(
                        before.source(),
                        ids_needed(active, descriptor_views(next@)),
                    )
                    &&& 0 <= ids_needed(active, descriptor_views(next@)) <= k
                },
                before.source().is_listed() ==> before.ids_as_drawn(descriptor_views(next@))
                    && self.source().follows(
                    before.source(),
                    before.drawn_for(descriptor_views(next@)) as int,
                ),
            decreases incoming@.len() - k,
        {
            let observation: CameraObservation = incoming[k].copy();
            let ghost entries = descriptor_views(next@);
            let ghost seen = observation@;
            assert(seen == snapshot[k as int]);
            let found: Option<usize> = find_path(
                &self.active,
                &observation.physical_id.topology_path,
            );
            proof {
                if let Some(i) = found {
                    found_is_with_path(active, seen.path, i as int);
                }
            }
            let keep: Option<CameraDescriptor> = match found {
                Some(i) => {
                    if self.active[i].observation.same_as(&observation) {
                        Some(self.active[i].copy())
                    } else if self.active[i].generation.value < u64::MAX {
                        Some(
                            observation.descriptor(
                                &self.active[i].instance_id,
                                CameraGeneration { value: self.active[i].generation.value + 1 },
                            ),
                        )
                    } else {
                        None
                    }
                },
                None => None,
            };
            let entry: CameraDescriptor = match keep {
                Some(entry) => entry,
                None => {
                    let ghost source = self.source();
                    match self.mint_unique_instance_id(&next) {
                        Ok(id) => {
                            proof {
                                if before.source().is_listed() {
                                    let n = choose|n: int|
                                        {
                                            &&& 0 <= n < MAX_INSTANCE_ID_ATTEMPTS
                                            &&& id == #[trigger] source.upcoming(n)
                                            &&& self.source().follows(source, n + 1)
                                            &&& forall|m: int|
                                                0 <= m < n ==> before.collides(
                                                    entries,
                                                    #[trigger] source.upcoming(m),
                                                )
                                        };
                                    before.candidate_is_drawn(entries, source, n as nat);
                                }
                                if before.plenty(incoming@.len() as int) {
                                    Self::next_candidate_is_free(
                                        before,
                                        snapshot.take(k as int),
                                        entries,
                                        source,
                                        incoming@.len() as int,
                                    );
                                }
                            }
                            observation.descriptor(&id, CameraGeneration { value: 1 })
                        },
                        Err(error) => {
                            proof {
                                if before.source().is_listed() {
                                    before.candidates_run_out(entries, source);
                                    assert(before.stuck(snapshot, entries));
                                }
                                if before.plenty(incoming@.len() as int) {
                                    Self::next_candidate_is_free(
                                        before,
                                        snapshot.take(k as int),
                                        entries,
                                        source,
                                        incoming@.len() as int,
                                    );
                                }
                            }
                            return Err(error);
                        },
                    }
                },
            };
            let ghost fresh = entry@;
            let ghost changes = event_views(changed@);
            let ghost additions = event_views(added@);
            assert(fresh == becomes(active, seen, fresh.id));
            match found {
                Some(i) => {
                    if !self.active[i].observation.same_as(&observation) {
                        changed.push(
                            CameraInventoryEvent::Changed {
                                previous: self.active[i].copy(),
                                current: entry.copy(),
                            },
                        );
                        assert(event_views(changed@) =~= changes.push(
                            EventView::Changed(active[i as int], fresh),
                        ));
                    }
                },
                None => {
                    added.push(CameraInventoryEvent::Added(entry.copy()));
                    assert(event_views(added@) =~= additions.push(EventView::Added(fresh)));
                },
            }
            next.push(entry);
            assert(descriptor_views(next@) =~= entries.push(fresh));
            proof {
                Self::entry_extends(before, snapshot, entries, fresh);
                Self::report_extends(
                    active,
                    snapshot,
                    entries,
                    fresh,
                    changes,
                    additions,
                    event_views(changed@),
                    event_views(added@),
                );
                Self::order_extends(before, entries, fresh);
                if before.source().is_listed() {
                    before.drawn_extends(entries, fresh);
                }
            }
            k = k + 1;
        }
        assert(snapshot.take(k as int) =~= snapshot);
        Ok((next, changed, added))
    }

    /// The next candidate collides with nothing while there is plenty of them.
    proof fn next_candidate_is_free(
        before: CameraInventory,
        snapshot: Seq<ObservationView>,
        entries: Seq<DescriptorView>,
        source: InstanceIdSource,
        n: int,
    )
        requires
            before.well_formed(),
            before.plenty(n),
            Self::taken_in(before, snapshot, entries),
            Self::ids_in_order(before, entries),
            source.follows(before.source(), ids_needed(before.active(), entries)),
            0 <= ids_needed(before.active(), entries) < n,
        ensures
            source.upcoming(0) == before.source().upcoming(
                ids_needed(before.active(), entries),
            ),
            !before.collides(entries, source.upcoming(0)),
    {
        let active = before.active();
        let c = ids_needed(active, entries);
        let candidate = before.source().upcoming(c);
        assert(!before.knows(candidate));
        if has_id(entries, candidate) {
            let i = choose|i: int| 0 <= i < entries.len() && (#[trigger] entries[i]).id == candidate;
            if needs_id(active, entries[i].observation) {
                Self::count_grows(active, entries, i);
                assert(before.source().upcoming(ids_needed(active, entries.take(i))) != candidate);
            } else {
                Self::kept_id_is_known(active, entries[i]);
            }
        }
    }

    /// The count of needed ids before an entry that needs one is less than the whole count.
    proof fn count_grows(active: Seq<DescriptorView>, entries: Seq<DescriptorView>, i: int)
        requires
            0 <= i < entries.len(),
            needs_id(active, entries[i].observation),
        ensures
            0 <= ids_needed(active, entries.take(i)) < ids_needed(active, entries),
        decreases entries.len(),
    {
        let shorter = entries.drop_last();
        if i < shorter.len() {
            Self::count_grows(active, shorter, i);
            assert(shorter.take(i) =~= entries.take(i));
        } else {
            assert(entries.take(i) =~= shorter);
            Self::count_is_natural(active, shorter);
        }
    }

    proof fn count_is_natural(active: Seq<DescriptorView>, entries: Seq<DescriptorView>)
        ensures
            0 <= ids_needed(active, entries) <= entries.len(),
        decreases entries.len(),
    {
        if entries.len() > 0 {
            Self::count_is_natural(active, entries.drop_last());
        }
    }

    /// An entry that needs no new id has the id of the camera that was at its path.
    proof fn kept_id_is_known(active: Seq<DescriptorView>, entry: DescriptorView)
        requires
            entry == becomes(active, entry.observation, entry.id),
            !needs_id(active, entry.observation),
        ensures
            has_path(active, entry.observation.path),
            entry.id == with_path(active, entry.observation.path).id,
            has_id(active, entry.id),
    {
        let i = choose|i: int| at_path(active, entry.observation.path, i);
        assert(at_path(active, entry.observation.path, i));
        assert(active[i].id == entry.id);
    }

    /// One more entry is taken in.
    proof fn entry_extends(
        before: CameraInventory,
        snapshot: Seq<ObservationView>,
        entries: Seq<DescriptorView>,
        entry: DescriptorView,
    )
        requires
            before.well_formed(),
            observations_sorted(snapshot),
            entries.len() < snapshot.len(),
            Self::taken_in(before, snapshot.take(entries.len() as int), entries),
            entry.observation == snapshot[entries.len() as int],
            entry == becomes(before.active(), entry.observation, entry.id),
            needs_id(before.active(), entry.observation) ==> !before.collides(entries, entry.id),
        ensures
            Self::taken_in(
                before,
                snapshot.take(entries.len() as int + 1),
                entries.push(entry),
            ),
    {
        let active = before.active();
        let k = entries.len() as int;
        let longer = entries.push(entry);
        assert forall|i: int| 0 <= i < longer.len() implies (
        #[trigger] longer[i]).observation == snapshot.take(k + 1)[i] by {
            if i < k {
                assert(entries[i].observation == snapshot.take(k)[i]);
            }
        }
        assert forall|i: int, j: int| 0 <= i < j < longer.len() implies (#[trigger] longer[i]).id
            != (#[trigger] longer[j]).id by {
            assert(longer[i] == entries[i]);
            if j == k {
                let other = entries[i];
                if needs_id(active, entry.observation) {
                    assert(!has_id(entries, entry.id));
                } else {
                    Self::kept_id_is_known(active, entry);
                    if !needs_id(active, other.observation) {
                        Self::kept_id_is_known(active, other);
                        assert(other.observation == snapshot.take(k)[i]);
                        assert(precedes(snapshot[i].path, snapshot[k].path));
                        precedes_irreflexive(snapshot[i].path);
                        let a = choose|a: int| at_path(active, other.observation.path, a);
                        let b = choose|b: int| at_path(active, entry.observation.path, b);
                        assert(at_path(active, other.observation.path, a));
                        assert(at_path(active, entry.observation.path, b));
                        assert(a != b);
                        assert(active[a].id != active[b].id);
                    }
                }
            } else {
                assert(longer[j] == entries[j]);
            }
        }
    }

    /// One more entry is reported, if it is a change or an addition.
    proof fn report_extends(
        active: Seq<DescriptorView>,
        snapshot: Seq<ObservationView>,
        entries: Seq<DescriptorView>,
        entry: DescriptorView,
        changed: Seq<EventView>,
        added: Seq<EventView>,
        changed_after: Seq<EventView>,
        added_after: Seq<EventView>,
    )
        requires
            observations_sorted(snapshot),
            entries.len() < snapshot.len(),
            forall|i: int|
                0 <= i < entries.len() ==> (#[trigger] entries[i]).observation == snapshot[i],
            entry.observation == snapshot[entries.len() as int],
            Self::reported(active, entries, changed, added),
            changed_after == (if has_path(active, entry.observation.path) && with_path(
                active,
                entry.observation.path,
            ).observation != entry.observation {
                changed.push(
                    EventView::Changed(with_path(active, entry.observation.path), entry),
                )
            } else {
                changed
            }),
            added_after == (if !has_path(active, entry.observation.path) {
                added.push(EventView::Added(entry))
            } else {
                added
            }),
        ensures
            Self::reported(active, entries.push(entry), changed_after, added_after),
    {
        let k = entries.len() as int;
        let longer = entries.push(entry);
        assert(longer[k] == entry);
        assert forall|i: int| 0 <= i < k implies longer[i] == #[trigger] entries[i] by {}
        assert forall|e: EventView| #[trigger] changed_after.contains(e) <==> exists|i: int|
            0 <= i < longer.len() && Self::is_change(active, #[trigger] longer[i], e) by {
            if changed_after.contains(e) {
                if changed.contains(e) {
                    let i = choose|i: int|
                        0 <= i < k && Self::is_change(active, #[trigger] entries[i], e);
                    assert(Self::is_change(active, longer[i], e));
                } else {
                    assert(Self::is_change(active, longer[k], e));
                }
            }
            if exists|i: int|
                0 <= i < longer.len() && Self::is_change(active, #[trigger] longer[i], e) {
                let i = choose|i: int|
                    0 <= i < longer.len() && Self::is_change(active, #[trigger] longer[i], e);
                if i < k {
                    assert(Self::is_change(active, entries[i], e));
                    assert(changed.contains(e));
                    let m = choose|m: int| 0 <= m < changed.len() && changed[m] == e;
                    assert(changed_after[m] == e);
                } else {
                    assert(changed_after[changed.len() as int] == e);
                }
            }
        }
        assert forall|e: EventView| #[trigger] added_after.contains(e) <==> exists|i: int|
            0 <= i < longer.len() && Self::is_addition(active, #[trigger] longer[i], e) by {
            if added_after.contains(e) {
                if added.contains(e) {
                    let i = choose|i: int|
                        0 <= i < k && Self::is_addition(active, #[trigger] entries[i], e);
                    assert(Self::is_addition(active, longer[i], e));
                } else {
                    assert(Self::is_addition(active, longer[k], e));
                }
            }
            if exists|i: int|
                0 <= i < longer.len() && Self::is_addition(active, #[trigger] longer[i], e) {
                let i = choose|i: int|
                    0 <= i < longer.len() && Self::is_addition(active, #[trigger] longer[i], e);
                if i < k {
                    assert(Self::is_addition(active, entries[i], e));
                    assert(added.contains(e));
                    let m = choose|m: int| 0 <= m < added.len() && added[m] == e;
                    assert(added_after[m] == e);
                } else {
                    assert(added_after[added.len() as int] == e);
                }
            }
        }
        assert forall|i: int, j: int| 0 <= i < j < changed_after.len() implies (
        #[trigger] changed_after[i]).before(#[trigger] changed_after[j]) by {
            if j == changed.len() {
                assert(changed.contains(changed[i]));
                let m = choose|m: int|
                    0 <= m < k && Self::is_change(active, #[trigger] entries[m], changed[i]);
                assert(precedes(snapshot[m].path, snapshot[k].path));
            }
        }
        assert forall|i: int, j: int| 0 <= i < j < added_after.len() implies (
        #[trigger] added_after[i]).before(#[trigger] added_after[j]) by {
            if j == added.len() {
                assert(added.contains(added[i]));
                let m = choose|m: int|
                    0 <= m < k && Self::is_addition(active, #[trigger] entries[m], added[i]);
                assert(precedes(snapshot[m].path, snapshot[k].path));
            }
        }
    }

    /// One more entry leaves the candidates in order, if it was given the next one.
    proof fn order_extends(
        before: CameraInventory,
        entries: Seq<DescriptorView>,
        entry: DescriptorView,
    )
        ensures
            ids_needed(before.active(), entries.push(entry)) == ids_needed(
                before.active(),
                entries,
            ) + (if needs_id(before.active(), entry.observation) {
                1int
            } else {
                0int
            }),
            Self::ids_in_order(before, entries) && (needs_id(before.active(), entry.observation)
                ==> entry.id == before.source().upcoming(ids_needed(before.active(), entries)))
                ==> Self::ids_in_order(before, entries.push(entry)),
    {
        let longer = entries.push(entry);
        assert(longer.drop_last() =~= entries);
        assert(longer.take(entries.len() as int) =~= entries);
        assert forall|i: int| 0 <= i < entries.len() implies #[trigger] longer.take(i)
            == entries.take(i) by {
            assert(longer.take(i) =~= entries.take(i));
        }
        assert forall|i: int| 0 <= i < entries.len() implies longer[i] == #[trigger] entries[i] by {}
    }

    /// Whether entries are what the cameras of a sorted snapshot become.
    spec fn taken_in(
        before: CameraInventory,
        snapshot: Seq<ObservationView>,
        entries: Seq<DescriptorView>,
    ) -> bool {
        &&& entries.len() == snapshot.len()
        &&& forall|i: int|
            0 <= i < entries.len() ==> (#[trigger] entries[i]).observation == snapshot[i]
        &&& forall|i: int|
            0 <= i < entries.len() ==> #[trigger] entries[i] == becomes(
                before.active(),
                entries[i].observation,
                entries[i].id,
            )
        &&& forall|i: int|
            0 <= i < entries.len() && needs_id(
                before.active(),
                (#[trigger] entries[i]).observation,
            ) ==> !before.knows(entries[i].id)
        &&& forall|i: int, j: int|
            0 <= i < j < entries.len() ==> (#[trigger] entries[i]).id != (
            #[trigger] entries[j]).id
    }

    /// Whether the changes and additions among entries are reported, each in the order of paths.
    spec fn reported(
        active: Seq<DescriptorView>,
        entries: Seq<DescriptorView>,
        changed: Seq<EventView>,
        added: Seq<EventView>,
    ) -> bool {
        &&& forall|e: EventView|
            #[trigger] changed.contains(e) <==> exists|i: int|
                0 <= i < entries.len() && Self::is_change(active, #[trigger] entries[i], e)
        &&& forall|e: EventView|
            #[trigger] added.contains(e) <==> exists|i: int|
                0 <= i < entries.len() && Self::is_addition(active, #[trigger] entries[i], e)
        &&& forall|i: int, j: int|
            0 <= i < j < changed.len() ==> (#[trigger] changed[i]).before(#[trigger] changed[j])
        &&& forall|i: int, j: int|
            0 <= i < j < added.len() ==> (#[trigger] added[i]).before(#[trigger] added[j])
    }

    spec fn is_change(
        active: Seq<DescriptorView>,
        entry: DescriptorView,
        event: EventView,
    ) -> bool {
        &&& has_path(active, entry.observation.path)
        &&& with_path(active, entry.observation.path).observation != entry.observation
        &&& event == EventView::Changed(with_path(active, entry.observation.path), entry)
    }

    spec fn is_addition(
        active: Seq<DescriptorView>,
        entry: DescriptorView,
        event: EventView,
    ) -> bool {
        !has_path(active, entry.observation.path) && event == EventView::Added(entry)
    }

    /// Whether the entries that needed an id were given the upcoming candidates one by one.
    pub open spec fn ids_in_order(before: CameraInventory, entries: Seq<DescriptorView>) -> bool {
        forall|i: int|
            0 <= i < entries.len() && needs_id(
                before.active(),
                (#[trigger] entries[i]).observation,
            ) ==> entries[i].id == before.source().upcoming(
                ids_needed(before.active(), entries.take(i)),
            )
    }
}

/// Whether events are the removals of a reconciliation, in the order of paths.
spec fn removals(
    active: Seq<DescriptorView>,
    snapshot: Seq<ObservationView>,
    events: Seq<EventView>,
) -> bool {
    &&& forall|e: EventView|
        #[trigger] events.contains(e) <==> exists|i: int|
            0 <= i < active.len() && is_removal(snapshot, #[trigger] active[i], e)
    &&& forall|i: int, j: int|
        0 <= i < j < events.len() ==> (#[trigger] events[i]).before(#[trigger] events[j])
}

spec fn is_removal(
    snapshot: Seq<ObservationView>,
    descriptor: DescriptorView,
    event: EventView,
) -> bool {
    !observed(snapshot, descriptor.observation.path) && event == EventView::Removed(descriptor)
}

/// One more camera of the old inventory is looked at, and reported if it left.
proof fn removals_extend(
    active: Seq<DescriptorView>,
    snapshot: Seq<ObservationView>,
    n: int,
    events: Seq<EventView>,
    events_after: Seq<EventView>,
)
    requires
        sorted_by_path(active),
        0 <= n < active.len(),
        removals(active.take(n), snapshot, events),
        events_after == (if observed(snapshot, active[n].observation.path) {
            events
        } else {
            events.push(EventView::Removed(active[n]))
        }),
    ensures
        removals(active.take(n + 1), snapshot, events_after),
{
    let shorter = active.take(n);
    let longer = active.take(n + 1);
    assert(longer[n] == active[n]);
    assert forall|i: int| 0 <= i < n implies longer[i] == #[trigger] shorter[i] by {}
    assert forall|e: EventView| #[trigger] events_after.contains(e) <==> exists|i: int|
        0 <= i < longer.len() && is_removal(snapshot, #[trigger] longer[i], e) by {
        if events_after.contains(e) {
            if events.contains(e) {
                let i = choose|i: int|
                    0 <= i < n && is_removal(snapshot, #[trigger] shorter[i], e);
                assert(is_removal(snapshot, longer[i], e));
            } else {
                assert(is_removal(snapshot, longer[n], e));
            }
        }
        if exists|i: int| 0 <= i < longer.len() && is_removal(snapshot, #[trigger] longer[i], e) {
            let i = choose|i: int|
                0 <= i < longer.len() && is_removal(snapshot, #[trigger] longer[i], e);
            if i < n {
                assert(is_removal(snapshot, shorter[i], e));
                assert(events.contains(e));
                let m = choose|m: int| 0 <= m < events.len() && events[m] == e;
                assert(events_after[m] == e);
            } else {
                assert(events_after[events.len() as int] == e);
            }
        }
    }
    assert forall|i: int, j: int| 0 <= i < j < events_after.len() implies (
    #[trigger] events_after[i]).before(#[trigger] events_after[j]) by {
        if j == events.len() {
            assert(events.contains(events[i]));
            let m = choose|m: int|
                0 <= m < n && is_removal(snapshot, #[trigger] shorter[m], events[i]);
            assert(precedes(active[m].observation.path, active[n].observation.path));
        }
    }
}

/// Removals, changes and additions, one after the other, are the transitions of a
/// reconciliation, in the order in which they are reported.
proof fn events_are_transitions(
    before: CameraInventory,
    snapshot: Seq<ObservationView>,
    entries: Seq<DescriptorView>,
    removed: Seq<EventView>,
    changed: Seq<EventView>,
    added: Seq<EventView>,
)
    requires
        sorted_by_path(before.active()),
        removals(before.active(), snapshot, removed),
        CameraInventory::reported(before.active(), entries, changed, added),
    ensures
        ({
            let events = removed + changed + added;
            &&& forall|e: EventView|
                #[trigger] events.contains(e) <==> is_transition(
                    before.active(),
                    snapshot,
                    entries,
                    e,
                )
            &&& forall|i: int, j: int|
                0 <= i < j < events.len() ==> (#[trigger] events[i]).before(#[trigger] events[j])
        }),
{
    let active = before.active();
    let events = removed + changed + added;
    assert forall|i: int| 0 <= i < removed.len() implies (#[trigger] removed[i]) is Removed by {
        assert(removed.contains(removed[i]));
    }
    assert forall|i: int| 0 <= i < changed.len() implies (#[trigger] changed[i]) is Changed by {
        assert(changed.contains(changed[i]));
    }
    assert forall|i: int| 0 <= i < added.len() implies (#[trigger] added[i]) is Added by {
        assert(added.contains(added[i]));
    }
    assert forall|e: EventView| #[trigger] events.contains(e) <==> (removed.contains(e)
        || changed.contains(e) || added.contains(e)) by {
        if removed.contains(e) {
            let m = choose|m: int| 0 <= m < removed.len() && removed[m] == e;
            assert(events[m] == e);
        }
        if changed.contains(e) {
            let m = choose|m: int| 0 <= m < changed.len() && changed[m] == e;
            assert(events[removed.len() + m] == e);
        }
        if added.contains(e) {
            let m = choose|m: int| 0 <= m < added.len() && added[m] == e;
            assert(events[removed.len() + changed.len() + m] == e);
        }
        if events.contains(e) {
            let m = choose|m: int| 0 <= m < events.len() && events[m] == e;
            if m < removed.len() {
                assert(removed[m] == e);
            } else if m < removed.len() + changed.len() {
                assert(changed[m - removed.len()] == e);
            } else {
                assert(added[m - removed.len() - changed.len()] == e);
            }
        }
    }
    assert forall|e: EventView| #[trigger] events.contains(e) <==> is_transition(
        active,
        snapshot,
        entries,
        e,
    ) by {
        match e {
            EventView::Removed(descriptor) => {
                if is_transition(active, snapshot, entries, e) {
                    let i = choose|i: int| 0 <= i < active.len() && active[i] == descriptor;
                    assert(is_removal(snapshot, active[i], e));
                    assert(removed.contains(e));
                }
            },
            EventView::Added(descriptor) => {
                if is_transition(active, snapshot, entries, e) {
                    let i = choose|i: int| 0 <= i < entries.len() && entries[i] == descriptor;
                    assert(CameraInventory::is_addition(active, entries[i], e));
                    assert(added.contains(e));
                }
            },
            EventView::Changed(previous, current) => {
                if is_transition(active, snapshot, entries, e) {
                    let i = choose|i: int| 0 <= i < entries.len() && entries[i] == current;
                    let m = choose|m: int| 0 <= m < active.len() && active[m] == previous;
                    found_is_with_path(active, current.observation.path, m);
                    assert(CameraInventory::is_change(active, entries[i], e));
                    assert(changed.contains(e));
                }
                if changed.contains(e) {
                    let i = choose|i: int|
                        0 <= i < entries.len() && CameraInventory::is_change(
                            active,
                            #[trigger] entries[i],
                            e,
                        );
                    let m = choose|m: int| at_path(active, entries[i].observation.path, m);
                    assert(at_path(active, entries[i].observation.path, m));
                    assert(active.contains(active[m]));
                    assert(entries.contains(entries[i]));
                }
            },
        }
    }
}

impl CameraInventory {
    /// Who left, and the tombstones and retired ids after that: given the cameras of a snapshot
    /// and what they become.
    fn departures(
        &self,
        incoming: &Vec<CameraObservation>,
        next: &Vec<CameraDescriptor>,
    ) -> (r: (Vec<CameraInventoryEvent>, Vec<String>, Vec<CameraInstanceId>))
        requires
            self.well_formed(),
        ensures
            removals(self.active(), observation_views(incoming@), event_views(r.0@)),
            forall|path: Seq<char>|
                #[trigger] texts(r.1@).to_set().contains(path) <==> !observed(
                    observation_views(incoming@),
                    path,
                ) && (self.tombstones().contains(path) || has_path(self.active(), path)),
            forall|id: CameraInstanceId|
                #[trigger] r.2@.to_set().contains(id) <==> self.retired().contains(id) || (has_id(
                    self.active(),
                    id,
                ) && !has_id(descriptor_views(next@), id)),
    {
        let ghost active = self.active();
        let ghost snapshot = observation_views(incoming@);
        let ghost entries = descriptor_views(next@);
        let ghost graves = texts(self.tombstones@);
        let mut removed: Vec<CameraInventoryEvent> = Vec::new();
        let mut tombstones: Vec<String> = Vec::new();
        let mut retired: Vec<CameraInstanceId> = Vec::new();
        let mut i: usize = 0;
        while i < self.tombstones.len()
            invariant
                i <= self.tombstones@.len(),
                snapshot == observation_views(incoming@),
                graves == texts(self.tombstones@),
                forall|path: Seq<char>|
                    #[trigger] texts(tombstones@).contains(path) <==> !observed(snapshot, path)
                        && graves.take(i as int).contains(path),
            decreases self.tombstones@.len() - i,
        {
            let ghost held = texts(tombstones@);
            let ghost taken = graves.take(i as int + 1);
            let ghost grave = graves[i as int];
            let gone: bool = !find_observed(incoming, &self.tombstones[i]);
            if gone {
                tombstones.push(self.tombstones[i].clone());
                assert(texts(tombstones@) =~= held.push(grave));
            }
            assert(taken =~= graves.take(i as int).push(grave));
            assert forall|path: Seq<char>| #[trigger] texts(tombstones@).contains(path) <==> !observed(
                snapshot,
                path,
            ) && taken.contains(path) by {
                push_contains(held, grave, path);
                push_contains(graves.take(i as int), grave, path);
                assert(held.contains(path) <==> !observed(snapshot, path) && graves.take(
                    i as int,
                ).contains(path));
            }
            i = i + 1;
        }
        assert(graves.take(i as int) =~= graves);
        let mut k: usize = 0;
        while k < self.retired_instance_ids.len()
            invariant
                k <= self.retired_instance_ids@.len(),
                retired@ == self.retired_instance_ids@.take(k as int),
            decreases self.retired_instance_ids@.len() - k,
        {
            retired.push(self.retired_instance_ids[k]);
            k = k + 1;
            assert(retired@ =~= self.retired_instance_ids@.take(k as int));
        }
        assert(retired@ =~= self.retired_instance_ids@);
        let ghost old_retired = self.retired_instance_ids@;
        let mut j: usize = 0;
        assert(active.take(0) =~= Seq::<DescriptorView>::empty());
        while j < self.active.len()
            invariant
                j <= self.active@.len(),
                self.well_formed(),
                active == self.active(),
                active.len() == self.active@.len(),
                snapshot == observation_views(incoming@),
                entries == descriptor_views(next@),
                removals(active.take(j as int), snapshot, event_views(removed@)),
                forall|path: Seq<char>|
                    #[trigger] texts(tombstones@).contains(path) <==> !observed(snapshot, path) && (
                    graves.contains(path) || has_path(active.take(j as int), path)),
                forall|id: CameraInstanceId|
                    #[trigger] retired@.contains(id) <==> old_retired.contains(id) || (has_id(
                        active.take(j as int),
                        id,
                    ) && !has_id(entries, id)),
            decreases self.active@.len() - j,
        {
            let ghost shorter = active.take(j as int);
            let ghost longer = active.take(j as int + 1);
            let ghost entry = active[j as int];
            let ghost events = event_views(removed@);
            let ghost held = texts(tombstones@);
            let ghost ids = retired@;
            assert(longer =~= shorter.push(entry));
            let here: bool = find_observed(
                incoming,
                &self.active[j].observation.physical_id.topology_path,
            );
            if !here {
                removed.push(CameraInventoryEvent::Removed(self.active[j].copy()));
                tombstones.push(self.active[j].observation.physical_id.topology_path.clone());
                assert(event_views(removed@) =~= events.push(EventView::Removed(entry)));
                assert(texts(tombstones@) =~= held.push(entry.observation.path));
            }
            let kept: bool = find_id(next, self.active[j].instance_id);
            if !kept {
                retired.push(self.active[j].instance_id);
            }
            proof {
                removals_extend(active, snapshot, j as int, events, event_views(removed@));
                assert forall|path: Seq<char>| #[trigger] texts(tombstones@).contains(path) <==> !observed(
                    snapshot,
                    path,
                ) && (graves.contains(path) || has_path(longer, path)) by {
                    push_contains(held, entry.observation.path, path);
                    push_has_path(shorter, entry, path);
                    assert(held.contains(path) <==> !observed(snapshot, path) && (graves.contains(
                        path,
                    ) || has_path(shorter, path)));
                }
                assert forall|id: CameraInstanceId| #[trigger] retired@.contains(id) <==> old_retired.contains(
                    id,
                ) || (has_id(longer, id) && !has_id(entries, id)) by {
                    push_contains(ids, entry.id, id);
                    push_has_id(shorter, entry, id);
                    assert(ids.contains(id) <==> old_retired.contains(id) || (has_id(shorter, id)
                        && !has_id(entries, id)));
                }
            }
            j = j + 1;
        }
        assert(active.take(j as int) =~= active);
        (removed, tombstones, retired)
    }

    /// Takes in a snapshot of the cameras that are there now.
    ///
    /// # Errors
    ///
    /// Returns [`CameraInventoryError::DuplicateObservation`] with the first path that occurs a
    /// second time, and [`CameraInventoryError::InstanceIdExhausted`] where a camera needs an
    /// instance id and no candidate is free.
    pub fn reconcile(&mut self, observations: Vec<CameraObservation>) -> (r: Result<
        Vec<CameraInventoryEvent>,
        CameraInventoryError,
    >)
        requires
            old(self).well_formed(),
        ensures
            final(self).well_formed(),
            ({
                let snapshot = observation_views(observations@);
                match r {
                    Ok(events) => {
                        &&& forall|i: int| !#[trigger] repeats(snapshot, i)
                        &&& final(self).reconciled(*old(self), snapshot)
                        &&& forall|e: EventView|
                            #[trigger] event_views(events@).contains(e) <==> is_transition(
                                old(self).active(),
                                snapshot,
                                final(self).active(),
                                e,
                            )
                        &&& forall|i: int, j: int|
                            0 <= i < j < events@.len() ==> (
                            #[trigger] event_views(events@)[i]).before(
                                #[trigger] event_views(events@)[j],
                            )
                        &&& old(self).plenty(observations@.len() as int) ==> Self::ids_in_order(
                            *old(self),
                            final(self).active(),
                        )
                        &&& old(self).source().is_listed() ==> old(self).ids_as_drawn(
                            final(self).active(),
                        ) && final(self).source().follows(
                            old(self).source(),
                            old(self).drawn_for(final(self).active()) as int,
                        )
                        &&& final(self).source().listed@ == old(self).source().listed@
                    },
                    Err(CameraInventoryError::DuplicateObservation(path)) => {
                        &&& exists|i: int|
                            {
                                &&& #[trigger] repeats(snapshot, i)
                                &&& path@ == snapshot[i].path
                                &&& forall|j: int| 0 <= j < i ==> !#[trigger] repeats(snapshot, j)
                            }
                        &&& *final(self) == *old(self)
                    },
                    Err(CameraInventoryError::InstanceIdExhausted) => {
                        &&& forall|i: int| !#[trigger] repeats(snapshot, i)
                        &&& exists|i: int|
                            0 <= i < snapshot.len() && needs_id(
                                old(self).active(),
                                #[trigger] snapshot[i],
                            )
                        &&& !old(self).plenty(observations@.len() as int)
                        &&& old(self).source().is_listed() ==> exists|
                            entries: Seq<DescriptorView>,
                            observation: ObservationView,
                        |
                            {
                                &&& #[trigger] old(self).exhausted_at(
                                    snapshot,
                                    entries,
                                    observation,
                                )
                                &&& final(self).source().follows(
                                    old(self).source(),
                                    old(self).drawn_for(entries) + MAX_INSTANCE_ID_ATTEMPTS,
                                )
                            }
                        &&& final(self).source().listed@ == old(self).source().listed@
                        &&& final(self).same_state(*old(self))
                    },
                    Err(_) => false,
                }
            }),
    {
        let ghost before = *self;
        let ghost snapshot = observation_views(observations@);
        let incoming: Vec<CameraObservation> = match sorted(&observations) {
            Ok(list) => list,
            Err(error) => {
                return Err(error);
            },
        };
        let ghost ordered = observation_views(incoming@);
        assert forall|path: Seq<char>| #[trigger] observed(ordered, path) <==> observed(
            snapshot,
            path,
        ) by {
            if observed(ordered, path) {
                let i = choose|i: int| 0 <= i < ordered.len() && (#[trigger] ordered[i]).path == path;
                assert(ordered.contains(ordered[i]));
                let j = choose|j: int| 0 <= j < snapshot.len() && snapshot[j] == ordered[i];
                assert(snapshot[j].path == path);
            }
            if observed(snapshot, path) {
                let i = choose|i: int|
                    0 <= i < snapshot.len() && (#[trigger] snapshot[i]).path == path;
                assert(snapshot.contains(snapshot[i]));
                assert(ordered.contains(snapshot[i]));
                let j = choose|j: int| 0 <= j < ordered.len() && ordered[j] == snapshot[i];
                assert(ordered[j].path == path);
            }
        }
        let (next, mut changed, mut added) = match self.take_in(&incoming) {
            Ok(taken) => taken,
            Err(error) => {
                proof {
                    let i = choose|i: int|
                        0 <= i < incoming@.len() && needs_id(
                            before.active(),
                            #[trigger] ordered[i],
                        );
                    assert(ordered.contains(ordered[i]));
                    assert(snapshot.contains(ordered[i]));
                    let j = choose|j: int| 0 <= j < snapshot.len() && snapshot[j] == ordered[i];
                    assert(needs_id(before.active(), snapshot[j]));
                    if before.source().is_listed() {
                        let entries = choose|entries: Seq<DescriptorView>|
                            {
                                &&& #[trigger] before.stuck(ordered, entries)
                                &&& self.source().follows(
                                    before.source(),
                                    before.drawn_for(entries) + MAX_INSTANCE_ID_ATTEMPTS,
                                )
                            };
                        before.stuck_is_exhausted(snapshot, ordered, entries);
                    }
                    self.same_state_keeps(before);
                }
                return Err(error);
            },
        };
        proof {
            self.same_state_keeps(before);
        }
        let (mut events, tombstones, retired) = self.departures(&incoming, &next);
        let ghost entries = descriptor_views(next@);
        let ghost removals = event_views(events@);
        let ghost changes = event_views(changed@);
        let ghost additions = event_views(added@);
        events.append(&mut changed);
        events.append(&mut added);
        assert(event_views(events@) =~= removals + changes + additions);
        proof {
            removals_of_same_paths(before.active(), ordered, snapshot, removals);
            events_are_transitions(before, snapshot, entries, removals, changes, additions);
        }
        self.active = next;
        self.tombstones = tombstones;
        self.retired_instance_ids = retired;
        proof {
            Self::settled(before, *self, snapshot, ordered);
        }
        Ok(events)
    }

    /// A state that is the same has the same invariant.
    proof fn same_state_keeps(self, before: CameraInventory)
        requires
            before.well_formed(),
            self.same_state(before),
            self.source().well_formed(),
        ensures
            self.well_formed(),
    {
    }

    /// The new cameras, tombstones and retired ids are those of a reconciliation.
    proof fn settled(
        before: CameraInventory,
        after: CameraInventory,
        snapshot: Seq<ObservationView>,
        ordered: Seq<ObservationView>,
    )
        requires
            before.well_formed(),
            observations_sorted(ordered),
            forall|o: ObservationView|
                #[trigger] ordered.contains(o) <==> snapshot.contains(o),
            forall|path: Seq<char>|
                #[trigger] observed(ordered, path) <==> observed(snapshot, path),
            Self::taken_in(before, ordered, after.active()),
            after.source().well_formed(),
            forall|path: Seq<char>|
                #[trigger] after.tombstones().contains(path) <==> !observed(ordered, path) && (
                before.tombstones().contains(path) || has_path(before.active(), path)),
            forall|id: CameraInstanceId|
                #[trigger] after.retired().contains(id) <==> before.retired().contains(id) || (has_id(
                    before.active(),
                    id,
                ) && !has_id(after.active(), id)),
        ensures
            after.well_formed(),
            after.reconciled(before, snapshot),
    {
        let old_active = before.active();
        let active = after.active();
        assert forall|i: int, j: int| 0 <= i < j < active.len() implies precedes(
            (#[trigger] active[i]).observation.path,
            (#[trigger] active[j]).observation.path,
        ) by {
            assert(active[i].observation == ordered[i]);
            assert(active[j].observation == ordered[j]);
        }
        assert forall|path: Seq<char>| has_path(active, path) <==> observed(snapshot, path) by {
            if has_path(active, path) {
                let i = choose|i: int| at_path(active, path, i);
                assert(at_path(active, path, i));
                assert(active[i].observation == ordered[i]);
                assert(observed(ordered, path));
            }
            if observed(snapshot, path) {
                assert(observed(ordered, path));
                let i = choose|i: int| 0 <= i < ordered.len() && (#[trigger] ordered[i]).path == path;
                assert(active[i].observation == ordered[i]);
                assert(at_path(active, path, i));
            }
        }
        assert forall|i: int| 0 <= i < active.len() implies snapshot.contains(
            (#[trigger] active[i]).observation,
        ) by {
            assert(active[i].observation == ordered[i]);
            assert(ordered.contains(ordered[i]));
        }
        assert forall|i: int| 0 <= i < active.len() implies !after.retired().contains(
            (#[trigger] active[i]).id,
        ) by {
            let entry = active[i];
            assert(has_id(active, entry.id));
            if before.retired().contains(entry.id) {
                if needs_id(old_active, entry.observation) {
                    assert(!before.knows(entry.id));
                } else {
                    Self::kept_id_is_known(old_active, entry);
                }
            }
        }
        assert forall|i: int| 0 <= i < active.len() implies !after.tombstones().contains(
            (#[trigger] active[i]).observation.path,
        ) by {
            assert(active[i].observation == ordered[i]);
            assert(observed(ordered, active[i].observation.path));
        }
        assert forall|i: int| 0 <= i < active.len() implies (
        #[trigger] active[i]).generation.well_formed() by {
            let entry = active[i];
            assert(entry == becomes(old_active, entry.observation, entry.id));
            if !needs_id(old_active, entry.observation) {
                let m = choose|m: int| at_path(old_active, entry.observation.path, m);
                assert(at_path(old_active, entry.observation.path, m));
            }
        }
    }

    /// The descriptors of the active cameras, in the order of their paths.
    #[must_use]
    pub fn active_descriptors(&self) -> (r: Vec<CameraDescriptor>)
        ensures
            descriptor_views(r@) == self.active(),
    {
        let mut list: Vec<CameraDescriptor> = Vec::new();
        let mut i: usize = 0;
        while i < self.active.len()
            invariant
                i <= self.active@.len(),
                descriptor_views(list@) == self.active().take(i as int),
            decreases self.active@.len() - i,
        {
            let ghost held = descriptor_views(list@);
            list.push(self.active[i].copy());
            assert(descriptor_views(list@) =~= held.push(self.active()[i as int]));
            i = i + 1;
            assert(descriptor_views(list@) =~= self.active().take(i as int));
        }
        assert(self.active().take(i as int) =~= self.active());
        list
    }

    /// Whether a camera was at a path and is there no longer.
    #[must_use]
    pub fn is_tombstoned(&self, path: &str) -> (r: bool)
        ensures
            r == self.tombstones().contains(path@),
    {
        let path: String = path.to_owned();
        find_text(&self.tombstones, &path)
    }

    /// Whether an instance id is not used again.
    #[must_use]
    pub fn is_retired(&self, id: &CameraInstanceId) -> (r: bool)
        ensures
            r == self.retired().contains(*id),
    {
        find_retired(&self.retired_instance_ids, *id)
    }

    /// What a descriptor is refused for, if it is.
    pub open spec fn refusal(self, descriptor: DescriptorView) -> Option<CameraInventoryError> {
        let path = descriptor.observation.path;
        let known = with_path(self.active(), path);
        if !has_path(self.active(), path) {
            if self.tombstones().contains(path) {
                Some(CameraInventoryError::Removed)
            } else {
                Some(CameraInventoryError::UnknownCamera)
            }
        } else if descriptor.id != known.id {
            Some(CameraInventoryError::ForeignInstance)
        } else if descriptor.generation != known.generation {
            Some(CameraInventoryError::StaleGeneration)
        } else if descriptor != known {
            Some(CameraInventoryError::DescriptorMismatch)
        } else {
            None
        }
    }

    /// Whether a descriptor names a camera as the inventory holds it.
    ///
    /// # Errors
    ///
    /// Returns why it does not: the camera is unknown or was removed, or the instance, the
    /// generation or the evidence is another.
    pub fn validate(&self, descriptor: &CameraDescriptor) -> (r: Result<(), CameraInventoryError>)
        requires
            self.well_formed(),
        ensures
            r == (match self.refusal(descriptor@) {
                Some(error) => Err(error),
                None => Ok(()),
            }),
    {
        let path: &String = &descriptor.observation.physical_id.topology_path;
        let i: usize = match find_path(&self.active, path) {
            Some(i) => i,
            None => {
                return if find_text(&self.tombstones, path) {
                    Err(CameraInventoryError::Removed)
                } else {
                    Err(CameraInventoryError::UnknownCamera)
                };
            },
        };
        proof {
            found_is_with_path(self.active(), path@, i as int);
        }
        let known: &CameraDescriptor = &self.active[i];
        if descriptor.instance_id != known.instance_id {
            return Err(CameraInventoryError::ForeignInstance);
        }
        if descriptor.generation != known.generation {
            return Err(CameraInventoryError::StaleGeneration);
        }
        if !descriptor.observation.same_as(&known.observation) {
            return Err(CameraInventoryError::DescriptorMismatch);
        }
        Ok(())
    }
}

proof fn push_contains<T>(s: Seq<T>, x: T, y: T)
    ensures
        s.push(x).contains(y) <==> s.contains(y) || x == y,
{
    let longer = s.push(x);
    if s.contains(y) {
        let i = choose|i: int| 0 <= i < s.len() && s[i] == y;
        assert(longer[i] == y);
    }
    if x == y {
        assert(longer[s.len() as int] == y);
    }
    if longer.contains(y) && x != y {
        let i = choose|i: int| 0 <= i < longer.len() && longer[i] == y;
        assert(s[i] == y);
    }
}

proof fn push_has_path(list: Seq<DescriptorView>, entry: DescriptorView, path: Seq<char>)
    ensures
        has_path(list.push(entry), path) <==> has_path(list, path) || entry.observation.path
            == path,
{
    let longer = list.push(entry);
    if has_path(list, path) {
        let i = choose|i: int| at_path(list, path, i);
        assert(at_path(longer, path, i));
    }
    if entry.observation.path == path {
        assert(at_path(longer, path, list.len() as int));
    }
    if has_path(longer, path) && entry.observation.path != path {
        let i = choose|i: int| at_path(longer, path, i);
        assert(at_path(list, path, i));
    }
}

proof fn push_has_id(list: Seq<DescriptorView>, entry: DescriptorView, id: CameraInstanceId)
    ensures
        has_id(list.push(entry), id) <==> has_id(list, id) || entry.id == id,
{
    let longer = list.push(entry);
    if has_id(list, id) {
        let i = choose|i: int| 0 <= i < list.len() && (#[trigger] list[i]).id == id;
        assert(longer[i].id == id);
    }
    if entry.id == id {
        assert(longer[list.len() as int].id == id);
    }
    if has_id(longer, id) && entry.id != id {
        let i = choose|i: int| 0 <= i < longer.len() && (#[trigger] longer[i]).id == id;
        assert(list[i].id == id);
    }
}

/// Removals depend on a snapshot only through the paths that it observes.
proof fn removals_of_same_paths(
    active: Seq<DescriptorView>,
    a: Seq<ObservationView>,
    b: Seq<ObservationView>,
    events: Seq<EventView>,
)
    requires
        forall|path: Seq<char>| #[trigger] observed(a, path) <==> observed(b, path),
        removals(active, a, events),
    ensures
        removals(active, b, events),
{
    assert forall|e: EventView| #[trigger] events.contains(e) <==> exists|i: int|
        0 <= i < active.len() && is_removal(b, #[trigger] active[i], e) by {
        if events.contains(e) {
            let i = choose|i: int| 0 <= i < active.len() && is_removal(a, #[trigger] active[i], e);
            assert(is_removal(b, active[i], e));
        }
        if exists|i: int| 0 <= i < active.len() && is_removal(b, #[trigger] active[i], e) {
            let i = choose|i: int| 0 <= i < active.len() && is_removal(b, #[trigger] active[i], e);
            assert(is_removal(a, active[i], e));
        }
    }
}

// ---------------------------------------------------------------------------------------------
// Laws
// ---------------------------------------------------------------------------------------------

/// Every descriptor of an active camera is accepted.
pub proof fn active_descriptors_are_accepted(inventory: CameraInventory, i: int)
    requires
        inventory.well_formed(),
        0 <= i < inventory.active().len(),
    ensures
        inventory.refusal(inventory.active()[i]) is None,
{
    let descriptor = inventory.active()[i];
    found_is_with_path(inventory.active(), descriptor.observation.path, i);
}

/// Only descriptors of active cameras are accepted.
pub proof fn accepted_descriptors_are_active(
    inventory: CameraInventory,
    descriptor: DescriptorView,
)
    requires
        inventory.refusal(descriptor) is None,
    ensures
        inventory.active().contains(descriptor),
{
    let path = descriptor.observation.path;
    let i = choose|i: int| at_path(inventory.active(), path, i);
    assert(at_path(inventory.active(), path, i));
    assert(inventory.active()[i] == descriptor);
}

/// Which camera is at which path, which paths have tombstones and which ids are retired after a
/// reconciliation does not depend on the order of the snapshot.
pub proof fn snapshot_order_does_not_matter(
    before: CameraInventory,
    after: CameraInventory,
    snapshot: Seq<ObservationView>,
    reordered: Seq<ObservationView>,
)
    requires
        forall|o: ObservationView| #[trigger] snapshot.contains(o) <==> reordered.contains(o),
        after.reconciled(before, snapshot),
    ensures
        after.reconciled(before, reordered),
{
    assert forall|path: Seq<char>| #[trigger] observed(snapshot, path) <==> observed(
        reordered,
        path,
    ) by {
        if observed(snapshot, path) {
            let i = choose|i: int| 0 <= i < snapshot.len() && (#[trigger] snapshot[i]).path == path;
            assert(snapshot.contains(snapshot[i]));
            let j = choose|j: int| 0 <= j < reordered.len() && reordered[j] == snapshot[i];
            assert(reordered[j].path == path);
        }
        if observed(reordered, path) {
            let i = choose|i: int|
                0 <= i < reordered.len() && (#[trigger] reordered[i]).path == path;
            assert(reordered.contains(reordered[i]));
            assert(snapshot.contains(reordered[i]));
            let j = choose|j: int| 0 <= j < snapshot.len() && snapshot[j] == reordered[i];
            assert(snapshot[j].path == path);
        }
    }
    let active = after.active();
    assert forall|path: Seq<char>| has_path(active, path) <==> observed(reordered, path) by {
        assert(has_path(active, path) <==> observed(snapshot, path));
    }
    assert forall|i: int| 0 <= i < active.len() implies reordered.contains(
        (#[trigger] active[i]).observation,
    ) by {
        assert(snapshot.contains(active[i].observation));
    }
    assert forall|path: Seq<char>| after.tombstones().contains(path) <==> !observed(
        reordered,
        path,
    ) && (before.tombstones().contains(path) || has_path(before.active(), path)) by {
        assert(observed(snapshot, path) <==> observed(reordered, path));
    }
}

/// A camera that is observed as the inventory holds it keeps its whole descriptor, and needs no
/// new instance id.
pub proof fn unchanged_cameras_are_kept(
    before: CameraInventory,
    after: CameraInventory,
    snapshot: Seq<ObservationView>,
    i: int,
)
    requires
        before.well_formed(),
        after.well_formed(),
        forall|k: int| !#[trigger] repeats(snapshot, k),
        after.reconciled(before, snapshot),
        0 <= i < before.active().len(),
        snapshot.contains(before.active()[i].observation),
    ensures
        !needs_id(before.active(), before.active()[i].observation),
        after.active().contains(before.active()[i]),
{
    let old_active = before.active();
    let active = after.active();
    let kept = old_active[i];
    let path = kept.observation.path;
    found_is_with_path(old_active, path, i);
    let s = choose|s: int| 0 <= s < snapshot.len() && snapshot[s] == kept.observation;
    assert(snapshot[s].path == path);
    assert(observed(snapshot, path));
    assert(has_path(active, path));
    let m = choose|m: int| at_path(active, path, m);
    assert(at_path(active, path, m));
    let entry = active[m];
    assert(snapshot.contains(entry.observation));
    let t = choose|t: int| 0 <= t < snapshot.len() && snapshot[t] == entry.observation;
    if s < t {
        assert(repeats(snapshot, t));
    } else if t < s {
        assert(repeats(snapshot, s));
    }
    assert(entry.observation == kept.observation);
    assert(entry == becomes(old_active, entry.observation, entry.id));
}

/// The cameras that are active after a second look at the same snapshot are those of the first.
proof fn the_same_cameras_stay(
    before: CameraInventory,
    after: CameraInventory,
    again: CameraInventory,
    snapshot: Seq<ObservationView>,
)
    requires
        before.well_formed(),
        after.well_formed(),
        again.well_formed(),
        forall|k: int| !#[trigger] repeats(snapshot, k),
        after.reconciled(before, snapshot),
        again.reconciled(after, snapshot),
    ensures
        forall|d: DescriptorView|
            #[trigger] again.active().contains(d) <==> after.active().contains(d),
{
    let active = after.active();
    let latest = again.active();
    assert forall|d: DescriptorView| #[trigger] latest.contains(d) <==> active.contains(d) by {
        if active.contains(d) {
            let i = choose|i: int| 0 <= i < active.len() && active[i] == d;
            assert(snapshot.contains(active[i].observation));
            unchanged_cameras_are_kept(after, again, snapshot, i);
        }
        if latest.contains(d) {
            let i = choose|i: int| 0 <= i < latest.len() && latest[i] == d;
            assert(snapshot.contains(latest[i].observation));
            let s = choose|s: int| 0 <= s < snapshot.len() && snapshot[s] == latest[i].observation;
            observed_is_held(before, after, snapshot, s);
            let m = choose|m: int|
                0 <= m < active.len() && (#[trigger] active[m]).observation == snapshot[s];
            found_is_with_path(active, d.observation.path, m);
            assert(latest[i] == becomes(active, latest[i].observation, latest[i].id));
            assert(active[m] == d);
        }
    }
}

/// Taking in the same snapshot again changes nothing and reports nothing.
#[verifier::rlimit(30)]
pub proof fn refresh_changes_nothing(
    before: CameraInventory,
    after: CameraInventory,
    again: CameraInventory,
    snapshot: Seq<ObservationView>,
    event: EventView,
)
    requires
        before.well_formed(),
        after.well_formed(),
        again.well_formed(),
        forall|k: int| !#[trigger] repeats(snapshot, k),
        after.reconciled(before, snapshot),
        again.reconciled(after, snapshot),
    ensures
        forall|i: int|
            0 <= i < snapshot.len() ==> !needs_id(after.active(), #[trigger] snapshot[i]),
        forall|d: DescriptorView|
            #[trigger] again.active().contains(d) <==> after.active().contains(d),
        again.tombstones() == after.tombstones(),
        again.retired() == after.retired(),
        !is_transition(after.active(), snapshot, again.active(), event),
{
    let active = after.active();
    let latest = again.active();
    assert forall|i: int| 0 <= i < snapshot.len() implies !needs_id(
        active,
        #[trigger] snapshot[i],
    ) by {
        observed_is_held(before, after, snapshot, i);
    }
    the_same_cameras_stay(before, after, again, snapshot);
    assert forall|path: Seq<char>| again.tombstones().contains(path) <==> after.tombstones().contains(
        path,
    ) by {
        assert(has_path(active, path) <==> observed(snapshot, path));
        assert(after.tombstones().contains(path) ==> !observed(snapshot, path));
    }
    assert(again.tombstones() =~= after.tombstones());
    assert forall|id: CameraInstanceId| again.retired().contains(id) <==> after.retired().contains(
        id,
    ) by {
        if has_id(active, id) {
            let i = choose|i: int| 0 <= i < active.len() && (#[trigger] active[i]).id == id;
            assert(active.contains(active[i]));
            assert(latest.contains(active[i]));
            let m = choose|m: int| 0 <= m < latest.len() && latest[m] == active[i];
            assert(latest[m].id == id);
            assert(has_id(latest, id));
        }
    }
    assert(again.retired() =~= after.retired());
    if is_transition(active, snapshot, latest, event) {
        match event {
            EventView::Removed(descriptor) => {
                let i = choose|i: int| 0 <= i < active.len() && active[i] == descriptor;
                assert(at_path(active, descriptor.observation.path, i));
                assert(has_path(active, descriptor.observation.path));
            },
            EventView::Added(descriptor) => {
                let i = choose|i: int| 0 <= i < latest.len() && latest[i] == descriptor;
                assert(at_path(latest, descriptor.observation.path, i));
                assert(has_path(latest, descriptor.observation.path));
                assert(has_path(active, descriptor.observation.path));
            },
            EventView::Changed(previous, current) => {
                assert(active.contains(current));
                let i = choose|i: int| 0 <= i < active.len() && active[i] == previous;
                let m = choose|m: int| 0 <= m < active.len() && active[m] == current;
                paths_are_unique(active, i, m);
            },
        }
    }
}

/// What a snapshot observes, the reconciled inventory holds.
proof fn observed_is_held(
    before: CameraInventory,
    after: CameraInventory,
    snapshot: Seq<ObservationView>,
    i: int,
)
    requires
        after.well_formed(),
        forall|k: int| !#[trigger] repeats(snapshot, k),
        after.reconciled(before, snapshot),
        0 <= i < snapshot.len(),
    ensures
        exists|m: int|
            0 <= m < after.active().len() && (#[trigger] after.active()[m]).observation
                == snapshot[i],
        !needs_id(after.active(), snapshot[i]),
{
    let active = after.active();
    let path = snapshot[i].path;
    assert(observed(snapshot, path));
    assert(has_path(active, path));
    let m = choose|m: int| at_path(active, path, m);
    assert(at_path(active, path, m));
    assert(snapshot.contains(active[m].observation));
    let t = choose|t: int| 0 <= t < snapshot.len() && snapshot[t] == active[m].observation;
    if i < t {
        assert(repeats(snapshot, t));
    } else if t < i {
        assert(repeats(snapshot, i));
    }
    found_is_with_path(active, path, m);
}

/// A descriptor that a reconciliation outdated is refused: as removed where no camera is at its
/// path, else as another generation or another instance.
pub proof fn outdated_descriptors_are_refused(
    before: CameraInventory,
    after: CameraInventory,
    snapshot: Seq<ObservationView>,
    i: int,
)
    requires
        before.well_formed(),
        after.well_formed(),
        after.reconciled(before, snapshot),
        0 <= i < before.active().len(),
        !after.active().contains(before.active()[i]),
    ensures
        ({
            let stale = before.active()[i];
            if observed(snapshot, stale.observation.path) {
                ||| after.refusal(stale) == Some(CameraInventoryError::StaleGeneration)
                ||| after.refusal(stale) == Some(CameraInventoryError::ForeignInstance)
            } else {
                after.refusal(stale) == Some(CameraInventoryError::Removed)
            }
        }),
{
    let old_active = before.active();
    let active = after.active();
    let stale = old_active[i];
    let path = stale.observation.path;
    found_is_with_path(old_active, path, i);
    if observed(snapshot, path) {
        assert(has_path(active, path));
        let m = choose|m: int| at_path(active, path, m);
        assert(at_path(active, path, m));
        found_is_with_path(active, path, m);
        let entry = active[m];
        assert(entry == becomes(old_active, entry.observation, entry.id));
        if needs_id(old_active, entry.observation) {
            assert(!before.knows(entry.id));
            assert(has_id(old_active, stale.id));
        } else if entry.observation == stale.observation {
            assert(active.contains(stale));
        }
    } else {
        assert(has_path(old_active, path));
        assert(after.tombstones().contains(path));
        assert(!has_path(active, path));
    }
}

/// A retired instance id stays retired, so it names no camera ever again.
pub proof fn retired_ids_never_return(
    before: CameraInventory,
    after: CameraInventory,
    snapshot: Seq<ObservationView>,
    id: CameraInstanceId,
)
    requires
        after.well_formed(),
        after.reconciled(before, snapshot),
        before.retired().contains(id),
    ensures
        after.retired().contains(id),
        !has_id(after.active(), id),
{
    if has_id(after.active(), id) {
        let i = choose|i: int|
            0 <= i < after.active().len() && (#[trigger] after.active()[i]).id == id;
        assert(!after.retired().contains(after.active()[i].id));
    }
}

/// What becomes of the observations before the one that gets no id is what a reconciliation of the
/// same snapshot holds first.
proof fn entries_agree(
    before: CameraInventory,
    after: CameraInventory,
    snapshot: Seq<ObservationView>,
    entries: Seq<DescriptorView>,
    observation: ObservationView,
    n: int,
)
    requires
        after.well_formed(),
        forall|k: int| !#[trigger] repeats(snapshot, k),
        after.reconciled(before, snapshot),
        before.ids_as_drawn(after.active()),
        before.exhausted_at(snapshot, entries, observation),
        0 <= n <= entries.len(),
    ensures
        n <= after.active().len(),
        entries.take(n) == after.active().take(n),
    decreases n,
{
    let active = after.active();
    if n > 0 {
        let i = n - 1;
        entries_agree(before, after, snapshot, entries, observation, i);
        assert forall|h: int| 0 <= h < i implies entries[h] == active[h] by {
            assert(entries.take(i)[h] == active.take(i)[h]);
        }
        let p = entries[i].observation;
        assert(has_observation(entries, p));
        let s = choose|s: int| 0 <= s < snapshot.len() && snapshot[s] == p;
        observed_is_held(before, after, snapshot, s);
        let j = choose|j: int| 0 <= j < active.len() && (#[trigger] active[j]).observation == p;
        if j < i {
            assert(entries[j].observation == p);
            assert(precedes(entries[j].observation.path, entries[i].observation.path));
            precedes_irreflexive(p.path);
        } else if j > i {
            let q = active[i].observation;
            assert(precedes(active[i].observation.path, active[j].observation.path));
            precedes_transitive(q.path, p.path, observation.path);
            assert(snapshot.contains(q));
            assert(has_observation(entries, q));
            let h = choose|h: int|
                0 <= h < entries.len() && (#[trigger] entries[h]).observation == q;
            if h < i {
                assert(active[h].observation == q);
                assert(precedes(active[h].observation.path, active[i].observation.path));
                precedes_irreflexive(q.path);
            } else {
                if h > i {
                    assert(precedes(entries[i].observation.path, entries[h].observation.path));
                    precedes_transitive(q.path, p.path, q.path);
                }
                precedes_irreflexive(q.path);
            }
        }
        assert(active[i].observation == p);
        assert(entries[i] == becomes(before.active(), p, entries[i].id));
        assert(active[i] == becomes(before.active(), p, active[i].id));
        assert(entries[i] == active[i]);
        assert(entries.take(n) =~= entries.take(i).push(entries[i]));
        assert(active.take(n) =~= active.take(i).push(active[i]));
    }
}

/// With listed candidates, a snapshot that leaves an observation without an id is never
/// reconciled: which of the two happens is decided by the list.
pub proof fn exhaustion_excludes_success(
    before: CameraInventory,
    after: CameraInventory,
    snapshot: Seq<ObservationView>,
    entries: Seq<DescriptorView>,
    observation: ObservationView,
)
    requires
        after.well_formed(),
        forall|k: int| !#[trigger] repeats(snapshot, k),
        after.reconciled(before, snapshot),
        before.ids_as_drawn(after.active()),
    ensures
        !before.exhausted_at(snapshot, entries, observation),
{
    if before.exhausted_at(snapshot, entries, observation) {
        let active = after.active();
        let k = entries.len() as int;
        entries_agree(before, after, snapshot, entries, observation, k);
        assert(entries.take(k) =~= entries);
        assert forall|h: int| 0 <= h < k implies entries[h] == active[h] by {
            assert(entries.take(k)[h] == active.take(k)[h]);
        }
        let s = choose|s: int| 0 <= s < snapshot.len() && snapshot[s] == observation;
        observed_is_held(before, after, snapshot, s);
        let j = choose|j: int|
            0 <= j < active.len() && (#[trigger] active[j]).observation == observation;
        if j < k {
            assert(has_observation(entries, observation)) by {
                assert(entries[j].observation == observation);
            }
            precedes_irreflexive(observation.path);
        } else if j > k {
            let q = active[k].observation;
            assert(precedes(active[k].observation.path, active[j].observation.path));
            assert(snapshot.contains(q));
            assert(has_observation(entries, q));
            let h = choose|h: int|
                0 <= h < entries.len() && (#[trigger] entries[h]).observation == q;
            assert(active[h].observation == q);
            assert(precedes(active[h].observation.path, active[k].observation.path));
            precedes_irreflexive(q.path);
        }
        assert(active.take(k) =~= entries);
        assert(needs_id(before.active(), active[k].observation));
        let from = before.drawn_for(entries) as int;
        before.skipped_before(
            entries,
            from,
            MAX_INSTANCE_ID_ATTEMPTS as nat,
            MAX_INSTANCE_ID_ATTEMPTS as nat,
        );
        assert(false);
    }
}

/// An observation repeats another exactly where one before it has the same path, whatever else the
/// two say.
pub proof fn a_second_observation_at_a_path_repeats_it(
    snapshot: Seq<ObservationView>,
    i: int,
    j: int,
)
    requires
        0 <= i < j < snapshot.len(),
    ensures
        snapshot[i].path == snapshot[j].path ==> repeats(snapshot, j),
        (forall|a: int, b: int|
            0 <= a < b < snapshot.len() ==> (#[trigger] snapshot[a]).path != (
            #[trigger] snapshot[b]).path) ==> !repeats(snapshot, j),
{
}

/// A camera at a path where none was becomes active as it is observed, in its first generation, under
/// an id that no camera has or had; that is reported as an addition, and the path has no tombstone.
pub proof fn a_new_camera_starts_its_life(
    before: CameraInventory,
    after: CameraInventory,
    snapshot: Seq<ObservationView>,
    i: int,
)
    requires
        before.well_formed(),
        after.well_formed(),
        forall|a: int, b: int|
            0 <= a < b < snapshot.len() ==> (#[trigger] snapshot[a]).path != (
            #[trigger] snapshot[b]).path,
        after.reconciled(before, snapshot),
        0 <= i < snapshot.len(),
        forall|k: int|
            0 <= k < before.active().len() ==> (#[trigger] before.active()[k]).observation.path
                != snapshot[i].path,
    ensures
        exists|m: int|
            0 <= m < after.active().len() && {
                let entry = #[trigger] after.active()[m];
                &&& entry.observation == snapshot[i]
                &&& entry.generation.value == 1
                &&& !before.retired().contains(entry.id)
                &&& forall|k: int|
                    0 <= k < before.active().len() ==> (#[trigger] before.active()[k]).id
                        != entry.id
                &&& is_transition(
                    before.active(),
                    snapshot,
                    after.active(),
                    EventView::Added(entry),
                )
            },
        !after.tombstones().contains(snapshot[i].path),
{
    let old_active = before.active();
    let path = snapshot[i].path;
    assert forall|k: int| !#[trigger] repeats(snapshot, k) by {}
    observed_is_held(before, after, snapshot, i);
    let m = choose|m: int|
        0 <= m < after.active().len() && (#[trigger] after.active()[m]).observation == snapshot[i];
    let entry = after.active()[m];
    assert(!has_path(old_active, path)) by {
        if has_path(old_active, path) {
            let k = choose|k: int| at_path(old_active, path, k);
            assert(at_path(old_active, path, k));
        }
    }
    assert(entry == becomes(old_active, entry.observation, entry.id));
    assert(!before.knows(entry.id));
    assert forall|k: int| 0 <= k < old_active.len() implies (#[trigger] old_active[k]).id
        != entry.id by {
        if old_active[k].id == entry.id {
            assert(has_id(old_active, entry.id));
        }
    }
    assert(after.active().contains(entry));
    assert(observed(snapshot, path));
}

/// A camera that is observed otherwise than the inventory holds it stays active at its path as it is
/// observed: under its own id in the next generation, or, where there is no next one, under an id
/// that no camera has or had in the first. That is reported as a change from the one to the other.
pub proof fn a_changed_camera_moves_on(
    before: CameraInventory,
    after: CameraInventory,
    snapshot: Seq<ObservationView>,
    i: int,
    k: int,
)
    requires
        before.well_formed(),
        after.well_formed(),
        forall|a: int, b: int|
            0 <= a < b < snapshot.len() ==> (#[trigger] snapshot[a]).path != (
            #[trigger] snapshot[b]).path,
        after.reconciled(before, snapshot),
        0 <= i < snapshot.len(),
        0 <= k < before.active().len(),
        before.active()[k].observation.path == snapshot[i].path,
        before.active()[k].observation != snapshot[i],
    ensures
        exists|m: int|
            0 <= m < after.active().len() && {
                let known = before.active()[k];
                let entry = #[trigger] after.active()[m];
                &&& entry.observation == snapshot[i]
                &&& known.generation.value < u64::MAX ==> entry.id == known.id
                    && entry.generation.value == known.generation.value + 1
                &&& known.generation.value == u64::MAX ==> entry.generation.value == 1
                    && entry.id != known.id && !before.retired().contains(entry.id)
                    && after.retired().contains(known.id)
                &&& is_transition(
                    before.active(),
                    snapshot,
                    after.active(),
                    EventView::Changed(known, entry),
                )
            },
{
    let old_active = before.active();
    let active = after.active();
    let path = snapshot[i].path;
    let known = old_active[k];
    assert forall|x: int| !#[trigger] repeats(snapshot, x) by {}
    observed_is_held(before, after, snapshot, i);
    let m = choose|m: int|
        0 <= m < active.len() && (#[trigger] active[m]).observation == snapshot[i];
    let entry = active[m];
    found_is_with_path(old_active, path, k);
    assert(entry == becomes(old_active, entry.observation, entry.id));
    assert(old_active.contains(known));
    assert(active.contains(entry));
    if known.generation.value == u64::MAX {
        assert(!before.knows(entry.id));
        assert(has_id(old_active, known.id));
        if has_id(active, known.id) {
            let n = choose|n: int| 0 <= n < active.len() && (#[trigger] active[n]).id == known.id;
            let other = active[n];
            assert(other == becomes(old_active, other.observation, other.id));
            if needs_id(old_active, other.observation) {
                assert(!before.knows(other.id));
            } else {
                let h = choose|h: int| at_path(old_active, other.observation.path, h);
                assert(at_path(old_active, other.observation.path, h));
                assert(old_active[h].id == old_active[k].id);
                assert(h == k);
                paths_are_unique(active, n, m);
            }
        }
    }
}

/// A camera that is no longer observed is not active, its path has a tombstone and its id is retired;
/// and that is reported as a removal.
pub proof fn a_missing_camera_is_buried(
    before: CameraInventory,
    after: CameraInventory,
    snapshot: Seq<ObservationView>,
    k: int,
)
    requires
        before.well_formed(),
        after.well_formed(),
        after.reconciled(before, snapshot),
        0 <= k < before.active().len(),
        forall|i: int|
            0 <= i < snapshot.len() ==> (#[trigger] snapshot[i]).path
                != before.active()[k].observation.path,
    ensures
        forall|m: int|
            0 <= m < after.active().len() ==> (#[trigger] after.active()[m]).observation.path
                != before.active()[k].observation.path,
        after.tombstones().contains(before.active()[k].observation.path),
        after.retired().contains(before.active()[k].id),
        is_transition(
            before.active(),
            snapshot,
            after.active(),
            EventView::Removed(before.active()[k]),
        ),
{
    let old_active = before.active();
    let active = after.active();
    let gone = old_active[k];
    let path = gone.observation.path;
    assert(at_path(old_active, path, k));
    assert(!observed(snapshot, path));
    assert(!has_path(active, path));
    assert forall|m: int| 0 <= m < active.len() implies (#[trigger] active[m]).observation.path
        != path by {
        if active[m].observation.path == path {
            assert(at_path(active, path, m));
        }
    }
    assert(old_active.contains(gone));
    assert(has_id(old_active, gone.id));
    if has_id(active, gone.id) {
        let n = choose|n: int| 0 <= n < active.len() && (#[trigger] active[n]).id == gone.id;
        let other = active[n];
        assert(other == becomes(old_active, other.observation, other.id));
        if needs_id(old_active, other.observation) {
            assert(!before.knows(other.id));
        } else {
            let h = choose|h: int| at_path(old_active, other.observation.path, h);
            assert(at_path(old_active, other.observation.path, h));
            assert(old_active[h].id == old_active[k].id);
            assert(h == k);
            assert(at_path(active, path, n));
        }
    }
}

/// Nothing is reported but what happened: a removal is of a camera that was active and is not
/// observed, an addition of one that is active at a path where none was, and a change leads from what
/// was active to what is, at one path and with different evidence.
pub proof fn only_what_happened_is_reported(
    before: Seq<DescriptorView>,
    snapshot: Seq<ObservationView>,
    after: Seq<DescriptorView>,
    event: EventView,
)
    requires
        is_transition(before, snapshot, after, event),
    ensures
        match event {
            EventView::Removed(gone) => before.contains(gone) && forall|i: int|
                0 <= i < snapshot.len() ==> (#[trigger] snapshot[i]).path != gone.observation.path,
            EventView::Added(new) => after.contains(new) && forall|i: int|
                0 <= i < before.len() ==> (#[trigger] before[i]).observation.path
                    != new.observation.path,
            EventView::Changed(old_one, new_one) => before.contains(old_one) && after.contains(new_one)
                && old_one.observation.path == new_one.observation.path && old_one.observation
                != new_one.observation,
        },
{
    match event {
        EventView::Added(new) => {
            assert forall|i: int| 0 <= i < before.len() implies (
            #[trigger] before[i]).observation.path != new.observation.path by {
                if before[i].observation.path == new.observation.path {
                    assert(at_path(before, new.observation.path, i));
                }
            }
        },
        _ => {},
    }
}

/// In a report every removal comes before every change, every change before every addition, and
/// within each the earlier path comes first.
pub proof fn reports_are_in_order(
    gone: DescriptorView,
    previous: DescriptorView,
    current: DescriptorView,
    new: DescriptorView,
    other: DescriptorView,
)
    ensures
        EventView::Removed(gone).before(EventView::Changed(previous, current)),
        EventView::Removed(gone).before(EventView::Added(new)),
        EventView::Changed(previous, current).before(EventView::Added(new)),
        !EventView::Changed(previous, current).before(EventView::Removed(gone)),
        !EventView::Added(new).before(EventView::Removed(gone)),
        !EventView::Added(new).before(EventView::Changed(previous, current)),
        EventView::Removed(gone).before(EventView::Removed(other)) <==> precedes(
            gone.observation.path,
            other.observation.path,
        ),
        EventView::Changed(previous, current).before(EventView::Changed(previous, other))
            <==> precedes(current.observation.path, other.observation.path),
        EventView::Added(new).before(EventView::Added(other)) <==> precedes(
            new.observation.path,
            other.observation.path,
        ),
{
}

/// A descriptor of a camera at an active path is refused for the first thing that is wrong with it:
/// another instance, else another generation, else other evidence. One with none of these is
/// accepted.
pub proof fn a_wrong_descriptor_is_named(
    inventory: CameraInventory,
    descriptor: DescriptorView,
    i: int,
)
    requires
        inventory.well_formed(),
        0 <= i < inventory.active().len(),
        inventory.active()[i].observation.path == descriptor.observation.path,
    ensures
        ({
            let known = inventory.active()[i];
            let refusal = inventory.refusal(descriptor);
            &&& refusal == Some(CameraInventoryError::ForeignInstance) <==> descriptor.id
                != known.id
            &&& refusal == Some(CameraInventoryError::StaleGeneration) <==> descriptor.id
                == known.id && descriptor.generation != known.generation
            &&& refusal == Some(CameraInventoryError::DescriptorMismatch) <==> descriptor.id
                == known.id && descriptor.generation == known.generation && descriptor.observation
                != known.observation
            &&& refusal is None <==> descriptor == known
        }),
{
    found_is_with_path(inventory.active(), descriptor.observation.path, i);
}

/// A descriptor of a camera at a path where none is active is refused: as removed where one was, else
/// as unknown.
pub proof fn an_absent_camera_is_named(inventory: CameraInventory, descriptor: DescriptorView)
    requires
        forall|i: int|
            0 <= i < inventory.active().len() ==> (
            #[trigger] inventory.active()[i]).observation.path != descriptor.observation.path,
    ensures
        inventory.refusal(descriptor) == Some(
            if inventory.tombstones().contains(descriptor.observation.path) {
                CameraInventoryError::Removed
            } else {
                CameraInventoryError::UnknownCamera
            },
        ),
{
    let path = descriptor.observation.path;
    if has_path(inventory.active(), path) {
        let i = choose|i: int| at_path(inventory.active(), path, i);
        assert(at_path(inventory.active(), path, i));
    }
}

/// A tombstone stands until a camera is observed at its path, and no longer.
pub proof fn a_tombstone_stands_until_a_camera_is_back(
    before: CameraInventory,
    after: CameraInventory,
    snapshot: Seq<ObservationView>,
    path: Seq<char>,
)
    requires
        after.reconciled(before, snapshot),
        before.tombstones().contains(path),
    ensures
        after.tombstones().contains(path) <==> forall|i: int|
            0 <= i < snapshot.len() ==> (#[trigger] snapshot[i]).path != path,
{
    assert(after.tombstones().contains(path) <==> !observed(snapshot, path));
}

/// Listed candidates come in their order, and the last of them from then on.
pub proof fn listed_ids_come_in_order(source: InstanceIdSource, n: int)
    requires
        source.well_formed(),
        source.listed@.len() > 0,
        n >= 0,
    ensures
        source.drawn + n < source.listed@.len() ==> source.upcoming(n) == source.listed@[source.drawn
            + n],
        source.drawn + n >= source.listed@.len() ==> source.upcoming(n)
            == source.listed@[source.listed@.len() - 1],
{
}

/// Sixty-four candidates are tried: one that is free is taken though the sixty-three before it are
/// not, and where all of them belong to cameras none is left.
pub proof fn sixty_four_candidates_are_tried(
    inventory: CameraInventory,
    entries: Seq<DescriptorView>,
    from: int,
)
    requires
        forall|m: int|
            0 <= m < 63 ==> inventory.collides(
                entries,
                #[trigger] inventory.source().upcoming(from + m),
            ),
    ensures
        MAX_INSTANCE_ID_ATTEMPTS == 64,
        inventory.skipped(entries, from, 64) == (if inventory.collides(
            entries,
            inventory.source().upcoming(from + 63),
        ) {
            64int
        } else {
            63int
        }),
{
    if inventory.collides(entries, inventory.source().upcoming(from + 63)) {
        inventory.skipped_before(entries, from, 64, 64);
    } else {
        inventory.skipped_before(entries, from, 64, 63);
    }
}

/// A candidate collides exactly where a camera of the inventory or of its successor has it, or one
/// that left had it.
pub proof fn a_free_candidate_belongs_to_no_camera(
    inventory: CameraInventory,
    next: Seq<DescriptorView>,
    id: CameraInstanceId,
)
    ensures
        !inventory.collides(next, id) <==> !inventory.retired().contains(id) && (forall|i: int|
            0 <= i < inventory.active().len() ==> (#[trigger] inventory.active()[i]).id != id) && (
        forall|i: int| 0 <= i < next.len() ==> (#[trigger] next[i]).id != id),
{
}

} // verus!
