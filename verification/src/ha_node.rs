//! Requests of the HA node and cluster agents, and the conversions between their
//! control-plane and wire forms.
use vstd::prelude::*;
use vstd::std_specs::convert::FromSpecImpl;

use crate::string_map::StringMap;

verus! {

/// GetControllerInfo is for the request struct to get list of Nvme Controllers for the volume.
pub trait GetControllerInfo {
    /// Path to access the target, as a value.
    spec fn spec_nvme_path(&self) -> Seq<char>;

    /// Path to access the target.
    fn nvme_path(&self) -> (r: String)
        ensures
            r@ == self.spec_nvme_path(),
    ;
}

/// Request to get the NVMe controllers of a volume.
#[derive(Debug)]
pub struct GetController {
    /// Path to access the target.
    pub nvme_path: String,
}

/// Wire form of the request to get the NVMe controllers of a volume.
#[derive(Debug)]
pub struct GetNvmeControllerRequest {
    /// Path to access the target.
    pub nvme_path: String,
}

impl GetControllerInfo for GetController {
    open spec fn spec_nvme_path(&self) -> Seq<char> {
        self.nvme_path@
    }

    fn nvme_path(&self) -> (r: String) {
        self.nvme_path.clone()
    }
}

impl GetControllerInfo for GetNvmeControllerRequest {
    open spec fn spec_nvme_path(&self) -> Seq<char> {
        self.nvme_path@
    }

    fn nvme_path(&self) -> (r: String) {
        self.nvme_path.clone()
    }
}

impl GetNvmeControllerRequest {
    /// The wire form of any request for NVMe controllers.
    pub fn from_info<T: GetControllerInfo>(src: &T) -> (r: Self)
        ensures
            r.nvme_path@ == src.spec_nvme_path(),
    {
        GetNvmeControllerRequest { nvme_path: src.nvme_path() }
    }
}

/// An NVMe subsystem, known by its address.
#[derive(Debug)]
pub struct NvmeSubsystem {
    address: String,
}

impl NvmeSubsystem {
    /// The address, as a value.
    pub closed spec fn spec_address(self) -> Seq<char> {
        self.address@
    }

    /// The subsystem at `address`.
    pub fn new(address: String) -> (r: Self)
        ensures
            r.spec_address() == address@,
    {
        NvmeSubsystem { address }
    }

    /// The address of the subsystem.
    pub fn address(&self) -> (r: String)
        ensures
            r@ == self.spec_address(),
    {
        self.address.clone()
    }
}

/// The NVMe subsystems of a volume.
#[derive(Debug)]
pub struct NvmeSubsystems(pub Vec<NvmeSubsystem>);

/// Wire form of the NVMe controllers of a volume.
#[derive(Debug)]
pub struct NvmeControllers {
    /// Addresses of the controllers' targets.
    pub target_address: Vec<String>,
}

impl NvmeSubsystems {
    /// The addresses of the subsystems, in order.
    pub open spec fn spec_addresses(self) -> Seq<Seq<char>> {
        self.0@.map_values(|s: NvmeSubsystem| s.spec_address())
    }

    /// The subsystems.
    pub fn into_inner(self) -> (r: Vec<NvmeSubsystem>)
        ensures
            r == self.0,
    {
        self.0
    }

    /// The subsystems at the controllers' target addresses, in order.
    pub fn from_controllers(controllers: NvmeControllers) -> (r: Self)
        ensures
            r.spec_addresses() == controllers.target_address.deep_view(),
    {
        let mut subsystems: Vec<NvmeSubsystem> = Vec::new();
        let addresses = controllers.target_address;
        let mut i: usize = 0;
        while i < addresses.len()
            invariant
                i <= addresses@.len(),
                subsystems@.len() == i,
                forall|j: int|
                    0 <= j < i ==> #[trigger] subsystems@[j].spec_address() == addresses@[j]@,
            decreases addresses@.len() - i,
        {
            subsystems.push(NvmeSubsystem::new(addresses[i].clone()));
            i = i + 1;
        }
        let r = NvmeSubsystems(subsystems);
        assert(r.spec_addresses() =~= addresses.deep_view());
        r
    }
}

impl NvmeControllers {
    /// The target addresses of the subsystems, in order.
    pub fn from_subsystems(subsystems: NvmeSubsystems) -> (r: Self)
        ensures
            r.target_address.deep_view() == subsystems.spec_addresses(),
    {
        let inner = subsystems.into_inner();
        let mut target_address: Vec<String> = Vec::new();
        let mut i: usize = 0;
        while i < inner.len()
            invariant
                i <= inner@.len(),
                target_address@.len() == i,
                forall|j: int|
                    0 <= j < i ==> #[trigger] target_address@[j]@ == inner@[j].spec_address(),
            decreases inner@.len() - i,
        {
            target_address.push(inner[i].address());
            i = i + 1;
        }
        let r = NvmeControllers { target_address };
        assert(r.target_address.deep_view() =~= subsystems.spec_addresses());
        r
    }
}

/// Converting subsystems to their wire form and back keeps their addresses.
pub proof fn law_subsystems_round_trip(
    subsystems: NvmeSubsystems,
    controllers: NvmeControllers,
    back: NvmeSubsystems,
)
    requires
        controllers.target_address.deep_view() == subsystems.spec_addresses(),
        back.spec_addresses() == controllers.target_address.deep_view(),
    ensures
        back.spec_addresses() == subsystems.spec_addresses(),
{
}

/// ReplacePathInfo trait for the failed path replacement to be implemented by entities
/// which want to use this operation.
pub trait ReplacePathInfo {
    /// NQN of the target, as a value.
    spec fn spec_target_nqn(&self) -> Seq<char>;

    /// URI of the new path, as a value.
    spec fn spec_new_path(&self) -> Seq<char>;

    /// Publish context of the volume, as a value.
    spec fn spec_publish_context(&self) -> Option<Map<Seq<char>, Seq<char>>>;

    /// NQN of the target
    fn target_nqn(&self) -> (r: String)
        ensures
            r@ == self.spec_target_nqn(),
    ;

    /// URI of the new path
    fn new_path(&self) -> (r: String)
        ensures
            r@ == self.spec_new_path(),
    ;

    /// Publish context of the volume
    fn publish_context(&self) -> (r: Option<StringMap>)
        ensures
            r.deep_view() == self.spec_publish_context(),
    ;
}

/// Request to replace the failed path to a target.
#[derive(Debug)]
pub struct ReplacePath {
    /// NQN of the target.
    pub target: String,
    /// URI of the new path.
    pub new_path: String,
    /// Publish context of the volume.
    pub publish_context: Option<StringMap>,
}

/// A map of strings on the wire.
#[derive(Debug)]
pub struct MapWrapper {
    /// The map.
    pub map: StringMap,
}

/// Wire form of the request to replace the failed path to a target.
#[derive(Debug)]
pub struct ReplacePathRequest {
    /// NQN of the target.
    pub target_nqn: String,
    /// URI of the new path.
    pub new_path: String,
    /// Publish context of the volume.
    pub publish_context: Option<MapWrapper>,
}

/// A copy of an optional string map.
fn copy_context(c: &Option<StringMap>) -> (r: Option<StringMap>)
    ensures
        r.deep_view() == c.deep_view(),
{
    match c {
        Some(m) => Some(m.clone()),
        None => None,
    }
}

impl ReplacePathInfo for ReplacePath {
    open spec fn spec_target_nqn(&self) -> Seq<char> {
        self.target@
    }

    open spec fn spec_new_path(&self) -> Seq<char> {
        self.new_path@
    }

    open spec fn spec_publish_context(&self) -> Option<Map<Seq<char>, Seq<char>>> {
        self.publish_context.deep_view()
    }

    fn target_nqn(&self) -> (r: String) {
        self.target.clone()
    }

    fn new_path(&self) -> (r: String) {
        self.new_path.clone()
    }

    fn publish_context(&self) -> (r: Option<StringMap>) {
        copy_context(&self.publish_context)
    }
}

impl ReplacePathInfo for ReplacePathRequest {
    open spec fn spec_target_nqn(&self) -> Seq<char> {
        self.target_nqn@
    }

    open spec fn spec_new_path(&self) -> Seq<char> {
        self.new_path@
    }

    open spec fn spec_publish_context(&self) -> Option<Map<Seq<char>, Seq<char>>> {
        match self.publish_context {
            Some(w) => Some(w.map@),
            None => None,
        }
    }

    fn target_nqn(&self) -> (r: String) {
        self.target_nqn.clone()
    }

    fn new_path(&self) -> (r: String) {
        self.new_path.clone()
    }

    fn publish_context(&self) -> (r: Option<StringMap>) {
        match &self.publish_context {
            Some(w) => Some(w.map.clone()),
            None => None,
        }
    }
}

impl ReplacePathRequest {
    /// The wire form of any path replacement request.
    pub fn from_info<T: ReplacePathInfo>(src: &T) -> (r: Self)
        ensures
            r.spec_target_nqn() == src.spec_target_nqn(),
            r.spec_new_path() == src.spec_new_path(),
            r.spec_publish_context() == src.spec_publish_context(),
    {
        let publish_context = match src.publish_context() {
            Some(map) => Some(MapWrapper { map }),
            None => None,
        };
        ReplacePathRequest {
            target_nqn: src.target_nqn(),
            new_path: src.new_path(),
            publish_context,
        }
    }
}

/// A failed NVMe path, known by the NQN of its target.
#[derive(Debug)]
pub struct FailedPath {
    target_nqn: String,
}

impl FailedPath {
    /// The NQN of the target.
    pub closed spec fn spec_target_nqn(self) -> String {
        self.target_nqn
    }

    /// The failed path to the target `target_nqn`.
    pub fn new(target_nqn: String) -> (r: Self)
        ensures
            r.spec_target_nqn() == target_nqn,
    {
        FailedPath { target_nqn }
    }

    /// The NQN of the target.
    pub fn target_nqn(&self) -> (r: &String)
        ensures
            *r == self.spec_target_nqn(),
    {
        &self.target_nqn
    }

    /// The NQN of the target, taking the path apart.
    pub fn into_target_nqn(self) -> (r: String)
        ensures
            r == self.spec_target_nqn(),
    {
        self.target_nqn
    }
}

/// Wire form of a failed NVMe path.
#[derive(Debug)]
pub struct FailedNvmePath {
    /// NQN of the target.
    pub target_nqn: String,
}

impl From<FailedPath> for FailedNvmePath {
    fn from(path: FailedPath) -> (r: Self) {
        FailedNvmePath { target_nqn: path.into_target_nqn() }
    }
}

impl FromSpecImpl<FailedPath> for FailedNvmePath {
    open spec fn obeys_from_spec() -> bool {
        true
    }

    open spec fn from_spec(path: FailedPath) -> FailedNvmePath {
        FailedNvmePath { target_nqn: path.spec_target_nqn() }
    }
}

/// Wire form of a report of failed NVMe paths.
#[derive(Debug)]
pub struct ReportFailedNvmePathsRequest {
    /// Id of the application node.
    pub nodename: String,
    /// Node agent's gRPC address, as text.
    pub endpoint: String,
    /// The failed paths.
    pub failed_paths: Vec<FailedNvmePath>,
}

impl ReportFailedNvmePathsRequest {
    /// Id of the application node.
    pub fn node(&self) -> (r: String)
        ensures
            r@ == self.nodename@,
    {
        self.nodename.clone()
    }

    /// The failed paths, by the NQNs of their targets, in order.
    pub fn failed_paths(&self) -> (r: Vec<FailedPath>)
        ensures
            r@.len() == self.failed_paths@.len(),
            forall|i: int|
                0 <= i < r@.len() ==> #[trigger] r@[i].spec_target_nqn()@
                    == self.failed_paths@[i].target_nqn@,
    {
        let mut out: Vec<FailedPath> = Vec::new();
        let mut i: usize = 0;
        while i < self.failed_paths.len()
            invariant
                i <= self.failed_paths@.len(),
                out@.len() == i,
                forall|j: int|
                    0 <= j < i ==> #[trigger] out@[j].spec_target_nqn()@
                        == self.failed_paths@[j].target_nqn@,
            decreases self.failed_paths@.len() - i,
        {
            out.push(FailedPath::new(self.failed_paths[i].target_nqn.clone()));
            i = i + 1;
        }
        out
    }
}

/// The wire form of failed paths, in order.
pub fn failed_nvme_paths(paths: Vec<FailedPath>) -> (r: Vec<FailedNvmePath>)
    ensures
        r@.len() == paths@.len(),
        forall|i: int|
            0 <= i < r@.len() ==> #[trigger] r@[i].target_nqn == paths@[i].spec_target_nqn(),
{
    let mut out: Vec<FailedNvmePath> = Vec::new();
    let mut i: usize = 0;
    while i < paths.len()
        invariant
            i <= paths@.len(),
            out@.len() == i,
            forall|j: int|
                0 <= j < i ==> #[trigger] out@[j].target_nqn == paths@[j].spec_target_nqn(),
        decreases paths@.len() - i,
    {
        out.push(FailedNvmePath::from(FailedPath::new(paths[i].target_nqn().clone())));
        i = i + 1;
    }
    out
}

/// Reporting failed paths on the wire and reading them back gives the NQNs of
/// their targets back, in order.
pub proof fn law_failed_paths_round_trip(
    paths: Seq<FailedPath>,
    wire: Seq<FailedNvmePath>,
    back: Seq<FailedPath>,
)
    requires
        wire.len() == paths.len(),
        forall|i: int| 0 <= i < wire.len() ==> #[trigger] wire[i].target_nqn == paths[i].spec_target_nqn(),
        back.len() == wire.len(),
        forall|i: int| 0 <= i < back.len() ==> #[trigger] back[i].spec_target_nqn()@ == wire[i].target_nqn@,
    ensures
        back.len() == paths.len(),
        forall|i: int|
            0 <= i < back.len() ==> #[trigger] back[i].spec_target_nqn()@ == paths[i].spec_target_nqn()@,
{
    assert forall|i: int| 0 <= i < back.len() implies #[trigger] back[i].spec_target_nqn()@
        == paths[i].spec_target_nqn()@ by {
        assert(wire[i].target_nqn == paths[i].spec_target_nqn());
    }
}

} // verus!
