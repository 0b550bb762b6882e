use vstd::prelude::*;
use crate::value::ValueView;

verus! {

/// The optional fields of a cluster's create options.
#[derive(Clone, Copy, Debug, PartialEq, Eq, Structural)]
pub enum ClusterField {
    NetworkId,
    SubnetId,
    MaintenanceWindowStart,
    EnableAutorepair,
    EnablePatchVersionAutoUpgrade,
    Zonal,
}

/// One optional field of a cluster's create options, with its value.
pub enum ClusterSetting {
    NetworkId(String),
    SubnetId(String),
    MaintenanceWindowStart(String),
    EnableAutorepair(bool),
    EnablePatchVersionAutoUpgrade(bool),
    Zonal(bool),
}

/// The optional cluster fields as the user gave them: `None` where a flag
/// was not supplied.
pub struct ClusterFlags {
    pub network_id: Option<String>,
    pub subnet_id: Option<String>,
    pub maintenance_window_start: Option<String>,
    pub enable_autorepair: Option<bool>,
    pub enable_patch_version_auto_upgrade: Option<bool>,
    pub zonal: Option<bool>,
}

/// The body of a cluster create request. An optional field is `Some` only
/// where the user supplied it.
pub struct ClusterCreateOptions {
    pub name: String,
    pub kube_version: String,
    pub region: String,
    pub network_id: Option<String>,
    pub subnet_id: Option<String>,
    pub maintenance_window_start: Option<String>,
    pub enable_autorepair: Option<bool>,
    pub enable_patch_version_auto_upgrade: Option<bool>,
    pub zonal: Option<bool>,
}

/// Required fields, and the optional fields that were set with their values.
pub struct ClusterOptionsView {
    pub name: Seq<char>,
    pub kube_version: Seq<char>,
    pub region: Seq<char>,
    pub supplied: Map<ClusterField, ValueView>,
}

pub open spec fn text_slot(o: Option<String>) -> Option<ValueView> {
    match o {
        Some(s) => Some(ValueView::Text(s@)),
        None => None,
    }
}

pub open spec fn flag_slot(o: Option<bool>) -> Option<ValueView> {
    match o {
        Some(b) => Some(ValueView::Bool(b)),
        None => None,
    }
}

pub open spec fn count_slot(o: Option<u32>) -> Option<ValueView> {
    match o {
        Some(n) => Some(ValueView::Int(n as u64)),
        None => None,
    }
}

/// The map of the slots that hold a value.
pub open spec fn cluster_supplied(slot: spec_fn(ClusterField) -> Option<ValueView>) -> Map<
    ClusterField,
    ValueView,
> {
    Map::new(|f: ClusterField| slot(f) is Some, |f: ClusterField| slot(f)->0)
}

/// The order in which the translator visits the optional cluster fields.
pub open spec fn cluster_field_order() -> Seq<ClusterField> {
    seq![
        ClusterField::NetworkId,
        ClusterField::SubnetId,
        ClusterField::MaintenanceWindowStart,
        ClusterField::EnableAutorepair,
        ClusterField::EnablePatchVersionAutoUpgrade,
        ClusterField::Zonal,
    ]
}

impl ClusterField {
    pub open spec fn position(self) -> int {
        match self {
            ClusterField::NetworkId => 0,
            ClusterField::SubnetId => 1,
            ClusterField::MaintenanceWindowStart => 2,
            ClusterField::EnableAutorepair => 3,
            ClusterField::EnablePatchVersionAutoUpgrade => 4,
            ClusterField::Zonal => 5,
        }
    }

    pub fn all() -> (r: Vec<ClusterField>)
        ensures
            r@ == cluster_field_order(),
    {
        let r = vec![
            ClusterField::NetworkId,
            ClusterField::SubnetId,
            ClusterField::MaintenanceWindowStart,
            ClusterField::EnableAutorepair,
            ClusterField::EnablePatchVersionAutoUpgrade,
            ClusterField::Zonal,
        ];
        assert(r@ =~= cluster_field_order());
        r
    }
}

impl ClusterSetting {
    pub open spec fn field(&self) -> ClusterField {
        match self {
            ClusterSetting::NetworkId(_) => ClusterField::NetworkId,
            ClusterSetting::SubnetId(_) => ClusterField::SubnetId,
            ClusterSetting::MaintenanceWindowStart(_) => ClusterField::MaintenanceWindowStart,
            ClusterSetting::EnableAutorepair(_) => ClusterField::EnableAutorepair,
            ClusterSetting::EnablePatchVersionAutoUpgrade(_) => ClusterField::EnablePatchVersionAutoUpgrade,
            ClusterSetting::Zonal(_) => ClusterField::Zonal,
        }
    }

    pub open spec fn value(&self) -> ValueView {
        match self {
            ClusterSetting::NetworkId(s) => ValueView::Text(s@),
            ClusterSetting::SubnetId(s) => ValueView::Text(s@),
            ClusterSetting::MaintenanceWindowStart(s) => ValueView::Text(s@),
            ClusterSetting::EnableAutorepair(b) => ValueView::Bool(*b),
            ClusterSetting::EnablePatchVersionAutoUpgrade(b) => ValueView::Bool(*b),
            ClusterSetting::Zonal(b) => ValueView::Bool(*b),
        }
    }
}

impl ClusterFlags {
    pub open spec fn slot(&self, f: ClusterField) -> Option<ValueView> {
        match f {
            ClusterField::NetworkId => text_slot(self.network_id),
            ClusterField::SubnetId => text_slot(self.subnet_id),
            ClusterField::MaintenanceWindowStart => text_slot(self.maintenance_window_start),
            ClusterField::EnableAutorepair => flag_slot(self.enable_autorepair),
            ClusterField::EnablePatchVersionAutoUpgrade => flag_slot(
                self.enable_patch_version_auto_upgrade,
            ),
            ClusterField::Zonal => flag_slot(self.zonal),
        }
    }

    /// The optional fields that the user supplied, with their values.
    pub open spec fn supplied(&self) -> Map<ClusterField, ValueView> {
        cluster_supplied(|f: ClusterField| self.slot(f))
    }

    /// The value supplied for `f`, as a setting of that field.
    pub fn setting(&self, f: ClusterField) -> (r: Option<ClusterSetting>)
        ensures
            match r {
                Some(s) => s.field() == f && self.slot(f) == Some(s.value()),
                None => self.slot(f) is None,
            },
    {
        match f {
            ClusterField::NetworkId => match &self.network_id {
                Some(s) => Some(ClusterSetting::NetworkId(s.clone())),
                None => None,
            },
            ClusterField::SubnetId => match &self.subnet_id {
                Some(s) => Some(ClusterSetting::SubnetId(s.clone())),
                None => None,
            },
            ClusterField::MaintenanceWindowStart => match &self.maintenance_window_start {
                Some(s) => Some(ClusterSetting::MaintenanceWindowStart(s.clone())),
                None => None,
            },
            ClusterField::EnableAutorepair => match self.enable_autorepair {
                Some(b) => Some(ClusterSetting::EnableAutorepair(b)),
                None => None,
            },
            ClusterField::EnablePatchVersionAutoUpgrade => match self.enable_patch_version_auto_upgrade {
                Some(b) => Some(ClusterSetting::EnablePatchVersionAutoUpgrade(b)),
                None => None,
            },
            ClusterField::Zonal => match self.zonal {
                Some(b) => Some(ClusterSetting::Zonal(b)),
                None => None,
            },
        }
    }
}

impl View for ClusterCreateOptions {
    type V = ClusterOptionsView;

    open spec fn view(&self) -> ClusterOptionsView {
        ClusterOptionsView {
            name: self.name@,
            kube_version: self.kube_version@,
            region: self.region@,
            supplied: cluster_supplied(|f: ClusterField| self.slot(f)),
        }
    }
}

/// The cluster options that carry the required fields and nothing else.
pub open spec fn cluster_baseline(name: Seq<char>, kube_version: Seq<char>, region: Seq<char>) -> ClusterOptionsView {
    ClusterOptionsView { name, kube_version, region, supplied: Map::empty() }
}

/// What translating the required fields and the flags yields.
pub open spec fn cluster_translated(
    name: Seq<char>,
    kube_version: Seq<char>,
    region: Seq<char>,
    flags: ClusterFlags,
) -> ClusterOptionsView {
    ClusterOptionsView { name, kube_version, region, supplied: flags.supplied() }
}

/// Supplying no optional cluster field gives the same options as leaving
/// every optional field absent: the bare options of the required fields.
pub proof fn lemma_cluster_nothing_supplied(
    name: Seq<char>,
    kube_version: Seq<char>,
    region: Seq<char>,
    flags: ClusterFlags,
)
    requires
        forall|f: ClusterField| flags.slot(f) is None,
    ensures
        cluster_translated(name, kube_version, region, flags) == cluster_baseline(
            name,
            kube_version,
            region,
        ),
{
    assert(flags.supplied() =~= Map::empty());
}

/// Supplying the one optional cluster field `f` with value `v` gives options
/// that differ from the bare options in field `f` alone, which holds `v`.
pub proof fn lemma_cluster_one_supplied(
    name: Seq<char>,
    kube_version: Seq<char>,
    region: Seq<char>,
    flags: ClusterFlags,
    f: ClusterField,
    v: ValueView,
)
    requires
        flags.slot(f) == Some(v),
        forall|g: ClusterField| g != f ==> flags.slot(g) is None,
    ensures
        ({
            let t = cluster_translated(name, kube_version, region, flags);
            let b = cluster_baseline(name, kube_version, region);
            &&& t.name == b.name && t.kube_version == b.kube_version && t.region == b.region
            &&& t.supplied == b.supplied.insert(f, v)
            &&& forall|g: ClusterField|
                (t.supplied.contains_key(g) != b.supplied.contains_key(g)) <==> g == f
        }),
{
    assert(flags.supplied() =~= Map::<ClusterField, ValueView>::empty().insert(f, v));
}

impl ClusterCreateOptions {
    pub open spec fn slot(&self, f: ClusterField) -> Option<ValueView> {
        match f {
            ClusterField::NetworkId => text_slot(self.network_id),
            ClusterField::SubnetId => text_slot(self.subnet_id),
            ClusterField::MaintenanceWindowStart => text_slot(self.maintenance_window_start),
            ClusterField::EnableAutorepair => flag_slot(self.enable_autorepair),
            ClusterField::EnablePatchVersionAutoUpgrade => flag_slot(
                self.enable_patch_version_auto_upgrade,
            ),
            ClusterField::Zonal => flag_slot(self.zonal),
        }
    }

    /// Options with the required fields and no optional field set.
    pub fn new(name: &str, kube_version: &str, region: &str) -> (r: ClusterCreateOptions)
        ensures
            r@ == cluster_baseline(name@, kube_version@, region@),
            forall|f: ClusterField| r.slot(f) is None,
    {
        let r = ClusterCreateOptions {
            name: name.to_owned(),
            kube_version: kube_version.to_owned(),
            region: region.to_owned(),
            network_id: None,
            subnet_id: None,
            maintenance_window_start: None,
            enable_autorepair: None,
            enable_patch_version_auto_upgrade: None,
            zonal: None,
        };
        assert(r@.supplied =~= Map::empty());
        r
    }

    /// Sets the one field that `s` names; every other field stays as it was.
    pub fn set(&mut self, s: ClusterSetting)
        ensures
            final(self).name == old(self).name,
            final(self).kube_version == old(self).kube_version,
            final(self).region == old(self).region,
            forall|f: ClusterField|
                #[trigger] final(self).slot(f) == if f == s.field() {
                    Some(s.value())
                } else {
                    old(self).slot(f)
                },
    {
        match s {
            ClusterSetting::NetworkId(v) => self.network_id = Some(v),
            ClusterSetting::SubnetId(v) => self.subnet_id = Some(v),
            ClusterSetting::MaintenanceWindowStart(v) => self.maintenance_window_start = Some(v),
            ClusterSetting::EnableAutorepair(v) => self.enable_autorepair = Some(v),
            ClusterSetting::EnablePatchVersionAutoUpgrade(v) => {
                self.enable_patch_version_auto_upgrade = Some(v)
            },
            ClusterSetting::Zonal(v) => self.zonal = Some(v),
        }
    }

    /// Builds the create options from the required fields and the flags:
    /// one pass over the optional fields, setting only those supplied.
    pub fn translate(name: &str, kube_version: &str, region: &str, flags: &ClusterFlags) -> (r:
        ClusterCreateOptions)
        ensures
            r@ == cluster_translated(name@, kube_version@, region@, *flags),
            forall|f: ClusterField| r.slot(f) == flags.slot(f),
    {
        let mut r = ClusterCreateOptions::new(name, kube_version, region);
        let order = ClusterField::all();
        let mut i: usize = 0;
        while i < order.len()
            invariant
                i <= order@.len(),
                order@ == cluster_field_order(),
                r.name@ == name@,
                r.kube_version@ == kube_version@,
                r.region@ == region@,
                forall|f: ClusterField|
                    #[trigger] r.slot(f) == if f.position() < i {
                        flags.slot(f)
                    } else {
                        None
                    },
            decreases order@.len() - i,
        {
            let f = order[i];
            assert(f.position() == i);
            match flags.setting(f) {
                Some(s) => r.set(s),
                None => {},
            }
            i = i + 1;
        }
        assert(r@.supplied =~= flags.supplied());
        r
    }
}

/// The optional fields of a nodegroup's create options.
#[derive(Clone, Copy, Debug, PartialEq, Eq, Structural)]
pub enum NodegroupField {
    FlavorId,
    Cpus,
    RamMb,
    VolumeGb,
    VolumeType,
    KeypairName,
    AffinityPolicy,
}

/// One optional field of a nodegroup's create options, with its value.
pub enum NodegroupSetting {
    FlavorId(String),
    Cpus(u32),
    RamMb(u32),
    VolumeGb(u32),
    VolumeType(String),
    KeypairName(String),
    AffinityPolicy(String),
}

/// The optional nodegroup fields as the user gave them.
pub struct NodegroupFlags {
    pub flavor_id: Option<String>,
    pub cpus: Option<u32>,
    pub ram_mb: Option<u32>,
    pub volume_gb: Option<u32>,
    pub volume_type: Option<String>,
    pub keypair_name: Option<String>,
    pub affinity_policy: Option<String>,
}

/// The body of a nodegroup create request. An optional field is `Some`
/// only where the user supplied it.
pub struct NodegroupCreateOptions {
    pub nodes_count: u32,
    pub local_volume: bool,
    pub availability_zone: String,
    pub flavor_id: Option<String>,
    pub cpus: Option<u32>,
    pub ram_mb: Option<u32>,
    pub volume_gb: Option<u32>,
    pub volume_type: Option<String>,
    pub keypair_name: Option<String>,
    pub affinity_policy: Option<String>,
}

pub struct NodegroupOptionsView {
    pub nodes_count: u32,
    pub local_volume: bool,
    pub availability_zone: Seq<char>,
    pub supplied: Map<NodegroupField, ValueView>,
}

pub open spec fn nodegroup_supplied(slot: spec_fn(NodegroupField) -> Option<ValueView>) -> Map<
    NodegroupField,
    ValueView,
> {
    Map::new(|f: NodegroupField| slot(f) is Some, |f: NodegroupField| slot(f)->0)
}

/// The order in which the translator visits the optional nodegroup fields.
pub open spec fn nodegroup_field_order() -> Seq<NodegroupField> {
    seq![
        NodegroupField::FlavorId,
        NodegroupField::Cpus,
        NodegroupField::RamMb,
        NodegroupField::VolumeGb,
        NodegroupField::VolumeType,
        NodegroupField::KeypairName,
        NodegroupField::AffinityPolicy,
    ]
}

impl NodegroupField {
    pub open spec fn position(self) -> int {
        match self {
            NodegroupField::FlavorId => 0,
            NodegroupField::Cpus => 1,
            NodegroupField::RamMb => 2,
            NodegroupField::VolumeGb => 3,
            NodegroupField::VolumeType => 4,
            NodegroupField::KeypairName => 5,
            NodegroupField::AffinityPolicy => 6,
        }
    }

    pub fn all() -> (r: Vec<NodegroupField>)
        ensures
            r@ == nodegroup_field_order(),
    {
        let r = vec![
            NodegroupField::FlavorId,
            NodegroupField::Cpus,
            NodegroupField::RamMb,
            NodegroupField::VolumeGb,
            NodegroupField::VolumeType,
            NodegroupField::KeypairName,
            NodegroupField::AffinityPolicy,
        ];
        assert(r@ =~= nodegroup_field_order());
        r
    }
}

impl NodegroupSetting {
    pub open spec fn field(&self) -> NodegroupField {
        match self {
            NodegroupSetting::FlavorId(_) => NodegroupField::FlavorId,
            NodegroupSetting::Cpus(_) => NodegroupField::Cpus,
            NodegroupSetting::RamMb(_) => NodegroupField::RamMb,
            NodegroupSetting::VolumeGb(_) => NodegroupField::VolumeGb,
            NodegroupSetting::VolumeType(_) => NodegroupField::VolumeType,
            NodegroupSetting::KeypairName(_) => NodegroupField::KeypairName,
            NodegroupSetting::AffinityPolicy(_) => NodegroupField::AffinityPolicy,
        }
    }

    pub open spec fn value(&self) -> ValueView {
        match self {
            NodegroupSetting::FlavorId(s) => ValueView::Text(s@),
            NodegroupSetting::Cpus(n) => ValueView::Int(*n as u64),
            NodegroupSetting::RamMb(n) => ValueView::Int(*n as u64),
            NodegroupSetting::VolumeGb(n) => ValueView::Int(*n as u64),
            NodegroupSetting::VolumeType(s) => ValueView::Text(s@),
            NodegroupSetting::KeypairName(s) => ValueView::Text(s@),
            NodegroupSetting::AffinityPolicy(s) => ValueView::Text(s@),
        }
    }
}

impl NodegroupFlags {
    pub open spec fn slot(&self, f: NodegroupField) -> Option<ValueView> {
        match f {
            NodegroupField::FlavorId => text_slot(self.flavor_id),
            NodegroupField::Cpus => count_slot(self.cpus),
            NodegroupField::RamMb => count_slot(self.ram_mb),
            NodegroupField::VolumeGb => count_slot(self.volume_gb),
            NodegroupField::VolumeType => text_slot(self.volume_type),
            NodegroupField::KeypairName => text_slot(self.keypair_name),
            NodegroupField::AffinityPolicy => text_slot(self.affinity_policy),
        }
    }

    /// The optional fields that the user supplied, with their values.
    pub open spec fn supplied(&self) -> Map<NodegroupField, ValueView> {
        nodegroup_supplied(|f: NodegroupField| self.slot(f))
    }

    /// The value supplied for `f`, as a setting of that field.
    pub fn setting(&self, f: NodegroupField) -> (r: Option<NodegroupSetting>)
        ensures
            match r {
                Some(s) => s.field() == f && self.slot(f) == Some(s.value()),
                None => self.slot(f) is None,
            },
    {
        match f {
            NodegroupField::FlavorId => match &self.flavor_id {
                Some(s) => Some(NodegroupSetting::FlavorId(s.clone())),
                None => None,
            },
            NodegroupField::Cpus => match self.cpus {
                Some(n) => Some(NodegroupSetting::Cpus(n)),
                None => None,
            },
            NodegroupField::RamMb => match self.ram_mb {
                Some(n) => Some(NodegroupSetting::RamMb(n)),
                None => None,
            },
            NodegroupField::VolumeGb => match self.volume_gb {
                Some(n) => Some(NodegroupSetting::VolumeGb(n)),
                None => None,
            },
            NodegroupField::VolumeType => match &self.volume_type {
                Some(s) => Some(NodegroupSetting::VolumeType(s.clone())),
                None => None,
            },
            NodegroupField::KeypairName => match &self.keypair_name {
                Some(s) => Some(NodegroupSetting::KeypairName(s.clone())),
                None => None,
            },
            NodegroupField::AffinityPolicy => match &self.affinity_policy {
                Some(s) => Some(NodegroupSetting::AffinityPolicy(s.clone())),
                None => None,
            },
        }
    }
}

impl View for NodegroupCreateOptions {
    type V = NodegroupOptionsView;

    open spec fn view(&self) -> NodegroupOptionsView {
        NodegroupOptionsView {
            nodes_count: self.nodes_count,
            local_volume: self.local_volume,
            availability_zone: self.availability_zone@,
            supplied: nodegroup_supplied(|f: NodegroupField| self.slot(f)),
        }
    }
}

/// The nodegroup options that carry the required fields and nothing else.
pub open spec fn nodegroup_baseline(
    nodes_count: u32,
    local_volume: bool,
    availability_zone: Seq<char>,
) -> NodegroupOptionsView {
    NodegroupOptionsView { nodes_count, local_volume, availability_zone, supplied: Map::empty() }
}

/// What translating the required fields and the flags yields.
pub open spec fn nodegroup_translated(
    nodes_count: u32,
    local_volume: bool,
    availability_zone: Seq<char>,
    flags: NodegroupFlags,
) -> NodegroupOptionsView {
    NodegroupOptionsView { nodes_count, local_volume, availability_zone, supplied: flags.supplied() }
}

/// Supplying no optional nodegroup field gives the same options as leaving
/// every optional field absent: the bare options of the required fields.
pub proof fn lemma_nodegroup_nothing_supplied(
    nodes_count: u32,
    local_volume: bool,
    availability_zone: Seq<char>,
    flags: NodegroupFlags,
)
    requires
        forall|f: NodegroupField| flags.slot(f) is None,
    ensures
        nodegroup_translated(nodes_count, local_volume, availability_zone, flags)
            == nodegroup_baseline(nodes_count, local_volume, availability_zone),
{
    assert(flags.supplied() =~= Map::empty());
}

/// Supplying the one optional nodegroup field `f` with value `v` gives
/// options that differ from the bare options in field `f` alone.
pub proof fn lemma_nodegroup_one_supplied(
    nodes_count: u32,
    local_volume: bool,
    availability_zone: Seq<char>,
    flags: NodegroupFlags,
    f: NodegroupField,
    v: ValueView,
)
    requires
        flags.slot(f) == Some(v),
        forall|g: NodegroupField| g != f ==> flags.slot(g) is None,
    ensures
        ({
            let t = nodegroup_translated(nodes_count, local_volume, availability_zone, flags);
            let b = nodegroup_baseline(nodes_count, local_volume, availability_zone);
            &&& t.nodes_count == b.nodes_count && t.local_volume == b.local_volume
            &&& t.availability_zone == b.availability_zone
            &&& t.supplied == b.supplied.insert(f, v)
            &&& forall|g: NodegroupField|
                (t.supplied.contains_key(g) != b.supplied.contains_key(g)) <==> g == f
        }),
{
    assert(flags.supplied() =~= Map::<NodegroupField, ValueView>::empty().insert(f, v));
}

impl NodegroupCreateOptions {
    pub open spec fn slot(&self, f: NodegroupField) -> Option<ValueView> {
        match f {
            NodegroupField::FlavorId => text_slot(self.flavor_id),
            NodegroupField::Cpus => count_slot(self.cpus),
            NodegroupField::RamMb => count_slot(self.ram_mb),
            NodegroupField::VolumeGb => count_slot(self.volume_gb),
            NodegroupField::VolumeType => text_slot(self.volume_type),
            NodegroupField::KeypairName => text_slot(self.keypair_name),
            NodegroupField::AffinityPolicy => text_slot(self.affinity_policy),
        }
    }

    /// Options with the required fields and no optional field set.
    pub fn new(nodes_count: u32, local_volume: bool, availability_zone: &str) -> (r:
        NodegroupCreateOptions)
        ensures
            r@ == nodegroup_baseline(nodes_count, local_volume, availability_zone@),
            forall|f: NodegroupField| r.slot(f) is None,
    {
        let r = NodegroupCreateOptions {
            nodes_count,
            local_volume,
            availability_zone: availability_zone.to_owned(),
            flavor_id: None,
            cpus: None,
            ram_mb: None,
            volume_gb: None,
            volume_type: None,
            keypair_name: None,
            affinity_policy: None,
        };
        assert(r@.supplied =~= Map::empty());
        r
    }

    /// Sets the one field that `s` names; every other field stays as it was.
    pub fn set(&mut self, s: NodegroupSetting)
        ensures
            final(self).nodes_count == old(self).nodes_count,
            final(self).local_volume == old(self).local_volume,
            final(self).availability_zone == old(self).availability_zone,
            forall|f: NodegroupField|
                #[trigger] final(self).slot(f) == if f == s.field() {
                    Some(s.value())
                } else {
                    old(self).slot(f)
                },
    {
        match s {
            NodegroupSetting::FlavorId(v) => self.flavor_id = Some(v),
            NodegroupSetting::Cpus(v) => self.cpus = Some(v),
            NodegroupSetting::RamMb(v) => self.ram_mb = Some(v),
            NodegroupSetting::VolumeGb(v) => self.volume_gb = Some(v),
            NodegroupSetting::VolumeType(v) => self.volume_type = Some(v),
            NodegroupSetting::KeypairName(v) => self.keypair_name = Some(v),
            NodegroupSetting::AffinityPolicy(v) => self.affinity_policy = Some(v),
        }
    }

    /// Builds the create options from the required fields and the flags:
    /// one pass over the optional fields, setting only those supplied. No
    /// field is checked against another.
    pub fn translate(
        nodes_count: u32,
        local_volume: bool,
        availability_zone: &str,
        flags: &NodegroupFlags,
    ) -> (r: NodegroupCreateOptions)
        ensures
            r@ == nodegroup_translated(nodes_count, local_volume, availability_zone@, *flags),
            forall|f: NodegroupField| r.slot(f) == flags.slot(f),
    {
        let mut r = NodegroupCreateOptions::new(nodes_count, local_volume, availability_zone);
        let order = NodegroupField::all();
        let mut i: usize = 0;
        while i < order.len()
            invariant
                i <= order@.len(),
                order@ == nodegroup_field_order(),
                r.nodes_count == nodes_count,
                r.local_volume == local_volume,
                r.availability_zone@ == availability_zone@,
                forall|f: NodegroupField|
                    #[trigger] r.slot(f) == if f.position() < i {
                        flags.slot(f)
                    } else {
                        None
                    },
            decreases order@.len() - i,
        {
            let f = order[i];
            assert(f.position() == i);
            match flags.setting(f) {
                Some(s) => r.set(s),
                None => {},
            }
            i = i + 1;
        }
        assert(r@.supplied =~= flags.supplied());
        r
    }
}

} // verus!
