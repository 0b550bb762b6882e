use vstd::prelude::*;
use crate::value::{
    Entry, EntryView, Field, FieldView, MemberView, Object, Value, ValueView, fields_view,
    flag_pairs_view, members_view, optional_pairs_view, optional_text, rows_view, scalar_member,
    text_pairs_view, values_view,
};

verus! {

/// The resource kinds that the service exposes.
#[derive(Clone, Copy, Debug, PartialEq, Eq, Structural)]
pub enum Kind {
    Cluster,
    KubeVersion,
    Node,
    Nodegroup,
    Task,
}

/// A Kubernetes cluster. Timestamps are RFC 3339 text.
pub struct Cluster {
    pub id: String,
    pub created_at: String,
    pub updated_at: Option<String>,
    pub name: String,
    pub status: String,
    pub project_id: String,
    pub network_id: String,
    pub subnet_id: String,
    pub kube_api_ip: String,
    pub kube_version: String,
    pub region: String,
    pub pki_tree_updated_at: Option<String>,
    pub maintenance_window_start: Option<String>,
    pub maintenance_window_end: Option<String>,
    pub maintenance_last_start: Option<String>,
    pub enable_autorepair: bool,
    pub enable_patch_version_auto_upgrade: bool,
    pub zonal: bool,
    pub kubernetes_options: KubernetesOptions,
}

/// Additional Kubernetes settings of a cluster.
pub struct KubernetesOptions {
    pub enable_pod_security_policy: bool,
}

/// A Kubernetes version that clusters can be created with.
pub struct KubeVersion {
    pub version: String,
    pub is_default: bool,
}

/// A worker node of a nodegroup.
pub struct Node {
    pub id: String,
    pub created_at: String,
    pub updated_at: Option<String>,
    pub hostname: String,
    pub ip: String,
    pub nodegroup_id: String,
}

/// A group of worker nodes of one cluster.
pub struct Nodegroup {
    pub id: String,
    pub availability_zone: String,
    pub created_at: String,
    pub updated_at: Option<String>,
    pub cluster_id: String,
    pub flavor_id: String,
    pub volume_gb: u32,
    pub volume_type: String,
    pub local_volume: bool,
    pub nodes: Vec<Node>,
    /// The user-defined Kubernetes labels of the nodes, key then value, in
    /// the order received.
    pub labels: Vec<(String, String)>,
}

/// An asynchronous operation on a cluster.
pub struct Task {
    pub id: String,
    pub started_at: String,
    pub updated_at: Option<String>,
    pub task_type: String,
    pub status: String,
    pub cluster_id: String,
}

/// One record of any kind, as the service returns it.
pub enum Record {
    Cluster(Cluster),
    KubeVersion(KubeVersion),
    Node(Node),
    Nodegroup(Nodegroup),
    Task(Task),
}

/// The fixed, ordered field names of each kind.
pub open spec fn field_names(k: Kind) -> Seq<Seq<char>> {
    match k {
        Kind::Cluster => seq![
            "id"@, "created_at"@, "updated_at"@, "name"@, "status"@, "project_id"@,
            "network_id"@, "subnet_id"@, "kube_api_ip"@, "kube_version"@, "region"@,
            "pki_tree_updated_at"@, "maintenance_window_start"@, "maintenance_window_end"@,
            "maintenance_last_start"@, "enable_autorepair"@,
            "enable_patch_version_auto_upgrade"@, "zonal"@,
        ],
        Kind::KubeVersion => seq!["version"@, "is_default"@],
        Kind::Node => seq![
            "id"@, "created_at"@, "updated_at"@, "hostname"@, "ip"@, "nodegroup_id"@,
        ],
        Kind::Nodegroup => seq![
            "id"@, "nodes_count"@, "availability_zone"@, "created_at"@, "updated_at"@,
            "cluster_id"@, "flavor_id"@, "volume_gb"@, "volume_type"@, "local_volume"@,
        ],
        Kind::Task => seq![
            "id"@, "started_at"@, "updated_at"@, "type"@, "status"@, "cluster_id"@,
        ],
    }
}

/// Which fields, by position, a list table shows for each kind.
pub open spec fn list_columns(k: Kind) -> Seq<usize> {
    match k {
        Kind::Cluster => seq![0usize, 3, 4, 8, 9],
        Kind::KubeVersion => seq![0usize, 1],
        Kind::Node => seq![0usize, 3, 4, 5],
        Kind::Nodegroup => seq![0usize, 1, 2, 6, 7, 8, 9],
        Kind::Task => seq![0usize, 1, 2, 3, 4],
    }
}

/// Pairs each field name of `k` with the value at the same position.
pub open spec fn describe(k: Kind, values: Seq<ValueView>) -> Seq<FieldView> {
    Seq::new(values.len(), |i: int| FieldView { name: field_names(k)[i], value: values[i] })
}

impl Kind {
    pub fn field_names(&self) -> (r: Vec<String>)
        ensures
            r.deep_view() == field_names(*self),
    {
        let mut r: Vec<String> = Vec::new();
        match self {
            Kind::Cluster => {
                r.push("id".to_owned());
                r.push("created_at".to_owned());
                r.push("updated_at".to_owned());
                r.push("name".to_owned());
                r.push("status".to_owned());
                r.push("project_id".to_owned());
                r.push("network_id".to_owned());
                r.push("subnet_id".to_owned());
                r.push("kube_api_ip".to_owned());
                r.push("kube_version".to_owned());
                r.push("region".to_owned());
                r.push("pki_tree_updated_at".to_owned());
                r.push("maintenance_window_start".to_owned());
                r.push("maintenance_window_end".to_owned());
                r.push("maintenance_last_start".to_owned());
                r.push("enable_autorepair".to_owned());
                r.push("enable_patch_version_auto_upgrade".to_owned());
                r.push("zonal".to_owned());
            },
            Kind::KubeVersion => {
                r.push("version".to_owned());
                r.push("is_default".to_owned());
            },
            Kind::Node => {
                r.push("id".to_owned());
                r.push("created_at".to_owned());
                r.push("updated_at".to_owned());
                r.push("hostname".to_owned());
                r.push("ip".to_owned());
                r.push("nodegroup_id".to_owned());
            },
            Kind::Nodegroup => {
                r.push("id".to_owned());
                r.push("nodes_count".to_owned());
                r.push("availability_zone".to_owned());
                r.push("created_at".to_owned());
                r.push("updated_at".to_owned());
                r.push("cluster_id".to_owned());
                r.push("flavor_id".to_owned());
                r.push("volume_gb".to_owned());
                r.push("volume_type".to_owned());
                r.push("local_volume".to_owned());
            },
            Kind::Task => {
                r.push("id".to_owned());
                r.push("started_at".to_owned());
                r.push("updated_at".to_owned());
                r.push("type".to_owned());
                r.push("status".to_owned());
                r.push("cluster_id".to_owned());
            },
        }
        assert(r.deep_view() =~= field_names(*self));
        r
    }

    pub fn list_columns(&self) -> (r: Vec<usize>)
        ensures
            r@ == list_columns(*self),
    {
        let r: Vec<usize> = match self {
            Kind::Cluster => vec![0, 3, 4, 8, 9],
            Kind::KubeVersion => vec![0, 1],
            Kind::Node => vec![0, 3, 4, 5],
            Kind::Nodegroup => vec![0, 1, 2, 6, 7, 8, 9],
            Kind::Task => vec![0, 1, 2, 3, 4],
        };
        assert(r@ =~= list_columns(*self));
        r
    }
}

impl Cluster {
    pub open spec fn spec_values(&self) -> Seq<ValueView> {
        seq![
            ValueView::Text(self.id@), ValueView::Text(self.created_at@),
            optional_text(self.updated_at), ValueView::Text(self.name@),
            ValueView::Text(self.status@), ValueView::Text(self.project_id@),
            ValueView::Text(self.network_id@), ValueView::Text(self.subnet_id@),
            ValueView::Text(self.kube_api_ip@), ValueView::Text(self.kube_version@),
            ValueView::Text(self.region@), optional_text(self.pki_tree_updated_at),
            optional_text(self.maintenance_window_start),
            optional_text(self.maintenance_window_end),
            optional_text(self.maintenance_last_start), ValueView::Bool(self.enable_autorepair),
            ValueView::Bool(self.enable_patch_version_auto_upgrade), ValueView::Bool(self.zonal),
        ]
    }

    /// The values of the fields, in the order of `field_names(Kind::Cluster)`.
    pub fn values(&self) -> (r: Vec<Value>)
        ensures
            values_view(r@) == self.spec_values(),
    {
        let mut r: Vec<Value> = Vec::new();
        r.push(Value::text(&self.id));
        r.push(Value::text(&self.created_at));
        r.push(Value::optional(&self.updated_at));
        r.push(Value::text(&self.name));
        r.push(Value::text(&self.status));
        r.push(Value::text(&self.project_id));
        r.push(Value::text(&self.network_id));
        r.push(Value::text(&self.subnet_id));
        r.push(Value::text(&self.kube_api_ip));
        r.push(Value::text(&self.kube_version));
        r.push(Value::text(&self.region));
        r.push(Value::optional(&self.pki_tree_updated_at));
        r.push(Value::optional(&self.maintenance_window_start));
        r.push(Value::optional(&self.maintenance_window_end));
        r.push(Value::optional(&self.maintenance_last_start));
        r.push(Value::Bool(self.enable_autorepair));
        r.push(Value::Bool(self.enable_patch_version_auto_upgrade));
        r.push(Value::Bool(self.zonal));
        assert(values_view(r@) =~= self.spec_values());
        r
    }
}

impl KubeVersion {
    pub open spec fn spec_values(&self) -> Seq<ValueView> {
        seq![ValueView::Text(self.version@), ValueView::Bool(self.is_default)]
    }

    /// The values of the fields, in the order of `field_names(Kind::KubeVersion)`.
    pub fn values(&self) -> (r: Vec<Value>)
        ensures
            values_view(r@) == self.spec_values(),
    {
        let mut r: Vec<Value> = Vec::new();
        r.push(Value::text(&self.version));
        r.push(Value::Bool(self.is_default));
        assert(values_view(r@) =~= self.spec_values());
        r
    }
}

impl Node {
    pub open spec fn spec_values(&self) -> Seq<ValueView> {
        seq![
            ValueView::Text(self.id@), ValueView::Text(self.created_at@),
            optional_text(self.updated_at), ValueView::Text(self.hostname@),
            ValueView::Text(self.ip@), ValueView::Text(self.nodegroup_id@),
        ]
    }

    /// The values of the fields, in the order of `field_names(Kind::Node)`.
    pub fn values(&self) -> (r: Vec<Value>)
        ensures
            values_view(r@) == self.spec_values(),
    {
        let mut r: Vec<Value> = Vec::new();
        r.push(Value::text(&self.id));
        r.push(Value::text(&self.created_at));
        r.push(Value::optional(&self.updated_at));
        r.push(Value::text(&self.hostname));
        r.push(Value::text(&self.ip));
        r.push(Value::text(&self.nodegroup_id));
        assert(values_view(r@) =~= self.spec_values());
        r
    }
}

impl Node {
    /// The node as one object of text-or-absent values, in the order of
    /// `field_names(Kind::Node)`.
    pub fn row(&self) -> (r: Vec<(String, Option<String>)>)
        ensures
            optional_pairs_view(r@) == describe(Kind::Node, self.spec_values()),
    {
        let mut r: Vec<(String, Option<String>)> = Vec::new();
        r.push(("id".to_owned(), Some(self.id.clone())));
        r.push(("created_at".to_owned(), Some(self.created_at.clone())));
        r.push(("updated_at".to_owned(), self.updated_at.clone()));
        r.push(("hostname".to_owned(), Some(self.hostname.clone())));
        r.push(("ip".to_owned(), Some(self.ip.clone())));
        r.push(("nodegroup_id".to_owned(), Some(self.nodegroup_id.clone())));
        assert(optional_pairs_view(r@) =~= describe(Kind::Node, self.spec_values()));
        r
    }
}

/// The node objects of a nodegroup's structured form.
pub open spec fn node_objects(nodes: Seq<Node>) -> Seq<Seq<FieldView>> {
    nodes.map_values(|n: Node| describe(Kind::Node, n.spec_values()))
}

impl Nodegroup {
    pub fn node_rows(&self) -> (r: Vec<Vec<(String, Option<String>)>>)
        ensures
            rows_view(r@) == node_objects(self.nodes@),
    {
        let mut r: Vec<Vec<(String, Option<String>)>> = Vec::new();
        let mut i: usize = 0;
        while i < self.nodes.len()
            invariant
                i <= self.nodes@.len(),
                rows_view(r@) == node_objects(self.nodes@).take(i as int),
            decreases self.nodes@.len() - i,
        {
            let row = self.nodes[i].row();
            let ghost prev = r@;
            r.push(row);
            assert(r@ == prev.push(row));
            assert(rows_view(r@) =~= rows_view(prev).push(optional_pairs_view(row@)));
            i = i + 1;
            assert(rows_view(r@) =~= node_objects(self.nodes@).take(i as int));
        }
        assert(node_objects(self.nodes@).take(i as int) =~= node_objects(self.nodes@));
        r
    }

    /// A copy of the labels, key then value.
    pub fn label_pairs(&self) -> (r: Vec<(String, String)>)
        ensures
            text_pairs_view(r@) == text_pairs_view(self.labels@),
    {
        let mut r: Vec<(String, String)> = Vec::new();
        let mut i: usize = 0;
        while i < self.labels.len()
            invariant
                i <= self.labels@.len(),
                text_pairs_view(r@) == text_pairs_view(self.labels@).take(i as int),
            decreases self.labels@.len() - i,
        {
            let p = (self.labels[i].0.clone(), self.labels[i].1.clone());
            let ghost prev = r@;
            r.push(p);
            assert(r@ == prev.push(p));
            assert(text_pairs_view(r@) =~= text_pairs_view(prev).push(
                FieldView { name: p.0@, value: ValueView::Text(p.1@) },
            ));
            i = i + 1;
            assert(text_pairs_view(r@) =~= text_pairs_view(self.labels@).take(i as int));
        }
        assert(text_pairs_view(self.labels@).take(i as int) =~= text_pairs_view(self.labels@));
        r
    }

    pub open spec fn spec_values(&self) -> Seq<ValueView> {
        seq![
            ValueView::Text(self.id@), ValueView::Int(self.nodes@.len() as u64),
            ValueView::Text(self.availability_zone@), ValueView::Text(self.created_at@),
            optional_text(self.updated_at), ValueView::Text(self.cluster_id@),
            ValueView::Text(self.flavor_id@), ValueView::Int(self.volume_gb as u64),
            ValueView::Text(self.volume_type@), ValueView::Bool(self.local_volume),
        ]
    }

    /// The values of the fields, in the order of `field_names(Kind::Nodegroup)`.
    pub fn values(&self) -> (r: Vec<Value>)
        ensures
            values_view(r@) == self.spec_values(),
    {
        let mut r: Vec<Value> = Vec::new();
        r.push(Value::text(&self.id));
        r.push(Value::Int(self.nodes.len() as u64));
        r.push(Value::text(&self.availability_zone));
        r.push(Value::text(&self.created_at));
        r.push(Value::optional(&self.updated_at));
        r.push(Value::text(&self.cluster_id));
        r.push(Value::text(&self.flavor_id));
        r.push(Value::Int(self.volume_gb as u64));
        r.push(Value::text(&self.volume_type));
        r.push(Value::Bool(self.local_volume));
        assert(values_view(r@) =~= self.spec_values());
        r
    }
}

impl Task {
    pub open spec fn spec_values(&self) -> Seq<ValueView> {
        seq![
            ValueView::Text(self.id@), ValueView::Text(self.started_at@),
            optional_text(self.updated_at), ValueView::Text(self.task_type@),
            ValueView::Text(self.status@), ValueView::Text(self.cluster_id@),
        ]
    }

    /// The values of the fields, in the order of `field_names(Kind::Task)`.
    pub fn values(&self) -> (r: Vec<Value>)
        ensures
            values_view(r@) == self.spec_values(),
    {
        let mut r: Vec<Value> = Vec::new();
        r.push(Value::text(&self.id));
        r.push(Value::text(&self.started_at));
        r.push(Value::optional(&self.updated_at));
        r.push(Value::text(&self.task_type));
        r.push(Value::text(&self.status));
        r.push(Value::text(&self.cluster_id));
        assert(values_view(r@) =~= self.spec_values());
        r
    }
}

impl Record {
    pub open spec fn kind(&self) -> Kind {
        match self {
            Record::Cluster(_) => Kind::Cluster,
            Record::KubeVersion(_) => Kind::KubeVersion,
            Record::Node(_) => Kind::Node,
            Record::Nodegroup(_) => Kind::Nodegroup,
            Record::Task(_) => Kind::Task,
        }
    }

    pub open spec fn spec_values(&self) -> Seq<ValueView> {
        match self {
            Record::Cluster(c) => c.spec_values(),
            Record::KubeVersion(v) => v.spec_values(),
            Record::Node(n) => n.spec_values(),
            Record::Nodegroup(g) => g.spec_values(),
            Record::Task(t) => t.spec_values(),
        }
    }

    /// The record's field descriptor: every field, named, in its kind's order.
    pub open spec fn descriptor(&self) -> Seq<FieldView> {
        describe(self.kind(), self.spec_values())
    }

    pub fn get_kind(&self) -> (r: Kind)
        ensures
            r == self.kind(),
    {
        match self {
            Record::Cluster(_) => Kind::Cluster,
            Record::KubeVersion(_) => Kind::KubeVersion,
            Record::Node(_) => Kind::Node,
            Record::Nodegroup(_) => Kind::Nodegroup,
            Record::Task(_) => Kind::Task,
        }
    }

    pub fn values(&self) -> (r: Vec<Value>)
        ensures
            values_view(r@) == self.spec_values(),
    {
        match self {
            Record::Cluster(c) => c.values(),
            Record::KubeVersion(v) => v.values(),
            Record::Node(n) => n.values(),
            Record::Nodegroup(g) => g.values(),
            Record::Task(t) => t.values(),
        }
    }

    /// The members that only the structured form holds: nested objects
    /// and sequences, which a table cell cannot show.
    pub open spec fn nested_members(&self) -> Seq<MemberView> {
        match self {
            Record::Cluster(c) => seq![
                MemberView {
                    name: "kubernetes_options"@,
                    entry: EntryView::Object(
                        seq![
                            FieldView {
                                name: "enable_pod_security_policy"@,
                                value: ValueView::Bool(
                                    c.kubernetes_options.enable_pod_security_policy,
                                ),
                            },
                        ],
                    ),
                },
            ],
            Record::Nodegroup(g) => seq![
                MemberView { name: "nodes"@, entry: EntryView::List(node_objects(g.nodes@)) },
                MemberView { name: "labels"@, entry: EntryView::Object(text_pairs_view(g.labels@)) },
            ],
            _ => Seq::empty(),
        }
    }

    /// The full field set of the structured form: every plain field, in
    /// the kind's order, then the nested members.
    pub open spec fn structured(&self) -> Seq<MemberView> {
        self.descriptor().map_values(|f: FieldView| scalar_member(f)) + self.nested_members()
    }

    /// Every field of the record, named, in its kind's fixed order.
    pub fn fields(&self) -> (r: Vec<Field>)
        ensures
            fields_view(r@) == self.descriptor(),
            r@.len() == field_names(self.kind()).len(),
    {
        proof {
            lemma_values_match_names(*self);
        }
        named_fields(self.get_kind(), self.values())
    }

    /// The record's structured form: every plain field, then the nested
    /// members.
    pub fn members(&self) -> (r: Object)
        ensures
            r@ == self.structured(),
    {
        let fields = self.fields();
        let mut members: Vec<(String, Entry)> = Vec::new();
        let mut i: usize = 0;
        while i < fields.len()
            invariant
                i <= fields@.len(),
                fields_view(fields@) == self.descriptor(),
                members_view(members@) == self.descriptor().map_values(
                    |f: FieldView| scalar_member(f),
                ).take(i as int),
            decreases fields@.len() - i,
        {
            let m = (fields[i].name.clone(), fields[i].value.to_entry());
            assert(fields_view(fields@)[i as int] == fields@[i as int]@);
            let ghost prev = members@;
            members.push(m);
            assert(members@ == prev.push(m));
            assert(members_view(members@) =~= members_view(prev).push(
                MemberView { name: m.0@, entry: m.1@ },
            ));
            i = i + 1;
            assert(members_view(members@) =~= self.descriptor().map_values(
                |f: FieldView| scalar_member(f),
            ).take(i as int));
        }
        let ghost plain = members@;
        match self {
            Record::Cluster(c) => {
                let mut options: Vec<(String, bool)> = Vec::new();
                options.push(
                    (
                        "enable_pod_security_policy".to_owned(),
                        c.kubernetes_options.enable_pod_security_policy,
                    ),
                );
                assert(flag_pairs_view(options@) =~= seq![
                    FieldView {
                        name: "enable_pod_security_policy"@,
                        value: ValueView::Bool(c.kubernetes_options.enable_pod_security_policy),
                    },
                ]);
                members.push(("kubernetes_options".to_owned(), Entry::Flags(options)));
            },
            Record::Nodegroup(g) => {
                members.push(("nodes".to_owned(), Entry::Rows(g.node_rows())));
                members.push(("labels".to_owned(), Entry::Texts(g.label_pairs())));
            },
            _ => {},
        }
        assert(members_view(members@) =~= members_view(plain) + self.nested_members());
        assert(self.descriptor().map_values(|f: FieldView| scalar_member(f)).take(i as int)
            =~= self.descriptor().map_values(|f: FieldView| scalar_member(f)));
        Object { members }
    }
}

/// Pairs each field name of `k` with the value at the same position.
pub fn named_fields(k: Kind, values: Vec<Value>) -> (r: Vec<Field>)
    requires
        values@.len() == field_names(k).len(),
    ensures
        fields_view(r@) == describe(k, values_view(values@)),
        r@.len() == values@.len(),
{
    let names = k.field_names();
    let mut r: Vec<Field> = Vec::new();
    let mut i: usize = 0;
    while i < values.len()
        invariant
            i <= values@.len(),
            values@.len() == names@.len(),
            names.deep_view() == field_names(k),
            fields_view(r@) == describe(k, values_view(values@)).take(i as int),
            r@.len() == i,
        decreases values@.len() - i,
    {
        let f = Field { name: names[i].clone(), value: values[i].duplicate() };
        assert(names.deep_view()[i as int] == names@[i as int]@);
        assert(values_view(values@)[i as int] == values@[i as int]@);
        assert(f@ == describe(k, values_view(values@))[i as int]);
        let ghost prev = r@;
        r.push(f);
        assert(r@ == prev.push(f));
        assert(fields_view(r@) =~= fields_view(prev).push(f@));
        i = i + 1;
        assert(fields_view(r@) =~= describe(k, values_view(values@)).take(i as int));
    }
    assert(describe(k, values_view(values@)).take(i as int) =~= describe(k, values_view(values@)));
    r
}

/// Every record has exactly one value for each field name of its kind.
pub proof fn lemma_values_match_names(r: Record)
    ensures
        r.spec_values().len() == field_names(r.kind()).len(),
{
}

} // verus!
