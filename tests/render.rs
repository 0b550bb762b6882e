use mks::records::{Cluster, KubeVersion, Kind, KubernetesOptions, Node, Nodegroup, Record, Task};
use mks::render::{
    key_value_rows, list_header_cells, list_table, record_table, render, render_text, Document,
    OutputMode, Rendered, Response,
};
use mks::value::{Entry, Value};

fn s(x: &str) -> String {
    x.to_string()
}

fn cluster(id: &str, updated_at: Option<&str>) -> Cluster {
    Cluster {
        id: s(id),
        created_at: s("2020-01-01T10:00:00+00:00"),
        updated_at: updated_at.map(s),
        name: s("demo"),
        status: s("ACTIVE"),
        project_id: s("p1"),
        network_id: s("n1"),
        subnet_id: s("sn1"),
        kube_api_ip: s("10.0.0.1"),
        kube_version: s("1.28.2"),
        region: s("ru-1"),
        pki_tree_updated_at: None,
        maintenance_window_start: Some(s("01:00:00")),
        maintenance_window_end: Some(s("03:00:00")),
        maintenance_last_start: None,
        enable_autorepair: true,
        enable_patch_version_auto_upgrade: false,
        zonal: false,
        kubernetes_options: KubernetesOptions { enable_pod_security_policy: true },
    }
}

fn task(id: &str, updated_at: Option<&str>) -> Task {
    Task {
        id: s(id),
        started_at: s("2020-02-02T00:00:00+00:00"),
        updated_at: updated_at.map(s),
        task_type: s("CREATE_CLUSTER"),
        status: s("DONE"),
        cluster_id: s("c1"),
    }
}

fn node() -> Node {
    node_with_id("n-1")
}

fn node_with_id(id: &str) -> Node {
    Node {
        id: s(id),
        created_at: s("2020-03-03T00:00:00+00:00"),
        updated_at: None,
        hostname: s("host-1"),
        ip: s("192.168.0.5"),
        nodegroup_id: s("ng-1"),
    }
}

fn nodegroup() -> Nodegroup {
    Nodegroup {
        id: s("ng-1"),
        availability_zone: s("ru-1a"),
        created_at: s("2020-04-04T00:00:00+00:00"),
        updated_at: Some(s("2020-04-05T00:00:00+00:00")),
        cluster_id: s("c1"),
        flavor_id: s("f1"),
        volume_gb: 50,
        volume_type: s("fast.ru-1a"),
        local_volume: false,
        nodes: vec![node_with_id("n-1"), node_with_id("n-2"), node_with_id("n-3")],
        labels: vec![(s("team"), s("core")), (s("tier"), s("web"))],
    }
}

fn kube_version() -> KubeVersion {
    KubeVersion { version: s("1.28.2"), is_default: true }
}

/// The text of a plain member, as a table cell would show it.
fn plain_text(e: &Entry) -> String {
    match e {
        Entry::Text(Some(t)) => t.clone(),
        Entry::Text(None) => s(""),
        Entry::Flag(b) => b.to_string(),
        Entry::Count(n) => n.to_string(),
        _ => panic!("expected a plain member"),
    }
}

fn object(r: Rendered) -> Vec<(String, Entry)> {
    match r {
        Rendered::Structured(Document::Object(o)) => o.members,
        _ => panic!("expected one structured object"),
    }
}

fn table_text(r: Rendered) -> String {
    match r {
        Rendered::Text(t) => t,
        _ => panic!("expected table text"),
    }
}

/// The cells of each table line that holds data, trimmed.
fn cells(table: &str) -> Vec<Vec<String>> {
    table
        .lines()
        .filter(|l| l.starts_with('|'))
        .map(|l| {
            let inner = &l[1..l.len() - 1];
            inner.split('|').map(|c| c.trim().to_string()).collect()
        })
        .collect()
}

fn one(r: Record, mode: OutputMode) -> Rendered {
    render(&Response::One(r), mode)
}

/// Checks, for one record, that the table rows and the structured object
/// carry the same names and values, absent values differing only in form.
fn assert_forms_agree(make: &dyn Fn() -> Record, expected_rows: usize, nested: usize) {
    let rows = cells(&table_text(one(make(), OutputMode::Table)));
    let doc = object(one(make(), OutputMode::Json));
    assert_eq!(rows.len(), expected_rows);
    assert_eq!(doc.len(), expected_rows + nested);
    for (row, (name, entry)) in rows.iter().zip(doc.iter()) {
        assert_eq!(&row[0], name);
        assert_eq!(row[1], plain_text(entry));
    }
}

#[test]
fn cluster_get_table_keeps_empty_updated_at_row() {
    let out = table_text(one(Record::Cluster(cluster("c1", None)), OutputMode::Table));
    let rows = cells(&out);
    assert!(rows.contains(&vec![s("updated_at"), s("")]));
    assert_eq!(rows.len(), 18);
    assert_eq!(rows[0], vec![s("id"), s("c1")]);
    assert_eq!(rows[2], vec![s("updated_at"), s("")]);
}

#[test]
fn cluster_forms_agree() {
    assert_forms_agree(&|| Record::Cluster(cluster("c1", None)), 18, 1);
}

#[test]
fn node_forms_agree() {
    assert_forms_agree(&|| Record::Node(node()), 6, 0);
}

#[test]
fn nodegroup_forms_agree() {
    assert_forms_agree(&|| Record::Nodegroup(nodegroup()), 10, 2);
}

#[test]
fn task_forms_agree() {
    assert_forms_agree(&|| Record::Task(task("t1", None)), 6, 0);
}

#[test]
fn kube_version_forms_agree() {
    assert_forms_agree(&|| Record::KubeVersion(kube_version()), 2, 0);
}

#[test]
fn absent_timestamp_is_null_in_document() {
    let doc = object(one(Record::Cluster(cluster("c1", None)), OutputMode::Json));
    assert_eq!(doc[2].0, "updated_at");
    assert!(matches!(doc[2].1, Entry::Text(None)));
    assert_eq!(doc[11].0, "pki_tree_updated_at");
    assert!(matches!(doc[11].1, Entry::Text(None)));
    assert_eq!(doc[12].0, "maintenance_window_start");
    assert!(matches!(&doc[12].1, Entry::Text(Some(t)) if t == "01:00:00"));
    assert!(matches!(doc[15].1, Entry::Flag(true)));
    assert_eq!(doc.len(), 19);
    assert_eq!(doc[18].0, "kubernetes_options");
    match &doc[18].1 {
        Entry::Flags(kv) => assert_eq!(kv, &vec![(s("enable_pod_security_policy"), true)]),
        _ => panic!("expected a nested object"),
    }
}

#[test]
fn present_timestamp_is_text_in_both_forms() {
    let rows = cells(&table_text(one(Record::Task(task("t1", Some("2020-02-03T00:00:00+00:00"))), OutputMode::Table)));
    assert_eq!(rows[2], vec![s("updated_at"), s("2020-02-03T00:00:00+00:00")]);
    let doc = object(one(Record::Task(task("t1", Some("2020-02-03T00:00:00+00:00"))), OutputMode::Json));
    assert!(matches!(&doc[2].1, Entry::Text(Some(t)) if t == "2020-02-03T00:00:00+00:00"));
}

#[test]
fn cluster_field_order() {
    let names: Vec<String> = Record::Cluster(cluster("c1", None)).fields().into_iter().map(|f| f.name).collect();
    assert_eq!(
        names,
        vec![
            "id", "created_at", "updated_at", "name", "status", "project_id", "network_id",
            "subnet_id", "kube_api_ip", "kube_version", "region", "pki_tree_updated_at",
            "maintenance_window_start", "maintenance_window_end", "maintenance_last_start",
            "enable_autorepair", "enable_patch_version_auto_upgrade", "zonal",
        ]
    );
}

#[test]
fn field_order_stable_across_records_and_calls() {
    let a: Vec<String> = Record::Cluster(cluster("a", None)).fields().into_iter().map(|f| f.name).collect();
    let b: Vec<String> = Record::Cluster(cluster("b", Some("2021-01-01T00:00:00+00:00"))).fields().into_iter().map(|f| f.name).collect();
    assert_eq!(a, b);
    assert_eq!(Kind::Cluster.field_names(), a);
}

#[test]
fn list_columns_follow_record_order() {
    for kind in [Kind::Cluster, Kind::KubeVersion, Kind::Node, Kind::Nodegroup, Kind::Task] {
        let names = kind.field_names();
        let header = list_header_cells(kind);
        let positions: Vec<usize> = header
            .iter()
            .map(|h| names.iter().position(|n| n == h).unwrap())
            .collect();
        assert!(positions.windows(2).all(|w| w[0] < w[1]));
    }
    assert_eq!(list_header_cells(Kind::Cluster), vec!["id", "name", "status", "kube_api_ip", "kube_version"]);
    assert_eq!(list_header_cells(Kind::Task), vec!["id", "started_at", "updated_at", "type", "status"]);
}

#[test]
fn empty_list_renders_header_only() {
    let out = list_table(Kind::Task, &vec![]);
    let rows = cells(&out);
    assert_eq!(rows, vec![vec![s("id"), s("started_at"), s("updated_at"), s("type"), s("status")]]);
    match render(&Response::Many(Kind::Cluster, vec![]), OutputMode::Json) {
        Rendered::Structured(Document::List(items)) => assert!(items.is_empty()),
        _ => panic!("expected a structured sequence"),
    }
}

#[test]
fn task_list_json_keeps_order() {
    let tasks = vec![Record::Task(task("t1", None)), Record::Task(task("t2", Some("2020-02-03T00:00:00+00:00")))];
    match render(&Response::Many(Kind::Task, tasks), OutputMode::Json) {
        Rendered::Structured(Document::List(items)) => {
            assert_eq!(items.len(), 2);
            assert_eq!(plain_text(&items[0].members[0].1), "t1");
            assert_eq!(plain_text(&items[1].members[0].1), "t2");
            assert!(matches!(items[0].members[2].1, Entry::Text(None)));
        }
        _ => panic!("expected a structured sequence"),
    }
}

#[test]
fn task_list_table_rows_in_order() {
    let tasks = vec![Record::Task(task("t1", None)), Record::Task(task("t2", None))];
    let rows = cells(&list_table(Kind::Task, &tasks));
    assert_eq!(rows.len(), 3);
    assert_eq!(rows[1], vec![s("t1"), s("2020-02-02T00:00:00+00:00"), s(""), s("CREATE_CLUSTER"), s("DONE")]);
    assert_eq!(rows[2][0], "t2");
}

#[test]
fn cluster_list_table_columns() {
    let rows = cells(&list_table(Kind::Cluster, &vec![Record::Cluster(cluster("c1", None))]));
    assert_eq!(rows[1], vec![s("c1"), s("demo"), s("ACTIVE"), s("10.0.0.1"), s("1.28.2")]);
}

#[test]
fn nodegroup_counts_in_decimal() {
    let rows = cells(&table_text(one(Record::Nodegroup(nodegroup()), OutputMode::Table)));
    assert_eq!(rows[1], vec![s("nodes_count"), s("3")]);
    assert_eq!(rows[7], vec![s("volume_gb"), s("50")]);
    assert_eq!(rows[9], vec![s("local_volume"), s("false")]);
    let rows = cells(&list_table(Kind::Nodegroup, &vec![Record::Nodegroup(nodegroup())]));
    assert_eq!(rows[0], vec!["id", "nodes_count", "availability_zone", "flavor_id", "volume_gb", "volume_type", "local_volume"]);
    assert_eq!(rows[1], vec!["ng-1", "3", "ru-1a", "f1", "50", "fast.ru-1a", "false"]);
}

#[test]
fn int_cell_text_largest() {
    assert_eq!(Value::Int(u64::MAX).to_cell(), "18446744073709551615");
    assert_eq!(Value::Int(0).to_cell(), "0");
    assert_eq!(Value::Int(1000).to_cell(), "1000");
    assert_eq!(Value::Null.to_cell(), "");
    assert_eq!(Value::Bool(true).to_cell(), "true");
}

#[test]
fn kube_version_list_table() {
    let rows = cells(&list_table(Kind::KubeVersion, &vec![Record::KubeVersion(kube_version())]));
    assert_eq!(rows, vec![vec![s("version"), s("is_default")], vec![s("1.28.2"), s("true")]]);
}

#[test]
fn key_value_rows_and_record_table() {
    let fields = Record::Node(node()).fields();
    let rows = key_value_rows(&fields);
    assert_eq!(rows[3], vec![s("hostname"), s("host-1")]);
    assert_eq!(rows[2], vec![s("updated_at"), s("")]);
    let out = record_table(&Record::Node(node()));
    assert!(out.contains("host-1"));
    assert!(out.contains("192.168.0.5"));
    assert_eq!(cells(&out).len(), 6);
}

#[test]
fn done_renders_nothing() {
    assert!(matches!(render(&Response::Done, OutputMode::Table), Rendered::Nothing));
}

#[test]
fn json_text_keeps_types_order_and_nulls() {
    let text = render_text(&Response::One(Record::Nodegroup(nodegroup())), OutputMode::Json).unwrap();
    let parsed: serde_json::Value = serde_json::from_str(&text).unwrap();
    let object = parsed.as_object().unwrap();
    let keys: Vec<&str> = object.keys().map(|k| k.as_str()).collect();
    assert_eq!(keys, vec![
        "id", "nodes_count", "availability_zone", "created_at", "updated_at", "cluster_id",
        "flavor_id", "volume_gb", "volume_type", "local_volume", "nodes", "labels",
    ]);
    let nodes = object["nodes"].as_array().unwrap();
    assert_eq!(nodes.len(), 3);
    assert_eq!(nodes[1]["id"], "n-2");
    assert_eq!(nodes[0]["hostname"], "host-1");
    assert!(nodes[0]["updated_at"].is_null());
    assert_eq!(object["labels"]["team"], "core");
    assert_eq!(object["labels"]["tier"], "web");
    assert_eq!(object["nodes_count"], 3);
    assert_eq!(object["volume_gb"], 50);
    assert_eq!(object["local_volume"], false);
    assert_eq!(object["updated_at"], "2020-04-05T00:00:00+00:00");

    let text = render_text(&Response::One(Record::Cluster(cluster("c1", None))), OutputMode::Json).unwrap();
    let parsed: serde_json::Value = serde_json::from_str(&text).unwrap();
    assert!(parsed["updated_at"].is_null());
    assert_eq!(parsed["enable_autorepair"], true);
    assert_eq!(parsed["maintenance_window_start"], "01:00:00");
    assert_eq!(parsed["kubernetes_options"]["enable_pod_security_policy"], true);
}

#[test]
fn json_text_empty_list() {
    let text = render_text(&Response::Many(Kind::Task, vec![]), OutputMode::Json).unwrap();
    assert_eq!(text, "[]");
}

#[test]
fn table_text_matches_record_table() {
    let text = render_text(&Response::One(Record::Node(node())), OutputMode::Table).unwrap();
    assert_eq!(text, record_table(&Record::Node(node())));
    assert!(render_text(&Response::Done, OutputMode::Json).is_none());
}

#[test]
fn nodegroup_without_nodes_or_labels() {
    let mut g = nodegroup();
    g.nodes = vec![];
    g.labels = vec![];
    let rows = cells(&table_text(one(Record::Nodegroup(g), OutputMode::Table)));
    assert_eq!(rows[1], vec![s("nodes_count"), s("0")]);
    let mut g = nodegroup();
    g.nodes = vec![];
    g.labels = vec![];
    let text = render_text(&Response::One(Record::Nodegroup(g)), OutputMode::Json).unwrap();
    let parsed: serde_json::Value = serde_json::from_str(&text).unwrap();
    assert_eq!(parsed["nodes"], serde_json::Value::Array(vec![]));
    assert!(parsed["labels"].as_object().unwrap().is_empty());
    assert_eq!(parsed["nodes_count"], 0);
}

#[test]
fn nodegroup_document_holds_nodes_and_labels() {
    let doc = object(one(Record::Nodegroup(nodegroup()), OutputMode::Json));
    assert_eq!(doc.len(), 12);
    assert_eq!(doc[1].0, "nodes_count");
    assert!(matches!(doc[1].1, Entry::Count(3)));
    assert_eq!(doc[10].0, "nodes");
    match &doc[10].1 {
        Entry::Rows(rows) => {
            assert_eq!(rows.len(), 3);
            assert_eq!(rows[2][0], (s("id"), Some(s("n-3"))));
            assert_eq!(rows[0][2], (s("updated_at"), None));
        }
        _ => panic!("expected node objects"),
    }
    assert_eq!(doc[11].0, "labels");
    match &doc[11].1 {
        Entry::Texts(kv) => assert_eq!(kv, &vec![(s("team"), s("core")), (s("tier"), s("web"))]),
        _ => panic!("expected the labels object"),
    }
}
