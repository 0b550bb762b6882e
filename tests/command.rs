use mks::command::{parse_output_mode, plan, Command, CommandError, Plan, Request};
use mks::driver::finish;
use mks::options::{
    ClusterCreateOptions, ClusterField, ClusterFlags, ClusterSetting, NodegroupCreateOptions,
    NodegroupFlags,
};
use mks::records::{Cluster, Kind, KubernetesOptions, Record, Task};
use mks::render::{OutputMode, Response};

fn s(x: &str) -> String {
    x.to_string()
}

fn no_cluster_flags() -> ClusterFlags {
    ClusterFlags {
        network_id: None,
        subnet_id: None,
        maintenance_window_start: None,
        enable_autorepair: None,
        enable_patch_version_auto_upgrade: None,
        zonal: None,
    }
}

fn no_nodegroup_flags() -> NodegroupFlags {
    NodegroupFlags {
        flavor_id: None,
        cpus: None,
        ram_mb: None,
        volume_gb: None,
        volume_type: None,
        keypair_name: None,
        affinity_policy: None,
    }
}

fn cluster_options_equal(a: &ClusterCreateOptions, b: &ClusterCreateOptions) -> bool {
    a.name == b.name
        && a.kube_version == b.kube_version
        && a.region == b.region
        && a.network_id == b.network_id
        && a.subnet_id == b.subnet_id
        && a.maintenance_window_start == b.maintenance_window_start
        && a.enable_autorepair == b.enable_autorepair
        && a.enable_patch_version_auto_upgrade == b.enable_patch_version_auto_upgrade
        && a.zonal == b.zonal
}

fn commands_with_output(output: &str) -> Vec<Command> {
    vec![
        Command::ClusterGet { output: s(output), cluster_id: s("c1") },
        Command::ClusterList { output: s(output) },
        Command::ClusterCreate {
            output: s(output),
            name: s("demo"),
            kube_version: s("1.28"),
            region: s("ru-1"),
            flags: no_cluster_flags(),
        },
        Command::KubeversionList { output: s(output) },
        Command::NodeGet { output: s(output), cluster_id: s("c1"), nodegroup_id: s("g1"), node_id: s("n1") },
        Command::NodegroupList { output: s(output), cluster_id: s("c1") },
        Command::NodegroupGet { output: s(output), cluster_id: s("c1"), nodegroup_id: s("g1") },
        Command::NodegroupCreate {
            output: s(output),
            cluster_id: s("c1"),
            nodes_count: 2,
            local_volume: false,
            availability_zone: s("ru-1a"),
            flags: no_nodegroup_flags(),
        },
        Command::TaskList { output: s(output), cluster_id: s("c1") },
        Command::TaskGet { output: s(output), cluster_id: s("c1"), task_id: s("t1") },
    ]
}

#[test]
fn output_mode_parsing() {
    assert_eq!(parse_output_mode(&s("table")), Ok(OutputMode::Table));
    assert_eq!(parse_output_mode(&s("json")), Ok(OutputMode::Json));
    assert_eq!(parse_output_mode(&s("xml")), Err(CommandError::UnknownOutputFormat));
    assert_eq!(parse_output_mode(&s("")), Err(CommandError::UnknownOutputFormat));
    assert_eq!(parse_output_mode(&s("Table")), Err(CommandError::UnknownOutputFormat));
}

#[test]
fn unknown_output_rejected_before_any_request() {
    for c in commands_with_output("xml") {
        assert!(matches!(plan(&c), Err(CommandError::UnknownOutputFormat)));
    }
    for c in commands_with_output("json") {
        assert!(matches!(plan(&c), Ok(Plan { output: OutputMode::Json, .. })));
    }
}

#[test]
fn cluster_get_plans_get_cluster() {
    let p = plan(&Command::ClusterGet { output: s("table"), cluster_id: s("abc") }).unwrap();
    assert_eq!(p.output, OutputMode::Table);
    assert!(matches!(p.request, Request::GetCluster { cluster_id } if cluster_id == "abc"));
}

#[test]
fn cluster_create_without_optionals_sets_required_only() {
    let c = Command::ClusterCreate {
        output: s("table"),
        name: s("demo"),
        kube_version: s("1.28"),
        region: s("ru-1"),
        flags: no_cluster_flags(),
    };
    match plan(&c).unwrap().request {
        Request::CreateCluster { cluster } => {
            assert_eq!(cluster.name, "demo");
            assert_eq!(cluster.kube_version, "1.28");
            assert_eq!(cluster.region, "ru-1");
            assert_eq!(cluster.network_id, None);
            assert_eq!(cluster.subnet_id, None);
            assert_eq!(cluster.maintenance_window_start, None);
            assert_eq!(cluster.enable_autorepair, None);
            assert_eq!(cluster.enable_patch_version_auto_upgrade, None);
            assert_eq!(cluster.zonal, None);
        }
        _ => panic!("expected a create request"),
    }
}

#[test]
fn translator_nothing_supplied_is_baseline() {
    let t = ClusterCreateOptions::translate("demo", "1.28", "ru-1", &no_cluster_flags());
    let b = ClusterCreateOptions::new("demo", "1.28", "ru-1");
    assert!(cluster_options_equal(&t, &b));
}

#[test]
fn translator_one_field_differs_only_there() {
    let b = ClusterCreateOptions::new("demo", "1.28", "ru-1");
    let mut flags = no_cluster_flags();
    flags.enable_autorepair = Some(false);
    let t = ClusterCreateOptions::translate("demo", "1.28", "ru-1", &flags);
    assert_eq!(t.enable_autorepair, Some(false));
    let mut expected = ClusterCreateOptions::new("demo", "1.28", "ru-1");
    expected.enable_autorepair = Some(false);
    assert!(cluster_options_equal(&t, &expected));
    assert!(!cluster_options_equal(&t, &b));

    let mut flags = no_cluster_flags();
    flags.network_id = Some(s("net"));
    let t = ClusterCreateOptions::translate("demo", "1.28", "ru-1", &flags);
    assert_eq!(t.network_id, Some(s("net")));
    assert_eq!(t.subnet_id, None);
    assert_eq!(t.zonal, None);
}

#[test]
fn translator_all_fields() {
    let flags = ClusterFlags {
        network_id: Some(s("n")),
        subnet_id: Some(s("sn")),
        maintenance_window_start: Some(s("01:00:00")),
        enable_autorepair: Some(true),
        enable_patch_version_auto_upgrade: Some(false),
        zonal: Some(true),
    };
    let t = ClusterCreateOptions::translate("demo", "1.28", "ru-1", &flags);
    assert_eq!(t.network_id, Some(s("n")));
    assert_eq!(t.subnet_id, Some(s("sn")));
    assert_eq!(t.maintenance_window_start, Some(s("01:00:00")));
    assert_eq!(t.enable_autorepair, Some(true));
    assert_eq!(t.enable_patch_version_auto_upgrade, Some(false));
    assert_eq!(t.zonal, Some(true));
}

#[test]
fn setting_touches_one_slot() {
    let mut o = ClusterCreateOptions::new("demo", "1.28", "ru-1");
    o.set(ClusterSetting::Zonal(true));
    assert_eq!(o.zonal, Some(true));
    assert_eq!(o.enable_autorepair, None);
    assert_eq!(ClusterField::all().len(), 6);
}

#[test]
fn nodegroup_translator() {
    let t = NodegroupCreateOptions::translate(3, true, "ru-1a", &no_nodegroup_flags());
    assert_eq!(t.nodes_count, 3);
    assert!(t.local_volume);
    assert_eq!(t.availability_zone, "ru-1a");
    assert_eq!(t.flavor_id, None);
    assert_eq!(t.volume_type, None);
    let mut flags = no_nodegroup_flags();
    flags.cpus = Some(4);
    flags.volume_type = Some(s("fast"));
    let t = NodegroupCreateOptions::translate(3, true, "ru-1a", &flags);
    assert_eq!(t.cpus, Some(4));
    assert_eq!(t.volume_type, Some(s("fast")));
    assert_eq!(t.ram_mb, None);
    assert_eq!(t.volume_gb, None);
}

#[test]
fn node_reinstall_keeps_ancestor_order() {
    let p = plan(&Command::NodeReinstall { cluster_id: s("c"), nodegroup_id: s("g"), node_id: s("n") }).unwrap();
    match p.request {
        Request::ReinstallNode { cluster_id, nodegroup_id, node_id } => {
            assert_eq!((cluster_id.as_str(), nodegroup_id.as_str(), node_id.as_str()), ("c", "g", "n"));
        }
        _ => panic!("expected a reinstall request"),
    }
}

#[test]
fn nodegroup_set_is_unsupported() {
    let r = plan(&Command::NodegroupSet { cluster_id: s("c"), count: Some(3) });
    assert!(matches!(r, Err(CommandError::UnsupportedCommand)));
    assert_eq!(CommandError::UnsupportedCommand.message(), "Unknown command");
    assert_eq!(CommandError::UnknownOutputFormat.message(), "Unknown output format");
}

#[test]
fn deletes_need_no_output() {
    let p = plan(&Command::ClusterDelete { cluster_id: s("c") }).unwrap();
    assert!(matches!(p.request, Request::DeleteCluster { cluster_id } if cluster_id == "c"));
    let p = plan(&Command::NodegroupDelete { cluster_id: s("c"), nodegroup_id: s("g") }).unwrap();
    assert!(matches!(p.request, Request::DeleteNodegroup { .. }));
}

#[test]
fn failure_names_operation() {
    let p = plan(&Command::ClusterGet { output: s("table"), cluster_id: s("c") }).unwrap();
    match finish(&p, Err(s("Bad status code: 404, error body: not found"))) {
        Err(d) => assert_eq!(d, "Failed to get cluster: Bad status code: 404, error body: not found"),
        Ok(_) => panic!("expected a diagnostic"),
    }
    let p = plan(&Command::TaskList { output: s("json"), cluster_id: s("c") }).unwrap();
    assert_eq!(p.request.failure_context(), "Failed to list cluster tasks");
}

#[test]
fn task_list_json_end_to_end() {
    let p = plan(&Command::TaskList { output: s("json"), cluster_id: s("c1") }).unwrap();
    assert!(matches!(&p.request, Request::ListTasks { cluster_id } if cluster_id == "c1"));
    let task = |id: &str| Task {
        id: s(id),
        started_at: s("2020-02-02T00:00:00+00:00"),
        updated_at: None,
        task_type: s("CREATE_CLUSTER"),
        status: s("DONE"),
        cluster_id: s("c1"),
    };
    let reply = Response::Many(Kind::Task, vec![Record::Task(task("a")), Record::Task(task("b"))]);
    let text = finish(&p, Ok(reply)).unwrap().unwrap();
    let parsed: serde_json::Value = serde_json::from_str(&text).unwrap();
    let items = parsed.as_array().unwrap();
    assert_eq!(items.len(), 2);
    assert_eq!(items[0]["id"], "a");
    assert_eq!(items[1]["id"], "b");
    assert!(items[0]["updated_at"].is_null());
    assert_eq!(items[0]["type"], "CREATE_CLUSTER");
}

#[test]
fn cluster_get_table_end_to_end() {
    let p = plan(&Command::ClusterGet { output: s("table"), cluster_id: s("c1") }).unwrap();
    let cluster = Cluster {
        id: s("c1"),
        created_at: s("2020-01-01T10:00:00+00:00"),
        updated_at: None,
        name: s("demo"),
        status: s("ACTIVE"),
        project_id: s("p1"),
        network_id: s("n1"),
        subnet_id: s("sn1"),
        kube_api_ip: s("10.0.0.1"),
        kube_version: s("1.28.2"),
        region: s("ru-1"),
        pki_tree_updated_at: None,
        maintenance_window_start: None,
        maintenance_window_end: None,
        maintenance_last_start: None,
        enable_autorepair: true,
        enable_patch_version_auto_upgrade: true,
        zonal: false,
        kubernetes_options: KubernetesOptions { enable_pod_security_policy: false },
    };
    let text = finish(&p, Ok(Response::One(Record::Cluster(cluster)))).unwrap().unwrap();
    let line = text.lines().find(|l| l.starts_with("| updated_at ")).unwrap();
    let cells: Vec<&str> = line.split('|').map(|c| c.trim()).collect();
    assert_eq!(cells, vec!["", "updated_at", "", ""]);
    assert_eq!(text.lines().filter(|l| l.starts_with('|')).count(), 18);
}

#[test]
fn delete_prints_nothing() {
    let p = plan(&Command::ClusterDelete { cluster_id: s("c1") }).unwrap();
    assert_eq!(finish(&p, Ok(Response::Done)), Ok(None));
}
