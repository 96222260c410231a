use lbtree::ecs::{
    definition_infos, ecs_lines, merge_container, task_containers, Cluster, ContainerDefinition,
    ContainerInfo, ContainerState, Service, Task, TaskDefinitionCache, TaskNode,
};
use lbtree::present::Present;

fn s(x: &str) -> String {
    x.to_string()
}

fn info(name: &str, image: &str, command: Option<Vec<&str>>) -> ContainerInfo {
    ContainerInfo {
        name: s(name),
        image: s(image),
        command: command.map(|c| c.into_iter().map(s).collect()),
        last_status: None,
    }
}

fn task(arn: Option<&str>, def: Option<&str>, containers: Vec<(Option<&str>, Option<&str>)>) -> Task {
    Task {
        task_arn: arn.map(s),
        last_status: Some(s("RUNNING")),
        desired_status: Some(s("RUNNING")),
        launch_type: Some(s("FARGATE")),
        task_definition_arn: def.map(s),
        containers: containers
            .into_iter()
            .map(|(n, st)| ContainerState { name: n.map(s), last_status: st.map(s) })
            .collect(),
    }
}

#[test]
fn cluster_line() {
    let c = Cluster {
        cluster_name: Some(s("prod")),
        status: Some(s("ACTIVE")),
        running_tasks_count: 3,
        pending_tasks_count: 0,
        active_services_count: 2,
    };
    assert_eq!(
        c.content(),
        "Cluster \"prod\" status=ACTIVE services=2 running-tasks=3 pending-tasks=0"
    );
    assert_eq!(c.indent(), 0);
    let c = Cluster {
        cluster_name: None,
        status: None,
        running_tasks_count: 0,
        pending_tasks_count: 0,
        active_services_count: 0,
    };
    assert_eq!(
        c.line(),
        "-> Cluster \"unknown\" status=unknown services=0 running-tasks=0 pending-tasks=0"
    );
}

#[test]
fn service_line() {
    let sv = Service {
        service_name: Some(s("web")),
        status: Some(s("ACTIVE")),
        desired_count: 2,
        running_count: 1,
        pending_count: 1,
    };
    assert_eq!(sv.content(), "Service \"web\" status=ACTIVE desired=2 running=1 pending=1");
    assert_eq!(sv.line(), "  -> Service \"web\" status=ACTIVE desired=2 running=1 pending=1");
}

#[test]
fn task_line_uses_last_arn_segment() {
    let t = task(Some("arn:aws:ecs:us-east-1:123456789012:task/prod/0f1e2d3c"), None, vec![]);
    assert_eq!(t.content(), "Task 0f1e2d3c status=RUNNING desired=RUNNING launch-type=FARGATE");
    assert_eq!(t.indent(), 4);
    let t = task(Some("no-slash-here"), None, vec![]);
    assert_eq!(t.content(), "Task no-slash-here status=RUNNING desired=RUNNING launch-type=FARGATE");
    let t = task(Some("ends/with/"), None, vec![]);
    assert_eq!(t.content(), "Task  status=RUNNING desired=RUNNING launch-type=FARGATE");
    let t = task(Some(""), None, vec![]);
    assert_eq!(t.content(), "Task  status=RUNNING desired=RUNNING launch-type=FARGATE");
}

#[test]
fn task_line_defaults() {
    let t = Task {
        task_arn: None,
        last_status: None,
        desired_status: None,
        launch_type: None,
        task_definition_arn: None,
        containers: vec![],
    };
    assert_eq!(t.content(), "Task unknown status=unknown desired=unknown launch-type=unknown");
}

#[test]
fn container_line() {
    let mut c = info("web", "nginx:latest", None);
    assert_eq!(c.content(), "Container \"web\" image=nginx:latest status=unknown");
    c.last_status = Some(s("RUNNING"));
    assert_eq!(c.line(), "      -> Container \"web\" image=nginx:latest status=RUNNING");
    let c = ContainerInfo {
        name: s("job"),
        image: s("busybox"),
        command: Some(vec![s("sh"), s("-c"), s("echo \"hi\"")]),
        last_status: Some(s("STOPPED")),
    };
    assert_eq!(
        c.content(),
        "Container \"job\" image=busybox status=STOPPED command=[\"sh\", \"-c\", \"echo \\\"hi\\\"\"]"
    );
    let c = ContainerInfo {
        name: s("one"),
        image: s("i"),
        command: Some(vec![s("run")]),
        last_status: None,
    };
    assert_eq!(c.content(), "Container \"one\" image=i status=unknown command=[\"run\"]");
    let c = ContainerInfo { name: s("e"), image: s("i"), command: Some(vec![]), last_status: None };
    assert_eq!(c.content(), "Container \"e\" image=i status=unknown command=[]");
}

#[test]
fn definitions_drop_empty_commands() {
    let defs = vec![
        ContainerDefinition { name: Some(s("app")), image: Some(s("app:1")), command: vec![] },
        ContainerDefinition { name: None, image: None, command: vec![s("a"), s("b")] },
    ];
    let infos = definition_infos(&defs);
    assert_eq!(infos.len(), 2);
    assert_eq!(infos[0].name, "app");
    assert_eq!(infos[0].image, "app:1");
    assert_eq!(infos[0].command, None);
    assert_eq!(infos[0].last_status, None);
    assert_eq!(infos[1].name, "unknown");
    assert_eq!(infos[1].image, "unknown");
    assert_eq!(infos[1].command, Some(vec![s("a"), s("b")]));
}

#[test]
fn merge_takes_declaration_and_runtime_status() {
    let infos = vec![info("app", "app:1", Some(vec!["serve"])), info("sidecar", "envoy", None)];
    let state = ContainerState { name: Some(s("app")), last_status: Some(s("RUNNING")) };
    let m = merge_container(&infos, &state);
    assert_eq!(m.name, "app");
    assert_eq!(m.image, "app:1");
    assert_eq!(m.command, Some(vec![s("serve")]));
    assert_eq!(m.last_status, Some(s("RUNNING")));
}

#[test]
fn merge_prefers_the_last_declaration_of_a_name() {
    let infos = vec![info("app", "old", None), info("app", "new", None)];
    let state = ContainerState { name: Some(s("app")), last_status: None };
    let m = merge_container(&infos, &state);
    assert_eq!(m.image, "new");
}

#[test]
fn merge_of_undeclared_container() {
    let infos = vec![info("app", "app:1", None)];
    let state = ContainerState { name: Some(s("ghost")), last_status: Some(s("PENDING")) };
    let m = merge_container(&infos, &state);
    assert_eq!(m.name, "ghost");
    assert_eq!(m.image, "unknown");
    assert_eq!(m.command, None);
    assert_eq!(m.last_status, Some(s("PENDING")));
    let state = ContainerState { name: None, last_status: None };
    let m = merge_container(&vec![], &state);
    assert_eq!(m.name, "unknown");
    assert_eq!(m.image, "unknown");
    assert_eq!(m.last_status, None);
}

#[test]
fn merge_of_unnamed_container_matches_unknown_declaration() {
    let infos = vec![info("unknown", "mystery:2", None)];
    let state = ContainerState { name: None, last_status: Some(s("RUNNING")) };
    let m = merge_container(&infos, &state);
    assert_eq!(m.image, "mystery:2");
}

#[test]
fn task_containers_in_task_order() {
    let infos = vec![info("a", "img-a", None), info("b", "img-b", None)];
    let t = task(None, Some("td"), vec![(Some("b"), Some("RUNNING")), (Some("a"), None)]);
    let cs = task_containers(&infos, &t);
    assert_eq!(cs.len(), 2);
    assert_eq!(cs[0].name, "b");
    assert_eq!(cs[0].image, "img-b");
    assert_eq!(cs[0].last_status, Some(s("RUNNING")));
    assert_eq!(cs[1].name, "a");
    assert_eq!(cs[1].image, "img-a");
    assert_eq!(cs[1].last_status, None);
}

#[test]
fn cache_remembers_definitions() {
    let mut cache = TaskDefinitionCache::new();
    assert!(cache.get("td:1").is_none());
    cache.insert("td:1", vec![info("app", "app:1", None)]);
    let got = cache.get("td:1").expect("cached");
    assert_eq!(got.len(), 1);
    assert_eq!(got[0].image, "app:1");
    assert!(cache.get("td:2").is_none());
    cache.insert("td:2", vec![]);
    assert_eq!(cache.get("td:2").map(|v| v.len()), Some(0));
    cache.insert("td:1", vec![info("app", "app:2", None), info("log", "fluent", None)]);
    let got = cache.get("td:1").expect("cached");
    assert_eq!(got.len(), 2);
    assert_eq!(got[0].image, "app:2");
}

#[test]
fn service_tree_with_consistent_indentation() {
    let cluster = Cluster {
        cluster_name: Some(s("c")),
        status: Some(s("ACTIVE")),
        running_tasks_count: 1,
        pending_tasks_count: 0,
        active_services_count: 1,
    };
    let service = Service {
        service_name: Some(s("svc")),
        status: Some(s("ACTIVE")),
        desired_count: 1,
        running_count: 1,
        pending_count: 0,
    };
    let infos = vec![info("web", "nginx", None)];
    let t = task(Some("arn/t1"), Some("td"), vec![(Some("web"), Some("RUNNING"))]);
    let containers = task_containers(&infos, &t);
    let bare = task(Some("arn/t2"), None, vec![]);
    let tasks = vec![TaskNode { task: t, containers }, TaskNode { task: bare, containers: vec![] }];
    let lines = ecs_lines(&cluster, &service, &tasks);
    assert_eq!(
        lines,
        vec![
            "-> Cluster \"c\" status=ACTIVE services=1 running-tasks=1 pending-tasks=0",
            "  -> Service \"svc\" status=ACTIVE desired=1 running=1 pending=0",
            "    -> Task t1 status=RUNNING desired=RUNNING launch-type=FARGATE",
            "      -> Container \"web\" image=nginx status=RUNNING",
            "    -> Task t2 status=RUNNING desired=RUNNING launch-type=FARGATE",
        ]
    );
}
