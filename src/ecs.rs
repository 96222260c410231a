//! Container services: a cluster, one of its services, the service's tasks, and
//! the containers of each task with what their task definition says of them.

use vstd::prelude::*;
use crate::present::{Present, push_line, rendered};
use crate::text::{
    after_last_slash, debug_list, decimal, opt_view, or_else, push_after_last_slash,
    push_debug_list, push_decimal, push_or,
};

verus! {

/// A cluster with its counters.
pub struct Cluster {
    pub cluster_name: Option<String>,
    pub status: Option<String>,
    pub running_tasks_count: i32,
    pub pending_tasks_count: i32,
    pub active_services_count: i32,
}

/// A service of a cluster with its counters.
pub struct Service {
    pub service_name: Option<String>,
    pub status: Option<String>,
    pub desired_count: i32,
    pub running_count: i32,
    pub pending_count: i32,
}

/// The runtime state of one container of a task.
pub struct ContainerState {
    pub name: Option<String>,
    pub last_status: Option<String>,
}

/// A running (or pending, or stopped) task of a service.
pub struct Task {
    pub task_arn: Option<String>,
    pub last_status: Option<String>,
    pub desired_status: Option<String>,
    pub launch_type: Option<String>,
    pub task_definition_arn: Option<String>,
    pub containers: Vec<ContainerState>,
}

/// A container as a task definition declares it.
pub struct ContainerDefinition {
    pub name: Option<String>,
    pub image: Option<String>,
    pub command: Vec<String>,
}

/// Container information combining runtime state with definition.
#[derive(Debug, Clone)]
pub struct ContainerInfo {
    pub name: String,
    pub image: String,
    pub command: Option<Vec<String>>,
    pub last_status: Option<String>,
}

/// The value of a `ContainerInfo`.
pub struct ContainerView {
    pub name: Seq<char>,
    pub image: Seq<char>,
    pub command: Option<Seq<Seq<char>>>,
    pub last_status: Option<Seq<char>>,
}

impl View for ContainerInfo {
    type V = ContainerView;

    open spec fn view(&self) -> ContainerView {
        ContainerView {
            name: self.name@,
            image: self.image@,
            command: match self.command {
                Some(c) => Some(c.deep_view()),
                None => None,
            },
            last_status: opt_view(self.last_status),
        }
    }
}

/// The text of a container's line.
pub open spec fn container_text(c: ContainerView) -> Seq<char> {
    "Container \""@ + c.name + "\" image="@ + c.image + " status="@ + or_else(
        c.last_status,
        "unknown"@,
    ) + match c.command {
        Some(cmd) => " command="@ + debug_list(cmd),
        None => Seq::empty(),
    }
}

/// The task's identifier: the last `/`-separated part of its ARN.
pub open spec fn task_id(arn: Option<Seq<char>>) -> Seq<char> {
    match arn {
        Some(a) => after_last_slash(a),
        None => "unknown"@,
    }
}

impl Present for Cluster {
    open spec fn text(&self) -> Seq<char> {
        "Cluster \""@ + or_else(opt_view(self.cluster_name), "unknown"@) + "\" status="@ + or_else(
            opt_view(self.status),
            "unknown"@,
        ) + " services="@ + decimal(self.active_services_count as int) + " running-tasks="@
            + decimal(self.running_tasks_count as int) + " pending-tasks="@ + decimal(
            self.pending_tasks_count as int,
        )
    }

    open spec fn depth(&self) -> nat {
        0
    }

    fn content(&self) -> (r: String) {
        let mut out = String::new();
        out.append("Cluster \"");
        push_or(&mut out, &self.cluster_name, "unknown");
        out.append("\" status=");
        push_or(&mut out, &self.status, "unknown");
        out.append(" services=");
        push_decimal(&mut out, self.active_services_count);
        out.append(" running-tasks=");
        push_decimal(&mut out, self.running_tasks_count);
        out.append(" pending-tasks=");
        push_decimal(&mut out, self.pending_tasks_count);
        out
    }

    fn indent(&self) -> (r: usize) {
        0
    }
}

impl Present for Service {
    open spec fn text(&self) -> Seq<char> {
        "Service \""@ + or_else(opt_view(self.service_name), "unknown"@) + "\" status="@ + or_else(
            opt_view(self.status),
            "unknown"@,
        ) + " desired="@ + decimal(self.desired_count as int) + " running="@ + decimal(
            self.running_count as int,
        ) + " pending="@ + decimal(self.pending_count as int)
    }

    open spec fn depth(&self) -> nat {
        2
    }

    fn content(&self) -> (r: String) {
        let mut out = String::new();
        out.append("Service \"");
        push_or(&mut out, &self.service_name, "unknown");
        out.append("\" status=");
        push_or(&mut out, &self.status, "unknown");
        out.append(" desired=");
        push_decimal(&mut out, self.desired_count);
        out.append(" running=");
        push_decimal(&mut out, self.running_count);
        out.append(" pending=");
        push_decimal(&mut out, self.pending_count);
        out
    }

    fn indent(&self) -> (r: usize) {
        2
    }
}

impl Present for Task {
    open spec fn text(&self) -> Seq<char> {
        "Task "@ + task_id(opt_view(self.task_arn)) + " status="@ + or_else(
            opt_view(self.last_status),
            "unknown"@,
        ) + " desired="@ + or_else(opt_view(self.desired_status), "unknown"@) + " launch-type="@
            + or_else(opt_view(self.launch_type), "unknown"@)
    }

    open spec fn depth(&self) -> nat {
        4
    }

    fn content(&self) -> (r: String) {
        let mut out = String::new();
        out.append("Task ");
        match &self.task_arn {
            Some(arn) => push_after_last_slash(&mut out, arn.as_str()),
            None => out.append("unknown"),
        }
        out.append(" status=");
        push_or(&mut out, &self.last_status, "unknown");
        out.append(" desired=");
        push_or(&mut out, &self.desired_status, "unknown");
        out.append(" launch-type=");
        push_or(&mut out, &self.launch_type, "unknown");
        out
    }

    fn indent(&self) -> (r: usize) {
        4
    }
}

impl Present for ContainerInfo {
    open spec fn text(&self) -> Seq<char> {
        container_text(self@)
    }

    open spec fn depth(&self) -> nat {
        6
    }

    fn content(&self) -> (r: String) {
        let mut out = String::new();
        out.append("Container \"");
        out.append(self.name.as_str());
        out.append("\" image=");
        out.append(self.image.as_str());
        out.append(" status=");
        push_or(&mut out, &self.last_status, "unknown");
        match &self.command {
            Some(cmd) => {
                out.append(" command=");
                push_debug_list(&mut out, cmd);
            },
            None => {},
        }
        out
    }

    fn indent(&self) -> (r: usize) {
        6
    }
}


/// The views of a list of containers.
pub open spec fn views(infos: Seq<ContainerInfo>) -> Seq<ContainerView> {
    infos.map_values(|c: ContainerInfo| c@)
}

/// What a task definition's container declaration contributes: its name and image
/// (`unknown` when absent) and its command when it has one; no runtime status yet.
pub open spec fn definition_info(d: ContainerDefinition) -> ContainerView {
    ContainerView {
        name: or_else(opt_view(d.name), "unknown"@),
        image: or_else(opt_view(d.image), "unknown"@),
        command: if d.command@.len() == 0 {
            None
        } else {
            Some(d.command.deep_view())
        },
        last_status: None,
    }
}

/// The last container of `infos` with the given name, if any.
pub open spec fn find_last(infos: Seq<ContainerView>, name: Seq<char>) -> Option<ContainerView>
    decreases infos.len(),
{
    if infos.len() == 0 {
        None
    } else if infos.last().name == name {
        Some(infos.last())
    } else {
        find_last(infos.drop_last(), name)
    }
}

/// A runtime container merged with its declaration: the declaration of the same name
/// (the last one, should several share it) with the runtime status; or, for a
/// container that its definition does not declare, an `unknown` image and no command.
pub open spec fn merged(infos: Seq<ContainerView>, c: ContainerState) -> ContainerView {
    let name = or_else(opt_view(c.name), "unknown"@);
    match find_last(infos, name) {
        Some(v) => ContainerView { last_status: opt_view(c.last_status), ..v },
        None => ContainerView {
            name,
            image: "unknown"@,
            command: None,
            last_status: opt_view(c.last_status),
        },
    }
}

fn copy_opt(o: &Option<String>) -> (r: Option<String>)
    ensures
        opt_view(r) == opt_view(*o),
{
    match o {
        Some(s) => Some(s.clone()),
        None => None,
    }
}

fn copy_strings(v: &Vec<String>) -> (r: Vec<String>)
    ensures
        r.deep_view() == v.deep_view(),
{
    let mut out: Vec<String> = Vec::new();
    let mut i: usize = 0;
    while i < v.len()
        invariant
            i <= v.len(),
            out.deep_view() =~= v.deep_view().take(i as int),
        decreases v.len() - i,
    {
        let ghost before = out.deep_view();
        out.push(v[i].clone());
        assert(out.deep_view() =~= before.push(v[i as int]@));
        assert(v.deep_view().take(i + 1) =~= v.deep_view().take(i as int).push(v[i as int]@));
        i = i + 1;
    }
    out
}

impl ContainerInfo {
    /// A copy with the same value.
    pub fn copied(&self) -> (r: ContainerInfo)
        ensures
            r@ == self@,
    {
        let command = match &self.command {
            Some(c) => Some(copy_strings(c)),
            None => None,
        };
        ContainerInfo {
            name: self.name.clone(),
            image: self.image.clone(),
            command,
            last_status: copy_opt(&self.last_status),
        }
    }

    /// The information a container declaration gives, before any runtime status.
    pub fn from_definition(d: &ContainerDefinition) -> (r: ContainerInfo)
        ensures
            r@ == definition_info(*d),
    {
        let name = match &d.name {
            Some(n) => n.clone(),
            None => String::from_str("unknown"),
        };
        let image = match &d.image {
            Some(i) => i.clone(),
            None => String::from_str("unknown"),
        };
        let command = if d.command.len() == 0 {
            None
        } else {
            Some(copy_strings(&d.command))
        };
        ContainerInfo { name, image, command, last_status: None }
    }
}

/// The declared containers of a task definition, in order.
pub fn definition_infos(defs: &Vec<ContainerDefinition>) -> (r: Vec<ContainerInfo>)
    ensures
        views(r@) == defs@.map_values(|d: ContainerDefinition| definition_info(d)),
{
    let mut out: Vec<ContainerInfo> = Vec::new();
    let mut i: usize = 0;
    while i < defs.len()
        invariant
            i <= defs.len(),
            views(out@) =~= defs@.take(i as int).map_values(
                |d: ContainerDefinition| definition_info(d),
            ),
        decreases defs.len() - i,
    {
        let ghost before = out@;
        out.push(ContainerInfo::from_definition(&defs[i]));
        assert(out@ =~= before.push(out@.last()));
        assert(views(out@) =~= views(before).push(definition_info(defs[i as int])));
        assert(defs@.take(i + 1) =~= defs@.take(i as int).push(defs[i as int]));
        assert(defs@.take(i + 1).map_values(|d: ContainerDefinition| definition_info(d))
            =~= defs@.take(i as int).map_values(|d: ContainerDefinition| definition_info(d)).push(
            definition_info(defs[i as int]),
        ));
        i = i + 1;
    }
    assert(defs@.take(i as int) =~= defs@);
    out
}

proof fn lemma_find_last_suffix(infos: Seq<ContainerView>, name: Seq<char>, k: int)
    requires
        0 <= k <= infos.len(),
        forall|j: int| k <= j < infos.len() ==> infos[j].name != name,
    ensures
        find_last(infos, name) == find_last(infos.take(k), name),
    decreases infos.len() - k,
{
    if k < infos.len() {
        lemma_find_last_suffix(infos, name, k + 1);
        let t = infos.take(k + 1);
        assert(t.drop_last() =~= infos.take(k));
    } else {
        assert(infos.take(k) =~= infos);
    }
}

/// Merges a runtime container with the declarations of its task definition.
pub fn merge_container(infos: &Vec<ContainerInfo>, c: &ContainerState) -> (r: ContainerInfo)
    ensures
        r@ == merged(views(infos@), *c),
{
    let name = match &c.name {
        Some(n) => n.clone(),
        None => String::from_str("unknown"),
    };
    let ghost vs = views(infos@);
    let mut k: usize = infos.len();
    while k > 0 && infos[k - 1].name != name
        invariant
            k <= infos.len(),
            vs == views(infos@),
            forall|j: int| k <= j < infos.len() ==> vs[j].name != name@,
        decreases k,
    {
        k = k - 1;
    }
    proof {
        lemma_find_last_suffix(vs, name@, k as int);
        if k > 0 {
            assert(vs.take(k as int).last() == vs[k - 1]);
        } else {
            assert(vs.take(0) =~= Seq::<ContainerView>::empty());
        }
    }
    if k > 0 {
        let mut info = infos[k - 1].copied();
        info.last_status = copy_opt(&c.last_status);
        info
    } else {
        ContainerInfo {
            name,
            image: String::from_str("unknown"),
            command: None,
            last_status: copy_opt(&c.last_status),
        }
    }
}

/// The containers of a task, each merged with the declarations of its task definition.
pub fn task_containers(infos: &Vec<ContainerInfo>, task: &Task) -> (r: Vec<ContainerInfo>)
    ensures
        views(r@) == task.containers@.map_values(|c: ContainerState| merged(views(infos@), c)),
{
    let mut out: Vec<ContainerInfo> = Vec::new();
    let mut i: usize = 0;
    while i < task.containers.len()
        invariant
            i <= task.containers.len(),
            views(out@) =~= task.containers@.take(i as int).map_values(
                |c: ContainerState| merged(views(infos@), c),
            ),
        decreases task.containers.len() - i,
    {
        let ghost before = out@;
        out.push(merge_container(infos, &task.containers[i]));
        assert(out@ =~= before.push(out@.last()));
        assert(views(out@) =~= views(before).push(merged(views(infos@), task.containers[i as int])));
        assert(task.containers@.take(i + 1) =~= task.containers@.take(i as int).push(
            task.containers[i as int],
        ));
        assert(task.containers@.take(i + 1).map_values(|c: ContainerState| merged(views(infos@), c))
            =~= task.containers@.take(i as int).map_values(
            |c: ContainerState| merged(views(infos@), c),
        ).push(merged(views(infos@), task.containers[i as int])));
        i = i + 1;
    }
    assert(task.containers@.take(i as int) =~= task.containers@);
    out
}


fn copy_infos(v: &Vec<ContainerInfo>) -> (r: Vec<ContainerInfo>)
    ensures
        views(r@) == views(v@),
{
    let mut out: Vec<ContainerInfo> = Vec::new();
    let mut i: usize = 0;
    while i < v.len()
        invariant
            i <= v.len(),
            views(out@) =~= views(v@).take(i as int),
        decreases v.len() - i,
    {
        let ghost before = out@;
        out.push(v[i].copied());
        assert(out@ =~= before.push(out@.last()));
        assert(views(out@) =~= views(before).push(v[i as int]@));
        assert(views(v@).take(i + 1) =~= views(v@).take(i as int).push(v[i as int]@));
        i = i + 1;
    }
    assert(views(v@).take(i as int) =~= views(v@));
    out
}

/// The container declarations of the task definitions fetched so far, by the task
/// definition's ARN, so that each definition is fetched once per run.
pub struct TaskDefinitionCache {
    entries: Vec<(String, Vec<ContainerInfo>)>,
}

/// The mapping that a list of entries stands for; a later entry for the same ARN
/// replaces an earlier one.
spec fn entries_map(e: Seq<(String, Vec<ContainerInfo>)>) -> Map<Seq<char>, Seq<ContainerView>>
    decreases e.len(),
{
    if e.len() == 0 {
        Map::empty()
    } else {
        entries_map(e.drop_last()).insert(e.last().0@, views(e.last().1@))
    }
}

proof fn lemma_entries_suffix(e: Seq<(String, Vec<ContainerInfo>)>, key: Seq<char>, k: int)
    requires
        0 <= k <= e.len(),
        forall|j: int| k <= j < e.len() ==> e[j].0@ != key,
    ensures
        entries_map(e).contains_key(key) == entries_map(e.take(k)).contains_key(key),
        entries_map(e)[key] == entries_map(e.take(k))[key],
    decreases e.len() - k,
{
    if k < e.len() {
        lemma_entries_suffix(e, key, k + 1);
        let t = e.take(k + 1);
        assert(t.drop_last() =~= e.take(k));
        assert(t.last() == e[k]);
    } else {
        assert(e.take(k) =~= e);
    }
}

impl View for TaskDefinitionCache {
    type V = Map<Seq<char>, Seq<ContainerView>>;

    closed spec fn view(&self) -> Map<Seq<char>, Seq<ContainerView>> {
        entries_map(self.entries@)
    }
}

impl TaskDefinitionCache {
    /// A cache that holds nothing.
    pub fn new() -> (r: Self)
        ensures
            r@ == Map::<Seq<char>, Seq<ContainerView>>::empty(),
    {
        TaskDefinitionCache { entries: Vec::new() }
    }

    /// A copy of the containers cached for `arn`, if there are any.
    pub fn get(&self, arn: &str) -> (r: Option<Vec<ContainerInfo>>)
        ensures
            match r {
                Some(v) => self@.contains_key(arn@) && views(v@) == self@[arn@],
                None => !self@.contains_key(arn@),
            },
    {
        let key = String::from_str(arn);
        let mut k: usize = self.entries.len();
        while k > 0 && self.entries[k - 1].0 != key
            invariant
                k <= self.entries.len(),
                forall|j: int| k <= j < self.entries.len() ==> self.entries[j].0@ != key@,
            decreases k,
        {
            k = k - 1;
        }
        proof {
            lemma_entries_suffix(self.entries@, key@, k as int);
            if k > 0 {
                let t = self.entries@.take(k as int);
                assert(t.last() == self.entries[k - 1]);
                assert(t.drop_last() =~= self.entries@.take(k - 1));
            } else {
                assert(self.entries@.take(0) =~= Seq::<(String, Vec<ContainerInfo>)>::empty());
            }
        }
        if k > 0 {
            Some(copy_infos(&self.entries[k - 1].1))
        } else {
            None
        }
    }

    /// Records the containers of the task definition `arn`.
    pub fn insert(&mut self, arn: &str, infos: Vec<ContainerInfo>)
        ensures
            final(self)@ == old(self)@.insert(arn@, views(infos@)),
    {
        let ghost before = self.entries@;
        self.entries.push((String::from_str(arn), infos));
        assert(self.entries@.drop_last() =~= before);
    }
}

/// In a service's tree every line is indented further than its parent's.
pub proof fn ecs_children_indented_further(
    cluster: Cluster,
    service: Service,
    task: Task,
    container: ContainerInfo,
)
    ensures
        cluster.depth() < service.depth() < task.depth() < container.depth(),
{
}

/// A task together with its merged containers.
pub struct TaskNode {
    pub task: Task,
    pub containers: Vec<ContainerInfo>,
}

/// The lines of a task: the task, then each of its containers.
pub open spec fn task_lines(n: TaskNode) -> Seq<Seq<char>> {
    seq![rendered(n.task)] + n.containers@.map_values(|c: ContainerInfo| rendered(c))
}

/// The whole tree of a service: the cluster, the service, then each task in turn.
pub open spec fn ecs_tree(cluster: Cluster, service: Service, tasks: Seq<TaskNode>) -> Seq<
    Seq<char>,
> {
    seq![rendered(cluster), rendered(service)] + tasks.flat_map(|n: TaskNode| task_lines(n))
}

fn push_task_lines(out: &mut Vec<String>, n: &TaskNode)
    ensures
        final(out).deep_view() == old(out).deep_view() + task_lines(*n),
{
    let ghost start = out.deep_view();
    push_line(out, &n.task);
    let mut i: usize = 0;
    while i < n.containers.len()
        invariant
            i <= n.containers.len(),
            out.deep_view() == start + seq![rendered(n.task)] + n.containers@.take(
                i as int,
            ).map_values(|c: ContainerInfo| rendered(c)),
        decreases n.containers.len() - i,
    {
        push_line(out, &n.containers[i]);
        assert(n.containers@.take(i + 1).map_values(|c: ContainerInfo| rendered(c))
            =~= n.containers@.take(i as int).map_values(|c: ContainerInfo| rendered(c)).push(
            rendered(n.containers[i as int]),
        ));
        i = i + 1;
    }
    assert(n.containers@.take(i as int) =~= n.containers@);
    assert(out.deep_view() =~= start + task_lines(*n));
}

/// Renders a service's tree: the cluster, the service, then every task with its
/// containers.
pub fn ecs_lines(cluster: &Cluster, service: &Service, tasks: &Vec<TaskNode>) -> (r: Vec<String>)
    ensures
        r.deep_view() == ecs_tree(*cluster, *service, tasks@),
{
    let mut out: Vec<String> = Vec::new();
    let ghost f = |n: TaskNode| task_lines(n);
    push_line(&mut out, cluster);
    push_line(&mut out, service);
    assert(out.deep_view() =~= seq![rendered(*cluster), rendered(*service)]);
    let mut i: usize = 0;
    while i < tasks.len()
        invariant
            i <= tasks.len(),
            f == (|n: TaskNode| task_lines(n)),
            out.deep_view() == seq![rendered(*cluster), rendered(*service)] + tasks@.take(
                i as int,
            ).flat_map(f),
        decreases tasks.len() - i,
    {
        push_task_lines(&mut out, &tasks[i]);
        proof {
            tasks@.take(i as int).lemma_flat_map_push(f, tasks[i as int]);
            assert(tasks@.take(i + 1) =~= tasks@.take(i as int).push(tasks[i as int]));
        }
        i = i + 1;
    }
    assert(tasks@.take(i as int) =~= tasks@);
    out
}

} // verus!
