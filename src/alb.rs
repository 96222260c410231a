//! Application load balancers: the load balancer, its listeners with their rules
//! and actions, and its target groups with their registered targets.

use vstd::prelude::*;
use crate::present::{Present, push_line, rendered};
use crate::text::{
    bool_text, debug_option, decimal, opt_view, or_else, push_bool, push_debug_option,
    push_decimal, push_or,
};

verus! {

/// A load balancer, known by its DNS name.
pub struct LoadBalancer {
    pub dns_name: String,
}

/// A listener of a load balancer.
pub struct Listener {
    pub protocol: String,
    pub port: i32,
}

/// A routing rule of a listener.
pub struct Rule {
    pub priority: String,
    pub is_default: bool,
}

/// What a rule does with a matching request.
pub enum Action {
    Forward,
    FixedResponse { message_body: Option<String>, status_code: Option<String> },
}

/// A target group attached to a load balancer.
pub struct TargetGroup {
    pub name: Option<String>,
    pub protocol: String,
    pub port: i32,
}

/// A target registered in a target group.
pub struct TargetHealthDescription {
    pub id: String,
    pub port: i32,
}

impl Present for LoadBalancer {
    open spec fn text(&self) -> Seq<char> {
        "Load balancer ("@ + self.dns_name@ + ")"@
    }

    open spec fn depth(&self) -> nat {
        0
    }

    fn content(&self) -> (r: String) {
        let mut out = String::new();
        out.append("Load balancer (");
        out.append(self.dns_name.as_str());
        out.append(")");
        out
    }

    fn indent(&self) -> (r: usize) {
        0
    }
}

impl Present for Listener {
    open spec fn text(&self) -> Seq<char> {
        "Listener protocol="@ + self.protocol@ + " port="@ + decimal(self.port as int)
    }

    open spec fn depth(&self) -> nat {
        2
    }

    fn content(&self) -> (r: String) {
        let mut out = String::new();
        out.append("Listener protocol=");
        out.append(self.protocol.as_str());
        out.append(" port=");
        push_decimal(&mut out, self.port);
        out
    }

    fn indent(&self) -> (r: usize) {
        2
    }
}

impl Present for Rule {
    open spec fn text(&self) -> Seq<char> {
        "Rule priority="@ + self.priority@ + " is-default="@ + bool_text(self.is_default)
    }

    open spec fn depth(&self) -> nat {
        4
    }

    fn content(&self) -> (r: String) {
        let mut out = String::new();
        out.append("Rule priority=");
        out.append(self.priority.as_str());
        out.append(" is-default=");
        push_bool(&mut out, self.is_default);
        out
    }

    fn indent(&self) -> (r: usize) {
        4
    }
}

impl Present for Action {
    open spec fn text(&self) -> Seq<char> {
        match self {
            Action::Forward => "Action (forward)"@,
            Action::FixedResponse { message_body, status_code } => "Action (fixed-repsonse) msg="@
                + debug_option(opt_view(*message_body)) + " status-code="@ + debug_option(
                opt_view(*status_code),
            ),
        }
    }

    open spec fn depth(&self) -> nat {
        6
    }

    fn content(&self) -> (r: String) {
        let mut out = String::new();
        match self {
            Action::Forward => {
                out.append("Action (forward)");
            },
            Action::FixedResponse { message_body, status_code } => {
                out.append("Action (fixed-repsonse) msg=");
                push_debug_option(&mut out, message_body);
                out.append(" status-code=");
                push_debug_option(&mut out, status_code);
            },
        }
        out
    }

    fn indent(&self) -> (r: usize) {
        6
    }
}

impl Present for TargetGroup {
    open spec fn text(&self) -> Seq<char> {
        "Target group \""@ + or_else(opt_view(self.name), "??"@) + "\" protocol="@
            + self.protocol@ + " port="@ + decimal(self.port as int)
    }

    open spec fn depth(&self) -> nat {
        2
    }

    fn content(&self) -> (r: String) {
        let mut out = String::new();
        out.append("Target group \"");
        push_or(&mut out, &self.name, "??");
        out.append("\" protocol=");
        out.append(self.protocol.as_str());
        out.append(" port=");
        push_decimal(&mut out, self.port);
        out
    }

    fn indent(&self) -> (r: usize) {
        2
    }
}

impl Present for TargetHealthDescription {
    open spec fn text(&self) -> Seq<char> {
        "Target id="@ + self.id@ + " port="@ + decimal(self.port as int)
    }

    open spec fn depth(&self) -> nat {
        4
    }

    fn content(&self) -> (r: String) {
        let mut out = String::new();
        out.append("Target id=");
        out.append(self.id.as_str());
        out.append(" port=");
        push_decimal(&mut out, self.port);
        out
    }

    fn indent(&self) -> (r: usize) {
        4
    }
}

/// In a load balancer's tree every line is indented further than its parent's.
pub proof fn alb_children_indented_further(
    lb: LoadBalancer,
    listener: Listener,
    rule: Rule,
    action: Action,
    group: TargetGroup,
    target: TargetHealthDescription,
)
    ensures
        lb.depth() < listener.depth() < rule.depth() < action.depth(),
        lb.depth() < group.depth() < target.depth(),
{
}

/// A rule together with its actions.
pub struct RuleNode {
    pub rule: Rule,
    pub actions: Vec<Action>,
}

/// A listener together with its rules.
pub struct ListenerNode {
    pub listener: Listener,
    pub rules: Vec<RuleNode>,
}

/// A target group together with its targets.
pub struct TargetGroupNode {
    pub group: TargetGroup,
    pub targets: Vec<TargetHealthDescription>,
}

/// The lines of a rule: the rule, then each of its actions.
pub open spec fn rule_lines(n: RuleNode) -> Seq<Seq<char>> {
    seq![rendered(n.rule)] + n.actions@.map_values(|a: Action| rendered(a))
}

/// The lines of a listener: the listener, then each of its rules in turn.
pub open spec fn listener_lines(n: ListenerNode) -> Seq<Seq<char>> {
    seq![rendered(n.listener)] + n.rules@.flat_map(|r: RuleNode| rule_lines(r))
}

/// The lines of a target group: the group, then each of its targets.
pub open spec fn target_group_lines(n: TargetGroupNode) -> Seq<Seq<char>> {
    seq![rendered(n.group)] + n.targets@.map_values(|t: TargetHealthDescription| rendered(t))
}

/// The whole tree of a load balancer: its own line, the listener branch, then the
/// target-group branch.
pub open spec fn alb_tree(
    lb: LoadBalancer,
    listeners: Seq<ListenerNode>,
    groups: Seq<TargetGroupNode>,
) -> Seq<Seq<char>> {
    seq![rendered(lb)] + listeners.flat_map(|n: ListenerNode| listener_lines(n)) + groups.flat_map(
        |n: TargetGroupNode| target_group_lines(n),
    )
}

fn push_rule_lines(out: &mut Vec<String>, n: &RuleNode)
    ensures
        final(out).deep_view() == old(out).deep_view() + rule_lines(*n),
{
    let ghost start = out.deep_view();
    push_line(out, &n.rule);
    let mut i: usize = 0;
    while i < n.actions.len()
        invariant
            i <= n.actions.len(),
            out.deep_view() == start + seq![rendered(n.rule)] + n.actions@.take(i as int).map_values(
                |a: Action| rendered(a),
            ),
        decreases n.actions.len() - i,
    {
        push_line(out, &n.actions[i]);
        assert(n.actions@.take(i + 1).map_values(|a: Action| rendered(a)) =~= n.actions@.take(
            i as int,
        ).map_values(|a: Action| rendered(a)).push(rendered(n.actions[i as int])));
        i = i + 1;
    }
    assert(n.actions@.take(i as int) =~= n.actions@);
    assert(out.deep_view() =~= start + rule_lines(*n));
}

fn push_listener_lines(out: &mut Vec<String>, n: &ListenerNode)
    ensures
        final(out).deep_view() == old(out).deep_view() + listener_lines(*n),
{
    let ghost start = out.deep_view();
    let ghost f = |r: RuleNode| rule_lines(r);
    push_line(out, &n.listener);
    let mut i: usize = 0;
    while i < n.rules.len()
        invariant
            i <= n.rules.len(),
            f == (|r: RuleNode| rule_lines(r)),
            out.deep_view() == start + seq![rendered(n.listener)] + n.rules@.take(i as int).flat_map(f),
        decreases n.rules.len() - i,
    {
        push_rule_lines(out, &n.rules[i]);
        proof {
            n.rules@.take(i as int).lemma_flat_map_push(f, n.rules[i as int]);
            assert(n.rules@.take(i + 1) =~= n.rules@.take(i as int).push(n.rules[i as int]));
        }
        i = i + 1;
    }
    assert(n.rules@.take(i as int) =~= n.rules@);
    assert(out.deep_view() =~= start + listener_lines(*n));
}

fn push_target_group_lines(out: &mut Vec<String>, n: &TargetGroupNode)
    ensures
        final(out).deep_view() == old(out).deep_view() + target_group_lines(*n),
{
    let ghost start = out.deep_view();
    push_line(out, &n.group);
    let mut i: usize = 0;
    while i < n.targets.len()
        invariant
            i <= n.targets.len(),
            out.deep_view() == start + seq![rendered(n.group)] + n.targets@.take(i as int).map_values(
                |t: TargetHealthDescription| rendered(t),
            ),
        decreases n.targets.len() - i,
    {
        push_line(out, &n.targets[i]);
        assert(n.targets@.take(i + 1).map_values(|t: TargetHealthDescription| rendered(t))
            =~= n.targets@.take(i as int).map_values(|t: TargetHealthDescription| rendered(t)).push(
            rendered(n.targets[i as int]),
        ));
        i = i + 1;
    }
    assert(n.targets@.take(i as int) =~= n.targets@);
    assert(out.deep_view() =~= start + target_group_lines(*n));
}

/// Renders a load balancer's tree: the load balancer, then every listener with its
/// rules and their actions, then every target group with its targets.
pub fn alb_lines(lb: &LoadBalancer, listeners: &Vec<ListenerNode>, groups: &Vec<TargetGroupNode>) -> (r:
    Vec<String>)
    ensures
        r.deep_view() == alb_tree(*lb, listeners@, groups@),
{
    let mut out: Vec<String> = Vec::new();
    let ghost f = |n: ListenerNode| listener_lines(n);
    let ghost g = |n: TargetGroupNode| target_group_lines(n);
    push_line(&mut out, lb);
    assert(out.deep_view() =~= seq![rendered(*lb)]);
    let mut i: usize = 0;
    while i < listeners.len()
        invariant
            i <= listeners.len(),
            f == (|n: ListenerNode| listener_lines(n)),
            out.deep_view() == seq![rendered(*lb)] + listeners@.take(i as int).flat_map(f),
        decreases listeners.len() - i,
    {
        push_listener_lines(&mut out, &listeners[i]);
        proof {
            listeners@.take(i as int).lemma_flat_map_push(f, listeners[i as int]);
            assert(listeners@.take(i + 1) =~= listeners@.take(i as int).push(listeners[i as int]));
        }
        i = i + 1;
    }
    assert(listeners@.take(i as int) =~= listeners@);
    let ghost mid = out.deep_view();
    let mut j: usize = 0;
    while j < groups.len()
        invariant
            j <= groups.len(),
            g == (|n: TargetGroupNode| target_group_lines(n)),
            out.deep_view() == mid + groups@.take(j as int).flat_map(g),
        decreases groups.len() - j,
    {
        push_target_group_lines(&mut out, &groups[j]);
        proof {
            groups@.take(j as int).lemma_flat_map_push(g, groups[j as int]);
            assert(groups@.take(j + 1) =~= groups@.take(j as int).push(groups[j as int]));
        }
        j = j + 1;
    }
    assert(groups@.take(j as int) =~= groups@);
    out
}

} // verus!
