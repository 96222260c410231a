//! REST APIs: the API, its resources, their methods, and each method's integration.

use vstd::prelude::*;
use crate::present::{Present, push_line, rendered};
use crate::text::{opt_view, or_else, push_or, push_quoted, debug_quoted};

verus! {

/// A REST API.
pub struct RestApi {
    pub name: Option<String>,
    pub id: Option<String>,
}

/// A resource (a path) of a REST API.
pub struct Resource {
    pub path: Option<String>,
    pub id: Option<String>,
}

/// A method offered on a resource.
pub struct Method {
    pub http_method: Option<String>,
    pub authorization_type: Option<String>,
}

/// The kind of backend an integration forwards to; `Unknown` holds a kind this
/// library does not name.
pub enum IntegrationType {
    Aws,
    AwsProxy,
    Http,
    HttpProxy,
    Mock,
    Unknown(String),
}

/// The backend integration of a method.
pub struct Integration {
    pub integration_type: Option<IntegrationType>,
    pub uri: Option<String>,
}

impl IntegrationType {
    /// The name of the kind as the service's client library shows it in debug output.
    pub open spec fn debug_name(&self) -> Seq<char> {
        match self {
            IntegrationType::Aws => "Aws"@,
            IntegrationType::AwsProxy => "AwsProxy"@,
            IntegrationType::Http => "Http"@,
            IntegrationType::HttpProxy => "HttpProxy"@,
            IntegrationType::Mock => "Mock"@,
            IntegrationType::Unknown(v) => "Unknown(UnknownVariantValue("@ + debug_quoted(v@)
                + "))"@,
        }
    }

    /// Appends the debug name of the kind.
    pub fn push_debug_name(&self, out: &mut String)
        ensures
            final(out)@ == old(out)@ + self.debug_name(),
    {
        match self {
            IntegrationType::Aws => out.append("Aws"),
            IntegrationType::AwsProxy => out.append("AwsProxy"),
            IntegrationType::Http => out.append("Http"),
            IntegrationType::HttpProxy => out.append("HttpProxy"),
            IntegrationType::Mock => out.append("Mock"),
            IntegrationType::Unknown(v) => {
                out.append("Unknown(UnknownVariantValue(");
                push_quoted(out, v.as_str());
                out.append("))");
            },
        }
    }
}

impl Present for RestApi {
    open spec fn text(&self) -> Seq<char> {
        "REST API \""@ + or_else(opt_view(self.name), "unknown"@) + "\" ("@ + or_else(
            opt_view(self.id),
            "unknown"@,
        ) + ")"@
    }

    open spec fn depth(&self) -> nat {
        0
    }

    fn content(&self) -> (r: String) {
        let mut out = String::new();
        out.append("REST API \"");
        push_or(&mut out, &self.name, "unknown");
        out.append("\" (");
        push_or(&mut out, &self.id, "unknown");
        out.append(")");
        out
    }

    fn indent(&self) -> (r: usize) {
        0
    }
}

impl Present for Resource {
    open spec fn text(&self) -> Seq<char> {
        or_else(opt_view(self.path), "/"@) + " (id="@ + or_else(opt_view(self.id), "unknown"@)
            + ")"@
    }

    open spec fn depth(&self) -> nat {
        2
    }

    fn content(&self) -> (r: String) {
        let mut out = String::new();
        push_or(&mut out, &self.path, "/");
        out.append(" (id=");
        push_or(&mut out, &self.id, "unknown");
        out.append(")");
        out
    }

    fn indent(&self) -> (r: usize) {
        2
    }
}

impl Present for Method {
    open spec fn text(&self) -> Seq<char> {
        or_else(opt_view(self.http_method), "unknown"@) + " auth="@ + or_else(
            opt_view(self.authorization_type),
            "NONE"@,
        )
    }

    open spec fn depth(&self) -> nat {
        4
    }

    fn content(&self) -> (r: String) {
        let mut out = String::new();
        push_or(&mut out, &self.http_method, "unknown");
        out.append(" auth=");
        push_or(&mut out, &self.authorization_type, "NONE");
        out
    }

    fn indent(&self) -> (r: usize) {
        4
    }
}

impl Present for Integration {
    open spec fn text(&self) -> Seq<char> {
        "Integration type="@ + match self.integration_type {
            Some(t) => t.debug_name(),
            None => "unknown"@,
        } + " uri="@ + or_else(opt_view(self.uri), "none"@)
    }

    open spec fn depth(&self) -> nat {
        6
    }

    fn content(&self) -> (r: String) {
        let mut out = String::new();
        out.append("Integration type=");
        match &self.integration_type {
            Some(t) => t.push_debug_name(&mut out),
            None => out.append("unknown"),
        }
        out.append(" uri=");
        push_or(&mut out, &self.uri, "none");
        out
    }

    fn indent(&self) -> (r: usize) {
        6
    }
}

/// In a REST API's tree every line is indented further than its parent's.
pub proof fn api_children_indented_further(
    api: RestApi,
    resource: Resource,
    method: Method,
    integration: Integration,
)
    ensures
        api.depth() < resource.depth() < method.depth() < integration.depth(),
{
}

/// A method together with its integration, when the integration could be fetched.
pub struct MethodNode {
    pub method: Method,
    pub integration: Option<Integration>,
}

/// A resource together with its methods.
pub struct ResourceNode {
    pub resource: Resource,
    pub methods: Vec<MethodNode>,
}

/// The lines of a method: the method, then its integration if there is one.
pub open spec fn method_lines(n: MethodNode) -> Seq<Seq<char>> {
    seq![rendered(n.method)] + match n.integration {
        Some(i) => seq![rendered(i)],
        None => Seq::empty(),
    }
}

/// The lines of a resource: the resource, then each of its methods in turn.
pub open spec fn resource_lines(n: ResourceNode) -> Seq<Seq<char>> {
    seq![rendered(n.resource)] + n.methods@.flat_map(|m: MethodNode| method_lines(m))
}

/// The whole tree of a REST API: its own line, then each resource in turn.
pub open spec fn api_tree(api: RestApi, resources: Seq<ResourceNode>) -> Seq<Seq<char>> {
    seq![rendered(api)] + resources.flat_map(|n: ResourceNode| resource_lines(n))
}

fn push_method_lines(out: &mut Vec<String>, n: &MethodNode)
    ensures
        final(out).deep_view() == old(out).deep_view() + method_lines(*n),
{
    let ghost start = out.deep_view();
    push_line(out, &n.method);
    match &n.integration {
        Some(i) => push_line(out, i),
        None => {},
    }
    assert(out.deep_view() =~= start + method_lines(*n));
}

fn push_resource_lines(out: &mut Vec<String>, n: &ResourceNode)
    ensures
        final(out).deep_view() == old(out).deep_view() + resource_lines(*n),
{
    let ghost start = out.deep_view();
    let ghost f = |m: MethodNode| method_lines(m);
    push_line(out, &n.resource);
    let mut i: usize = 0;
    while i < n.methods.len()
        invariant
            i <= n.methods.len(),
            f == (|m: MethodNode| method_lines(m)),
            out.deep_view() == start + seq![rendered(n.resource)] + n.methods@.take(i as int).flat_map(
                f,
            ),
        decreases n.methods.len() - i,
    {
        push_method_lines(out, &n.methods[i]);
        proof {
            n.methods@.take(i as int).lemma_flat_map_push(f, n.methods[i as int]);
            assert(n.methods@.take(i + 1) =~= n.methods@.take(i as int).push(n.methods[i as int]));
        }
        i = i + 1;
    }
    assert(n.methods@.take(i as int) =~= n.methods@);
    assert(out.deep_view() =~= start + resource_lines(*n));
}

/// Renders a REST API's tree: the API, then every resource with its methods and
/// their integrations.
pub fn api_lines(api: &RestApi, resources: &Vec<ResourceNode>) -> (r: Vec<String>)
    ensures
        r.deep_view() == api_tree(*api, resources@),
{
    let mut out: Vec<String> = Vec::new();
    let ghost f = |n: ResourceNode| resource_lines(n);
    push_line(&mut out, api);
    assert(out.deep_view() =~= seq![rendered(*api)]);
    let mut i: usize = 0;
    while i < resources.len()
        invariant
            i <= resources.len(),
            f == (|n: ResourceNode| resource_lines(n)),
            out.deep_view() == seq![rendered(*api)] + resources@.take(i as int).flat_map(f),
        decreases resources.len() - i,
    {
        push_resource_lines(&mut out, &resources[i]);
        proof {
            resources@.take(i as int).lemma_flat_map_push(f, resources[i as int]);
            assert(resources@.take(i + 1) =~= resources@.take(i as int).push(resources[i as int]));
        }
        i = i + 1;
    }
    assert(resources@.take(i as int) =~= resources@);
    out
}

} // verus!
