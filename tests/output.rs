use lbtree::alb::Listener;
use lbtree::picker::{
    chosen, cluster_item, load_balancer_item, rest_api_item, service_item, PickerOutcome,
};
use lbtree::present::{BufferWriter, OutputWriter, Present};

fn s(x: &str) -> String {
    x.to_string()
}

#[test]
fn buffer_starts_empty() {
    let w = BufferWriter::new();
    assert_eq!(w.get_output(), "");
}

#[test]
fn buffer_keeps_lines_in_order() {
    let mut w = BufferWriter::new();
    w.write_line("first");
    w.write_line("");
    w.write_line("third");
    assert_eq!(w.get_output(), "first\n\nthird\n");
}

#[test]
fn present_writes_indented_line() {
    let mut w = BufferWriter::new();
    let l = Listener { protocol: s("HTTP"), port: 8080 };
    l.present(&mut w);
    l.present(&mut w);
    assert_eq!(
        w.get_output(),
        "  -> Listener protocol=HTTP port=8080\n  -> Listener protocol=HTTP port=8080\n"
    );
}

#[test]
fn load_balancer_candidate() {
    let item = load_balancer_item(&Some(s("web")), &Some(s("web.elb")), &Some(s("arn:lb/web")));
    assert_eq!(item.display, "web (web.elb)");
    assert_eq!(item.output, "arn:lb/web");
    let item = load_balancer_item(&None, &None, &None);
    assert_eq!(item.display, "unknown (unknown)");
    assert_eq!(item.output, "");
}

#[test]
fn rest_api_candidate() {
    let item = rest_api_item(&Some(s("shop")), &Some(s("abc123")));
    assert_eq!(item.display, "shop (abc123)");
    assert_eq!(item.output, "abc123");
    let item = rest_api_item(&None, &None);
    assert_eq!(item.display, "unknown ()");
    assert_eq!(item.output, "");
}

#[test]
fn cluster_candidate() {
    let item = cluster_item(&Some(s("prod")), &Some(s("ACTIVE")), &Some(s("arn:cluster/prod")));
    assert_eq!(item.display, "prod (ACTIVE)");
    assert_eq!(item.output, "arn:cluster/prod");
    let item = cluster_item(&None, &None, &None);
    assert_eq!(item.display, "unknown (unknown)");
}

#[test]
fn service_candidate() {
    let item = service_item(&Some(s("web")), &Some(s("ACTIVE")), 2, 3, &Some(s("arn:svc/web")));
    assert_eq!(item.display, "web (ACTIVE) 2/3");
    assert_eq!(item.output, "arn:svc/web");
    let item = service_item(&None, &None, 0, -1, &None);
    assert_eq!(item.display, "unknown (unknown) 0/-1");
    assert_eq!(item.output, "");
}

#[test]
fn pick_yields_first_selection() {
    let outcome = Some(PickerOutcome { is_abort: false, selected: vec![s("a"), s("b")] });
    assert_eq!(chosen(&outcome), Some(s("a")));
}

#[test]
fn pick_yields_nothing_on_abort_or_empty() {
    let aborted = Some(PickerOutcome { is_abort: true, selected: vec![s("a")] });
    assert_eq!(chosen(&aborted), None);
    let empty = Some(PickerOutcome { is_abort: false, selected: vec![] });
    assert_eq!(chosen(&empty), None);
    assert_eq!(chosen(&None), None);
}
