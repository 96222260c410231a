//! What the interactive picker offers and what a finished pick yields: each
//! candidate shows a readable label and hands back the resource's identifier.

use vstd::prelude::*;
use crate::text::{decimal, opt_view, or_else, push_decimal, push_or};

verus! {

/// One candidate of the picker.
pub struct PickerItem {
    /// What the user sees and searches.
    pub display: String,
    /// What a pick of this candidate yields.
    pub output: String,
}

/// A load balancer as a candidate: `name (dns-name)`, yielding its ARN.
pub fn load_balancer_item(name: &Option<String>, dns_name: &Option<String>, arn: &Option<String>) -> (r:
    PickerItem)
    ensures
        r.display@ == or_else(opt_view(*name), "unknown"@) + " ("@ + or_else(
            opt_view(*dns_name),
            "unknown"@,
        ) + ")"@,
        r.output@ == or_else(opt_view(*arn), ""@),
{
    let mut display = String::new();
    push_or(&mut display, name, "unknown");
    display.append(" (");
    push_or(&mut display, dns_name, "unknown");
    display.append(")");
    let mut output = String::new();
    push_or(&mut output, arn, "");
    PickerItem { display, output }
}

/// A REST API as a candidate: `name (id)`, yielding its id.
pub fn rest_api_item(name: &Option<String>, id: &Option<String>) -> (r: PickerItem)
    ensures
        r.display@ == or_else(opt_view(*name), "unknown"@) + " ("@ + or_else(opt_view(*id), ""@)
            + ")"@,
        r.output@ == or_else(opt_view(*id), ""@),
{
    let mut display = String::new();
    push_or(&mut display, name, "unknown");
    display.append(" (");
    push_or(&mut display, id, "");
    display.append(")");
    let mut output = String::new();
    push_or(&mut output, id, "");
    PickerItem { display, output }
}

/// A cluster as a candidate: `name (status)`, yielding its ARN.
pub fn cluster_item(name: &Option<String>, status: &Option<String>, arn: &Option<String>) -> (r:
    PickerItem)
    ensures
        r.display@ == or_else(opt_view(*name), "unknown"@) + " ("@ + or_else(
            opt_view(*status),
            "unknown"@,
        ) + ")"@,
        r.output@ == or_else(opt_view(*arn), ""@),
{
    let mut display = String::new();
    push_or(&mut display, name, "unknown");
    display.append(" (");
    push_or(&mut display, status, "unknown");
    display.append(")");
    let mut output = String::new();
    push_or(&mut output, arn, "");
    PickerItem { display, output }
}

/// A service as a candidate: `name (status) running/desired`, yielding its ARN.
pub fn service_item(
    name: &Option<String>,
    status: &Option<String>,
    running: i32,
    desired: i32,
    arn: &Option<String>,
) -> (r: PickerItem)
    ensures
        r.display@ == or_else(opt_view(*name), "unknown"@) + " ("@ + or_else(
            opt_view(*status),
            "unknown"@,
        ) + ") "@ + decimal(running as int) + "/"@ + decimal(desired as int),
        r.output@ == or_else(opt_view(*arn), ""@),
{
    let mut display = String::new();
    push_or(&mut display, name, "unknown");
    display.append(" (");
    push_or(&mut display, status, "unknown");
    display.append(") ");
    push_decimal(&mut display, running);
    display.append("/");
    push_decimal(&mut display, desired);
    let mut output = String::new();
    push_or(&mut output, arn, "");
    PickerItem { display, output }
}

/// How a picker session ended: aborted by the user, or accepted with the outputs
/// of the selected candidates, in order.
pub struct PickerOutcome {
    pub is_abort: bool,
    pub selected: Vec<String>,
}

/// What a session yields: nothing when the picker did not run to an end, was
/// aborted, or nothing was selected; else the output of the first selected candidate.
pub open spec fn pick_of(outcome: Option<PickerOutcome>) -> Option<Seq<char>> {
    match outcome {
        None => None,
        Some(o) => if o.is_abort || o.selected@.len() == 0 {
            None
        } else {
            Some(o.selected@[0]@)
        },
    }
}

/// The identifier a picker session yields.
pub fn chosen(outcome: &Option<PickerOutcome>) -> (r: Option<String>)
    ensures
        opt_view(r) == pick_of(*outcome),
{
    match outcome {
        None => None,
        Some(o) => {
            if o.is_abort || o.selected.len() == 0 {
                None
            } else {
                Some(o.selected[0].clone())
            }
        },
    }
}

} // verus!
