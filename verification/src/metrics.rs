//! Metrics for gateway monitoring: what is counted, under which names, and how the dispatcher's
//! health is reported.
use vstd::prelude::*;
use vstd::string::*;
use crate::health::DispatcherHealth;
use crate::health::{elapsed_nanos, whole_seconds};
use crate::text::same_text;

verus! {

/// The counters, each kept by MAC address.
#[derive(Clone, Copy, Debug, PartialEq, Eq, Structural)]
pub enum Counter {
    GatewayConnections,
    GatewayDisconnections,
    PacketsUplink,
    PacketsDownlink,
}

/// The name of a counter.
pub open spec fn name_text(counter: Counter) -> Seq<char> {
    match counter {
        Counter::GatewayConnections => "gateway_connections_total"@,
        Counter::GatewayDisconnections => "gateway_disconnections_total"@,
        Counter::PacketsUplink => "packets_uplink_total"@,
        Counter::PacketsDownlink => "packets_downlink_total"@,
    }
}

/// What a counter counts.
pub open spec fn help_text(counter: Counter) -> Seq<char> {
    match counter {
        Counter::GatewayConnections => "Total gateway connections"@,
        Counter::GatewayDisconnections => "Total gateway disconnections"@,
        Counter::PacketsUplink => "Total uplink packets received"@,
        Counter::PacketsDownlink => "Total downlink packets sent"@,
    }
}

/// The lines that introduce a counter in the Prometheus text format.
pub open spec fn header_text(counter: Counter) -> Seq<char> {
    "# HELP "@ + name_text(counter) + " "@ + help_text(counter) + "\n# TYPE "@ + name_text(counter)
        + " counter\n"@
}

impl Counter {
    /// The name of the counter.
    pub fn name(&self) -> (name: &'static str)
        ensures
            name@ == name_text(*self),
    {
        match self {
            Counter::GatewayConnections => "gateway_connections_total",
            Counter::GatewayDisconnections => "gateway_disconnections_total",
            Counter::PacketsUplink => "packets_uplink_total",
            Counter::PacketsDownlink => "packets_downlink_total",
        }
    }

    /// What the counter counts.
    pub fn help(&self) -> (help: &'static str)
        ensures
            help@ == help_text(*self),
    {
        match self {
            Counter::GatewayConnections => "Total gateway connections",
            Counter::GatewayDisconnections => "Total gateway disconnections",
            Counter::PacketsUplink => "Total uplink packets received",
            Counter::PacketsDownlink => "Total downlink packets sent",
        }
    }
}

/// Whether a name is among those of a list.
pub open spec fn is_listed(names: Seq<String>, name: Seq<char>) -> bool {
    exists|i: int| 0 <= i < names.len() && (#[trigger] names[i])@ == name
}

/// The lines that introduce a counter, unless its name is listed.
pub open spec fn missing_header(listed: Seq<String>, counter: Counter) -> Seq<char> {
    if is_listed(listed, name_text(counter)) {
        Seq::empty()
    } else {
        header_text(counter)
    }
}

/// The lines that introduce the counters whose names are not listed.
pub open spec fn missing_headers_text(listed: Seq<String>) -> Seq<char> {
    missing_header(listed, Counter::GatewayConnections) + missing_header(
        listed,
        Counter::GatewayDisconnections,
    ) + missing_header(listed, Counter::PacketsUplink) + missing_header(
        listed,
        Counter::PacketsDownlink,
    )
}

/// Tells whether a name is among those of a list.
fn lists_name(names: &Vec<String>, name: &str) -> (listed: bool)
    ensures
        listed == is_listed(names@, name@),
{
    let mut i: usize = 0;
    while i < names.len()
        invariant
            i <= names@.len(),
            forall|j: int| 0 <= j < i ==> (#[trigger] names@[j])@ != name@,
        decreases names@.len() - i,
    {
        if same_text(names[i].as_str(), name) {
            assert(names@[i as int]@ == name@);
            return true;
        }
        i += 1;
    }
    false
}

/// Adds the lines that introduce a counter, unless its name is listed.
fn append_missing(text: &mut String, listed: &Vec<String>, counter: Counter)
    ensures
        final(text)@ == old(text)@ + missing_header(listed@, counter),
{
    if !lists_name(listed, counter.name()) {
        text.append("# HELP ");
        text.append(counter.name());
        text.append(" ");
        text.append(counter.help());
        text.append("\n# TYPE ");
        text.append(counter.name());
        text.append(" counter\n");
    }
    assert(text@ =~= old(text)@ + missing_header(listed@, counter));
}

/// Writes the lines that introduce the counters that have not counted anything yet, so that they
/// appear before their first use. `listed` are the names of the metrics that appear already.
pub fn missing_headers(listed: &Vec<String>) -> (text: String)
    ensures
        text@ == missing_headers_text(listed@),
{
    let mut text = String::new();
    append_missing(&mut text, listed, Counter::GatewayConnections);
    append_missing(&mut text, listed, Counter::GatewayDisconnections);
    append_missing(&mut text, listed, Counter::PacketsUplink);
    append_missing(&mut text, listed, Counter::PacketsDownlink);
    assert(text@ =~= missing_headers_text(listed@));
    text
}

/// Keeps the health that the metrics report, or a handle of it. The first value set stays.
pub fn set_dispatcher_health<H>(slot: &mut Option<H>, health: H)
    ensures
        *final(slot) == (match *old(slot) {
            Some(kept) => Some(kept),
            None => Some(health),
        }),
{
    if slot.is_none() {
        *slot = Some(health);
    }
}

/// The value of the gauge that tells how many seconds ago the dispatcher last handled an event:
/// zero if it has handled none. `None` if no health is kept; the gauge then stays as it is.
pub fn last_event_gauge(slot: &Option<DispatcherHealth>, now: u64) -> (value: Option<i64>)
    ensures
        match *slot {
            Some(health) => value is Some && value->0 == (match health.last_event {
                Some(at) => whole_seconds(elapsed_nanos(at, now)) as int,
                None => 0,
            }),
            None => value is None,
        },
{
    match slot {
        Some(health) => match health.seconds_since_last_event(now) {
            Some(seconds) => Some(seconds as i64),
            None => Some(0),
        },
        None => None,
    }
}

/// The lines that introduce counters are added for each counter whose name does not appear, each
/// counter for itself, and for no other.
pub proof fn law_counters_are_introduced_unless_they_appear(listed: Seq<String>)
    ensures
        ({
            let lines = |counter: Counter|
                if exists|i: int|
                    0 <= i < listed.len() && (#[trigger] listed[i])@ == name_text(counter) {
                    Seq::empty()
                } else {
                    "# HELP "@ + name_text(counter) + " "@ + help_text(counter) + "\n# TYPE "@
                        + name_text(counter) + " counter\n"@
                };
            missing_headers_text(listed) == lines(Counter::GatewayConnections) + lines(
                Counter::GatewayDisconnections,
            ) + lines(Counter::PacketsUplink) + lines(Counter::PacketsDownlink)
        }),
{
}

/// Each counter is written under a name of its own and with a text of its own, which tell what is
/// counted and that it is a total.
pub proof fn law_counters_are_named_after_what_they_count(counter: Counter)
    ensures
        name_text(counter) == match counter {
            Counter::GatewayConnections => "gateway_connections_total"@,
            Counter::GatewayDisconnections => "gateway_disconnections_total"@,
            Counter::PacketsUplink => "packets_uplink_total"@,
            Counter::PacketsDownlink => "packets_downlink_total"@,
        },
        help_text(counter) == match counter {
            Counter::GatewayConnections => "Total gateway connections"@,
            Counter::GatewayDisconnections => "Total gateway disconnections"@,
            Counter::PacketsUplink => "Total uplink packets received"@,
            Counter::PacketsDownlink => "Total downlink packets sent"@,
        },
{
}

/// No two counters have the same name.
pub proof fn law_counters_have_names_of_their_own(a: Counter, b: Counter)
    ensures
        name_text(a) == name_text(b) <==> a == b,
{
    reveal_strlit("gateway_connections_total");
    reveal_strlit("gateway_disconnections_total");
    reveal_strlit("packets_uplink_total");
    reveal_strlit("packets_downlink_total");
    assert("gateway_connections_total"@.len() == 25);
    assert("gateway_disconnections_total"@.len() == 28);
    assert("packets_uplink_total"@.len() == 20);
    assert("packets_downlink_total"@.len() == 22);
}

} // verus!
