//! What the command line asks of a running server, and what it shows of the answers.
use vstd::prelude::*;
use vstd::string::*;
use crate::text::number_text;
use crate::text::decimal;

verus! {

/// The URL of the list of gateways.
pub open spec fn list_url_text(api_addr: Seq<char>) -> Seq<char> {
    "http://"@ + api_addr + "/gateways"@
}

/// The URL that signs with a gateway's keypair.
pub open spec fn sign_url_text(api_addr: Seq<char>, mac: Seq<char>) -> Seq<char> {
    "http://"@ + api_addr + "/gateways/"@ + mac + "/sign"@
}

/// Writes the URL of the list of gateways.
pub fn list_url(api_addr: &str) -> (url: String)
    ensures
        url@ == list_url_text(api_addr@),
{
    let mut url = "http://".to_owned();
    url.append(api_addr);
    url.append("/gateways");
    url
}

/// Writes the URL that signs with a gateway's keypair.
pub fn sign_url(api_addr: &str, mac: &str) -> (url: String)
    ensures
        url@ == sign_url_text(api_addr@, mac@),
{
    let mut url = "http://".to_owned();
    url.append(api_addr);
    url.append("/gateways/");
    url.append(mac);
    url.append("/sign");
    url
}

/// A gateway in the server's answer.
#[derive(Debug)]
pub struct GatewayLine {
    pub mac: String,
    pub public_key: String,
    pub connected: bool,
    pub connected_seconds: Option<u64>,
    pub last_uplink_seconds_ago: Option<u64>,
}

/// The text on an optional number of seconds: nothing if there is none.
pub open spec fn seconds_text(before: Seq<char>, seconds: Option<u64>, after: Seq<char>) -> Seq<
    char,
> {
    match seconds {
        Some(s) => before + decimal(s as nat) + after,
        None => Seq::empty(),
    }
}

/// The text on a gateway.
pub open spec fn gateway_text(line: GatewayLine) -> Seq<char> {
    "  "@ + line.mac@ + " ["@ + (if line.connected {
        "connected"@
    } else {
        "disconnected"@
    }) + "]\n    public_key: "@ + line.public_key@ + "\n"@ + seconds_text(
        "    connected_for: "@,
        line.connected_seconds,
        "s\n"@,
    ) + seconds_text("    last_uplink: "@, line.last_uplink_seconds_ago, "s ago\n"@) + "\n"@
}

/// The text on a number of gateways, one after the other.
pub open spec fn gateways_text(lines: Seq<GatewayLine>) -> Seq<char>
    decreases lines.len(),
{
    if lines.len() == 0 {
        Seq::empty()
    } else {
        gateways_text(lines.drop_last()) + gateway_text(lines.last())
    }
}

/// The text on the server's answer: how many gateways are connected, then each gateway.
pub open spec fn listing_text(connected: u64, total: u64, lines: Seq<GatewayLine>) -> Seq<char> {
    "Gateways: "@ + decimal(connected as nat) + "/"@ + decimal(total as nat) + " connected\n\n"@
        + gateways_text(lines)
}

/// Adds the text on an optional number of seconds.
fn append_seconds(text: &mut String, before: &str, seconds: Option<u64>, after: &str)
    ensures
        final(text)@ == old(text)@ + seconds_text(before@, seconds, after@),
{
    match seconds {
        Some(s) => {
            text.append(before);
            text.append(number_text(s).as_str());
            text.append(after);
        },
        None => {},
    }
    assert(text@ =~= old(text)@ + seconds_text(before@, seconds, after@));
}

/// Adds the text on a gateway.
fn append_gateway(text: &mut String, line: &GatewayLine)
    ensures
        final(text)@ == old(text)@ + gateway_text(*line),
{
    text.append("  ");
    text.append(line.mac.as_str());
    text.append(" [");
    text.append(if line.connected { "connected" } else { "disconnected" });
    text.append("]\n    public_key: ");
    text.append(line.public_key.as_str());
    text.append("\n");
    append_seconds(text, "    connected_for: ", line.connected_seconds, "s\n");
    append_seconds(text, "    last_uplink: ", line.last_uplink_seconds_ago, "s ago\n");
    text.append("\n");
    assert(text@ =~= old(text)@ + gateway_text(*line));
}

/// Writes the text on the server's answer to a request for all gateways.
pub fn listing(connected: u64, total: u64, lines: &Vec<GatewayLine>) -> (text: String)
    ensures
        text@ == listing_text(connected, total, lines@),
{
    let mut text = "Gateways: ".to_owned();
    text.append(number_text(connected).as_str());
    text.append("/");
    text.append(number_text(total).as_str());
    text.append(" connected\n\n");
    let ghost head = text@;
    let mut i: usize = 0;
    assert(head + gateways_text(lines@.take(0)) =~= head);
    while i < lines.len()
        invariant
            i <= lines@.len(),
            text@ == head + gateways_text(lines@.take(i as int)),
        decreases lines@.len() - i,
    {
        proof {
            assert(lines@.take(i + 1).drop_last() =~= lines@.take(i as int));
        }
        append_gateway(&mut text, &lines[i]);
        assert(text@ =~= head + gateways_text(lines@.take(i + 1)));
        i += 1;
    }
    assert(lines@.take(i as int) =~= lines@);
    text
}

/// The URLs are those of the server's address, and the one that signs is that of the gateway's MAC
/// address.
pub proof fn law_urls_are_of_the_server_and_the_gateway(api_addr: Seq<char>, mac: Seq<char>)
    ensures
        list_url_text(api_addr) == "http://"@ + api_addr + "/gateways"@,
        sign_url_text(api_addr, mac) == list_url_text(api_addr) + "/"@ + mac + "/sign"@,
{
    reveal_strlit("/gateways");
    reveal_strlit("/gateways/");
    reveal_strlit("/");
    assert("/gateways/"@ =~= "/gateways"@ + "/"@);
    assert(sign_url_text(api_addr, mac) =~= list_url_text(api_addr) + "/"@ + mac + "/sign"@);
}

/// Gateways are listed one after the other: the text on two lists is that on the first and that on
/// the second, and the text on one gateway is its own.
pub proof fn law_gateways_are_listed_one_after_the_other(
    lines: Seq<GatewayLine>,
    more: Seq<GatewayLine>,
    line: GatewayLine,
)
    ensures
        gateways_text(lines + more) == gateways_text(lines) + gateways_text(more),
        gateways_text(seq![line]) == gateway_text(line),
        gateways_text(Seq::empty()).len() == 0,
    decreases more.len(),
{
    assert(seq![line].drop_last() =~= Seq::<GatewayLine>::empty());
    assert(gateways_text(seq![line].drop_last()) =~= Seq::<char>::empty());
    assert(gateways_text(seq![line]) =~= gateway_text(line));
    if more.len() == 0 {
        assert(lines + more =~= lines);
        assert(gateways_text(lines + more) =~= gateways_text(lines) + gateways_text(more));
    } else {
        law_gateways_are_listed_one_after_the_other(lines, more.drop_last(), line);
        assert((lines + more).drop_last() =~= lines + more.drop_last());
        assert((lines + more).last() == more.last());
        assert(gateways_text(lines + more) =~= gateways_text(lines) + gateways_text(more));
    }
}

/// The text on a gateway tells its MAC address, whether it is connected and its public key, and then
/// for how many seconds it has been connected and how many seconds ago its last uplink came, each
/// only if it is known.
pub proof fn law_gateway_text_tells_what_is_known(line: GatewayLine)
    ensures
        ({
            let head = "  "@ + line.mac@ + (if line.connected {
                " [connected]\n    public_key: "@
            } else {
                " [disconnected]\n    public_key: "@
            }) + line.public_key@ + "\n"@;
            let connected = match line.connected_seconds {
                Some(s) => "    connected_for: "@ + decimal(s as nat) + "s\n"@,
                None => Seq::empty(),
            };
            let uplink = match line.last_uplink_seconds_ago {
                Some(s) => "    last_uplink: "@ + decimal(s as nat) + "s ago\n"@,
                None => Seq::empty(),
            };
            gateway_text(line) == head + connected + uplink + "\n"@
        }),
{
    reveal_strlit(" [connected]\n    public_key: ");
    reveal_strlit(" [disconnected]\n    public_key: ");
    reveal_strlit(" [");
    reveal_strlit("connected");
    reveal_strlit("disconnected");
    reveal_strlit("]\n    public_key: ");
    assert(" [connected]\n    public_key: "@ =~= " ["@ + "connected"@ + "]\n    public_key: "@);
    assert(" [disconnected]\n    public_key: "@ =~= " ["@ + "disconnected"@
        + "]\n    public_key: "@);
    let head = "  "@ + line.mac@ + (if line.connected {
        " [connected]\n    public_key: "@
    } else {
        " [disconnected]\n    public_key: "@
    }) + line.public_key@ + "\n"@;
    let connected = match line.connected_seconds {
        Some(s) => "    connected_for: "@ + decimal(s as nat) + "s\n"@,
        None => Seq::empty(),
    };
    let uplink = match line.last_uplink_seconds_ago {
        Some(s) => "    last_uplink: "@ + decimal(s as nat) + "s ago\n"@,
        None => Seq::empty(),
    };
    assert(gateway_text(line) =~= head + connected + uplink + "\n"@);
}

/// A listing tells how many gateways of how many are connected, and then each gateway.
pub proof fn law_listing_tells_the_counts_and_the_gateways(
    connected: u64,
    total: u64,
    lines: Seq<GatewayLine>,
)
    ensures
        listing_text(connected, total, lines) == "Gateways: "@ + decimal(connected as nat) + "/"@
            + decimal(total as nat) + " connected\n\n"@ + gateways_text(lines),
{
}

} // verus!
