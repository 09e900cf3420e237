//! The REST API: who may call it, and what it answers.
//!
//! - `GET /gateways`: all known gateways with their status
//! - `GET /gateways/{mac}`: the status of one gateway
//! - `POST /gateways/{mac}/sign`: a signature of data, made with a gateway's keypair
use vstd::prelude::*;
use vstd::string::*;
use base64::Engine;
use crate::gateway_info::{GatewayInfo, InfoView};
use crate::gateway_info::{info_of, seconds_since};
use crate::gateway_table::{GatewayTable, TableView};
use crate::gateway_table::{info_views, lists_all};
use crate::health::DispatcherHealth;
use crate::health::{elapsed_nanos, whole_seconds};
use crate::keypair::{KeypairError, MAX_SIGNATURE_LEN};
use crate::keypair::{is_paired, signature_accepted};
use crate::mac::{parse_mac_from_name, MacAddress};
use crate::mac::{is_mac_text, law_key_name_reads_back, mac_of_text};
use crate::text::same_bytes;

verus! {

/// The error type of decoding with `base64`.
#[verifier::external_type_specification]
#[verifier::external_body]
pub struct ExDecodeError(base64::DecodeError);

/// What `base64`'s standard engine encodes bytes as.
pub uninterp spec fn base64_text(bytes: Seq<u8>) -> Seq<char>;

/// What `base64`'s standard engine decodes a text to. `None` if it refuses the text.
pub uninterp spec fn base64_bytes(text: Seq<char>) -> Option<Seq<u8>>;

/// Calls `encode` of `base64`'s standard engine, as `base64_text` names it. What was encoded
/// decodes to the same bytes. The engine panics where the length of the text is more than a
/// `usize` can hold.
#[verifier::external_body]
fn encode_base64(bytes: &[u8]) -> (text: String)
    requires
        bytes@.len() <= 0x4000_0000,
    ensures
        text@ == base64_text(bytes@),
        base64_bytes(text@) == Some(bytes@),
{
    base64::engine::general_purpose::STANDARD.encode(bytes)
}

/// Calls `decode` of `base64`'s standard engine, as `base64_bytes` names it.
#[verifier::external_body]
fn decode_base64(text: &str) -> (result: Result<Vec<u8>, base64::DecodeError>)
    ensures
        result is Ok <==> base64_bytes(text@) is Some,
        result matches Ok(bytes) ==> base64_bytes(text@) == Some(bytes@),
{
    base64::engine::general_purpose::STANDARD.decode(text)
}

/// Status of a request that is malformed.
pub const BAD_REQUEST: u16 = 400;

/// Status of a request without the right key.
pub const UNAUTHORIZED: u16 = 401;

/// Status of a request for a gateway that is not known.
pub const NOT_FOUND: u16 = 404;

/// Status of a request that failed for no fault of its own.
pub const INTERNAL_SERVER_ERROR: u16 = 500;

/// Dispatcher health status for API responses.
#[derive(Clone, Copy, Debug)]
pub struct DispatcherStatus {
    pub last_event_seconds_ago: Option<u64>,
    pub uptime_seconds: u64,
    pub events_processed: u64,
}

/// API response for listing gateways.
#[derive(Debug)]
pub struct GatewaysResponse {
    pub gateways: Vec<GatewayInfo>,
    pub total: usize,
    pub connected: usize,
    pub dispatcher: DispatcherStatus,
}

/// API response for errors.
#[derive(Debug)]
pub struct ErrorResponse {
    pub error: String,
}

/// Request body for signing.
#[derive(Debug)]
pub struct SignRequest {
    /// Base64-encoded data to sign.
    pub data: String,
}

/// Response body for signing.
#[derive(Debug)]
pub struct SignResponse {
    /// Base64-encoded signature.
    pub signature: String,
}

/// What a request is refused with.
#[derive(Debug)]
pub struct ApiError {
    pub status: u16,
    pub body: ErrorResponse,
}

/// What a request is refused with.
#[verifier::ext_equal]
pub struct ErrorView {
    pub status: u16,
    pub error: Seq<char>,
}

impl View for ApiError {
    type V = ErrorView;

    open spec fn view(&self) -> ErrorView {
        ErrorView { status: self.status, error: self.body.error@ }
    }
}

/// The refusal of a malformed MAC address.
pub open spec fn invalid_mac() -> ErrorView {
    ErrorView {
        status: BAD_REQUEST,
        error: "Invalid MAC address format. Expected 16 hex characters."@,
    }
}

/// The refusal of a request for a gateway that is not known.
pub open spec fn gateway_not_found(mac: Seq<char>) -> ErrorView {
    ErrorView { status: NOT_FOUND, error: "Gateway "@ + mac + " not found"@ }
}

/// The refusal of data that is not base64.
pub open spec fn invalid_base64() -> ErrorView {
    ErrorView { status: BAD_REQUEST, error: "Invalid base64 data"@ }
}

/// The refusal after signing failed.
pub open spec fn signing_failed(reason: Seq<char>) -> ErrorView {
    ErrorView { status: INTERNAL_SERVER_ERROR, error: "Signing failed: "@ + reason }
}

/// The refusal, if any, of a request with this key where that key is expected. Where no key is
/// expected, every request is admitted.
pub open spec fn key_refusal(expected: Option<Seq<char>>, provided: Option<Seq<u8>>) -> Option<
    ErrorView,
> {
    match (expected, provided) {
        (None, _) => None,
        (Some(_), None) => Some(
            ErrorView { status: UNAUTHORIZED, error: "Missing X-API-Key header"@ },
        ),
        (Some(key), Some(bytes)) => if bytes == vstd::utf8::encode_utf8(key) {
            None
        } else {
            Some(ErrorView { status: UNAUTHORIZED, error: "Invalid API key"@ })
        },
    }
}

/// The characters of an optional key.
pub open spec fn key_text(key: Option<String>) -> Option<Seq<char>> {
    match key {
        Some(k) => Some(k@),
        None => None,
    }
}

/// The bytes of an optional header.
pub open spec fn header_bytes(header: Option<&[u8]>) -> Option<Seq<u8>> {
    match header {
        Some(bytes) => Some(bytes@),
        None => None,
    }
}

/// Makes a refusal.
fn refusal(status: u16, error: &str) -> (refusal: ApiError)
    ensures
        refusal@ == (ErrorView { status, error: error@ }),
{
    ApiError { status, body: ErrorResponse { error: error.to_owned() } }
}

/// Checks the key of a request: what its `X-API-Key` header holds, if it has one.
pub fn check_api_key(expected: &Option<String>, provided: Option<&[u8]>) -> (result: Result<
    (),
    ApiError,
>)
    ensures
        match result {
            Ok(_) => key_refusal(key_text(*expected), header_bytes(provided)) is None,
            Err(error) => key_refusal(key_text(*expected), header_bytes(provided)) == Some(error@),
        },
{
    match expected {
        Some(expected_key) => match provided {
            Some(bytes) => {
                if same_bytes(bytes, expected_key.as_str().as_bytes()) {
                    Ok(())
                } else {
                    Err(refusal(UNAUTHORIZED, "Invalid API key"))
                }
            },
            None => Err(refusal(UNAUTHORIZED, "Missing X-API-Key header")),
        },
        None => Ok(()),
    }
}

/// The keys that requests need.
#[derive(Debug)]
pub struct ApiKeys {
    /// Key of the endpoints that only read.
    pub read: Option<String>,
    /// Key of the endpoints that sign.
    pub write: Option<String>,
}

/// Checks the key of a request to an endpoint that only reads.
pub fn read_auth(keys: &ApiKeys, provided: Option<&[u8]>) -> (result: Result<(), ApiError>)
    ensures
        match result {
            Ok(_) => key_refusal(key_text(keys.read), header_bytes(provided)) is None,
            Err(error) => key_refusal(key_text(keys.read), header_bytes(provided)) == Some(error@),
        },
{
    check_api_key(&keys.read, provided)
}

/// Checks the key of a request to an endpoint that signs.
pub fn write_auth(keys: &ApiKeys, provided: Option<&[u8]>) -> (result: Result<(), ApiError>)
    ensures
        match result {
            Ok(_) => key_refusal(key_text(keys.write), header_bytes(provided)) is None,
            Err(error) => key_refusal(key_text(keys.write), header_bytes(provided)) == Some(error@),
        },
{
    check_api_key(&keys.write, provided)
}

/// How many gateways of a list are connected.
pub open spec fn connected_count(infos: Seq<InfoView>) -> nat
    decreases infos.len(),
{
    if infos.len() == 0 {
        0
    } else {
        connected_count(infos.drop_last()) + if infos.last().connected {
            1nat
        } else {
            0nat
        }
    }
}

/// Lists all gateways.
pub fn list_gateways(table: &GatewayTable, health: &DispatcherHealth, now: u64) -> (response:
    GatewaysResponse)
    requires
        table@.shows_all(),
    ensures
        exists|order: Seq<u64>|
            lists_all(info_views(response.gateways@), table@, now, order),
        response.total == response.gateways@.len(),
        response.connected == connected_count(info_views(response.gateways@)),
        response.connected == response.gateways@.filter(|info: GatewayInfo| info.connected).len(),
        response.dispatcher == (DispatcherStatus {
            last_event_seconds_ago: seconds_since(health.last_event, now),
            uptime_seconds: whole_seconds(elapsed_nanos(health.started, now)),
            events_processed: health.events,
        }),
{
    let gateways = table.list_gateways(now);
    let total: usize = gateways.len();
    let ghost infos = info_views(gateways@);
    let ghost order = choose|order: Seq<u64>| lists_all(infos, table@, now, order);
    let mut connected: usize = 0;
    let mut i: usize = 0;
    proof {
        reveal(Seq::filter);
    }
    while i < gateways.len()
        invariant
            i <= gateways@.len(),
            infos == info_views(gateways@),
            connected <= i,
            connected == connected_count(infos.take(i as int)),
            connected == gateways@.take(i as int).filter(|info: GatewayInfo| info.connected).len(),
        decreases gateways@.len() - i,
    {
        proof {
            assert(infos.take(i + 1).drop_last() =~= infos.take(i as int));
            assert(infos.take(i + 1).last() == gateways@[i as int]@);
            reveal(Seq::filter);
            assert(gateways@.take(i + 1).drop_last() =~= gateways@.take(i as int));
            assert(gateways@.take(i + 1).last() == gateways@[i as int]);
        }
        if gateways[i].connected {
            connected += 1;
        }
        i += 1;
    }
    assert(infos.take(i as int) =~= infos);
    assert(gateways@.take(i as int) =~= gateways@);
    let response = GatewaysResponse {
        gateways,
        total,
        connected,
        dispatcher: DispatcherStatus {
            last_event_seconds_ago: health.seconds_since_last_event(now),
            uptime_seconds: health.uptime_secs(now),
            events_processed: health.total_events(),
        },
    };
    assert(lists_all(info_views(response.gateways@), table@, now, order));
    response
}

/// Reads a MAC address from a path: sixteen hexadecimal digits.
pub fn parse_mac(mac: &str) -> (result: Result<MacAddress, ApiError>)
    ensures
        match result {
            Ok(address) => is_mac_text(mac@) && address@ == mac_of_text(mac@),
            Err(error) => !is_mac_text(mac@) && error@ == invalid_mac(),
        },
{
    match parse_mac_from_name(mac) {
        Some(address) => Ok(address),
        None => Err(
            refusal(BAD_REQUEST, "Invalid MAC address format. Expected 16 hex characters."),
        ),
    }
}

/// Refuses a request for a gateway that is not known.
fn refuse_unknown(mac: &str) -> (refused: ApiError)
    ensures
        refused@ == gateway_not_found(mac@),
{
    let mut error = "Gateway ".to_owned();
    error.append(mac);
    error.append(" not found");
    refusal(NOT_FOUND, error.as_str())
}

/// Gets the status of a gateway by its MAC address.
pub fn get_gateway(table: &GatewayTable, mac: &str, now: u64) -> (result: Result<
    GatewayInfo,
    ApiError,
>)
    requires
        is_mac_text(mac@) ==> table@.shows(mac_of_text(mac@)),
    ensures
        match result {
            Ok(info) => {
                &&& is_mac_text(mac@)
                &&& table@.knows(mac_of_text(mac@))
                &&& info@ == info_of(table@.entry(mac_of_text(mac@)), table@.region, now)
            },
            Err(error) => if is_mac_text(mac@) {
                &&& !table@.knows(mac_of_text(mac@))
                &&& error@ == gateway_not_found(mac@)
            } else {
                error@ == invalid_mac()
            },
        },
{
    let address = match parse_mac(mac) {
        Ok(address) => address,
        Err(error) => {
            return Err(error);
        },
    };
    match table.get_gateway(&address, now) {
        Some(info) => Ok(info),
        None => Err(refuse_unknown(mac)),
    }
}

/// Answers a request for a signature, once signing has come out: with a signature, without one
/// because the gateway is not known, or with an error.
pub fn sign_response(mac: &str, outcome: Result<Option<Vec<u8>>, KeypairError>) -> (result: Result<
    SignResponse,
    ApiError,
>)
    requires
        outcome matches Ok(Some(signature)) ==> signature@.len() <= 0x4000_0000,
    ensures
        match outcome {
            Ok(Some(signature)) => {
                &&& result matches Ok(response)
                &&& response.signature@ == base64_text(signature@)
                &&& base64_bytes(response.signature@) == Some(signature@)
            },
            Ok(None) => result matches Err(error) && error@ == gateway_not_found(mac@),
            Err(reason) => result matches Err(error) && error@ == signing_failed(reason.text@),
        },
{
    match outcome {
        Ok(Some(signature)) => Ok(
            SignResponse { signature: encode_base64(signature.as_slice()) },
        ),
        Ok(None) => Err(refuse_unknown(mac)),
        Err(reason) => {
            let mut error = "Signing failed: ".to_owned();
            error.append(reason.text.as_str());
            Err(refusal(INTERNAL_SERVER_ERROR, error.as_str()))
        },
    }
}

/// Signs data with the keypair of a gateway. The MAC address is looked at first, then the data,
/// then whether the gateway is known.
pub fn sign_data(table: &GatewayTable, mac: &str, request: &SignRequest) -> (result: Result<
    SignResponse,
    ApiError,
>)
    ensures
        match result {
            Ok(response) => {
                &&& is_mac_text(mac@)
                &&& base64_bytes(request.data@) is Some
                &&& table@.knows(mac_of_text(mac@))
                &&& base64_bytes(response.signature@) matches Some(signature)
                &&& response.signature@ == base64_text(signature)
                &&& signature.len() <= MAX_SIGNATURE_LEN
                &&& is_paired(table@.entry(mac_of_text(mac@)).keypair.key)
                    ==> signature_accepted(
                    table@.entry(mac_of_text(mac@)).keypair.key,
                    base64_bytes(request.data@)->0,
                    signature,
                )
            },
            Err(error) => if !is_mac_text(mac@) {
                error@ == invalid_mac()
            } else if base64_bytes(request.data@) is None {
                error@ == invalid_base64()
            } else {
                &&& !table@.knows(mac_of_text(mac@))
                &&& error@ == gateway_not_found(mac@)
            },
        },
{
    let address = match parse_mac(mac) {
        Ok(address) => address,
        Err(error) => {
            return Err(error);
        },
    };
    let data = match decode_base64(request.data.as_str()) {
        Ok(data) => data,
        Err(_) => {
            return Err(refusal(BAD_REQUEST, "Invalid base64 data"));
        },
    };
    sign_response(mac, table.sign(&address, data.as_slice()))
}

/// Where a key is expected, exactly that key is admitted: a request without a key is not, nor one
/// with another key.
pub proof fn law_a_key_admits_only_itself(expected: Seq<char>, other: Seq<char>)
    ensures
        key_refusal(Some(expected), None) is Some,
        key_refusal(Some(expected), Some(vstd::utf8::encode_utf8(other))) is None <==> other
            == expected,
{
    vstd::utf8::encode_utf8_decode_utf8(expected);
    vstd::utf8::encode_utf8_decode_utf8(other);
}

/// Every refusal for want of the right key has the same status.
pub proof fn law_key_refusals_are_unauthorized(
    expected: Option<Seq<char>>,
    provided: Option<Seq<u8>>,
)
    ensures
        key_refusal(expected, provided) matches Some(refused) ==> refused.status == UNAUTHORIZED,
        expected is None ==> key_refusal(expected, provided) is None,
{
}

/// A list of all gateways has one line for each gateway of the table, and no more of them are
/// connected than there are.
pub proof fn law_list_counts_every_gateway_once(
    infos: Seq<InfoView>,
    table: TableView,
    now: u64,
    order: Seq<u64>,
)
    requires
        lists_all(infos, table, now, order),
    ensures
        infos.len() == table.entries.dom().len(),
        connected_count(infos) <= infos.len(),
{
    order.unique_seq_to_set();
    lemma_connected_count_bounded(infos);
}

proof fn lemma_connected_count_bounded(infos: Seq<InfoView>)
    ensures
        connected_count(infos) <= infos.len(),
    decreases infos.len(),
{
    if infos.len() > 0 {
        lemma_connected_count_bounded(infos.drop_last());
    }
}

/// The MAC address that a list shows of a gateway finds the gateway again.
pub proof fn law_listed_gateway_is_found(table: TableView, number: u64, now: u64)
    requires
        table.wf(),
        table.entries.contains_key(number),
    ensures
        ({
            let shown = info_of(table.entries[number], table.region, now).mac;
            &&& is_mac_text(shown)
            &&& table.knows(mac_of_text(shown))
            &&& table.entry(mac_of_text(shown)) == table.entries[number]
        }),
{
    law_key_name_reads_back(table.entries[number].mac);
}

/// The connected gateways of a list are counted one by one: they are as many as the list has when
/// the others are left out, all of them if all are connected, and those of two lists are as many as
/// those of both together.
pub proof fn law_every_connected_gateway_counts(infos: Seq<InfoView>, more: Seq<InfoView>)
    ensures
        connected_count(infos) == infos.filter(|info: InfoView| info.connected).len(),
        (forall|i: int| 0 <= i < infos.len() ==> (#[trigger] infos[i]).connected)
            ==> connected_count(infos) == infos.len(),
        (forall|i: int| 0 <= i < infos.len() ==> !(#[trigger] infos[i]).connected)
            ==> connected_count(infos) == 0,
        connected_count(infos + more) == connected_count(infos) + connected_count(more),
    decreases infos.len() + more.len(),
{
    reveal(Seq::filter);
    if infos.len() > 0 {
        law_every_connected_gateway_counts(infos.drop_last(), Seq::empty());
        assert forall|i: int| 0 <= i < infos.len() - 1 implies infos.drop_last()[i]
            == #[trigger] infos[i] by {}
        assert(infos.last() == infos[infos.len() - 1]);
    }
    if more.len() == 0 {
        assert(infos + more =~= infos);
    } else {
        law_every_connected_gateway_counts(infos, more.drop_last());
        assert((infos + more).drop_last() =~= infos + more.drop_last());
        assert((infos + more).last() == more.last());
    }
}

/// A request is admitted where no key is expected, and where the bytes of its key are those of the
/// expected one. Otherwise it is told whether its key is missing or wrong.
pub proof fn law_requests_are_admitted_by_their_key(
    expected: Seq<char>,
    provided: Option<Seq<u8>>,
    bytes: Seq<u8>,
)
    ensures
        key_refusal(None, provided) is None,
        key_refusal(Some(expected), Some(bytes)) is None <==> bytes == vstd::utf8::encode_utf8(
            expected,
        ),
        key_refusal(Some(expected), Some(bytes)) matches Some(refused) ==> refused.status == 401
            && refused.error == "Invalid API key"@,
        key_refusal(Some(expected), None) matches Some(refused) && refused.status == 401
            && refused.error == "Missing X-API-Key header"@,
{
}

/// A refusal names what was asked for: a gateway that is not known is named as the request named
/// it, and signing that failed is refused with the reason.
pub proof fn law_refusals_name_what_was_asked(mac: Seq<char>, reason: Seq<char>)
    ensures
        gateway_not_found(mac).status == 404,
        gateway_not_found(mac).error == "Gateway "@ + mac + " not found"@,
        signing_failed(reason).status == 500,
        signing_failed(reason).error == "Signing failed: "@ + reason,
        invalid_mac().status == 400,
        invalid_mac().error == "Invalid MAC address format. Expected 16 hex characters."@,
        invalid_base64().status == 400,
        invalid_base64().error == "Invalid base64 data"@,
{
}

/// What is said of a refusal, of a key and of a header is said of what they hold.
pub proof fn law_refusals_are_their_fields(refused: ApiError, key: String, header: &[u8])
    ensures
        refused@.status == refused.status,
        refused@.error == refused.body.error@,
        key_text(Some(key)) == Some(key@),
        key_text(None) is None,
        header_bytes(Some(header)) == Some(header@),
        header_bytes(None) is None,
{
}

} // verus!
