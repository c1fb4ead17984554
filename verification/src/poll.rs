//! The poll cycle: the sensor request for each controller, the outcome of
//! each response, and the snapshot that a finished cycle installs.

use crate::reading::{reading_from_body, reading_of_body, PollFailure, SensorReading};
use crate::request::{endpoint, endpoint_url, Method, Request, RequestData};
use crate::snapshot::Snapshot;
use crate::text::views;
use vstd::prelude::*;

verus! {

/// The path of the sensor list of a controller.
pub const SENSOR_PATH: &'static str = "/redfish/v1/Chassis/1/ThresholdSensors";

/// The header that carries the session token.
pub const TOKEN_HEADER: &'static str = "X-Auth-Token";

/// The time from the start of one poll cycle to the start of the next, in
/// milliseconds.
pub const POLL_INTERVAL_MS: u64 = 1000;

/// The URL of the sensor list of the controller at `address`.
pub open spec fn sensor_url(address: Seq<char>) -> Seq<char> {
    endpoint(address, SENSOR_PATH@)
}

/// The sensor request for the controller at `address` under the session
/// `token`: a GET that carries the token in its header.
pub open spec fn sensor_request_for(address: Seq<char>, token: Seq<char>) -> RequestData {
    RequestData {
        method: Method::Get,
        url: sensor_url(address),
        headers: seq![(TOKEN_HEADER@, token)],
        body: None,
    }
}

/// Builds the sensor request for the controller at `address`.
pub fn sensor_request(address: &str, token: &str) -> (request: Request)
    ensures
        request@ == sensor_request_for(address@, token@),
{
    let url = endpoint_url(address, SENSOR_PATH);
    let mut headers: Vec<(String, String)> = Vec::new();
    headers.push((TOKEN_HEADER.to_owned(), token.to_owned()));
    let request = Request { method: Method::Get, url, headers, body: None };
    assert(request@.headers =~= sensor_request_for(address@, token@).headers);
    request
}

/// The number of controllers that a cycle polls: addresses and tokens are
/// taken in pairs, so the shorter list decides.
pub open spec fn pairs(first: nat, second: nat) -> nat {
    if first <= second {
        first
    } else {
        second
    }
}

/// The sensor requests of one cycle: one for each address that has a token at
/// its index, in the order of the addresses.
pub fn sensor_requests(addresses: &Vec<String>, tokens: &Vec<String>) -> (requests: Vec<Request>)
    ensures
        requests@.len() == pairs(addresses@.len(), tokens@.len()),
        forall|i: int|
            0 <= i < requests@.len() ==> (#[trigger] requests@[i])@ == sensor_request_for(
                addresses@[i]@,
                tokens@[i]@,
            ),
{
    let count = if addresses.len() <= tokens.len() {
        addresses.len()
    } else {
        tokens.len()
    };
    let mut requests: Vec<Request> = Vec::new();
    let mut i: usize = 0;
    while i < count
        invariant
            i <= count,
            count == pairs(addresses@.len(), tokens@.len()),
            requests@.len() == i,
            forall|k: int|
                0 <= k < i ==> (#[trigger] requests@[k])@ == sensor_request_for(
                    addresses@[k]@,
                    tokens@[k]@,
                ),
        decreases count - i,
    {
        requests.push(sensor_request(addresses[i].as_str(), tokens[i].as_str()));
        i += 1;
    }
    requests
}

/// The response to one sensor request as the characters of its body; `None`
/// where no response was received.
pub open spec fn response_text(response: Option<String>) -> Option<Seq<char>> {
    match response {
        Some(body) => Some(body@),
        None => None,
    }
}

/// The outcome of one poll: the reading that the body gives, or the reason
/// why there is none.
pub open spec fn outcome_of(response: Option<Seq<char>>) -> Result<SensorReading, PollFailure> {
    match response {
        None => Err(PollFailure::Transport),
        Some(body) => reading_of_body(body),
    }
}

/// Judges the response to one sensor request.
pub fn poll_outcome(response: &Option<String>) -> (outcome: Result<SensorReading, PollFailure>)
    ensures
        outcome == outcome_of(response_text(*response)),
{
    match response {
        None => Err(PollFailure::Transport),
        Some(body) => reading_from_body(body.as_str()),
    }
}

/// The snapshot after the first `count` polls of a cycle: each successful
/// poll stores its reading under its address, each failed poll stores
/// nothing.
pub open spec fn installed_upto(
    addresses: Seq<Seq<char>>,
    outcomes: Seq<Result<SensorReading, PollFailure>>,
    count: nat,
) -> Map<Seq<char>, SensorReading>
    decreases count,
{
    if count == 0 {
        Map::empty()
    } else {
        let before = installed_upto(addresses, outcomes, (count - 1) as nat);
        match outcomes[count - 1] {
            Ok(reading) => before.insert(addresses[count - 1], reading),
            Err(_) => before,
        }
    }
}

/// The snapshot that a finished cycle installs.
pub open spec fn installed(
    addresses: Seq<Seq<char>>,
    outcomes: Seq<Result<SensorReading, PollFailure>>,
) -> Map<Seq<char>, SensorReading> {
    installed_upto(addresses, outcomes, pairs(addresses.len(), outcomes.len()))
}

/// Whether poll `i` of a cycle went to `address` and gave a reading.
pub open spec fn gave_reading(
    addresses: Seq<Seq<char>>,
    outcomes: Seq<Result<SensorReading, PollFailure>>,
    i: int,
    address: Seq<char>,
) -> bool {
    addresses[i] == address && outcomes[i] is Ok
}

proof fn lemma_installed_upto(
    addresses: Seq<Seq<char>>,
    outcomes: Seq<Result<SensorReading, PollFailure>>,
    count: nat,
    address: Seq<char>,
)
    ensures
        installed_upto(addresses, outcomes, count).dom().finite(),
        installed_upto(addresses, outcomes, count).len() <= count,
        installed_upto(addresses, outcomes, count).contains_key(address) <==> exists|i: int|
            0 <= i < count && #[trigger] gave_reading(addresses, outcomes, i, address),
        forall|i: int|
            0 <= i < count && #[trigger] gave_reading(addresses, outcomes, i, address) && (forall|
                j: int,
            |
                i < j < count ==> !#[trigger] gave_reading(addresses, outcomes, j, address))
                ==> installed_upto(addresses, outcomes, count)[address] == outcomes[i]->Ok_0,
    decreases count,
{
    if count > 0 {
        let last = count - 1;
        lemma_installed_upto(addresses, outcomes, last as nat, address);
        let before = installed_upto(addresses, outcomes, last as nat);
        let after = installed_upto(addresses, outcomes, count);
        if gave_reading(addresses, outcomes, last, address) {
        } else {
            assert forall|i: int|
                0 <= i < count && #[trigger] gave_reading(addresses, outcomes, i, address)
                    && (forall|j: int|
                    i < j < count ==> !#[trigger] gave_reading(
                        addresses,
                        outcomes,
                        j,
                        address,
                    )) implies after[address] == outcomes[i]->Ok_0 by {
                assert(i < last);
                assert(forall|j: int|
                    i < j < last ==> !#[trigger] gave_reading(addresses, outcomes, j, address));
            }
        }
    }
}

/// The snapshot of a cycle has an entry for an address exactly if a poll of
/// that address gave a reading in this cycle, and the entry holds the reading
/// of the last such poll. The snapshot is finite and has no more entries than
/// the cycle had polls.
pub proof fn law_entries_come_from_successful_polls(
    addresses: Seq<Seq<char>>,
    outcomes: Seq<Result<SensorReading, PollFailure>>,
    address: Seq<char>,
)
    ensures
        installed(addresses, outcomes).dom().finite(),
        installed(addresses, outcomes).len() <= pairs(addresses.len(), outcomes.len()),
        installed(addresses, outcomes).contains_key(address) <==> exists|i: int|
            0 <= i < pairs(addresses.len(), outcomes.len()) && #[trigger] gave_reading(
                addresses,
                outcomes,
                i,
                address,
            ),
        forall|i: int|
            0 <= i < pairs(addresses.len(), outcomes.len()) && #[trigger] gave_reading(
                addresses,
                outcomes,
                i,
                address,
            ) && (forall|j: int|
                i < j < pairs(addresses.len(), outcomes.len()) ==> !#[trigger] gave_reading(
                    addresses,
                    outcomes,
                    j,
                    address,
                )) ==> installed(addresses, outcomes)[address] == outcomes[i]->Ok_0,
{
    lemma_installed_upto(addresses, outcomes, pairs(addresses.len(), outcomes.len()), address);
}

/// A cycle in which every poll of an address failed installs no entry for
/// that address.
pub proof fn law_failed_address_is_absent(
    addresses: Seq<Seq<char>>,
    outcomes: Seq<Result<SensorReading, PollFailure>>,
    address: Seq<char>,
)
    requires
        forall|i: int|
            0 <= i < pairs(addresses.len(), outcomes.len()) && addresses[i] == address
                ==> outcomes[i] is Err,
    ensures
        !installed(addresses, outcomes).contains_key(address),
{
    law_entries_come_from_successful_polls(addresses, outcomes, address);
}

/// Builds the snapshot of a cycle from the outcome of each poll.
pub fn snapshot_of_outcomes(
    addresses: &Vec<String>,
    outcomes: &Vec<Result<SensorReading, PollFailure>>,
) -> (snapshot: Snapshot)
    ensures
        snapshot@ == installed(views(addresses@), outcomes@),
{
    let count = if addresses.len() <= outcomes.len() {
        addresses.len()
    } else {
        outcomes.len()
    };
    let mut snapshot = Snapshot::new();
    let mut i: usize = 0;
    while i < count
        invariant
            i <= count,
            count == pairs(addresses@.len(), outcomes@.len()),
            snapshot@ == installed_upto(views(addresses@), outcomes@, i as nat),
        decreases count - i,
    {
        match outcomes[i] {
            Ok(reading) => snapshot.insert(addresses[i].clone(), reading),
            Err(_) => {},
        }
        i += 1;
    }
    snapshot
}

/// The outcomes of the responses of one cycle, in order.
pub open spec fn outcomes_of(responses: Seq<Option<String>>) -> Seq<
    Result<SensorReading, PollFailure>,
> {
    responses.map_values(|response: Option<String>| outcome_of(response_text(response)))
}

/// Builds the snapshot of a cycle from the responses to its requests:
/// `responses[i]` answers the request to `addresses[i]`.
pub fn snapshot_of_cycle(addresses: &Vec<String>, responses: &Vec<Option<String>>) -> (snapshot:
    Snapshot)
    ensures
        snapshot@ == installed(views(addresses@), outcomes_of(responses@)),
{
    let mut outcomes: Vec<Result<SensorReading, PollFailure>> = Vec::new();
    let mut i: usize = 0;
    while i < responses.len()
        invariant
            i <= responses@.len(),
            outcomes@.len() == i,
            forall|k: int| 0 <= k < i ==> outcomes@[k] == outcomes_of(responses@)[k],
        decreases responses@.len() - i,
    {
        outcomes.push(poll_outcome(&responses[i]));
        i += 1;
    }
    assert(outcomes@ =~= outcomes_of(responses@));
    snapshot_of_outcomes(addresses, &outcomes)
}

/// How long the poller sleeps after a cycle that took `elapsed_ms`: what is
/// left of the interval, and nothing where the cycle overran it.
pub fn pause_after(elapsed_ms: u64) -> (pause_ms: u64)
    ensures
        pause_ms == if elapsed_ms < POLL_INTERVAL_MS {
            POLL_INTERVAL_MS - elapsed_ms
        } else {
            0
        },
{
    if elapsed_ms < POLL_INTERVAL_MS {
        POLL_INTERVAL_MS - elapsed_ms
    } else {
        0
    }
}

} // verus!
