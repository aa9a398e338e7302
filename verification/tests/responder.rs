use std::str::FromStr;

use doh_responder::binding::{deliver, filter, receive, resume, OutboundResponse, Pending, Step};
use doh_responder::denylist::Denylist;
use doh_responder::message::{DnsMessage, MessageKind, NO_ERROR, NXDOMAIN};
use doh_responder::request::{message_from_payload, replay_parameter, Body, InboundRequest, Method};
use doh_responder::resolver::ResolutionOutcome;
use trust_dns_proto::op::{Message, MessageType, Query, ResponseCode};
use trust_dns_proto::rr::rdata::opt::EdnsOption;
use trust_dns_proto::rr::{Name, RData, Record, RecordType};
use trust_dns_proto::serialize::binary::{BinDecodable, BinEncodable};

fn query_message(id: u16, name: &str, record_type: RecordType) -> Message {
    let mut message = Message::new();
    message.set_id(id);
    message.set_recursion_desired(true);
    message.add_query(Query::query(Name::from_str(name).unwrap(), record_type));
    message
}

fn query_bytes(id: u16, name: &str, record_type: RecordType) -> Vec<u8> {
    query_message(id, name, record_type).to_bytes().unwrap()
}

fn get_request(payload: &[u8]) -> InboundRequest {
    InboundRequest {
        method: Method::Get,
        uri: format!("https://doh.example.net/resolve?dns={}", base64_url::encode(payload)),
        body: Body::Empty,
    }
}

fn post_request(body: Body) -> InboundRequest {
    InboundRequest { method: Method::Post, uri: String::from("https://doh.example.net/resolve"), body }
}

fn denylist(names: &[&str]) -> Denylist {
    Denylist::load(&Some(names.iter().map(|name| Some(name.to_string())).collect()))
}

fn address_record(name: &str, ttl: u32, address: &str) -> Record {
    Record::from_rdata(Name::from_str(name).unwrap(), ttl, RData::A(address.parse().unwrap()))
}

fn responded(step: Step) -> OutboundResponse {
    match step {
        Step::Respond(response) => response,
        Step::Answer(message) => deliver(&message),
        Step::Resolve(pending) => panic!("handed out for lookup: {}", pending.domain),
    }
}

fn answered(step: Step) -> DnsMessage {
    match step {
        Step::Answer(message) => message,
        Step::Respond(response) => panic!("ended with status {}", response.status),
        Step::Resolve(pending) => panic!("handed out for lookup: {}", pending.domain),
    }
}

fn pending(step: Step) -> Pending {
    match step {
        Step::Resolve(pending) => pending,
        Step::Respond(response) => panic!("ended with status {}", response.status),
        Step::Answer(message) => panic!("answered at once with code {}", message.response_code),
    }
}

fn message_in(response: &OutboundResponse) -> Message {
    assert_eq!(response.status, 200);
    assert_eq!(response.content_type.as_deref(), Some("application/dns-message"));
    match &response.body {
        Body::Binary(bytes) => Message::from_bytes(bytes).unwrap(),
        other => panic!("no binary body: {:?}", other),
    }
}

fn text_in(response: &OutboundResponse) -> String {
    match &response.body {
        Body::Text(text) => text.clone(),
        other => panic!("no textual body: {:?}", other),
    }
}

fn assert_bare(response: &OutboundResponse, status: u16) {
    assert_eq!(response.status, status);
    assert_eq!(response.content_type, None);
    assert!(matches!(response.body, Body::Empty));
}

#[test]
fn get_for_example_com_is_looked_up_and_answered() {
    let request = get_request(&query_bytes(0x1234, "example.com.", RecordType::A));
    let waiting = pending(receive(&request, &Denylist::empty()));
    assert_eq!(waiting.domain, "example.com.");
    assert_eq!(waiting.query.questions[0].raw.query_type(), RecordType::A);

    let records = vec![address_record("example.com.", 300, "93.184.216.34")];
    let response = responded(resume(waiting, ResolutionOutcome::Answered(records.clone())));
    let message = message_in(&response);
    assert_eq!(message.queries()[0].name().to_utf8(), "example.com.");
    assert_eq!(message.queries()[0].query_type(), RecordType::A);
    assert_eq!(message.id(), 0x1234);
    assert_eq!(message.message_type(), MessageType::Response);
    assert!(message.recursion_available());
    assert!(message.recursion_desired());
    assert_eq!(message.response_code(), ResponseCode::NoError);
    assert_eq!(message.answers(), records.as_slice());
}

#[test]
fn post_with_a_binary_query_is_looked_up_and_answered() {
    let request = post_request(Body::Binary(query_bytes(7, "example.org.", RecordType::AAAA)));
    let waiting = pending(receive(&request, &denylist(&["ads.example"])));
    assert_eq!(waiting.domain, "example.org.");
    assert_eq!(waiting.query.questions[0].raw.query_type(), RecordType::AAAA);
    let message = message_in(&responded(resume(waiting, ResolutionOutcome::Answered(Vec::new()))));
    assert_eq!(message.id(), 7);
    assert_eq!(message.response_code(), ResponseCode::NoError);
    assert!(message.answers().is_empty());
}

#[test]
fn get_without_dns_parameter_is_400() {
    let request = InboundRequest {
        method: Method::Get,
        uri: String::from("https://doh.example.net/resolve"),
        body: Body::Empty,
    };
    let response = responded(receive(&request, &Denylist::empty()));
    assert_eq!(response.status, 400);
    assert_eq!(text_in(&response), "Bad request: Missing 'dns' query string parameter");
}

#[test]
fn get_with_another_parameter_only_is_400() {
    let request = InboundRequest {
        method: Method::Get,
        uri: String::from("https://doh.example.net/resolve?name=example.com&dnsx=AAAA"),
        body: Body::Empty,
    };
    let response = responded(receive(&request, &Denylist::empty()));
    assert_eq!(response.status, 400);
    assert_eq!(text_in(&response), "Bad request: Missing 'dns' query string parameter");
}

#[test]
fn post_with_empty_body_is_400() {
    let response = responded(receive(&post_request(Body::Empty), &Denylist::empty()));
    assert_eq!(response.status, 400);
    assert_eq!(text_in(&response), "Bad request: Empty body");
}

#[test]
fn post_with_textual_body_is_400() {
    let body = Body::Text(String::from("example.com"));
    let response = responded(receive(&post_request(body), &Denylist::empty()));
    assert_eq!(response.status, 400);
    assert_eq!(text_in(&response), "Bad request: Text body");
}

#[test]
fn put_is_405() {
    let request = InboundRequest {
        method: Method::Other,
        uri: String::from("https://doh.example.net/resolve"),
        body: Body::Binary(query_bytes(1, "example.com.", RecordType::A)),
    };
    assert_bare(&responded(receive(&request, &Denylist::empty())), 405);
}

#[test]
fn get_with_a_value_that_is_no_base64url_is_400() {
    let request = InboundRequest {
        method: Method::Get,
        uri: String::from("https://doh.example.net/resolve?dns=not*base64"),
        body: Body::Empty,
    };
    let response = responded(receive(&request, &Denylist::empty()));
    assert_eq!(response.status, 400);
    assert_eq!(text_in(&response), "Bad request: Invalid DNS message");
}

#[test]
fn get_with_padded_base64_is_400() {
    let payload = query_bytes(1, "ab.example.", RecordType::A);
    assert_eq!(payload.len(), 28);
    let unpadded = base64_url::encode(&payload);
    assert_eq!(unpadded.len(), 38);
    let request = InboundRequest {
        method: Method::Get,
        uri: format!("https://doh.example.net/resolve?dns={}%3D%3D", unpadded),
        body: Body::Empty,
    };
    let response = responded(receive(&request, &Denylist::empty()));
    assert_eq!(response.status, 400);
    assert_eq!(text_in(&response), "Bad request: Invalid DNS message");
}

#[test]
fn get_with_bytes_that_are_no_message_is_400() {
    let response = responded(receive(&get_request(&[1, 2, 3]), &Denylist::empty()));
    assert_eq!(response.status, 400);
    assert_eq!(text_in(&response), "Bad request: Invalid DNS message");
}

#[test]
fn post_with_bytes_that_are_no_message_is_400() {
    let body = Body::Binary(vec![0xff; 5]);
    let response = responded(receive(&post_request(body), &Denylist::empty()));
    assert_eq!(response.status, 400);
    assert_eq!(text_in(&response), "Bad request: Invalid DNS message");
}

#[test]
fn post_with_a_binary_body_of_no_bytes_is_400() {
    let response = responded(receive(&post_request(Body::Binary(Vec::new())), &Denylist::empty()));
    assert_eq!(response.status, 400);
    assert_eq!(text_in(&response), "Bad request: Invalid DNS message");
}

#[test]
fn get_with_path_and_query_alone_is_decoded() {
    let payload = base64_url::encode(&query_bytes(0x77, "example.com.", RecordType::A));
    for uri in [format!("/resolve?dns={}", payload), format!("?dns={}", payload), format!("resolve?x=1&dns={}", payload)] {
        let request = InboundRequest { method: Method::Get, uri, body: Body::Empty };
        let waiting = pending(receive(&request, &Denylist::empty()));
        assert_eq!(waiting.domain, "example.com.");
        assert_eq!(waiting.query.id, 0x77);
    }
    let request = InboundRequest { method: Method::Get, uri: String::from("/resolve"), body: Body::Empty };
    let response = responded(receive(&request, &Denylist::empty()));
    assert_eq!(response.status, 400);
    assert_eq!(text_in(&response), "Bad request: Missing 'dns' query string parameter");
}

#[test]
fn get_with_a_uri_that_does_not_parse_is_500() {
    let request = InboundRequest {
        method: Method::Get,
        uri: format!("https://[::1/resolve?dns={}", base64_url::encode(&query_bytes(1, "example.com.", RecordType::A))),
        body: Body::Empty,
    };
    assert_bare(&responded(receive(&request, &Denylist::empty())), 500);
}

#[test]
fn get_takes_the_first_of_two_dns_parameters() {
    let first = base64_url::encode(&query_bytes(1, "first.example.", RecordType::A));
    let second = base64_url::encode(&query_bytes(2, "second.example.", RecordType::A));
    let request = InboundRequest {
        method: Method::Get,
        uri: format!("https://doh.example.net/resolve?x=1&dns={}&dns={}", first, second),
        body: Body::Empty,
    };
    let waiting = pending(receive(&request, &Denylist::empty()));
    assert_eq!(waiting.domain, "first.example.");
    assert_eq!(waiting.query.id, 1);
}

#[test]
fn blocked_name_gets_nxdomain_without_lookup() {
    let list = denylist(&["ads.example", "tracker.example"]);
    for record_type in [RecordType::A, RecordType::AAAA, RecordType::TXT, RecordType::MX] {
        let request = get_request(&query_bytes(0xbeef, "ads.example.", record_type));
        let message = message_in(&responded(receive(&request, &list)));
        assert_eq!(message.response_code(), ResponseCode::NXDomain);
        assert!(message.answers().is_empty());
        assert_eq!(message.id(), 0xbeef);
        assert_eq!(message.message_type(), MessageType::Response);
        assert!(message.recursion_available());
        assert_eq!(message.queries().len(), 1);
        assert_eq!(message.queries()[0].name().to_utf8(), "ads.example.");
        assert_eq!(message.queries()[0].query_type(), record_type);
    }
}

#[test]
fn blocked_name_over_post_gets_nxdomain() {
    let list = denylist(&["ads.example"]);
    let request = post_request(Body::Binary(query_bytes(9, "ads.example.", RecordType::A)));
    let message = message_in(&responded(receive(&request, &list)));
    assert_eq!(message.response_code(), ResponseCode::NXDomain);
    assert!(message.answers().is_empty());
    assert_eq!(message.id(), 9);
}

#[test]
fn identical_requests_for_a_blocked_name_get_identical_responses() {
    let list = denylist(&["ads.example"]);
    let request = get_request(&query_bytes(77, "ads.example.", RecordType::A));
    let first = responded(receive(&request, &list));
    let second = responded(receive(&request, &list));
    assert_eq!(first.status, second.status);
    assert_eq!(first.content_type, second.content_type);
    match (first.body, second.body) {
        (Body::Binary(one), Body::Binary(other)) => assert_eq!(one, other),
        _ => panic!("no binary bodies"),
    }
}

#[test]
fn name_next_to_a_blocked_one_is_looked_up() {
    let list = denylist(&["ads.example"]);
    for name in ["example.", "www.ads.example.", "ads.example.com.", "ads-example."] {
        let request = get_request(&query_bytes(3, name, RecordType::A));
        assert_eq!(pending(receive(&request, &list)).domain, name);
    }
}

#[test]
fn names_are_compared_letter_for_letter() {
    let mut name = Name::from_labels(vec!["ADS".as_bytes(), "example".as_bytes()]).unwrap();
    name.set_fqdn(true);
    let mut query = Message::new();
    query.set_id(4);
    query.add_query(Query::query(name, RecordType::A));
    let bytes = query.to_bytes().unwrap();

    assert_eq!(pending(receive(&get_request(&bytes), &denylist(&["ads.example"]))).domain, "ADS.example.");
    let message = message_in(&responded(receive(&get_request(&bytes), &denylist(&["ADS.example"]))));
    assert_eq!(message.response_code(), ResponseCode::NXDomain);
    assert_eq!(message.queries()[0].name().to_utf8(), "ADS.example.");
}

#[test]
fn not_found_and_malformed_look_like_blocked() {
    let payload = query_bytes(21, "gone.example.", RecordType::A);
    let blocked = responded(receive(&get_request(&payload), &denylist(&["gone.example"])));
    let blocked_message = message_in(&blocked);
    assert_eq!(blocked_message.response_code(), ResponseCode::NXDomain);

    for outcome in [ResolutionOutcome::NotFound, ResolutionOutcome::MalformedName] {
        let waiting = pending(receive(&get_request(&payload), &Denylist::empty()));
        let response = responded(resume(waiting, outcome));
        let message = message_in(&response);
        assert_eq!(message.response_code(), ResponseCode::NXDomain);
        assert!(message.answers().is_empty());
        assert_eq!(message.id(), 21);
        assert_eq!(message, blocked_message);
        assert!(matches!((&response.body, &blocked.body), (Body::Binary(one), Body::Binary(other)) if one == other));
    }
}

#[test]
fn transient_failure_is_a_bare_500() {
    let request = get_request(&query_bytes(5, "example.com.", RecordType::A));
    let waiting = pending(receive(&request, &Denylist::empty()));
    assert_bare(&responded(resume(waiting, ResolutionOutcome::TransientFailure)), 500);
}

#[test]
fn answers_keep_the_order_of_the_lookup() {
    let records = vec![
        address_record("b.example.", 30, "10.0.0.2"),
        address_record("a.example.", 20, "10.0.0.1"),
        address_record("b.example.", 30, "10.0.0.2"),
        address_record("c.example.", 10, "10.0.0.3"),
    ];
    let request = get_request(&query_bytes(6, "a.example.", RecordType::A));
    let waiting = pending(receive(&request, &Denylist::empty()));
    let message = message_in(&responded(resume(waiting, ResolutionOutcome::Answered(records.clone()))));
    assert_eq!(message.answers(), records.as_slice());
}

#[test]
fn answers_of_the_query_are_not_sent_back() {
    let mut query = query_message(8, "example.com.", RecordType::A);
    query.add_answer(address_record("example.com.", 1, "192.0.2.1"));
    let found = vec![address_record("example.com.", 60, "192.0.2.2")];

    let request = post_request(Body::Binary(query.to_bytes().unwrap()));
    let waiting = pending(receive(&request, &Denylist::empty()));
    let message = message_in(&responded(resume(waiting, ResolutionOutcome::Answered(found.clone()))));
    assert_eq!(message.answers(), found.as_slice());

    let request = post_request(Body::Binary(query.to_bytes().unwrap()));
    let message = message_in(&responded(receive(&request, &denylist(&["example.com"]))));
    assert_eq!(message.response_code(), ResponseCode::NXDomain);
    assert!(message.answers().is_empty());
}

#[test]
fn only_the_first_question_is_looked_at() {
    let mut query = query_message(10, "first.example.", RecordType::A);
    query.add_query(Query::query(Name::from_str("ads.example.").unwrap(), RecordType::A));
    let bytes = query.to_bytes().unwrap();

    let waiting = pending(receive(&get_request(&bytes), &denylist(&["ads.example"])));
    assert_eq!(waiting.domain, "first.example.");
    let message = message_in(&responded(resume(waiting, ResolutionOutcome::NotFound)));
    assert_eq!(message.queries().len(), 2);
    assert_eq!(message.queries()[0].name().to_utf8(), "first.example.");
    assert_eq!(message.queries()[1].name().to_utf8(), "ads.example.");

    let message = message_in(&responded(receive(&get_request(&bytes), &denylist(&["first.example"]))));
    assert_eq!(message.response_code(), ResponseCode::NXDomain);
    assert_eq!(message.queries().len(), 2);
}

#[test]
fn query_without_a_question_is_a_bare_500() {
    let mut query = Message::new();
    query.set_id(11);
    let bytes = query.to_bytes().unwrap();
    assert_bare(&responded(receive(&get_request(&bytes), &Denylist::empty())), 500);
    assert_bare(&responded(receive(&post_request(Body::Binary(bytes)), &denylist(&[""]))), 500);
}

#[test]
fn query_for_the_root_meets_the_empty_entry() {
    let bytes = query_bytes(12, ".", RecordType::NS);
    let message = message_in(&responded(receive(&get_request(&bytes), &denylist(&[""]))));
    assert_eq!(message.response_code(), ResponseCode::NXDomain);
    assert_eq!(pending(receive(&get_request(&bytes), &denylist(&["."]))).domain, ".");
}

#[test]
fn payload_is_decoded_into_the_fields_the_responder_reads() {
    let mut query = query_message(0xabcd, "www.example.com.", RecordType::AAAA);
    query.add_answer(address_record("www.example.com.", 5, "192.0.2.7"));
    let message: DnsMessage = message_from_payload(&query.to_bytes().unwrap()).unwrap();
    assert_eq!(message.id, 0xabcd);
    assert_eq!(message.kind, MessageKind::Query);
    assert!(!message.recursion_available);
    assert_eq!(message.response_code, 0);
    assert_eq!(message.questions.len(), 1);
    assert_eq!(message.questions[0].name, "www.example.com.");
    assert_eq!(message.questions[0].raw, query.queries()[0]);
    assert_eq!(message.answers, query.answers());
    assert!(message.rest.recursion_desired());
}

#[test]
fn filter_takes_a_message_made_by_hand() {
    let question = Query::query(Name::from_str("ads.example.").unwrap(), RecordType::A);
    let make = || DnsMessage {
        id: 42,
        kind: MessageKind::Query,
        recursion_available: false,
        response_code: 0,
        questions: vec![doh_responder::message::Question { name: String::from("ads.example."), raw: question.clone() }],
        answers: Vec::new(),
        rest: Message::new(),
    };
    let message = message_in(&responded(filter(make(), &denylist(&["ads.example"]))));
    assert_eq!(message.id(), 42);
    assert_eq!(message.response_code(), ResponseCode::NXDomain);
    assert_eq!(message.queries(), &[question.clone()]);

    let waiting = pending(filter(make(), &denylist(&["other.example"])));
    assert_eq!(waiting.domain, "ads.example.");
    assert_eq!(waiting.query.id, 42);
}

#[test]
fn query_by_post_can_be_replayed_by_get() {
    let payload = query_bytes(0x0102, "replay.example.", RecordType::TXT);
    let by_post = pending(receive(&post_request(Body::Binary(payload.clone())), &Denylist::empty()));
    let request = InboundRequest {
        method: Method::Get,
        uri: format!("https://doh.example.net/resolve?dns={}", replay_parameter(&payload)),
        body: Body::Empty,
    };
    let by_get = pending(receive(&request, &Denylist::empty()));
    assert_eq!(by_get.domain, by_post.domain);
    assert_eq!(by_get.query.id, by_post.query.id);
    assert_eq!(by_get.query.rest, by_post.query.rest);
}

#[test]
fn records_found_are_sent_without_an_error_code() {
    let mut query = query_message(0x51, "example.com.", RecordType::A);
    query.set_response_code(ResponseCode::Refused);
    let bytes = query.to_bytes().unwrap();
    assert_eq!(message_from_payload(&bytes).unwrap().response_code, 5);

    let records = vec![address_record("example.com.", 60, "192.0.2.9")];
    let waiting = pending(receive(&post_request(Body::Binary(bytes)), &Denylist::empty()));
    let message = answered(resume(waiting, ResolutionOutcome::Answered(records.clone())));
    assert_eq!(message.response_code, NO_ERROR);
    assert_eq!(message.response_code, 0);
    assert_eq!(message.answers, records);

    let sent = message_in(&deliver(&message));
    assert_eq!(sent.response_code(), ResponseCode::NoError);
    assert_eq!(sent.answers(), records.as_slice());
    assert_eq!(sent.id(), 0x51);
}

#[test]
fn answer_is_decided_as_a_message() {
    let list = denylist(&["ads.example"]);
    let request = get_request(&query_bytes(0x99, "ads.example.", RecordType::A));
    let message = answered(receive(&request, &list));
    assert_eq!(message.id, 0x99);
    assert_eq!(message.kind, MessageKind::Response);
    assert!(message.recursion_available);
    assert_eq!(message.response_code, NXDOMAIN);
    assert_eq!(message.response_code, 3);
    assert!(message.answers.is_empty());
    assert_eq!(message.questions.len(), 1);
    assert_eq!(message.questions[0].name, "ads.example.");

    let again = answered(receive(&request, &list));
    assert_eq!(again.id, message.id);
    assert_eq!(again.kind, message.kind);
    assert_eq!(again.response_code, message.response_code);
    assert_eq!(again.answers, message.answers);
    assert_eq!(again.questions[0].raw, message.questions[0].raw);
    assert_eq!(again.rest, message.rest);
}

#[test]
fn query_with_edns_options_is_answered_with_them() {
    let mut query = query_message(0x33, "ads.example.", RecordType::A);
    let edns = query.edns_mut();
    edns.set_max_payload(1232);
    edns.options_mut().insert(EdnsOption::Unknown(65001, vec![1, 2, 3]));
    edns.options_mut().insert(EdnsOption::Unknown(65002, vec![4]));
    edns.options_mut().insert(EdnsOption::Unknown(65003, Vec::new()));
    let request = post_request(Body::Binary(query.to_bytes().unwrap()));

    let first = message_in(&responded(receive(&request, &denylist(&["ads.example"]))));
    let second = message_in(&responded(receive(&request, &denylist(&["ads.example"]))));
    assert_eq!(first, second);
    assert_eq!(first.response_code(), ResponseCode::NXDomain);
    assert_eq!(first.edns().unwrap().max_payload(), 1232);
    assert_eq!(first.edns().unwrap().options(), query.edns().unwrap().options());
}
