use std::collections::HashMap;

use darkscout::invitations::{InvitationStatus, InvitationType, TransportType};
use darkscout::lookup::{account_url, domain_subject, LookupPhase, LookupRequest, TierAction, TierEvent, UpstreamError};
use darkscout::response::{from_lookup, DSResponse, DOMAIN_NOT_FOUND, EMAIL_NOT_FOUND};

/// Both tiers in memory and a scripted upstream, counting its calls.
struct Harness {
    fast: HashMap<String, Vec<String>>,
    durable: HashMap<String, Vec<String>>,
    upstream: Result<Vec<String>, UpstreamError>,
    upstream_calls: usize,
}

impl Harness {
    fn new(upstream: Result<Vec<String>, UpstreamError>) -> Harness {
        Harness { fast: HashMap::new(), durable: HashMap::new(), upstream, upstream_calls: 0 }
    }

    fn lookup(&mut self, subject: &str) -> Option<Vec<String>> {
        let (mut request, mut action) = LookupRequest::new::<Vec<String>>(subject.to_string());
        loop {
            let event = match action {
                TierAction::ReadFast => match self.fast.get(subject) {
                    Some(v) => TierEvent::FastHit(v.clone()),
                    None => TierEvent::FastMiss,
                },
                TierAction::ReadDurable => match self.durable.get(subject) {
                    Some(v) => TierEvent::DurableHit(v.clone()),
                    None => TierEvent::DurableMiss,
                },
                TierAction::CallUpstream => {
                    self.upstream_calls += 1;
                    match &self.upstream {
                        Ok(v) => TierEvent::Fetched(v.clone()),
                        Err(e) => TierEvent::FetchFailed(*e),
                    }
                }
                TierAction::Reply(v) => return Some(v),
                TierAction::BackfillAndReply(v) => {
                    self.fast.insert(subject.to_string(), v.clone());
                    return Some(v);
                }
                TierAction::WriteThroughAndReply(v) => {
                    self.fast.insert(subject.to_string(), v.clone());
                    self.durable.insert(subject.to_string(), v.clone());
                    return Some(v);
                }
                TierAction::Fail => return None,
            };
            action = request.advance(event);
        }
    }
}

fn result() -> Vec<String> {
    vec!["Adobe".to_string(), "Canva".to_string()]
}

#[test]
fn repeated_lookup_calls_upstream_once() {
    let mut h = Harness::new(Ok(result()));
    let first = h.lookup("jane@example.com");
    let second = h.lookup("jane@example.com");
    assert_eq!(h.upstream_calls, 1);
    assert_eq!(first, Some(result()));
    assert_eq!(first, second);
}

#[test]
fn durable_hit_backfills_fast_tier() {
    let mut h = Harness::new(Ok(vec!["other".to_string()]));
    h.durable.insert("jane@example.com".to_string(), result());
    assert_eq!(h.lookup("jane@example.com"), Some(result()));
    assert_eq!(h.upstream_calls, 0);
    assert_eq!(h.fast.get("jane@example.com"), Some(&result()));
    assert_eq!(h.lookup("jane@example.com"), Some(result()));
    assert_eq!(h.upstream_calls, 0);
}

#[test]
fn miss_writes_through_both_tiers() {
    let mut h = Harness::new(Ok(result()));
    assert_eq!(h.lookup("jane@example.com"), Some(result()));
    assert_eq!(h.upstream_calls, 1);
    assert_eq!(h.fast.get("jane@example.com"), Some(&result()));
    assert_eq!(h.durable.get("jane@example.com"), Some(&result()));
}

#[test]
fn upstream_failure_caches_nothing() {
    let mut h = Harness::new(Err(UpstreamError::Transport));
    assert_eq!(h.lookup("jane@example.com"), None);
    assert!(h.fast.is_empty());
    assert!(h.durable.is_empty());
    h.upstream = Err(UpstreamError::Decode);
    assert_eq!(h.lookup("jane@example.com"), None);
    assert_eq!(h.upstream_calls, 2);
}

#[test]
fn durable_outage_counts_as_miss() {
    let (mut request, action) = LookupRequest::new::<u32>("x".to_string());
    assert!(matches!(action, TierAction::ReadFast));
    assert!(matches!(request.advance(TierEvent::<u32>::FastMiss), TierAction::ReadDurable));
    assert!(matches!(request.advance(TierEvent::<u32>::DurableUnavailable), TierAction::CallUpstream));
    assert!(matches!(request.advance(TierEvent::Fetched(4)), TierAction::WriteThroughAndReply(4)));
    assert_eq!(request.phase, LookupPhase::Done);
    assert!(matches!(request.advance(TierEvent::Fetched(5)), TierAction::Fail));
}

#[test]
fn out_of_order_event_fails_the_lookup() {
    let (mut request, _) = LookupRequest::new::<u32>("x".to_string());
    let action = request.advance(TierEvent::DurableHit(1));
    assert!(matches!(action, TierAction::Fail));
    assert!(action.terminal());
    assert_eq!(request.phase, LookupPhase::Done);
}

#[test]
fn domain_lookup_uses_address_key() {
    assert_eq!(domain_subject("example.com"), "a@example.com");
    let mut h = Harness::new(Ok(result()));
    let by_domain = h.lookup(&domain_subject("example.com"));
    let by_email = h.lookup("a@example.com");
    assert_eq!(by_domain, by_email);
    assert_eq!(h.upstream_calls, 1);
}

#[test]
fn response_envelope() {
    let ok: DSResponse<u32> = DSResponse::new(Some(3), None);
    assert_eq!(ok.data, Some(3));
    assert_eq!(ok.err, None);
    let err: DSResponse<u32> = DSResponse::new(None, Some("not found"));
    assert_eq!(err.data, None);
    assert_eq!(err.err, Some("not found"));
}

#[test]
fn stored_names_of_invitation_kinds() {
    let s: Result<String, &'static str> = InvitationStatus::QUEUED.try_into();
    assert_eq!(s, Ok("QUEUED".to_string()));
    let s: Result<String, &'static str> = InvitationStatus::REJECTED.try_into();
    assert_eq!(s, Ok("REJECTED ".to_string()));
    let t: Result<String, &'static str> = TransportType::EMAIL_LINK.try_into();
    assert_eq!(t, Ok("EMAIL_LINK".to_string()));
    let k: Result<String, &'static str> = InvitationType::VERIFY_TOKEN.try_into();
    assert_eq!(k, Ok("VERIFY_TOKEN".to_string()));
}

#[test]
fn account_url_for_subject() {
    assert_eq!(
        account_url("http://localhost:8001/searchapi/accounts", "jane@example.com"),
        "http://localhost:8001/searchapi/accounts/jane@example.com?truncateResponse=false"
    );
}

#[test]
fn lookup_outcomes_map_to_status_and_envelope() {
    let (status, body) = from_lookup::<u32>(Ok(7), EMAIL_NOT_FOUND);
    assert_eq!(status, 200);
    assert_eq!(body.data, Some(7));
    assert_eq!(body.err, None);
    let (status, body) = from_lookup::<u32>(Err(UpstreamError::Decode), DOMAIN_NOT_FOUND);
    assert_eq!(status, 404);
    assert_eq!(body.data, None);
    assert_eq!(body.err, Some("No data found. Your wasn't domain hasn't been found in the darkweb."));
    let (status, body) = from_lookup::<u32>(Err(UpstreamError::Transport), EMAIL_NOT_FOUND);
    assert_eq!(status, 404);
    assert_eq!(body.err, Some("Your email wasn't found in the darkweb or any hacked lists."));
}
