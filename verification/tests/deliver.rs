//! MX ordering, domain planning and outcome classification.

use vsmtp_delivery::config::Certificate;
use vsmtp_delivery::deliver::{
    order_mx_records, plan_domain, DeliveryPlan, MxRecord, SendEvent, SMTP_PORT,
};
use vsmtp_delivery::delivery::{filter_dispatchable, group_by_domain};
use vsmtp_delivery::transfer::{
    Address, EmailTransferStatus, Rcpt, Transfer, TransferError,
};

fn mx(exchange: &str, preference: u16) -> MxRecord {
    MxRecord { exchange: exchange.to_string(), preference }
}

fn rcpt(local: &str, domain: &str) -> Rcpt {
    Rcpt::new(Address::new(local.to_string(), domain.to_string()))
}

fn one_cert() -> Vec<Certificate> {
    Vec::new()
}

#[test]
fn sort_orders_by_preference_and_keeps_ties_stable() {
    let records = vec![
        mx("c.example", 20),
        mx("a.example", 10),
        mx("b.example", 10),
        mx("d.example", 5),
    ];
    let sorted = order_mx_records(records);
    let names: Vec<&str> = sorted.iter().map(|m| m.exchange.as_str()).collect();
    // d first (preference 5), then a before b (tie at 10, resolver order), then c.
    assert_eq!(names, vec!["d.example", "a.example", "b.example", "c.example"]);
}

#[test]
fn sort_of_empty_and_single() {
    let sorted = order_mx_records(Vec::new());
    assert_eq!(sorted.len(), 0);
    let sorted = order_mx_records(vec![mx("only.example", 7)]);
    assert_eq!(sorted.len(), 1);
    assert_eq!(sorted[0].exchange, "only.example");
    assert_eq!(sorted[0].preference, 7);
}

#[test]
fn resolution_error_plans_a_dns_failure() {
    let plan = plan_domain(
        &"foo.bar".to_string(),
        &"testserver.com".to_string(),
        Some(one_cert()),
        Err("no record found".to_string()),
    );
    match plan {
        DeliveryPlan::Fail { error: TransferError::DnsRecord { error } } => {
            assert_eq!(error, "no record found");
        }
        other => panic!("expected a DNS failure, got {:?}", other),
    }
}

#[test]
fn empty_mx_set_plans_exactly_one_direct_attempt() {
    let plan = plan_domain(
        &"foo.bar".to_string(),
        &"testserver.com".to_string(),
        Some(one_cert()),
        Ok(Vec::new()),
    );
    match plan {
        DeliveryPlan::Direct { params } => {
            assert_eq!(params.relay_target, "foo.bar");
            assert_eq!(params.server_name, "foo.bar");
            assert_eq!(params.hello_name, "testserver.com");
            assert_eq!(params.port, SMTP_PORT);
            assert_eq!(params.pool_idle_timeout_secs, 60);
            assert_eq!(params.pool_max_size, 3);
            assert_eq!(params.pool_min_idle, 1);
        }
        other => panic!("expected one direct attempt, got {:?}", other),
    }
}

#[test]
fn null_mx_plans_a_permanent_refusal() {
    let plan = plan_domain(
        &"foo.bar".to_string(),
        &"testserver.com".to_string(),
        Some(one_cert()),
        Ok(vec![mx(".", 0)]),
    );
    match plan {
        DeliveryPlan::Fail { error } => {
            assert!(error.is_permanent());
            match error {
                TransferError::HasNullMX { domain } => assert_eq!(domain, "foo.bar"),
                other => panic!("expected the null-MX error, got {:?}", other),
            }
        }
        other => panic!("expected a failed plan, got {:?}", other),
    }
}

#[test]
fn null_mx_after_real_exchanges_cuts_the_attempt_list() {
    let plan = plan_domain(
        &"foo.bar".to_string(),
        &"testserver.com".to_string(),
        Some(one_cert()),
        Ok(vec![mx(".", 50), mx("mx1.foo.bar", 10), mx("mx2.foo.bar", 20)]),
    );
    match plan {
        DeliveryPlan::Relay { attempts, targets, domain, null_mx } => {
            assert_eq!(domain, "foo.bar");
            assert!(null_mx);
            assert_eq!(attempts.len(), 2);
            assert_eq!(attempts[0].relay_target, "mx1.foo.bar");
            assert_eq!(attempts[1].relay_target, "mx2.foo.bar");
            assert_eq!(attempts[0].server_name, "foo.bar");
            let names: Vec<&str> = targets.iter().map(|t| t.as_str()).collect();
            assert_eq!(names, vec!["mx1.foo.bar", "mx2.foo.bar", "."]);
        }
        other => panic!("expected a relay plan, got {:?}", other),
    }
}

#[test]
fn missing_certificate_fails_the_plan() {
    let plan = plan_domain(
        &"foo.bar".to_string(),
        &"testserver.com".to_string(),
        None,
        Ok(vec![mx("mx1.foo.bar", 10)]),
    );
    match plan {
        DeliveryPlan::Fail { error: TransferError::TlsNoCertificate } => {}
        other => panic!("expected the missing-certificate error, got {:?}", other),
    }
}

#[test]
fn first_success_stops_and_marks_all_sent() {
    let plan = plan_domain(
        &"foo.bar".to_string(),
        &"testserver.com".to_string(),
        Some(one_cert()),
        Ok(vec![mx("mx1.foo.bar", 10), mx("mx2.foo.bar", 20)]),
    );
    let events = vec![
        SendEvent::Refused { error: "connection refused".to_string() },
        SendEvent::Delivered,
    ];
    let group = vec![rcpt("a", "foo.bar"), rcpt("b", "foo.bar")];
    let updated = vsmtp_delivery::deliver::deliver_one_domain(group, &plan, &events, 1000);
    assert_eq!(updated.len(), 2);
    for r in &updated {
        assert!(matches!(r.email_status, EmailTransferStatus::Sent));
    }
}

#[test]
fn exhausted_attempts_hold_back_with_every_target_named() {
    let plan = plan_domain(
        &"foo.bar".to_string(),
        &"testserver.com".to_string(),
        Some(one_cert()),
        Ok(vec![mx("mx1.foo.bar", 10), mx("mx2.foo.bar", 20)]),
    );
    let events = vec![
        SendEvent::Refused { error: "timed out".to_string() },
        SendEvent::Refused { error: "timed out".to_string() },
    ];
    let group = vec![rcpt("a", "foo.bar")];
    let updated = vsmtp_delivery::deliver::deliver_one_domain(group, &plan, &events, 1000);
    match &updated[0].email_status {
        EmailTransferStatus::HeldBack { errors } => {
            assert_eq!(errors.len(), 1);
            assert_eq!(errors[0].timestamp, 1000);
            match &errors[0].variant {
                TransferError::DeliveryError { targets } => {
                    assert_eq!(targets, &vec!["mx1.foo.bar".to_string(), "mx2.foo.bar".to_string()]);
                }
                other => panic!("expected the exhausted error, got {:?}", other),
            }
        }
        other => panic!("expected a held-back status, got {:?}", other),
    }
}

#[test]
fn refused_direct_attempt_is_a_transient_smtp_error() {
    // The RFC 5321 fallback: no MX records, one direct attempt; its
    // refusal is recorded as a transient SMTP failure.
    let plan = plan_domain(
        &"foo.bar".to_string(),
        &"testserver.com".to_string(),
        Some(one_cert()),
        Ok(Vec::new()),
    );
    let events = vec![SendEvent::Refused { error: "connection refused".to_string() }];
    let group = vec![rcpt("a", "foo.bar")];
    let updated = vsmtp_delivery::deliver::deliver_one_domain(group, &plan, &events, 7);
    match &updated[0].email_status {
        EmailTransferStatus::HeldBack { errors } => {
            assert_eq!(
                errors[0].variant,
                TransferError::Smtp { error: "connection refused".to_string() }
            );
        }
        other => panic!("expected a held-back status, got {:?}", other),
    }
}

#[test]
fn null_mx_marks_every_recipient_failed() {
    let plan = plan_domain(
        &"foo.bar".to_string(),
        &"testserver.com".to_string(),
        Some(one_cert()),
        Ok(vec![mx(".", 0)]),
    );
    let group = vec![rcpt("a", "foo.bar"), rcpt("b", "foo.bar")];
    let updated = vsmtp_delivery::deliver::deliver_one_domain(group, &plan, &Vec::new(), 1000);
    for r in &updated {
        match &r.email_status {
            EmailTransferStatus::Failed { error: TransferError::HasNullMX { domain } } => {
                assert_eq!(domain, "foo.bar");
            }
            other => panic!("expected a permanent failure, got {:?}", other),
        }
    }
}

#[test]
fn test_delivery() {
    // One recipient of an unresolvable domain: the pass records the DNS
    // failure in its held-back history and the message is deferred.
    let group = vec![rcpt("root", "foo.bar")];
    let resolver_error = "no record found for Query { name: Name(\"foo.bar.\"), query_type: MX, query_class: IN }";
    let plan = plan_domain(
        &"foo.bar".to_string(),
        &"testserver.com".to_string(),
        Some(one_cert()),
        Err(resolver_error.to_string()),
    );
    let updated = vsmtp_delivery::deliver::deliver_one_domain(group, &plan, &Vec::new(), 0);
    match &updated.first().unwrap().email_status {
        EmailTransferStatus::HeldBack { errors } => {
            assert_eq!(
                errors.first().unwrap().variant,
                TransferError::DnsRecord { error: resolver_error.to_string() }
            );
        }
        _ => panic!(),
    }

    // The message ends up in the deferred queue.
    let mut queues = vsmtp_delivery::queue::MessageQueues::new();
    let ctx = vsmtp_delivery::context::MailContext {
        server_name: "testserver.com".to_string(),
        client_helo: "localhost".to_string(),
        mail_from: Some(Address::new("root".to_string(), "foo.bar".to_string())),
        message_id: "test_message_id".to_string(),
        message_uuid: 21,
        timestamp: 0,
        forward_paths: Vec::new(),
    };
    let body = vsmtp_delivery::context::MessageBody::new("email content".to_string());
    queues.write_both(vsmtp_delivery::queue::QueueID::Deliver, ctx, body);
    let outcome = vsmtp_delivery::deferred::move_to_queue(
        &mut queues,
        vsmtp_delivery::queue::QueueID::Deliver,
        21,
        updated,
    );
    assert_eq!(outcome, vsmtp_delivery::deferred::SenderOutcome::MoveToDeferred);
    assert!(queues.get_ctx(vsmtp_delivery::queue::QueueID::Deferred, 21).is_some());
}

#[test]
fn grouping_splits_by_domain_and_keeps_order() {
    let to = vec![
        rcpt("a", "one.example"),
        rcpt("b", "two.example"),
        rcpt("c", "one.example"),
    ];
    let groups = group_by_domain(to);
    assert_eq!(groups.len(), 2);
    assert_eq!(groups[0].domain, "one.example");
    assert_eq!(groups[0].rcpt.len(), 2);
    assert_eq!(groups[0].rcpt[0].address.local_part, "a");
    assert_eq!(groups[0].rcpt[1].address.local_part, "c");
    assert_eq!(groups[1].domain, "two.example");
    assert_eq!(groups[1].rcpt.len(), 1);
    assert_eq!(groups[1].rcpt[0].address.local_part, "b");
}

#[test]
fn dispatch_excludes_sent_and_transportless_recipients() {
    let mut sent = rcpt("s", "x.example");
    sent.email_status = EmailTransferStatus::Sent;
    let mut none = rcpt("n", "x.example");
    none.transfer_method = Transfer::NoTransport;
    let fresh = rcpt("f", "x.example");
    let (dispatch, excluded) = filter_dispatchable(vec![sent, none, fresh]);
    assert_eq!(dispatch.len(), 1);
    assert_eq!(dispatch[0].address.local_part, "f");
    assert_eq!(excluded.len(), 2);
    assert_eq!(excluded[0].address.local_part, "s");
    assert_eq!(excluded[1].address.local_part, "n");
}
