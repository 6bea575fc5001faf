//! Configuration defaults, certificate selection, trace stamps, and local
//! maildir delivery bookkeeping.

use vsmtp_delivery::config::{
    get_cert_for_server, Certificate, Config, FieldApp, FieldAppLogs, FieldQueueDelivery,
    FieldQueueWorking, FieldServer, FieldServerInterfaces, FieldServerLogs, FieldServerQueues,
    FieldServerSMTP, FieldServerSMTPAuth, FieldServerSystemThreadPool, FieldServerTls,
    FieldServerVirtual, Mechanism, ResolverOptsWrapper,
};
use vsmtp_delivery::context::{MailContext, MessageBody};
use vsmtp_delivery::delivery::{
    add_trace_information, create_received_stamp, create_vsmtp_status_stamp, Status,
};
use vsmtp_delivery::maildir::{
    maildir_message_path, maildir_new_dir, maildir_root, LocalDeliveryResult, Maildir,
};
use vsmtp_delivery::transfer::{Address, EmailTransferStatus, Rcpt, Transfer, TransferError};

#[test]
fn documented_defaults() {
    assert_eq!(FieldServer::default_client_count_max(), 16);
    assert_eq!(FieldServer::default_message_size_limit(), 10_000_000);
    assert_eq!(FieldServerSystemThreadPool::default_receiver(), 6);
    assert_eq!(FieldServerSystemThreadPool::default_processing(), 6);
    assert_eq!(FieldServerSystemThreadPool::default_delivery(), 6);
    assert_eq!(FieldServerLogs::default_filename(), "/var/log/vsmtp/vsmtp.log");
    assert_eq!(FieldServerTls::default_handshake_timeout(), 1);
    assert_eq!(FieldServerQueues::default_dirpath(), "/var/spool/vsmtp");
    assert_eq!(FieldQueueWorking::default_channel_size(), 32);
    assert_eq!(FieldQueueDelivery::default_channel_size(), 32);
    assert_eq!(FieldQueueDelivery::default_deferred_retry_max(), 100);
    assert_eq!(FieldQueueDelivery::default_deferred_retry_period(), 300);
    assert!(!FieldServerSMTPAuth::default_enable_dangerous_mechanism_in_clair());
    assert_eq!(FieldServerSMTPAuth::default_attempt_count_max(), -1);
    assert_eq!(
        FieldServerSMTPAuth::default_mechanisms(),
        vec![Mechanism::Plain, Mechanism::Login, Mechanism::CramMd5]
    );
    assert_eq!(FieldServerSMTP::default_rcpt_count_max(), 1000);
    assert_eq!(ResolverOptsWrapper::default_timeout(), 5);
    assert_eq!(ResolverOptsWrapper::default_attempts(), 2);
    assert!(!ResolverOptsWrapper::default_rotate());
    assert!(!ResolverOptsWrapper::default_dnssec());
    assert_eq!(ResolverOptsWrapper::default_cache_size(), 32);
    assert!(ResolverOptsWrapper::default_use_hosts_file());
    assert_eq!(ResolverOptsWrapper::default_num_concurrent_reqs(), 2);
    assert_eq!(FieldApp::default_dirpath(), "/var/spool/vsmtp/app");
    assert_eq!(FieldAppLogs::default_filename(), "/var/log/vsmtp/app.log");
    let interfaces = FieldServerInterfaces::ipv4_localhost();
    assert_eq!(interfaces.addr, vec!["127.0.0.1:25"]);
    assert_eq!(interfaces.addr_submission, vec!["127.0.0.1:587"]);
    assert_eq!(interfaces.addr_submissions, vec!["127.0.0.1:465"]);
}

#[test]
fn builder_assembles_a_config() {
    let config = Config::builder()
        .with_server_name("testserver.com".to_string())
        .with_tls_certificate(vec![Certificate { der: vec![1, 2] }])
        .build();
    assert_eq!(config.server.name, "testserver.com");
    assert_eq!(config.server.queues.dirpath, "/var/spool/vsmtp");
    assert_eq!(config.server.queues.delivery.deferred_retry_max, 100);
    assert_eq!(config.server.queues.delivery.deferred_retry_period_secs, 300);
    let tls = config.server.tls.as_ref().unwrap();
    assert_eq!(tls.certificate.len(), 1);
    assert_eq!(tls.certificate[0].der, vec![1, 2]);
}

#[test]
fn certificates_follow_the_server_identity() {
    let config = Config::builder()
        .with_server_name("testserver.com".to_string())
        .with_tls_certificate(vec![Certificate { der: vec![1] }])
        .with_virtual_domain(
            "hosted.example".to_string(),
            FieldServerVirtual { tls_certificate: Some(vec![Certificate { der: vec![2] }]) },
        )
        .with_virtual_domain(
            "bare.example".to_string(),
            FieldServerVirtual { tls_certificate: None },
        )
        .build();

    // A virtual domain with its own chain presents it.
    let hosted = get_cert_for_server(&"hosted.example".to_string(), &config).unwrap();
    assert_eq!(hosted.len(), 1);
    assert_eq!(hosted[0].der, vec![2]);

    // A virtual domain without one falls back to the root chain.
    let bare = get_cert_for_server(&"bare.example".to_string(), &config).unwrap();
    assert_eq!(bare[0].der, vec![1]);

    // An unknown identity falls back to the root chain too.
    let other = get_cert_for_server(&"testserver.com".to_string(), &config).unwrap();
    assert_eq!(other[0].der, vec![1]);

    // Without any root chain there is nothing to present.
    let bare_config = Config::builder().build();
    assert!(get_cert_for_server(&"x".to_string(), &bare_config).is_none());
}

#[test]
fn received_stamp_formats_the_epoch() {
    let stamp = create_received_stamp("localhost", "testserver.com", "test_message_id", 0);
    assert_eq!(
        stamp,
        "from localhost\n\tby testserver.com\n\twith SMTP\n\tid test_message_id;\n\tThu, 01 Jan 1970 00:00:00 +0000"
    );
}

#[test]
fn status_stamp_formats_the_decision() {
    let stamp = create_vsmtp_status_stamp("test_message_id", "1.0.0", &Status::Next);
    assert_eq!(stamp, "id='test_message_id'\n\tversion='1.0.0'\n\tstatus='next'");
}

#[test]
fn test_add_trace_information() {
    let config = Config::builder().with_server_name("testserver.com".to_string()).build();
    let ctx = MailContext {
        server_name: "testserver.com".to_string(),
        client_helo: "localhost".to_string(),
        mail_from: Some(Address::new("a".to_string(), "a.a".to_string())),
        message_id: "test_message_id".to_string(),
        message_uuid: 1,
        timestamp: 0,
        forward_paths: Vec::new(),
    };
    let mut message = MessageBody::new(String::new());
    add_trace_information(&config, &ctx, &mut message, "1.0.0", &Status::Next);

    assert_eq!(
        message.headers,
        vec![
            [
                "Received: from localhost\n".to_string(),
                "\tby testserver.com\n".to_string(),
                "\twith SMTP\n".to_string(),
                "\tid test_message_id;\n".to_string(),
                "\tThu, 01 Jan 1970 00:00:00 +0000".to_string(),
            ]
            .concat(),
            [
                "X-VSMTP: id='test_message_id'\n".to_string(),
                "\tversion='1.0.0'\n".to_string(),
                "\tstatus='next'".to_string(),
            ]
            .concat(),
        ]
    );
}

#[test]
fn test_maildir_path() {
    assert_eq!(maildir_root("/home/test_user"), "/home/test_user/Maildir");
    assert_eq!(maildir_new_dir("/home/test_user"), "/home/test_user/Maildir/new");
    assert_eq!(
        maildir_message_path("/home/test_user", "test_message"),
        "/home/test_user/Maildir/new/test_message.eml"
    );
}

#[test]
fn maildir_marks_writes_and_holds_back_failures() {
    let to = vec![
        Rcpt::new(Address::new("ok".to_string(), "localhost".to_string())),
        Rcpt::new(Address::new("ghost".to_string(), "localhost".to_string())),
        Rcpt::new(Address::new("full".to_string(), "localhost".to_string())),
    ];
    let results = vec![
        LocalDeliveryResult::Delivered,
        LocalDeliveryResult::NoSuchUser,
        LocalDeliveryResult::WriteFailed { error: "disk full".to_string() },
    ];
    let updated = Maildir.deliver(to, &results, 42);

    assert!(matches!(updated[0].email_status, EmailTransferStatus::Sent));
    match &updated[1].email_status {
        EmailTransferStatus::HeldBack { errors } => {
            assert_eq!(errors.len(), 1);
            assert_eq!(errors[0].timestamp, 42);
            assert_eq!(
                errors[0].variant,
                TransferError::LocalDelivery { error: "no such user".to_string() }
            );
        }
        _ => panic!(),
    }
    match &updated[2].email_status {
        EmailTransferStatus::HeldBack { errors } => {
            assert_eq!(
                errors[0].variant,
                TransferError::LocalDelivery { error: "disk full".to_string() }
            );
        }
        _ => panic!(),
    }
    // The transfer method is untouched.
    assert!(matches!(updated[1].transfer_method, Transfer::Deliver));
}
