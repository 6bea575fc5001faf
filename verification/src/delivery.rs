//! The per-message delivery pass: selecting a transport for each
//! recipient's transfer method, excluding what must not be dispatched,
//! grouping relay recipients by destination domain, and the trace headers
//! prepended before sending.

use vstd::prelude::*;

use crate::config::Config;
use crate::context::{headers_view, MailContext, MessageBody};
use crate::transfer::{rcpts_view, Rcpt, RcptV, Transfer, TransferV, ForwardTargetV};

verus! {

/// What the rule engine decided for a message; stamped into the trace
/// headers.
#[derive(Debug, Clone, Copy, PartialEq, Eq, Structural)]
pub enum Status {
    Next,
    Accept,
    Faccept,
    Deny,
    Quarantine,
}

/// The lower-case name of a rule engine status.
pub open spec fn status_str_v(s: Status) -> Seq<char> {
    match s {
        Status::Next => "next"@,
        Status::Accept => "accept"@,
        Status::Faccept => "faccept"@,
        Status::Deny => "deny"@,
        Status::Quarantine => "quarantine"@,
    }
}

impl Status {
    /// The lower-case name of this status.
    pub fn as_str(&self) -> (r: &str)
        ensures
            r@ == status_str_v(*self),
    {
        match self {
            Status::Next => "next",
            Status::Accept => "accept",
            Status::Faccept => "faccept",
            Status::Deny => "deny",
            Status::Quarantine => "quarantine",
        }
    }
}

/// The RFC 2822 date-and-time text of a Unix timestamp; a pure function of
/// the timestamp.
pub uninterp spec fn rfc2822_of(ts: int) -> Seq<char>;

/// Relies on the time crate: `OffsetDateTime::from_unix_timestamp` and RFC
/// 2822 formatting, which depend on the timestamp alone.  The bound keeps
/// the year within 1970 to 9999, where both calls are documented to
/// succeed.
#[verifier::external_body]
fn format_rfc2822(ts: i64) -> (r: String)
    requires
        0 <= ts < 253402300800i64,
    ensures
        r@ == rfc2822_of(ts as int),
{
    let odt = time::OffsetDateTime::from_unix_timestamp(ts).unwrap();
    odt.format(&time::format_description::well_known::Rfc2822).unwrap()
}

/// The `Received` trace stamp of RFC 5321 section 4.4: who greeted, which
/// server accepted, the message identifier, and the date of receipt.
pub open spec fn received_stamp_v(
    client_helo: Seq<char>,
    server_domain: Seq<char>,
    message_id: Seq<char>,
    ts: int,
) -> Seq<char> {
    "from "@ + client_helo + "\n\tby "@ + server_domain + "\n\twith SMTP\n\tid "@ + message_id
        + ";\n\t"@ + rfc2822_of(ts)
}

/// Build the `Received` trace stamp.
pub fn create_received_stamp(
    client_helo: &str,
    server_domain: &str,
    message_id: &str,
    received_timestamp: i64,
) -> (r: String)
    requires
        0 <= received_timestamp < 253402300800i64,
    ensures
        r@ == received_stamp_v(
            client_helo@,
            server_domain@,
            message_id@,
            received_timestamp as int,
        ),
{
    let mut s = String::from_str("from ");
    s.append(client_helo);
    s.append("\n\tby ");
    s.append(server_domain);
    s.append("\n\twith SMTP\n\tid ");
    s.append(message_id);
    s.append(";\n\t");
    let date = format_rfc2822(received_timestamp);
    s.append(date.as_str());
    proof {
        assert(s@ =~= received_stamp_v(
            client_helo@,
            server_domain@,
            message_id@,
            received_timestamp as int,
        ));
    }
    s
}

/// The engine's own trace stamp: message identifier, server version, and
/// the rule engine's decision.
pub open spec fn status_stamp_v(
    message_id: Seq<char>,
    version: Seq<char>,
    status: Status,
) -> Seq<char> {
    "id='"@ + message_id + "'\n\tversion='"@ + version + "'\n\tstatus='"@ + status_str_v(status)
        + "'"@
}

/// Build the engine's own trace stamp.
pub fn create_vsmtp_status_stamp(message_id: &str, version: &str, status: &Status) -> (r: String)
    ensures
        r@ == status_stamp_v(message_id@, version@, *status),
{
    let mut s = String::from_str("id='");
    s.append(message_id);
    s.append("'\n\tversion='");
    s.append(version);
    s.append("'\n\tstatus='");
    s.append(status.as_str());
    s.append("'");
    proof {
        assert(s@ =~= status_stamp_v(message_id@, version@, *status));
    }
    s
}

/// Prepend the two trace headers to the message: the engine's own stamp,
/// then the `Received` stamp above it.
pub fn add_trace_information(
    config: &Config,
    ctx: &MailContext,
    message: &mut MessageBody,
    version: &str,
    rule_engine_result: &Status,
)
    requires
        0 <= ctx.timestamp < 253402300800i64,
    ensures
        headers_view(final(message).headers@) == seq![
            "Received"@ + ": "@ + received_stamp_v(
                ctx.client_helo@,
                config.server.name@,
                ctx.message_id@,
                ctx.timestamp as int,
            ),
            "X-VSMTP"@ + ": "@ + status_stamp_v(ctx.message_id@, version@, *rule_engine_result),
        ] + headers_view(old(message).headers@),
        final(message).body == old(message).body,
{
    let stamp = create_received_stamp(
        ctx.client_helo.as_str(),
        config.server.name.as_str(),
        ctx.message_id.as_str(),
        ctx.timestamp,
    );
    let vsmtp_status = create_vsmtp_status_stamp(
        ctx.message_id.as_str(),
        version,
        rule_engine_result,
    );
    message.add_header("X-VSMTP", vsmtp_status.as_str());
    message.add_header("Received", stamp.as_str());
    proof {
        assert(headers_view(message.headers@) =~= seq![
            "Received"@ + ": "@ + received_stamp_v(
                ctx.client_helo@,
                config.server.name@,
                ctx.message_id@,
                ctx.timestamp as int,
            ),
            "X-VSMTP"@ + ": "@ + status_stamp_v(ctx.message_id@, version@, *rule_engine_result),
        ] + headers_view(old(message).headers@));
    }
}

/// The delivery strategy selected for one recipient.
#[derive(Debug, Clone)]
pub enum TransportKind {
    /// Resolve this domain's MX records and relay.
    RelayMx { domain: String },
    /// Connect directly to this host or socket, no resolution.
    Direct { target: String },
    /// Append to the local mailbox file.
    LocalMbox,
    /// Write into the local maildir.
    LocalMaildir,
    /// No transport: the recipient is excluded from delivery.
    Excluded,
}

/// Ghost image of a [`TransportKind`].
pub ghost enum TransportKindV {
    RelayMx { domain: Seq<char> },
    Direct { target: Seq<char> },
    LocalMbox,
    LocalMaildir,
    Excluded,
}

impl View for TransportKind {
    type V = TransportKindV;

    open spec fn view(&self) -> TransportKindV {
        match self {
            TransportKind::RelayMx { domain } => TransportKindV::RelayMx { domain: domain@ },
            TransportKind::Direct { target } => TransportKindV::Direct { target: target@ },
            TransportKind::LocalMbox => TransportKindV::LocalMbox,
            TransportKind::LocalMaildir => TransportKindV::LocalMaildir,
            TransportKind::Excluded => TransportKindV::Excluded,
        }
    }
}

/// Which strategy each transfer method selects: relay by the recipient's
/// own domain, relay by a forwarded domain, a direct connection for a
/// forwarded address, one of the two local formats, or exclusion.
pub open spec fn transport_for_v(r: RcptV) -> TransportKindV {
    match r.transfer_method {
        TransferV::Deliver => TransportKindV::RelayMx { domain: r.address.domain },
        TransferV::Forward(t) => match t {
            ForwardTargetV::Domain(d) => TransportKindV::RelayMx { domain: d },
            ForwardTargetV::Ip(i) => TransportKindV::Direct { target: i },
            ForwardTargetV::Socket(s) => TransportKindV::Direct { target: s },
        },
        TransferV::Mbox => TransportKindV::LocalMbox,
        TransferV::Maildir => TransportKindV::LocalMaildir,
        TransferV::NoTransport => TransportKindV::Excluded,
    }
}

/// Select the delivery strategy for one recipient.
pub fn transport_for(r: &Rcpt) -> (t: TransportKind)
    ensures
        t@ == transport_for_v(r@),
{
    match &r.transfer_method {
        Transfer::Deliver => TransportKind::RelayMx { domain: r.address.domain.clone() },
        Transfer::Forward(target) => match target {
            crate::transfer::ForwardTarget::Domain(d) => TransportKind::RelayMx {
                domain: d.clone(),
            },
            crate::transfer::ForwardTarget::Ip(i) => TransportKind::Direct { target: i.clone() },
            crate::transfer::ForwardTarget::Socket(s) => TransportKind::Direct {
                target: s.clone(),
            },
        },
        Transfer::Mbox => TransportKind::LocalMbox,
        Transfer::Maildir => TransportKind::LocalMaildir,
        Transfer::NoTransport => TransportKind::Excluded,
    }
}

/// Whether a recipient takes part in a delivery pass: already-sent
/// recipients are never re-sent, and recipients without a transport are
/// never dispatched.
pub open spec fn dispatchable(r: RcptV) -> bool {
    !(r.email_status is Sent) && !(r.transfer_method is NoTransport)
}

/// Split the recipients into those to dispatch and those excluded from
/// transport, keeping order.
pub fn filter_dispatchable(to: Vec<Rcpt>) -> (r: (Vec<Rcpt>, Vec<Rcpt>))
    ensures
        rcpts_view(r.0@) == rcpts_view(to@).filter(|x: RcptV| dispatchable(x)),
        rcpts_view(r.1@) == rcpts_view(to@).filter(|x: RcptV| !dispatchable(x)),
{
    let ghost all = rcpts_view(to@);
    let mut rest = to;
    let mut dispatch: Vec<Rcpt> = Vec::new();
    let mut excluded: Vec<Rcpt> = Vec::new();
    let ghost done: int = 0;
    proof {
        assert(all.take(0) =~= Seq::<RcptV>::empty());
        reveal_with_fuel(Seq::filter, 1);
        assert(rcpts_view(dispatch@) =~= all.take(0).filter(|x: RcptV| dispatchable(x)));
        assert(rcpts_view(excluded@) =~= all.take(0).filter(|x: RcptV| !dispatchable(x)));
        assert(rcpts_view(rest@) =~= all.skip(0));
    }
    while rest.len() > 0
        invariant
            0 <= done <= all.len(),
            rcpts_view(rest@) == all.skip(done),
            rest@.len() == all.len() - done,
            rcpts_view(dispatch@) == all.take(done).filter(|x: RcptV| dispatchable(x)),
            rcpts_view(excluded@) == all.take(done).filter(|x: RcptV| !dispatchable(x)),
        decreases rest.len(),
    {
        let ghost rest0 = rest@;
        let r = rest.remove(0);
        proof {
            assert(rcpts_view(rest0)[0] == rest0[0]@);
            assert(r@ == all[done]);
            assert(rest@ =~= rest0.drop_first());
            assert forall|x: int| 0 <= x < rest@.len() implies rcpts_view(rest@)[x] == all.skip(
                done + 1,
            )[x] by {
                assert(rcpts_view(rest@)[x] == rest@[x]@);
                assert(rest@[x] == rest0[x + 1]);
                assert(rcpts_view(rest0)[x + 1] == rest0[x + 1]@);
                assert(rcpts_view(rest0)[x + 1] == all.skip(done)[x + 1]);
            }
            assert(rcpts_view(rest@) =~= all.skip(done + 1));
            assert(all.take(done + 1).drop_last() =~= all.take(done));
            assert(all.take(done + 1).last() == all[done]);
        }
        let is_sent = matches!(&r.email_status, crate::transfer::EmailTransferStatus::Sent);
        let no_transport = matches!(&r.transfer_method, Transfer::NoTransport);
        let ghost pre_d = dispatch@;
        let ghost pre_e = excluded@;
        proof {
            assert(all.take(done + 1) =~= all.take(done).push(all[done]));
            lemma_filter_push(all.take(done), all[done], |x: RcptV| dispatchable(x));
            lemma_filter_push(all.take(done), all[done], |x: RcptV| !dispatchable(x));
        }
        if !is_sent && !no_transport {
            dispatch.push(r);
            proof {
                assert(dispatchable(all[done]));
                assert(rcpts_view(dispatch@) =~= rcpts_view(pre_d).push(all[done]));
            }
        } else {
            excluded.push(r);
            proof {
                assert(!dispatchable(all[done]));
                assert(rcpts_view(excluded@) =~= rcpts_view(pre_e).push(all[done]));
            }
        }
        proof {
            done = done + 1;
        }
    }
    proof {
        assert(done == all.len());
        assert(all.take(done) =~= all);
    }
    (dispatch, excluded)
}

/// The recipients of a list that take part in a delivery pass.
pub open spec fn dispatch_set(s: Seq<RcptV>) -> Seq<RcptV> {
    s.filter(|x: RcptV| dispatchable(x))
}

/// A recipient never regresses from `Sent`: whatever a recipient list
/// holds, its dispatch set holds no recipient already sent, so no further
/// pass ever touches one.
pub proof fn lemma_sent_never_redispatched(s: Seq<RcptV>)
    ensures
        forall|i: int|
            0 <= i < dispatch_set(s).len() ==> !((#[trigger] dispatch_set(s)[i]).email_status
                is Sent),
{
    let p = |x: RcptV| dispatchable(x);
    assert forall|i: int|
        0 <= i < dispatch_set(s).len() implies !((#[trigger] dispatch_set(s)[i]).email_status
        is Sent) by {
        s.lemma_filter_pred(p, i);
    }
}

/// A filter keeps nothing when nothing satisfies the predicate.
proof fn lemma_filter_none(s: Seq<RcptV>, p: spec_fn(RcptV) -> bool)
    requires
        forall|i: int| 0 <= i < s.len() ==> !p(s[i]),
    ensures
        s.filter(p) == Seq::<RcptV>::empty(),
    decreases s.len(),
{
    reveal(Seq::filter);
    if s.len() == 0 {
        assert(s.filter(p) =~= Seq::<RcptV>::empty());
    } else {
        lemma_filter_none(s.drop_last(), p);
        assert(!p(s.last()));
        assert(s.filter(p) == s.drop_last().filter(p));
    }
}

/// One step of a filter: the last element is kept exactly when it
/// satisfies the predicate.
proof fn lemma_filter_push(s: Seq<RcptV>, x: RcptV, p: spec_fn(RcptV) -> bool)
    ensures
        s.push(x).filter(p) == if p(x) {
            s.filter(p).push(x)
        } else {
            s.filter(p)
        },
{
    reveal(Seq::filter);
    assert(s.push(x).drop_last() =~= s);
    assert(s.push(x).last() == x);
}

/// One destination domain's share of a message: the relay recipients whose
/// strategy resolves this domain.
#[derive(Debug)]
pub struct DomainGroup {
    pub domain: String,
    pub rcpt: Vec<Rcpt>,
}

/// Whether some group carries the domain of the `i`-th recipient.
pub open spec fn domain_covered(to: Seq<RcptV>, groups: Seq<DomainGroup>, i: int) -> bool {
    exists|g: int| 0 <= g < groups.len() && to[i].address.domain == #[trigger] groups[g].domain@
}

/// Group recipients by the domain of their address, keeping each group in
/// input order: a group holds exactly the recipients of its domain, and no
/// two groups share a domain.
pub fn group_by_domain(to: Vec<Rcpt>) -> (groups: Vec<DomainGroup>)
    ensures
        forall|g: int|
            0 <= g < groups@.len() ==> rcpts_view(#[trigger] groups@[g].rcpt@) == rcpts_view(
                to@,
            ).filter(|x: RcptV| x.address.domain == groups@[g].domain@),
        forall|g1: int, g2: int|
            0 <= g1 < g2 < groups@.len() ==> groups@[g1].domain@ != groups@[g2].domain@,
        forall|i: int| 0 <= i < to@.len() ==> #[trigger] domain_covered(
            rcpts_view(to@),
            groups@,
            i,
        ),
{
    let ghost all = rcpts_view(to@);
    let mut rest = to;
    let mut groups: Vec<DomainGroup> = Vec::new();
    let ghost done: int = 0;
    proof {
        assert(rcpts_view(rest@) =~= all.skip(0));
        assert(all.take(0) =~= Seq::<RcptV>::empty());
        reveal_with_fuel(Seq::filter, 1);
    }
    while rest.len() > 0
        invariant
            0 <= done <= all.len(),
            rcpts_view(rest@) == all.skip(done),
            rest@.len() == all.len() - done,
            forall|g: int|
                0 <= g < groups@.len() ==> rcpts_view(#[trigger] groups@[g].rcpt@) == all.take(
                    done,
                ).filter(|x: RcptV| x.address.domain == groups@[g].domain@),
            forall|g1: int, g2: int|
                0 <= g1 < g2 < groups@.len() ==> groups@[g1].domain@ != groups@[g2].domain@,
            forall|i: int| 0 <= i < done ==> #[trigger] domain_covered(all, groups@, i),
        decreases rest.len(),
    {
        let ghost rest0 = rest@;
        let r = rest.remove(0);
        proof {
            assert(rcpts_view(rest0)[0] == rest0[0]@);
            assert(r@ == all[done]);
            assert(rest@ =~= rest0.drop_first());
            assert forall|x: int| 0 <= x < rest@.len() implies rcpts_view(rest@)[x] == all.skip(
                done + 1,
            )[x] by {
                assert(rcpts_view(rest@)[x] == rest@[x]@);
                assert(rest@[x] == rest0[x + 1]);
                assert(rcpts_view(rest0)[x + 1] == rest0[x + 1]@);
                assert(rcpts_view(rest0)[x + 1] == all.skip(done)[x + 1]);
            }
            assert(rcpts_view(rest@) =~= all.skip(done + 1));
            assert(all.take(done + 1).drop_last() =~= all.take(done));
            assert(all.take(done + 1).last() == all[done]);
        }
        let n = groups.len();
        let mut g: usize = 0;
        let mut found = false;
        while g < n && !found
            invariant
                g <= n,
                n == groups@.len(),
                !found ==> forall|k: int| 0 <= k < g ==> groups@[k].domain@ != r.address.domain@,
                found ==> g < n && groups@[g as int].domain@ == r.address.domain@,
            decreases n - g + (if found { 0int } else { 1int }),
        {
            if groups[g].domain == r.address.domain {
                found = true;
            } else {
                g = g + 1;
            }
        }
        let ghost pre = groups@;
        if found {
            let ghost old_rcpt = groups@[g as int].rcpt@;
            groups[g].rcpt.push(r);
            proof {
                assert(groups@.len() == pre.len());
                assert forall|k: int| 0 <= k < pre.len() && k != g implies groups@[k]
                    == pre[k] by {}
                assert(groups@[g as int].domain == pre[g as int].domain);
                assert(groups@[g as int].rcpt@ == old_rcpt.push(r));
                assert forall|k: int|
                    0 <= k < groups@.len() implies rcpts_view(#[trigger] groups@[k].rcpt@)
                    == all.take(done + 1).filter(
                    |x: RcptV| x.address.domain == groups@[k].domain@,
                ) by {
                    let p = |x: RcptV| x.address.domain == groups@[k].domain@;
                    assert(all.take(done + 1) =~= all.take(done).push(all[done]));
                    lemma_filter_push(all.take(done), all[done], p);
                    if k == g {
                        assert(p(all[done]));
                        assert(rcpts_view(groups@[k].rcpt@) =~= rcpts_view(old_rcpt).push(
                            all[done],
                        ));
                    } else {
                        assert(!p(all[done]));
                    }
                }
                assert forall|i: int|
                    0 <= i < done + 1 implies #[trigger] domain_covered(all, groups@, i) by {
                    if i < done {
                        assert(domain_covered(all, pre, i));
                        let k = choose|k: int|
                            0 <= k < pre.len() && all[i].address.domain == pre[k].domain@;
                        assert(all[i].address.domain == groups@[k].domain@);
                    } else {
                        assert(all[done].address.domain == groups@[g as int].domain@);
                    }
                }
            }
        } else {
            let domain = r.address.domain.clone();
            let mut rcpt: Vec<Rcpt> = Vec::new();
            rcpt.push(r);
            groups.push(DomainGroup { domain, rcpt });
            proof {
                let m = groups@.len() - 1;
                assert(forall|k: int| 0 <= k < m ==> groups@[k] == pre[k]);
                assert(groups@[m].domain@ == all[done].address.domain);
                assert(rcpts_view(groups@[m].rcpt@) =~= seq![all[done]]);
                // The new domain appears nowhere in the earlier groups, so
                // its share of the earlier recipients is empty.
                let pm = |x: RcptV| x.address.domain == groups@[m].domain@;
                assert forall|i: int|
                    0 <= i < all.take(done).len() implies !pm(all.take(done)[i]) by {
                    assert(all.take(done)[i] == all[i]);
                    if pm(all[i]) {
                        assert(domain_covered(all, pre, i));
                        let k = choose|k: int|
                            0 <= k < pre.len() && all[i].address.domain == pre[k].domain@;
                        assert(pre[k].domain@ == groups@[m].domain@);
                        assert(false);
                    }
                }
                lemma_filter_none(all.take(done), pm);
                assert forall|k: int|
                    0 <= k < groups@.len() implies rcpts_view(#[trigger] groups@[k].rcpt@)
                    == all.take(done + 1).filter(
                    |x: RcptV| x.address.domain == groups@[k].domain@,
                ) by {
                    let p = |x: RcptV| x.address.domain == groups@[k].domain@;
                    assert(all.take(done + 1) =~= all.take(done).push(all[done]));
                    lemma_filter_push(all.take(done), all[done], p);
                    if k == m {
                        assert(p(all[done]));
                        assert(all.take(done).filter(p) =~= Seq::<RcptV>::empty());
                        assert(rcpts_view(groups@[k].rcpt@) =~= Seq::<RcptV>::empty().push(
                            all[done],
                        ));
                    } else {
                        assert(!p(all[done]));
                    }
                }
                assert forall|i: int|
                    0 <= i < done + 1 implies #[trigger] domain_covered(all, groups@, i) by {
                    if i < done {
                        assert(domain_covered(all, pre, i));
                        let k = choose|k: int|
                            0 <= k < pre.len() && all[i].address.domain == pre[k].domain@;
                        assert(all[i].address.domain == groups@[k].domain@);
                    } else {
                        assert(all[done].address.domain == groups@[m].domain@);
                    }
                }
            }
        }
        proof {
            done = done + 1;
        }
    }
    proof {
        assert(done == all.len());
        assert(all.take(done) =~= all);
        assert(all == rcpts_view(to@));
        assert forall|i: int|
            0 <= i < to@.len() implies #[trigger] domain_covered(
            rcpts_view(to@),
            groups@,
            i,
        ) by {
            assert(domain_covered(all, groups@, i));
        }
    }
    groups
}

} // verus!
