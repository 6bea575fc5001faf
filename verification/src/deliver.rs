//! Relay delivery for one destination domain: MX-record ordering, the plan
//! of candidate hosts to attempt in preference order, the RFC-mandated edge
//! cases (null MX, empty record set), and the classification of the final
//! outcome onto every recipient of the group.
//!
//! DNS queries and SMTP sends are performed by the caller; it resolves the
//! records, runs the planned attempts in order stopping at the first
//! success, and hands the observed events back for classification.

use vstd::prelude::*;

use crate::config::{certs_view, Certificate};
use crate::sender::{SenderParameters, SenderParametersV};
use crate::transfer::{
    held_back_after, rcpts_view, EmailTransferStatus, EmailTransferStatusV, Rcpt, RcptV,
    TransferError, TransferErrorV,
};

verus! {

/// The standard SMTP port.
pub const SMTP_PORT: u16 = 25;

/// One MX record: the exchange host and its preference (lower is tried
/// first).
#[derive(Debug, Clone)]
pub struct MxRecord {
    pub exchange: String,
    pub preference: u16,
}

/// Ghost image of an [`MxRecord`].
pub ghost struct MxRecordV {
    pub exchange: Seq<char>,
    pub preference: u16,
}

impl View for MxRecord {
    type V = MxRecordV;

    open spec fn view(&self) -> MxRecordV {
        MxRecordV { exchange: self.exchange@, preference: self.preference }
    }
}

/// The views of a sequence of MX records.
pub open spec fn mx_view(s: Seq<MxRecord>) -> Seq<MxRecordV> {
    s.map_values(|m: MxRecord| m@)
}

/// `r` inserted into `s` after every record whose preference is less than
/// or equal to `r`'s: the insertion step of a stable insertion sort.
pub open spec fn insert_by_preference(r: MxRecordV, s: Seq<MxRecordV>) -> Seq<MxRecordV>
    decreases s.len(),
{
    if s.len() == 0 {
        seq![r]
    } else if r.preference < s[0].preference {
        seq![r] + s
    } else {
        seq![s[0]] + insert_by_preference(r, s.drop_first())
    }
}

/// `s` stably sorted by ascending preference: ties keep their resolver
/// order.
pub open spec fn sort_by_preference(s: Seq<MxRecordV>) -> Seq<MxRecordV>
    decreases s.len(),
{
    if s.len() == 0 {
        Seq::empty()
    } else {
        insert_by_preference(s.last(), sort_by_preference(s.drop_last()))
    }
}

/// Inserting before the first strictly greater preference is what
/// [`insert_by_preference`] does.
proof fn lemma_insert_at(r: MxRecordV, s: Seq<MxRecordV>, j: int)
    requires
        0 <= j <= s.len(),
        forall|k: int| 0 <= k < j ==> !(r.preference < s[k].preference),
        j < s.len() ==> r.preference < s[j].preference,
    ensures
        insert_by_preference(r, s) == s.take(j) + seq![r] + s.skip(j),
    decreases j,
{
    if j == 0 {
        if s.len() == 0 {
            assert(insert_by_preference(r, s) =~= s.take(0) + seq![r] + s.skip(0));
        } else {
            assert(r.preference < s[0].preference);
            assert(insert_by_preference(r, s) =~= s.take(0) + seq![r] + s.skip(0));
        }
    } else {
        assert(!(r.preference < s[0].preference));
        let rest = s.drop_first();
        lemma_insert_at(r, rest, j - 1);
        assert(insert_by_preference(r, s) == seq![s[0]] + insert_by_preference(r, rest));
        assert(seq![s[0]] + (rest.take(j - 1) + seq![r] + rest.skip(j - 1)) =~= s.take(j)
            + seq![r] + s.skip(j));
    }
}

/// The records sorted by ascending preference; ties keep the order the
/// resolver returned them in.
pub fn order_mx_records(records: Vec<MxRecord>) -> (r: Vec<MxRecord>)
    ensures
        mx_view(r@) == sort_by_preference(mx_view(records@)),
{
    let ghost all = mx_view(records@);
    let mut rest = records;
    let mut out: Vec<MxRecord> = Vec::new();
    let ghost done: int = 0;
    proof {
        assert(mx_view(out@) =~= sort_by_preference(all.take(0)));
        assert(mx_view(rest@) =~= all.skip(0));
    }
    while rest.len() > 0
        invariant
            0 <= done <= all.len(),
            mx_view(rest@) == all.skip(done),
            rest@.len() == all.len() - done,
            mx_view(out@) == sort_by_preference(all.take(done)),
        decreases rest.len(),
    {
        let ghost rest0 = rest@;
        let rec = rest.remove(0);
        proof {
            assert(mx_view(rest0)[0] == rest0[0]@);
            assert(rec@ == all[done]);
            assert(rest@ =~= rest0.drop_first());
            assert forall|x: int| 0 <= x < rest@.len() implies mx_view(rest@)[x] == all.skip(
                done + 1,
            )[x] by {
                assert(mx_view(rest@)[x] == rest@[x]@);
                assert(rest@[x] == rest0[x + 1]);
                assert(mx_view(rest0)[x + 1] == rest0[x + 1]@);
                assert(mx_view(rest0)[x + 1] == all.skip(done)[x + 1]);
            }
            assert(mx_view(rest@) =~= all.skip(done + 1));
        }
        let ghost sorted = mx_view(out@);
        let mut j: usize = 0;
        while j < out.len() && out[j].preference <= rec.preference
            invariant
                j <= out.len(),
                mx_view(out@) == sorted,
                rest@.len() == all.len() - done - 1,
                forall|k: int| 0 <= k < j ==> !(rec@.preference < sorted[k].preference),
            decreases out.len() - j,
        {
            j = j + 1;
        }
        proof {
            lemma_insert_at(rec@, sorted, j as int);
        }
        out.insert(j, rec);
        proof {
            assert(mx_view(out@) =~= sorted.take(j as int) + seq![rec@] + sorted.skip(j as int));
            assert(all.take(done + 1).drop_last() =~= all.take(done));
            assert(all.take(done + 1).last() == all[done]);
            done = done + 1;
        }
    }
    proof {
        assert(all.skip(done).len() == 0);
        assert(done == all.len());
        assert(all.take(done) =~= all);
    }
    out
}

/// The exchanges of a sorted record list, in order.
pub open spec fn exchanges_of(s: Seq<MxRecordV>) -> Seq<Seq<char>> {
    s.map_values(|m: MxRecordV| m.exchange)
}

/// How many exchanges stand before the first null-MX marker `.`; the whole
/// length when none does.
pub open spec fn attempts_prefix_len(mxs: Seq<Seq<char>>) -> int
    decreases mxs.len(),
{
    if mxs.len() == 0 {
        0
    } else if mxs[0] == "."@ {
        0
    } else {
        1 + attempts_prefix_len(mxs.drop_first())
    }
}

/// The prefix length is the first index holding `.`, or the length.
proof fn lemma_prefix_len(mxs: Seq<Seq<char>>, k: int)
    requires
        0 <= k <= mxs.len(),
        forall|i: int| 0 <= i < k ==> mxs[i] != "."@,
        k < mxs.len() ==> mxs[k] == "."@,
    ensures
        attempts_prefix_len(mxs) == k,
    decreases k,
{
    if k == 0 {
    } else {
        assert(mxs[0] != "."@);
        lemma_prefix_len(mxs.drop_first(), k - 1);
    }
}

/// The delivery-time pooling parameters for one candidate host: the fixed
/// short idle timeout and small pool used for outbound relay, the standard
/// port, the destination domain as the presented server name.
pub open spec fn delivery_params_v(
    relay_target: Seq<char>,
    server_name: Seq<char>,
    hello_name: Seq<char>,
    certs: Seq<Seq<u8>>,
) -> SenderParametersV {
    SenderParametersV {
        relay_target,
        server_name,
        hello_name,
        pool_idle_timeout_secs: 60,
        pool_max_size: 3,
        pool_min_idle: 1,
        port: SMTP_PORT,
        certificate: certs,
    }
}

/// Build the parameters of [`delivery_params_v`].
fn delivery_params(
    relay_target: String,
    server_name: &String,
    hello_name: &String,
    certs: &Vec<Certificate>,
) -> (p: SenderParameters)
    ensures
        p@ == delivery_params_v(relay_target@, server_name@, hello_name@, certs_view(certs@)),
{
    let p = SenderParameters {
        relay_target,
        server_name: server_name.clone(),
        hello_name: hello_name.clone(),
        pool_idle_timeout_secs: 60,
        pool_max_size: 3,
        pool_min_idle: 1,
        port: SMTP_PORT,
        certificate: crate::config::clone_certs(certs),
    };
    proof {
        assert(p@ =~~= delivery_params_v(
            p.relay_target@,
            server_name@,
            hello_name@,
            certs_view(certs@),
        ));
    }
    p
}

/// What the resolver answered for a domain.
pub ghost enum MxResolutionV {
    /// The query failed, with the resolver's message.
    Failed(Seq<char>),
    /// The records returned, in resolver order.
    Records(Seq<MxRecordV>),
}

/// The plan for one destination domain.
#[derive(Debug)]
pub enum DeliveryPlan {
    /// Nothing to attempt: the whole group fails with this error.
    Fail { error: TransferError },
    /// No MX records: one direct attempt against the domain itself.
    Direct { params: SenderParameters },
    /// Candidate exchanges in preference order, each a pooled attempt.
    Relay {
        attempts: Vec<SenderParameters>,
        targets: Vec<String>,
        domain: String,
        null_mx: bool,
    },
}

/// Ghost image of a [`DeliveryPlan`].
pub ghost enum DeliveryPlanV {
    Fail { error: TransferErrorV },
    Direct { params: SenderParametersV },
    Relay {
        attempts: Seq<SenderParametersV>,
        targets: Seq<Seq<char>>,
        domain: Seq<char>,
        null_mx: bool,
    },
}

impl View for DeliveryPlan {
    type V = DeliveryPlanV;

    open spec fn view(&self) -> DeliveryPlanV {
        match self {
            DeliveryPlan::Fail { error } => DeliveryPlanV::Fail { error: error@ },
            DeliveryPlan::Direct { params } => DeliveryPlanV::Direct { params: params@ },
            DeliveryPlan::Relay { attempts, targets, domain, null_mx } => DeliveryPlanV::Relay {
                attempts: attempts@.map_values(|p: SenderParameters| p@),
                targets: targets@.map_values(|t: String| t@),
                domain: domain@,
                null_mx: *null_mx,
            },
        }
    }
}

/// The plan for one domain, from the resolver's answer:
///
/// - a failed query is a transient DNS failure for the whole group;
/// - an empty record set means one direct attempt against the domain
///   itself, per the RFC 5321 fallback;
/// - a sorted list starting with the null-MX marker `.` (RFC 7505) is a
///   permanent refusal;
/// - otherwise every exchange before the first `.` is attempted in
///   preference order;
/// - a missing certificate chain fails any plan that would attempt a send.
pub open spec fn plan_domain_v(
    domain: Seq<char>,
    hello_name: Seq<char>,
    cert: Option<Seq<Seq<u8>>>,
    mx: MxResolutionV,
) -> DeliveryPlanV {
    match mx {
        MxResolutionV::Failed(e) => DeliveryPlanV::Fail {
            error: TransferErrorV::DnsRecord { error: e },
        },
        MxResolutionV::Records(rs) => {
            if rs.len() == 0 {
                match cert {
                    None => DeliveryPlanV::Fail { error: TransferErrorV::TlsNoCertificate },
                    Some(c) => DeliveryPlanV::Direct {
                        params: delivery_params_v(domain, domain, hello_name, c),
                    },
                }
            } else {
                let mxs = exchanges_of(sort_by_preference(rs));
                let k = attempts_prefix_len(mxs);
                if k == 0 {
                    DeliveryPlanV::Fail {
                        error: TransferErrorV::HasNullMX { domain },
                    }
                } else {
                    match cert {
                        None => DeliveryPlanV::Fail { error: TransferErrorV::TlsNoCertificate },
                        Some(c) => DeliveryPlanV::Relay {
                            attempts: Seq::new(
                                k as nat,
                                |i: int| delivery_params_v(mxs[i], domain, hello_name, c),
                            ),
                            targets: mxs,
                            domain,
                            null_mx: k < mxs.len(),
                        },
                    }
                }
            }
        },
    }
}

/// The view of a resolver answer.
pub open spec fn mx_resolution_view(mx: Result<Vec<MxRecord>, String>) -> MxResolutionV {
    match mx {
        Ok(records) => MxResolutionV::Records(mx_view(records@)),
        Err(e) => MxResolutionV::Failed(e@),
    }
}

/// Plan the delivery of one domain group from the resolver's answer and the
/// certificates configured for this server identity.
pub fn plan_domain(
    domain: &String,
    hello_name: &String,
    cert: Option<Vec<Certificate>>,
    mx: Result<Vec<MxRecord>, String>,
) -> (p: DeliveryPlan)
    ensures
        p@ == plan_domain_v(domain@, hello_name@, cert_option_view(cert), mx_resolution_view(mx)),
{
    let ghost certv = cert_option_view(cert);
    let ghost mxv = mx_resolution_view(mx);
    let records = match mx {
        Ok(records) => records,
        Err(e) => {
            return DeliveryPlan::Fail { error: TransferError::DnsRecord { error: e } };
        },
    };
    let ghost rs = mx_view(records@);
    if records.len() == 0 {
        match cert {
            None => {
                return DeliveryPlan::Fail { error: TransferError::TlsNoCertificate };
            },
            Some(c) => {
                let params = delivery_params(domain.clone(), domain, hello_name, &c);
                return DeliveryPlan::Direct { params };
            },
        }
    }
    let sorted = order_mx_records(records);
    let ghost mxs = exchanges_of(sort_by_preference(rs));
    let dot = String::from_str(".");
    let n = sorted.len();
    let mut k: usize = 0;
    while k < n && !(sorted[k].exchange == dot)
        invariant
            k <= n,
            n == sorted@.len(),
            dot@ == "."@,
            mx_view(sorted@) == sort_by_preference(rs),
            mxs == exchanges_of(sort_by_preference(rs)),
            forall|i: int| 0 <= i < k ==> mxs[i] != "."@,
        decreases n - k,
    {
        proof {
            assert(mxs[k as int] == sorted@[k as int]@.exchange);
        }
        k = k + 1;
    }
    proof {
        assert(k < n ==> mxs[k as int] == "."@);
        lemma_prefix_len(mxs, k as int);
    }
    if k == 0 {
        return DeliveryPlan::Fail {
            error: TransferError::HasNullMX { domain: domain.clone() },
        };
    }
    let c = match cert {
        None => {
            return DeliveryPlan::Fail { error: TransferError::TlsNoCertificate };
        },
        Some(c) => c,
    };
    let mut attempts: Vec<SenderParameters> = Vec::new();
    let mut i: usize = 0;
    while i < k
        invariant
            i <= k,
            k <= sorted@.len(),
            dot@ == "."@,
            mx_view(sorted@) == sort_by_preference(rs),
            mxs == exchanges_of(sort_by_preference(rs)),
            certv == Some(certs_view(c@)),
            attempts@.len() == i,
            forall|j: int|
                0 <= j < i ==> attempts@[j]@ == delivery_params_v(
                    mxs[j],
                    domain@,
                    hello_name@,
                    certs_view(c@),
                ),
        decreases k - i,
    {
        let params = delivery_params(sorted[i].exchange.clone(), domain, hello_name, &c);
        proof {
            assert(mxs[i as int] == sorted@[i as int]@.exchange);
        }
        attempts.push(params);
        i = i + 1;
    }
    let mut targets: Vec<String> = Vec::new();
    let mut t: usize = 0;
    while t < n
        invariant
            t <= n,
            n == sorted@.len(),
            mx_view(sorted@) == sort_by_preference(rs),
            mxs == exchanges_of(sort_by_preference(rs)),
            targets@.len() == t,
            forall|j: int| 0 <= j < t ==> targets@[j]@ == mxs[j],
        decreases n - t,
    {
        targets.push(sorted[t].exchange.clone());
        proof {
            assert(mxs[t as int] == sorted@[t as int]@.exchange);
        }
        t = t + 1;
    }
    let null_mx = k < n;
    let plan = DeliveryPlan::Relay { attempts, targets, domain: domain.clone(), null_mx };
    proof {
        assert(plan@ matches DeliveryPlanV::Relay { attempts: a, targets: tg, domain: d, null_mx: nm }
            ==> {
                &&& a =~= Seq::new(
                    k as nat,
                    |j: int| delivery_params_v(mxs[j], domain@, hello_name@, certs_view(c@)),
                )
                &&& tg =~= mxs
            });
        assert(plan@ =~~= plan_domain_v(domain@, hello_name@, certv, mxv));
    }
    plan
}

/// The view of an optional certificate list.
pub open spec fn cert_option_view(cert: Option<Vec<Certificate>>) -> Option<Seq<Seq<u8>>> {
    match cert {
        Some(c) => Some(certs_view(c@)),
        None => None,
    }
}

/// What the caller observed for one planned attempt.
#[derive(Debug, Clone)]
pub enum SendEvent {
    /// The host accepted the message.
    Delivered,
    /// The attempt failed, with the connection or SMTP error.
    Refused { error: String },
}

/// Ghost image of a [`SendEvent`].
pub ghost enum SendEventV {
    Delivered,
    Refused { error: Seq<char> },
}

impl View for SendEvent {
    type V = SendEventV;

    open spec fn view(&self) -> SendEventV {
        match self {
            SendEvent::Delivered => SendEventV::Delivered,
            SendEvent::Refused { error } => SendEventV::Refused { error: error@ },
        }
    }
}

/// The views of a sequence of events.
pub open spec fn events_view(s: Seq<SendEvent>) -> Seq<SendEventV> {
    s.map_values(|e: SendEvent| e@)
}

/// The protocol between the plan and the caller's events: nothing is
/// attempted for a failed plan; a direct plan is attempted exactly once;
/// relay attempts run in order and stop at the first success, so every
/// event but a final `Delivered` is a refusal.
pub open spec fn events_ok(plan: DeliveryPlanV, events: Seq<SendEventV>) -> bool {
    match plan {
        DeliveryPlanV::Fail { .. } => events.len() == 0,
        DeliveryPlanV::Direct { .. } => events.len() == 1,
        DeliveryPlanV::Relay { attempts, .. } => {
            &&& 1 <= events.len() <= attempts.len() || (attempts.len() == 0 && events.len() == 0)
            &&& forall|i: int| 0 <= i < events.len() - 1 ==> events[i] is Refused
            &&& events.len() < attempts.len() ==> events.len() > 0 && events.last()
                is Delivered
        },
    }
}

/// The terminal outcome of one domain group: success as soon as one attempt
/// delivered; a failed plan keeps its error; a refused direct attempt is an
/// SMTP error; exhausted relay attempts are the null-MX refusal where one
/// was seen, else the delivery-exhausted error naming every candidate.
pub open spec fn plan_outcome_v(plan: DeliveryPlanV, events: Seq<SendEventV>) -> Result<
    (),
    TransferErrorV,
> {
    match plan {
        DeliveryPlanV::Fail { error } => Err(error),
        DeliveryPlanV::Direct { .. } => match events[0] {
            SendEventV::Delivered => Ok(()),
            SendEventV::Refused { error } => Err(TransferErrorV::Smtp { error }),
        },
        DeliveryPlanV::Relay { targets, domain, null_mx, .. } => {
            if exists|i: int| 0 <= i < events.len() && events[i] is Delivered {
                Ok(())
            } else if null_mx {
                Err(TransferErrorV::HasNullMX { domain })
            } else {
                Err(TransferErrorV::DeliveryError { targets })
            }
        },
    }
}

/// The terminal outcome, as an executable value.
pub fn conclude_attempts(plan: &DeliveryPlan, events: &Vec<SendEvent>) -> (oc: Result<
    (),
    TransferError,
>)
    requires
        events_ok(plan@, events_view(events@)),
    ensures
        outcome_view(oc) == plan_outcome_v(plan@, events_view(events@)),
{
    match plan {
        DeliveryPlan::Fail { error } => Err(error.duplicate()),
        DeliveryPlan::Direct { .. } => match &events[0] {
            SendEvent::Delivered => Ok(()),
            SendEvent::Refused { error } => Err(TransferError::Smtp { error: error.clone() }),
        },
        DeliveryPlan::Relay { targets, domain, null_mx, .. } => {
            let n = events.len();
            let mut i: usize = 0;
            let mut delivered = false;
            while i < n
                invariant
                    i <= n,
                    n == events@.len(),
                    delivered == exists|j: int|
                        0 <= j < i && events_view(events@)[j] is Delivered,
                decreases n - i,
            {
                match &events[i] {
                    SendEvent::Delivered => {
                        proof {
                            assert(events_view(events@)[i as int] is Delivered);
                        }
                        delivered = true;
                    },
                    SendEvent::Refused { .. } => {
                        proof {
                            assert(events_view(events@)[i as int] is Refused);
                        }
                    },
                }
                i = i + 1;
            }
            if delivered {
                Ok(())
            } else if *null_mx {
                Err(TransferError::HasNullMX { domain: domain.clone() })
            } else {
                let mut copy: Vec<String> = Vec::new();
                let mut t: usize = 0;
                while t < targets.len()
                    invariant
                        t <= targets.len(),
                        copy@.len() == t,
                        forall|j: int| 0 <= j < t ==> copy@[j]@ == targets@[j]@,
                    decreases targets.len() - t,
                {
                    copy.push(targets[t].clone());
                    t = t + 1;
                }
                proof {
                    assert(copy@.map_values(|s: String| s@) =~= targets@.map_values(
                        |s: String| s@,
                    ));
                }
                Err(TransferError::DeliveryError { targets: copy })
            }
        },
    }
}

/// The view of an executable outcome.
pub open spec fn outcome_view(oc: Result<(), TransferError>) -> Result<(), TransferErrorV> {
    match oc {
        Ok(()) => Ok(()),
        Err(e) => Err(e@),
    }
}

/// One recipient status after the group's outcome is applied: success makes
/// it `Sent`; a permanent error makes it `Failed`; a transient error is
/// appended to its held-back history at `now`.
pub open spec fn classify_status(
    s: EmailTransferStatusV,
    outcome: Result<(), TransferErrorV>,
    now: int,
) -> EmailTransferStatusV {
    match outcome {
        Ok(()) => EmailTransferStatusV::Sent,
        Err(e) => if e.is_permanent_v() {
            EmailTransferStatusV::Failed { error: e }
        } else {
            held_back_after(s, e, now)
        },
    }
}

/// A whole group after the outcome is applied: addresses and transfer
/// methods are untouched, every status is classified.
pub open spec fn classify_rcpts(
    s: Seq<RcptV>,
    outcome: Result<(), TransferErrorV>,
    now: int,
) -> Seq<RcptV> {
    s.map_values(
        |r: RcptV| RcptV {
            address: r.address,
            transfer_method: r.transfer_method,
            email_status: classify_status(r.email_status, outcome, now),
        },
    )
}

/// Deliver one domain group: conclude the caller's observed events against
/// the plan and mark every recipient of the group accordingly.
pub fn deliver_one_domain(
    rcpt: Vec<Rcpt>,
    plan: &DeliveryPlan,
    events: &Vec<SendEvent>,
    now: i64,
) -> (r: Vec<Rcpt>)
    requires
        events_ok(plan@, events_view(events@)),
    ensures
        rcpts_view(r@) == classify_rcpts(
            rcpts_view(rcpt@),
            plan_outcome_v(plan@, events_view(events@)),
            now as int,
        ),
{
    let ghost outcome = plan_outcome_v(plan@, events_view(events@));
    let oc = conclude_attempts(plan, events);
    let mut rcpt = rcpt;
    let ghost orig = rcpts_view(rcpt@);
    let mut i: usize = 0;
    while i < rcpt.len()
        invariant
            i <= rcpt@.len(),
            rcpt@.len() == orig.len(),
            outcome_view(oc) == outcome,
            forall|k: int| i <= k < orig.len() ==> rcpt@[k]@ == orig[k],
            forall|k: int|
                0 <= k < i ==> rcpt@[k]@ == (RcptV {
                    address: orig[k].address,
                    transfer_method: orig[k].transfer_method,
                    email_status: classify_status(orig[k].email_status, outcome, now as int),
                }),
        decreases rcpt.len() - i,
    {
        match &oc {
            Ok(()) => {
                rcpt[i].email_status = EmailTransferStatus::sent();
            },
            Err(error) => {
                if error.is_permanent() {
                    rcpt[i].email_status = EmailTransferStatus::failed(error.duplicate());
                } else {
                    rcpt[i].email_status.held_back(error.duplicate(), now);
                }
            },
        }
        i = i + 1;
    }
    proof {
        assert(rcpts_view(rcpt@) =~= classify_rcpts(orig, outcome, now as int));
    }
    rcpt
}

/// After one delivery pass over a dispatched group, every recipient's
/// status is resolved: `Sent`, `HeldBack` or `Failed`, never still waiting.
pub proof fn lemma_pass_resolves_all(
    s: Seq<RcptV>,
    outcome: Result<(), TransferErrorV>,
    now: int,
)
    ensures
        forall|i: int|
            0 <= i < s.len() ==> {
                let st = #[trigger] classify_rcpts(s, outcome, now)[i].email_status;
                st is Sent || st is HeldBack || st is Failed
            },
{
    assert forall|i: int| 0 <= i < s.len() implies {
        let st = #[trigger] classify_rcpts(s, outcome, now)[i].email_status;
        st is Sent || st is HeldBack || st is Failed
    } by {
        let st = classify_rcpts(s, outcome, now)[i].email_status;
        match outcome {
            Ok(()) => {
                assert(st is Sent);
            },
            Err(e) => {
                if e.is_permanent_v() {
                    assert(st is Failed);
                } else {
                    assert(st is HeldBack);
                }
            },
        }
    }
}

/// A domain whose single MX record is the null-MX marker `.` is planned as
/// a permanent refusal, and classifying that refusal marks every recipient
/// of the group `Failed`: a null MX is never retried.
pub proof fn lemma_null_mx_permanent(
    domain: Seq<char>,
    hello_name: Seq<char>,
    cert: Option<Seq<Seq<u8>>>,
    record: MxRecordV,
    s: Seq<RcptV>,
    now: int,
)
    requires
        record.exchange == "."@,
    ensures
        plan_domain_v(domain, hello_name, cert, MxResolutionV::Records(seq![record]))
            == (DeliveryPlanV::Fail { error: TransferErrorV::HasNullMX { domain } }),
        forall|i: int|
            0 <= i < s.len() ==> #[trigger] classify_rcpts(
                s,
                Err(TransferErrorV::HasNullMX { domain }),
                now,
            )[i].email_status == (EmailTransferStatusV::Failed {
                error: TransferErrorV::HasNullMX { domain },
            }),
{
    let rs = seq![record];
    assert(rs.drop_last() =~= Seq::<MxRecordV>::empty());
    assert(sort_by_preference(rs.drop_last()) =~= Seq::<MxRecordV>::empty());
    assert(insert_by_preference(record, Seq::<MxRecordV>::empty()) =~= seq![record]);
    assert(sort_by_preference(rs) =~= seq![record]);
    let mxs = exchanges_of(seq![record]);
    assert(mxs[0] == "."@);
    assert(attempts_prefix_len(mxs) == 0);
}

/// An empty MX result set is planned as exactly one direct attempt against
/// the domain itself, with the domain as both relay target and presented
/// server name: not zero attempts, and not a resolution error.
pub proof fn lemma_empty_mx_direct(
    domain: Seq<char>,
    hello_name: Seq<char>,
    certs: Seq<Seq<u8>>,
)
    ensures
        plan_domain_v(domain, hello_name, Some(certs), MxResolutionV::Records(Seq::empty()))
            == (DeliveryPlanV::Direct {
            params: delivery_params_v(domain, domain, hello_name, certs),
        }),
{
}

} // verus!
