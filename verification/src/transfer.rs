//! Per-recipient data model: addresses, transfer methods, delivery errors
//! and the recipient status state machine.

use vstd::prelude::*;

verus! {

/// An email address, split into its local part and its domain.
#[derive(Debug, Clone)]
pub struct Address {
    pub local_part: String,
    pub domain: String,
}

/// Ghost image of an [`Address`].
pub ghost struct AddressV {
    pub local_part: Seq<char>,
    pub domain: Seq<char>,
}

impl View for Address {
    type V = AddressV;

    open spec fn view(&self) -> AddressV {
        AddressV { local_part: self.local_part@, domain: self.domain@ }
    }
}

impl Address {
    /// Build an address from its two parts.
    pub fn new(local_part: String, domain: String) -> (r: Address)
        ensures
            r@.local_part == local_part@,
            r@.domain == domain@,
    {
        Address { local_part, domain }
    }
}

/// Where an explicitly forwarded recipient is sent.
#[derive(Debug, Clone)]
pub enum ForwardTarget {
    /// A domain name, resolved through its MX records.
    Domain(String),
    /// A literal IP address, connected to directly.
    Ip(String),
    /// A socket address (IP and port), connected to directly.
    Socket(String),
}

/// Ghost image of a [`ForwardTarget`].
pub ghost enum ForwardTargetV {
    Domain(Seq<char>),
    Ip(Seq<char>),
    Socket(Seq<char>),
}

impl View for ForwardTarget {
    type V = ForwardTargetV;

    open spec fn view(&self) -> ForwardTargetV {
        match self {
            ForwardTarget::Domain(d) => ForwardTargetV::Domain(d@),
            ForwardTarget::Ip(i) => ForwardTargetV::Ip(i@),
            ForwardTarget::Socket(s) => ForwardTargetV::Socket(s@),
        }
    }
}

/// How a recipient is to be reached.
#[derive(Debug, Clone)]
pub enum Transfer {
    /// Relay to the mail exchangers of the recipient's own domain.
    Deliver,
    /// Relay to an explicitly given target.
    Forward(ForwardTarget),
    /// Append to a local mailbox file.
    Mbox,
    /// Write into a local per-user maildir.
    Maildir,
    /// No transport at all: the recipient is excluded from delivery.
    NoTransport,
}

/// Ghost image of a [`Transfer`].
pub ghost enum TransferV {
    Deliver,
    Forward(ForwardTargetV),
    Mbox,
    Maildir,
    NoTransport,
}

impl View for Transfer {
    type V = TransferV;

    open spec fn view(&self) -> TransferV {
        match self {
            Transfer::Deliver => TransferV::Deliver,
            Transfer::Forward(t) => TransferV::Forward(t@),
            Transfer::Mbox => TransferV::Mbox,
            Transfer::Maildir => TransferV::Maildir,
            Transfer::NoTransport => TransferV::NoTransport,
        }
    }
}

/// A delivery error, classified as permanent or transient by
/// [`TransferError::is_permanent`].
#[derive(Debug, Clone, PartialEq, Eq)]
pub enum TransferError {
    /// MX resolution failed: transient.
    DnsRecord { error: String },
    /// The domain advertises the null MX and refuses mail: permanent.
    HasNullMX { domain: String },
    /// No trust certificate is configured for the server name: permanent.
    TlsNoCertificate,
    /// The SMTP conversation failed: transient.
    Smtp { error: String },
    /// Every MX candidate was tried and none accepted the message: transient.
    DeliveryError { targets: Vec<String> },
    /// Local mailbox or maildir delivery failed: transient.
    LocalDelivery { error: String },
}

/// Ghost image of a [`TransferError`].
pub ghost enum TransferErrorV {
    DnsRecord { error: Seq<char> },
    HasNullMX { domain: Seq<char> },
    TlsNoCertificate,
    Smtp { error: Seq<char> },
    DeliveryError { targets: Seq<Seq<char>> },
    LocalDelivery { error: Seq<char> },
}

impl View for TransferError {
    type V = TransferErrorV;

    open spec fn view(&self) -> TransferErrorV {
        match self {
            TransferError::DnsRecord { error } => TransferErrorV::DnsRecord { error: error@ },
            TransferError::HasNullMX { domain } => TransferErrorV::HasNullMX { domain: domain@ },
            TransferError::TlsNoCertificate => TransferErrorV::TlsNoCertificate,
            TransferError::Smtp { error } => TransferErrorV::Smtp { error: error@ },
            TransferError::DeliveryError { targets } => TransferErrorV::DeliveryError {
                targets: targets@.map_values(|t: String| t@),
            },
            TransferError::LocalDelivery { error } => TransferErrorV::LocalDelivery {
                error: error@,
            },
        }
    }
}

impl TransferErrorV {
    /// Which errors are permanent: the null MX and the missing trust
    /// certificate; everything else is transient and retried.
    pub open spec fn is_permanent_v(self) -> bool {
        match self {
            TransferErrorV::HasNullMX { .. } => true,
            TransferErrorV::TlsNoCertificate => true,
            _ => false,
        }
    }
}

impl TransferError {
    /// Whether this error is permanent (never retried).
    pub fn is_permanent(&self) -> (r: bool)
        ensures
            r == self@.is_permanent_v(),
    {
        match self {
            TransferError::HasNullMX { .. } => true,
            TransferError::TlsNoCertificate => true,
            _ => false,
        }
    }

    /// An owned copy of this error.
    pub fn duplicate(&self) -> (r: TransferError)
        ensures
            r@ == self@,
    {
        match self {
            TransferError::DnsRecord { error } => TransferError::DnsRecord {
                error: error.clone(),
            },
            TransferError::HasNullMX { domain } => TransferError::HasNullMX {
                domain: domain.clone(),
            },
            TransferError::TlsNoCertificate => TransferError::TlsNoCertificate,
            TransferError::Smtp { error } => TransferError::Smtp { error: error.clone() },
            TransferError::DeliveryError { targets } => {
                let mut copy: Vec<String> = Vec::new();
                let mut i: usize = 0;
                while i < targets.len()
                    invariant
                        i <= targets.len(),
                        copy@.len() == i,
                        forall|k: int| 0 <= k < i ==> copy@[k]@ == targets@[k]@,
                    decreases targets.len() - i,
                {
                    copy.push(targets[i].clone());
                    i = i + 1;
                }
                proof {
                    assert(copy@.map_values(|t: String| t@) =~= targets@.map_values(
                        |t: String| t@,
                    ));
                }
                TransferError::DeliveryError { targets: copy }
            },
            TransferError::LocalDelivery { error } => TransferError::LocalDelivery {
                error: error.clone(),
            },
        }
    }
}

/// One recorded transient failure: when it happened and what it was.
#[derive(Debug, Clone)]
pub struct ErrorRecord {
    pub timestamp: i64,
    pub variant: TransferError,
}

/// Ghost image of an [`ErrorRecord`].
pub ghost struct ErrorRecordV {
    pub timestamp: int,
    pub variant: TransferErrorV,
}

impl View for ErrorRecord {
    type V = ErrorRecordV;

    open spec fn view(&self) -> ErrorRecordV {
        ErrorRecordV { timestamp: self.timestamp as int, variant: self.variant@ }
    }
}

/// The views of a sequence of error records.
pub open spec fn records_view(s: Seq<ErrorRecord>) -> Seq<ErrorRecordV> {
    s.map_values(|r: ErrorRecord| r@)
}

/// The per-recipient status state machine: `Waiting` until a delivery pass
/// reaches the recipient, then `Sent`, `HeldBack` (transient, retried, with
/// the accumulated failure history) or `Failed` (permanent).
#[derive(Debug, Clone)]
pub enum EmailTransferStatus {
    Waiting,
    Sent,
    HeldBack { errors: Vec<ErrorRecord> },
    Failed { error: TransferError },
}

/// Ghost image of an [`EmailTransferStatus`].
pub ghost enum EmailTransferStatusV {
    Waiting,
    Sent,
    HeldBack { errors: Seq<ErrorRecordV> },
    Failed { error: TransferErrorV },
}

impl View for EmailTransferStatus {
    type V = EmailTransferStatusV;

    open spec fn view(&self) -> EmailTransferStatusV {
        match self {
            EmailTransferStatus::Waiting => EmailTransferStatusV::Waiting,
            EmailTransferStatus::Sent => EmailTransferStatusV::Sent,
            EmailTransferStatus::HeldBack { errors } => EmailTransferStatusV::HeldBack {
                errors: records_view(errors@),
            },
            EmailTransferStatus::Failed { error } => EmailTransferStatusV::Failed {
                error: error@,
            },
        }
    }
}

/// The status after a transient failure is recorded at `timestamp`: an
/// existing history grows by one record, any other status starts a fresh
/// one-record history.
pub open spec fn held_back_after(
    s: EmailTransferStatusV,
    error: TransferErrorV,
    timestamp: int,
) -> EmailTransferStatusV {
    let record = ErrorRecordV { timestamp, variant: error };
    match s {
        EmailTransferStatusV::HeldBack { errors } => EmailTransferStatusV::HeldBack {
            errors: errors.push(record),
        },
        _ => EmailTransferStatusV::HeldBack { errors: seq![record] },
    }
}

impl EmailTransferStatus {
    /// The status of a recipient that has not been attempted yet.
    pub fn waiting() -> (r: EmailTransferStatus)
        ensures
            r@ == EmailTransferStatusV::Waiting,
    {
        EmailTransferStatus::Waiting
    }

    /// The status of a recipient whose message was accepted.
    pub fn sent() -> (r: EmailTransferStatus)
        ensures
            r@ == EmailTransferStatusV::Sent,
    {
        EmailTransferStatus::Sent
    }

    /// The status of a recipient that failed permanently.
    pub fn failed(error: TransferError) -> (r: EmailTransferStatus)
        ensures
            r@ == (EmailTransferStatusV::Failed { error: error@ }),
    {
        EmailTransferStatus::Failed { error }
    }

    /// Record one transient failure: append to the history if the recipient
    /// is already held back, otherwise start a fresh history.
    pub fn held_back(&mut self, error: TransferError, timestamp: i64)
        ensures
            final(self)@ == held_back_after(old(self)@, error@, timestamp as int),
    {
        match self {
            EmailTransferStatus::HeldBack { errors } => {
                let ghost old_errs = errors@;
                errors.push(ErrorRecord { timestamp, variant: error });
                proof {
                    assert(records_view(errors@) =~= records_view(old_errs).push(
                        errors@[old_errs.len() as int]@,
                    ));
                }
            },
            _ => {
                let mut errors: Vec<ErrorRecord> = Vec::new();
                errors.push(ErrorRecord { timestamp, variant: error });
                proof {
                    assert(records_view(errors@) =~= seq![errors@[0]@]);
                }
                *self = EmailTransferStatus::HeldBack { errors };
            },
        }
    }
}

/// One recipient of one message: address, transport choice, and status.
#[derive(Debug, Clone)]
pub struct Rcpt {
    pub address: Address,
    pub transfer_method: Transfer,
    pub email_status: EmailTransferStatus,
}

/// Ghost image of a [`Rcpt`].
pub ghost struct RcptV {
    pub address: AddressV,
    pub transfer_method: TransferV,
    pub email_status: EmailTransferStatusV,
}

impl View for Rcpt {
    type V = RcptV;

    open spec fn view(&self) -> RcptV {
        RcptV {
            address: self.address@,
            transfer_method: self.transfer_method@,
            email_status: self.email_status@,
        }
    }
}

/// The views of a sequence of recipients.
pub open spec fn rcpts_view(s: Seq<Rcpt>) -> Seq<RcptV> {
    s.map_values(|r: Rcpt| r@)
}

impl Rcpt {
    /// A fresh recipient: given address, relayed by MX resolution, waiting.
    pub fn new(address: Address) -> (r: Rcpt)
        ensures
            r@.address == address@,
            r@.transfer_method == TransferV::Deliver,
            r@.email_status == EmailTransferStatusV::Waiting,
    {
        Rcpt {
            address,
            transfer_method: Transfer::Deliver,
            email_status: EmailTransferStatus::Waiting,
        }
    }
}

} // verus!
