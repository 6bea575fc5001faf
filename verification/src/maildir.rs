//! Local maildir delivery: the paths written under a user's home
//! directory, and the per-recipient status bookkeeping.  The user lookup
//! and the file writes themselves are performed by the caller, which hands
//! back one observed result per recipient.

use vstd::prelude::*;

use crate::transfer::{
    held_back_after, rcpts_view, EmailTransferStatus, EmailTransferStatusV, Rcpt, RcptV,
    TransferError, TransferErrorV,
};

verus! {

/// Delivery into a local per-user maildir.
///
/// See <https://en.wikipedia.org/wiki/Maildir>: one file per message under
/// `Maildir/new/`, created after the `Maildir/` and `Maildir/new/`
/// directories themselves.
#[derive(Debug, Clone, Copy, PartialEq, Eq, Structural, Default)]
pub struct Maildir;

/// The maildir root under a home directory.
pub fn maildir_root(home: &str) -> (r: String)
    ensures
        r@ == home@ + "/Maildir"@,
{
    let mut s = String::from_str(home);
    s.append("/Maildir");
    s
}

/// The `new` directory under a home directory's maildir.
pub fn maildir_new_dir(home: &str) -> (r: String)
    ensures
        r@ == home@ + "/Maildir/new"@,
{
    let mut s = String::from_str(home);
    s.append("/Maildir/new");
    s
}

/// Where one message is written in a home directory's maildir: one `.eml`
/// file named by the message identifier.
pub fn maildir_message_path(home: &str, message_id: &str) -> (r: String)
    ensures
        r@ == home@ + "/Maildir/new/"@ + message_id@ + ".eml"@,
{
    let mut s = String::from_str(home);
    s.append("/Maildir/new/");
    s.append(message_id);
    s.append(".eml");
    s
}

/// What the caller observed when writing one recipient's copy.
#[derive(Debug, Clone)]
pub enum LocalDeliveryResult {
    /// The file was written.
    Delivered,
    /// The recipient's local part names no system user.
    NoSuchUser,
    /// The directories or the file could not be written.
    WriteFailed { error: String },
}

/// Ghost image of a [`LocalDeliveryResult`].
pub ghost enum LocalDeliveryResultV {
    Delivered,
    NoSuchUser,
    WriteFailed { error: Seq<char> },
}

impl View for LocalDeliveryResult {
    type V = LocalDeliveryResultV;

    open spec fn view(&self) -> LocalDeliveryResultV {
        match self {
            LocalDeliveryResult::Delivered => LocalDeliveryResultV::Delivered,
            LocalDeliveryResult::NoSuchUser => LocalDeliveryResultV::NoSuchUser,
            LocalDeliveryResult::WriteFailed { error } => LocalDeliveryResultV::WriteFailed {
                error: error@,
            },
        }
    }
}

/// The views of a sequence of local results.
pub open spec fn local_results_view(s: Seq<LocalDeliveryResult>) -> Seq<LocalDeliveryResultV> {
    s.map_values(|r: LocalDeliveryResult| r@)
}

/// One recipient's status after its local write: delivered means sent; a
/// missing user or a failed write is a transient, per-recipient failure
/// recorded in its held-back history — never fatal to the batch.
pub open spec fn local_status_after(
    s: EmailTransferStatusV,
    result: LocalDeliveryResultV,
    now: int,
) -> EmailTransferStatusV {
    match result {
        LocalDeliveryResultV::Delivered => EmailTransferStatusV::Sent,
        LocalDeliveryResultV::NoSuchUser => held_back_after(
            s,
            TransferErrorV::LocalDelivery { error: "no such user"@ },
            now,
        ),
        LocalDeliveryResultV::WriteFailed { error } => held_back_after(
            s,
            TransferErrorV::LocalDelivery { error },
            now,
        ),
    }
}

impl Maildir {
    /// Apply the observed local results to the recipient group, one result
    /// per recipient in order.
    pub fn deliver(
        &self,
        to: Vec<Rcpt>,
        results: &Vec<LocalDeliveryResult>,
        now: i64,
    ) -> (r: Vec<Rcpt>)
        requires
            results@.len() == to@.len(),
        ensures
            r@.len() == to@.len(),
            forall|i: int|
                0 <= i < to@.len() ==> rcpts_view(r@)[i] == (RcptV {
                    address: rcpts_view(to@)[i].address,
                    transfer_method: rcpts_view(to@)[i].transfer_method,
                    email_status: local_status_after(
                        rcpts_view(to@)[i].email_status,
                        local_results_view(results@)[i],
                        now as int,
                    ),
                }),
    {
        let ghost orig = rcpts_view(to@);
        let mut to = to;
        let mut i: usize = 0;
        while i < to.len()
            invariant
                i <= to@.len(),
                to@.len() == orig.len(),
                results@.len() == orig.len(),
                forall|k: int| i <= k < orig.len() ==> to@[k]@ == orig[k],
                forall|k: int|
                    0 <= k < i ==> to@[k]@ == (RcptV {
                        address: orig[k].address,
                        transfer_method: orig[k].transfer_method,
                        email_status: local_status_after(
                            orig[k].email_status,
                            local_results_view(results@)[k],
                            now as int,
                        ),
                    }),
            decreases to.len() - i,
        {
            match &results[i] {
                LocalDeliveryResult::Delivered => {
                    to[i].email_status = EmailTransferStatus::sent();
                },
                LocalDeliveryResult::NoSuchUser => {
                    to[i].email_status.held_back(
                        TransferError::LocalDelivery { error: String::from_str("no such user") },
                        now,
                    );
                },
                LocalDeliveryResult::WriteFailed { error } => {
                    to[i].email_status.held_back(
                        TransferError::LocalDelivery { error: error.clone() },
                        now,
                    );
                },
            }
            i = i + 1;
        }
        to
    }
}

} // verus!
