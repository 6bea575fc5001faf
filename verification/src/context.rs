//! One accepted message as the delivery engine sees it: its envelope, its
//! recipients, and its opaque body with the trace headers prepended on
//! delivery.

use vstd::prelude::*;

use crate::transfer::{rcpts_view, Address, AddressV, Rcpt, RcptV};

verus! {

/// The opaque message: prepended trace headers, newest first, and the body
/// text as received.
#[derive(Debug, Clone)]
pub struct MessageBody {
    pub headers: Vec<String>,
    pub body: String,
}

/// The views of a list of header lines.
pub open spec fn headers_view(s: Seq<String>) -> Seq<Seq<char>> {
    s.map_values(|h: String| h@)
}

impl MessageBody {
    /// A body with no prepended headers.
    pub fn new(body: String) -> (r: MessageBody)
        ensures
            r.headers@.len() == 0,
            r.body@ == body@,
    {
        MessageBody { headers: Vec::new(), body }
    }

    /// Prepend one header line, `name: value`.
    pub fn add_header(&mut self, name: &str, value: &str)
        ensures
            headers_view(final(self).headers@) == headers_view(old(self).headers@).insert(
                0,
                name@ + ": "@ + value@,
            ),
            final(self).body == old(self).body,
    {
        let mut line = String::from_str(name);
        line.append(": ");
        line.append(value);
        let ghost old_headers = self.headers@;
        self.headers.insert(0, line);
        proof {
            assert(headers_view(self.headers@) =~= headers_view(old_headers).insert(
                0,
                name@ + ": "@ + value@,
            ));
        }
    }
}

/// The delivery context of one accepted message.
#[derive(Debug, Clone)]
pub struct MailContext {
    /// The name this server presented when the message was accepted; also
    /// the greeting name used for outbound relay.
    pub server_name: String,
    /// What the client announced in its HELO/EHLO.
    pub client_helo: String,
    /// The envelope sender, where there is one.
    pub mail_from: Option<Address>,
    /// The human-readable message identifier.
    pub message_id: String,
    /// The unique message identifier keying the persistent queues.
    pub message_uuid: u128,
    /// When the message was accepted, in Unix seconds.
    pub timestamp: i64,
    /// The recipients still carried by this message.
    pub forward_paths: Vec<Rcpt>,
}

/// Ghost image of a [`MailContext`].
pub ghost struct MailContextV {
    pub server_name: Seq<char>,
    pub client_helo: Seq<char>,
    pub mail_from: Option<AddressV>,
    pub message_id: Seq<char>,
    pub message_uuid: u128,
    pub timestamp: int,
    pub forward_paths: Seq<RcptV>,
}

impl View for MailContext {
    type V = MailContextV;

    open spec fn view(&self) -> MailContextV {
        MailContextV {
            server_name: self.server_name@,
            client_helo: self.client_helo@,
            mail_from: match self.mail_from {
                Some(a) => Some(a@),
                None => None,
            },
            message_id: self.message_id@,
            message_uuid: self.message_uuid,
            timestamp: self.timestamp as int,
            forward_paths: rcpts_view(self.forward_paths@),
        }
    }
}

} // verus!
