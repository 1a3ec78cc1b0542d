//! A channel: one registered bot credential, with its secret, its lazily
//! cached access token, and the handler that decides how to answer events.

use vstd::prelude::*;
use crate::event::{WebhookEvent, spec_reply_token};
use crate::reply::Reply;

verus! {

/// The one capability a channel's business logic must provide: given an
/// event, optionally produce a reply. Implementations live with the
/// integrator; the library promises nothing about what they return.
pub trait HandleWebhookEvent {
    fn handle_webhook_event(&mut self, event: &WebhookEvent) -> (r: Option<Reply>);
}

/// A registered credential unit. The secret never changes after
/// construction; the access token is cached on first issuance.
pub struct Channel<H> {
    pub id: usize,
    pub user_id: String,
    pub secret: String,
    pub access_token: Option<String>,
    pub handler: H,
}

impl<H> Channel<H> {
    pub fn new(
        id: usize,
        user_id: String,
        secret: String,
        access_token: Option<String>,
        handler: H,
    ) -> (c: Channel<H>)
        ensures
            c == (Channel { id, user_id, secret, access_token, handler }),
    {
        Channel { id, user_id, secret, access_token, handler }
    }
}

/// Moves the event's reply token into the reply. A reply whose event carries
/// no token — or an empty one — cannot be answered and is dropped, rather
/// than sent with an empty token.
pub fn stitch_reply_token(reply: Reply, token: Option<String>) -> (r: Option<Reply>)
    ensures
        r is Some <==> (token matches Some(t) && t@.len() > 0),
        r matches Some(r2) ==> {
            &&& token matches Some(t) && r2.reply_token == t
            &&& r2.reply_token@.len() > 0
            &&& r2.messages == reply.messages
            &&& r2.notification_disabled == reply.notification_disabled
        },
{
    match token {
        Some(t) => {
            if t.as_str().unicode_len() > 0 {
                Some(
                    Reply {
                        reply_token: t,
                        messages: reply.messages,
                        notification_disabled: reply.notification_disabled,
                    },
                )
            } else {
                None
            }
        },
        None => None,
    }
}

impl<H: HandleWebhookEvent> Channel<H> {
    /// Hands one event to the channel's handler; if the handler answers,
    /// stitches the event's reply token into the reply. The credential
    /// fields and the token cache are untouched; only the handler's own
    /// state may change.
    pub fn handle_event(&mut self, event: WebhookEvent) -> (r: Option<Reply>)
        ensures
            final(self).id == old(self).id,
            final(self).user_id == old(self).user_id,
            final(self).secret == old(self).secret,
            final(self).access_token == old(self).access_token,
            r matches Some(rep) ==> {
                &&& spec_reply_token(event) matches Some(t) && rep.reply_token == t
                &&& rep.reply_token@.len() > 0
            },
            !(spec_reply_token(event) matches Some(t) && t@.len() > 0) ==> r is None,
    {
        match self.handler.handle_webhook_event(&event) {
            Some(reply) => stitch_reply_token(reply, event.get_reply_token()),
            None => None,
        }
    }
}

} // verus!
