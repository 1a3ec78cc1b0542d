//! The channel registry and the webhook pipeline. A `MessagingApi` maps
//! channel keys to channels; `sign` authenticates one delivery (parse,
//! resolve, verify) and `handle_event` dispatches its events, issuing and
//! caching an access token on the first reply.
//!
//! The registry's abstraction is a map from key to channel; registering a
//! channel under an existing key replaces the entry, and resolving an
//! unknown key is a `Destination` error, never a default channel.

use vstd::prelude::*;
use crate::channel::{Channel, HandleWebhookEvent};
use crate::oauth::{AccessTokenIssuer, OAuthError};
use crate::reply::ReplyTransport;
use crate::request::{RequestBody, RequestBodyError, body_accepted};
use crate::signing::spec_verify;
use crate::json::JsonV;
use vstd::utf8::encode_utf8;

verus! {

pub type MessagingResult<T> = Result<T, MessagingError>;

/// Everything that can go wrong with one delivery.
#[derive(Debug)]
pub enum MessagingError {
    /// No channel is registered for the delivery's destination.
    Destination { message: String },
    /// The signature does not match the channel's secret and the raw body.
    Signature { message: String },
    /// Token issuance failed.
    OAuth { error: OAuthError },
    /// A reply could not be delivered.
    Reply { error: crate::reply::ReplyError },
    /// The delivery body could not be parsed.
    RequestBody { error: RequestBodyError },
}

/// The registry that a sequence of channels stands for: later registrations
/// win.
pub open spec fn registry_of<H>(s: Seq<Channel<H>>) -> Map<Seq<char>, Channel<H>>
    decreases s.len(),
{
    if s.len() == 0 {
        Map::empty()
    } else {
        registry_of(s.drop_last()).insert(s.last().user_id@, s.last())
    }
}

/// The destination key of an accepted delivery body text.
pub open spec fn dest_of(s: Seq<char>) -> Seq<char> {
    match crate::json::jdoc(s) {
        Some(v) => match crate::event::jv_field(v, "destination"@) {
            Some(JsonV::Str(d)) => d,
            _ => Seq::empty(),
        },
        None => Seq::empty(),
    }
}

/// The adapter: a registry of channels, resolved per delivery.
pub struct MessagingApi<H> {
    channels: Vec<Channel<H>>,
}

impl<H> View for MessagingApi<H> {
    type V = Map<Seq<char>, Channel<H>>;

    closed spec fn view(&self) -> Map<Seq<char>, Channel<H>> {
        registry_of(self.channels@)
    }
}

proof fn lemma_registry_at<H>(s: Seq<Channel<H>>, key: Seq<char>, m: int)
    requires
        0 <= m < s.len(),
        s[m].user_id@ == key,
        forall|j: int| m < j < s.len() ==> s[j].user_id@ != key,
    ensures
        registry_of(s).contains_key(key),
        registry_of(s)[key] == s[m],
    decreases s.len(),
{
    if m == s.len() - 1 {
    } else {
        assert(s.drop_last()[m] == s[m]);
        assert(forall|j: int| m < j < s.drop_last().len() ==> s.drop_last()[j].user_id@ != key);
        lemma_registry_at(s.drop_last(), key, m);
        assert(s.last().user_id@ != key);
    }
}

proof fn lemma_registry_absent<H>(s: Seq<Channel<H>>, key: Seq<char>)
    requires
        forall|j: int| 0 <= j < s.len() ==> s[j].user_id@ != key,
    ensures
        !registry_of(s).contains_key(key),
    decreases s.len(),
{
    if s.len() == 0 {
    } else {
        assert(forall|j: int| 0 <= j < s.drop_last().len() ==> s.drop_last()[j].user_id@ != key);
        lemma_registry_absent(s.drop_last(), key);
        assert(s.last().user_id@ != key);
    }
}

proof fn lemma_registry_update<H>(s: Seq<Channel<H>>, i: int, c: Channel<H>)
    requires
        0 <= i < s.len(),
        c.user_id@ == s[i].user_id@,
        forall|j: int| i < j < s.len() ==> s[j].user_id@ != s[i].user_id@,
    ensures
        registry_of(s.update(i, c)) == registry_of(s).insert(s[i].user_id@, c),
    decreases s.len(),
{
    let key = s[i].user_id@;
    if i == s.len() - 1 {
        assert(s.update(i, c).drop_last() =~= s.drop_last());
        assert(registry_of(s.update(i, c)) =~= registry_of(s).insert(key, c));
    } else {
        assert(s.update(i, c).drop_last() =~= s.drop_last().update(i, c));
        assert(s.drop_last()[i] == s[i]);
        assert(forall|j: int|
            i < j < s.drop_last().len() ==> s.drop_last()[j].user_id@ != s.drop_last()[i].user_id@);
        lemma_registry_update(s.drop_last(), i, c);
        assert(s.last().user_id@ != key);
        assert(s.update(i, c).last() == s.last());
        assert(registry_of(s.update(i, c)) =~= registry_of(s).insert(key, c));
    }
}

/// Registering a channel and then resolving its key yields that channel,
/// whatever was registered under the key before: the later registration
/// silently replaces the earlier one.
pub proof fn lemma_register_wins<H>(m: Map<Seq<char>, Channel<H>>, c: Channel<H>)
    ensures
        m.insert(c.user_id@, c).contains_key(c.user_id@),
        m.insert(c.user_id@, c)[c.user_id@] == c,
        forall|k: Seq<char>|
            k != c.user_id@ && m.contains_key(k) ==> m.insert(c.user_id@, c)[k] == m[k],
{
}

impl<H> MessagingApi<H> {
    /// An adapter with no channels registered.
    pub fn new() -> (r: Self)
        ensures
            r@ == Map::<Seq<char>, Channel<H>>::empty(),
    {
        let r = MessagingApi { channels: Vec::new() };
        proof {
            assert(r@ =~= Map::<Seq<char>, Channel<H>>::empty());
        }
        r
    }

    /// Registers a channel under its key. Registering a second channel with
    /// the same key replaces the first: the registry afterwards is the old
    /// one with this key bound to this channel, silently.
    pub fn add_channel(self, channel: Channel<H>) -> (r: Self)
        ensures
            r@ == self@.insert(channel.user_id@, channel),
    {
        let ghost before = self.channels@;
        let ghost key = channel.user_id@;
        let ghost c = channel;
        let mut s = self;
        s.channels.push(channel);
        proof {
            assert(s.channels@.drop_last() =~= before);
            assert(s.channels@.last() == c);
        }
        s
    }

    /// Resolves a key to the index of its channel: the most recently
    /// registered channel with that key, or a `Destination` error when no
    /// channel has it.
    fn get_channel(&self, user_id: &str) -> (r: MessagingResult<usize>)
        ensures
            r matches Ok(i) ==> {
                &&& 0 <= i < self.channels@.len()
                &&& self.channels@[i as int].user_id@ == user_id@
                &&& forall|j: int|
                    i < j < self.channels@.len() ==> self.channels@[j].user_id@ != user_id@
                &&& self@.contains_key(user_id@)
                &&& self.channels@[i as int] == self@[user_id@]
            },
            r is Err <==> !self@.contains_key(user_id@),
            r matches Err(e) ==> e is Destination,
    {
        let n = self.channels.len();
        let mut i = n;
        while i > 0
            invariant
                0 <= i <= n,
                n == self.channels@.len(),
                forall|j: int| i <= j < n ==> self.channels@[j].user_id@ != user_id@,
            decreases i,
        {
            i = i - 1;
            if crate::json::str_eq(self.channels[i].user_id.as_str(), user_id) {
                proof {
                    lemma_registry_at(self.channels@, user_id@, i as int);
                }
                return Ok(i);
            }
        }
        proof {
            lemma_registry_absent(self.channels@, user_id@);
        }
        Err(
            MessagingError::Destination {
                message: "no channel is registered for this destination".to_owned(),
            },
        )
    }

    /// Authenticates one delivery: parses the body, resolves its destination
    /// channel, and verifies the signature over the raw text with that
    /// channel's secret — in that order, so no handler runs and no state
    /// changes before the signature has been checked.
    pub fn sign(&self, message: String, digest: &[u8]) -> (r: MessagingResult<RequestBody>)
        ensures
            r matches Ok(b) ==> {
                &&& body_accepted(message@)
                &&& crate::json::jdoc(message@) matches Some(v) && crate::request::body_rel(v, b)
                &&& b.src == message
                &&& self@.contains_key(b.destination@)
                &&& spec_verify(
                    encode_utf8(self@[b.destination@].secret@),
                    encode_utf8(message@),
                    digest@,
                )
            },
            r matches Err(MessagingError::RequestBody { .. }) <==> !body_accepted(message@),
            r matches Err(MessagingError::Destination { .. }) <==> (body_accepted(message@)
                && !self@.contains_key(dest_of(message@))),
            r matches Err(MessagingError::Signature { .. }) <==> (body_accepted(message@)
                && self@.contains_key(dest_of(message@)) && !spec_verify(
                encode_utf8(self@[dest_of(message@)].secret@),
                encode_utf8(message@),
                digest@,
            )),
            r is Ok <==> (body_accepted(message@) && self@.contains_key(dest_of(message@))
                && spec_verify(
                encode_utf8(self@[dest_of(message@)].secret@),
                encode_utf8(message@),
                digest@,
            )),
    {
        let body = match RequestBody::try_from(message) {
            Ok(b) => b,
            Err(error) => {
                return Err(MessagingError::RequestBody { error });
            },
        };
        let i = match self.get_channel(body.destination.as_str()) {
            Ok(i) => i,
            Err(e) => {
                return Err(e);
            },
        };
        if crate::signing::verify(
            self.channels[i].secret.as_str().as_bytes(),
            body.src.as_str().as_bytes(),
            digest,
        ) {
            Ok(body)
        } else {
            Err(
                MessagingError::Signature {
                    message: "the delivery's signature does not match the channel secret".to_owned(),
                },
            )
        }
    }
}

impl<H: HandleWebhookEvent> MessagingApi<H> {
    /// Returns the channel's cached access token, or issues one through
    /// `issuer` and caches it. When a token is already cached, the issuer is
    /// not consulted at all; once issued, a token is cached and reused, and
    /// a cached token is never replaced.
    pub fn get_access_token<T: AccessTokenIssuer>(channel: &mut Channel<H>, issuer: &mut T) -> (r:
        Result<String, OAuthError>)
        ensures
            final(channel).id == old(channel).id,
            final(channel).user_id == old(channel).user_id,
            final(channel).secret == old(channel).secret,
            old(channel).access_token matches Some(t) ==> {
                &&& r == Ok::<String, OAuthError>(t)
                &&& final(channel).access_token == old(channel).access_token
                &&& *final(issuer) == *old(issuer)
                &&& *final(channel) == *old(channel)
            },
            r matches Ok(t) ==> final(channel).access_token == Some(t),
            r is Err ==> final(channel).access_token == old(channel).access_token,
    {
        match &channel.access_token {
            Some(t) => Ok(t.clone()),
            None => {
                match crate::oauth::issue_access_token(
                    issuer,
                    channel.id,
                    channel.secret.as_str(),
                ) {
                    Ok(t) => {
                        channel.access_token = Some(t.clone());
                        Ok(t)
                    },
                    Err(e) => Err(e),
                }
            },
        }
    }

    /// Dispatches one authenticated delivery: each event, in order, goes to
    /// the destination channel's handler; each reply the handler produces is
    /// sent with the channel's access token, issued on first use. The first
    /// failure aborts the remaining events and is surfaced.
    ///
    /// Whatever the handler and the collaborators do: the registry's keys do
    /// not change; no channel but the destination's changes; the
    /// destination channel keeps its identity and secret, and a token it had
    /// is kept. An unknown destination changes nothing at all.
    pub fn handle_event<T: AccessTokenIssuer, S: ReplyTransport>(
        &mut self,
        body: RequestBody,
        issuer: &mut T,
        transport: &mut S,
    ) -> (r: MessagingResult<()>)
        ensures
            r matches Err(MessagingError::Destination { .. }) <==> !old(self)@.contains_key(
                body.destination@,
            ),
            !old(self)@.contains_key(body.destination@) ==> {
                &&& final(self)@ == old(self)@
                &&& *final(issuer) == *old(issuer)
                &&& *final(transport) == *old(transport)
            },
            old(self)@.contains_key(body.destination@) && body.events@.len() == 0 ==> r is Ok,
            r matches Err(e) ==> (e is Destination || e is OAuth || e is Reply),
            old(self)@.contains_key(body.destination@) ==> {
                &&& final(self)@.dom() == old(self)@.dom()
                &&& (forall|k: Seq<char>|
                    k != body.destination@ && old(self)@.contains_key(k)
                        ==> final(self)@[k] == old(self)@[k])
                &&& final(self)@[body.destination@].user_id
                    == old(self)@[body.destination@].user_id
                &&& final(self)@[body.destination@].secret == old(self)@[body.destination@].secret
                &&& final(self)@[body.destination@].id == old(self)@[body.destination@].id
                &&& (old(self)@[body.destination@].access_token matches Some(t)
                    ==> final(self)@[body.destination@].access_token == Some(t))
            },
    {
        let ghost dest = body.destination@;
        let ghost orig = self.channels@;
        let i = match self.get_channel(body.destination.as_str()) {
            Ok(i) => i,
            Err(e) => {
                return Err(e);
            },
        };
        let mut events = body.events;
        proof {
            assert(self.channels@ =~= orig.update(i as int, self.channels@[i as int]));
        }
        while events.len() > 0
            invariant
                dest == body.destination@,
                events@.len() <= body.events@.len(),
                0 <= i < self.channels@.len(),
                self.channels@.len() == orig.len(),
                orig == old(self).channels@,
                old(self)@.contains_key(dest),
                orig[i as int] == old(self)@[dest],
                orig[i as int].user_id@ == dest,
                forall|j: int| i < j < orig.len() ==> orig[j].user_id@ != dest,
                self.channels@ == orig.update(i as int, self.channels@[i as int]),
                self.channels@[i as int].user_id == orig[i as int].user_id,
                self.channels@[i as int].secret == orig[i as int].secret,
                self.channels@[i as int].id == orig[i as int].id,
                orig[i as int].access_token matches Some(t) ==> self.channels@[i as
                    int].access_token == Some(t),
            decreases events@.len(),
        {
            let e = events.remove(0);
            let ch = &mut self.channels[i];
            let reply_opt = ch.handle_event(e);
            proof {
                assert(self.channels@ =~= orig.update(i as int, self.channels@[i as int]));
            }
            match reply_opt {
                Some(reply) => {
                    let ch2 = &mut self.channels[i];
                    let token = match Self::get_access_token(ch2, issuer) {
                        Ok(t) => t,
                        Err(error) => {
                            proof {
                                assert(self.channels@ =~= orig.update(
                                    i as int,
                                    self.channels@[i as int],
                                ));
                                Self::lemma_end_state(orig, self.channels@, i as int, dest);
                            }
                            return Err(MessagingError::OAuth { error });
                        },
                    };
                    proof {
                        assert(self.channels@ =~= orig.update(i as int, self.channels@[i as int]));
                    }
                    match crate::reply::respond(transport, token.as_str(), &reply) {
                        Ok(()) => {},
                        Err(error) => {
                            proof {
                                Self::lemma_end_state(orig, self.channels@, i as int, dest);
                            }
                            return Err(MessagingError::Reply { error });
                        },
                    }
                },
                None => {},
            }
        }
        proof {
            Self::lemma_end_state(orig, self.channels@, i as int, dest);
        }
        Ok(())
    }

    /// The loop invariant's consequences for the registry abstraction.
    proof fn lemma_end_state(orig: Seq<Channel<H>>, cur: Seq<Channel<H>>, i: int, dest: Seq<char>)
        requires
            0 <= i < orig.len(),
            cur.len() == orig.len(),
            orig[i].user_id@ == dest,
            forall|j: int| i < j < orig.len() ==> orig[j].user_id@ != dest,
            cur == orig.update(i, cur[i]),
            cur[i].user_id == orig[i].user_id,
        ensures
            registry_of(cur) == registry_of(orig).insert(dest, cur[i]),
            registry_of(cur).dom() == registry_of(orig).dom(),
            forall|k: Seq<char>|
                k != dest && registry_of(orig).contains_key(k) ==> registry_of(cur)[k]
                    == registry_of(orig)[k],
            registry_of(cur).contains_key(dest),
            registry_of(cur)[dest] == cur[i],
    {
        lemma_registry_update(orig, i, cur[i]);
        lemma_registry_at(orig, dest, i);
        assert(registry_of(cur) == registry_of(orig).insert(dest, cur[i]));
        assert(registry_of(cur).dom() =~= registry_of(orig).dom());
    }
}

} // verus!
