//! Input attribution: message identifiers and trust classification.

use vstd::prelude::*;
use crate::identity::{frontend_display, FrontendType};
use crate::text::{
    byte_len, cat, cat3, decimal, str_to_chars, truncate_to_boundary, truncated_to_boundary, u64_to_decimal,
    IntoText,
};
use crate::user_identity::{short_id, short_uuid, user_display, AstridUserId};
use vstd::utf8::encode_utf8;

verus! {

/// Unique message identifier: the frontend type together with the
/// frontend-specific message id.
#[derive(Debug, Clone, PartialEq, Eq, Hash)]
pub struct MessageId {
    /// Frontend type (discord, telegram, cli, etc.)
    pub frontend: String,
    /// Frontend-specific message ID
    pub id: String,
}

impl MessageId {
    /// Create a new message ID.
    pub fn new<F: IntoText, I: IntoText>(frontend: F, id: I) -> (r: Self)
        ensures
            r.frontend@ == frontend.text_view(),
            r.id@ == id.text_view(),
    {
        MessageId { frontend: frontend.into_text(), id: id.into_text() }
    }

    /// Create a message ID for a CLI input: frontend `cli`, id `seq_{n}`.
    pub fn cli(sequence: u64) -> (r: Self)
        ensures
            r.frontend@ == "cli"@,
            r.id@ == "seq_"@ + decimal(sequence as nat),
    {
        let mut id = String::from_str("seq_");
        let digits = u64_to_decimal(sequence);
        id.append(digits.as_str());
        MessageId { frontend: String::from_str("cli"), id }
    }

    /// Create a message ID for a Discord message: frontend `discord`, id the
    /// decimal snowflake.
    pub fn discord(snowflake: u64) -> (r: Self)
        ensures
            r.frontend@ == "discord"@,
            r.id@ == decimal(snowflake as nat),
    {
        MessageId { frontend: String::from_str("discord"), id: u64_to_decimal(snowflake) }
    }

    /// Create a message ID from a frontend type, named by its display form.
    pub fn from_frontend<I: IntoText>(frontend: &FrontendType, id: I) -> (r: Self)
        ensures
            r.frontend@ == frontend_display(*frontend),
            r.id@ == id.text_view(),
    {
        MessageId { frontend: frontend.to_string(), id: id.into_text() }
    }

    /// The display form `{frontend}:{id}`.
    pub fn to_string(&self) -> (r: String)
        ensures
            r@ == self.frontend@ + ":"@ + self.id@,
    {
        let mut s = self.frontend.clone();
        s.append(":");
        s.append(self.id.as_str());
        s
    }
}

/// Input classification for security decisions.
#[derive(Debug, Clone, Copy, PartialEq, Eq, Hash)]
pub enum InputClassification {
    /// Verified user signature - highest trust
    SignedUser,
    /// Pre-authorized via capability token
    Capability,
    /// Tool results, external data - never execute directly
    Untrusted,
    /// From the agent itself (e.g., reasoning)
    AgentInternal,
}

impl InputClassification {
    /// Whether this input can be trusted to make security decisions: signed
    /// user input and capability-authorised input.
    pub fn is_trusted(&self) -> (r: bool)
        ensures
            r == (*self is SignedUser || *self is Capability),
    {
        matches!(self, InputClassification::SignedUser | InputClassification::Capability)
    }

    /// Whether this input must be treated as potentially malicious.
    pub fn requires_sanitization(&self) -> (r: bool)
        ensures
            r == (*self is Untrusted),
    {
        matches!(self, InputClassification::Untrusted)
    }

    /// The display form (`signed_user`, `capability`, `untrusted`,
    /// `agent_internal`).
    pub fn to_string(&self) -> (r: String)
        ensures
            r@ == match *self {
                InputClassification::SignedUser => "signed_user"@,
                InputClassification::Capability => "capability"@,
                InputClassification::Untrusted => "untrusted"@,
                InputClassification::AgentInternal => "agent_internal"@,
            },
    {
        match self {
            InputClassification::SignedUser => String::from_str("signed_user"),
            InputClassification::Capability => String::from_str("capability"),
            InputClassification::Untrusted => String::from_str("untrusted"),
            InputClassification::AgentInternal => String::from_str("agent_internal"),
        }
    }
}

/// Where a message came from; decides the default access rules of what
/// is remembered from it. User ids are UUID bits.
#[derive(Debug, PartialEq, Eq, Hash)]
pub enum ContextIdentifier {
    /// Direct message between users and the agent.
    DirectMessage {
        /// Participant user ids (the agent excluded).
        participant_ids: Vec<u128>,
    },
    /// A guild or server channel.
    GuildChannel {
        /// Guild or server id.
        guild_id: String,
        /// Channel id.
        channel_id: String,
    },
    /// A private group chat.
    GroupChat {
        /// Group id.
        group_id: String,
        /// Participant user ids.
        participant_ids: Vec<u128>,
    },
    /// A web session.
    WebSession {
        /// Session id.
        session_id: String,
        /// User id.
        user_id: u128,
    },
    /// A CLI session.
    CliSession {
        /// Session id.
        session_id: String,
        /// User id.
        user_id: u128,
    },
    /// A thread within another context.
    Thread {
        /// The context the thread belongs to.
        parent: Box<ContextIdentifier>,
        /// Thread id.
        thread_id: String,
    },
    /// A public broadcast.
    PublicBroadcast {
        /// Platform.
        platform: String,
        /// Broadcast id.
        broadcast_id: String,
    },
}

/// The short ids of `ids`, joined by commas.
pub open spec fn joined_short_ids(ids: Seq<u128>) -> Seq<char>
    decreases ids.len(),
{
    if ids.len() == 0 {
        Seq::empty()
    } else if ids.len() == 1 {
        short_id(ids[0])
    } else {
        joined_short_ids(ids.drop_last()) + ","@ + short_id(ids.last())
    }
}

/// The first 8 bytes of `s` end at a character boundary, or `s` is
/// shorter: cutting it there does not split a character.
pub open spec fn cut8_ok(s: Seq<char>) -> bool {
    byte_len(s) <= 8 || byte_len(truncated_to_boundary(s, 8)) == 8
}

/// Every session id in the context can be cut after 8 bytes.
pub open spec fn context_displayable(c: ContextIdentifier) -> bool
    decreases c,
{
    match c {
        ContextIdentifier::WebSession { session_id, .. } => cut8_ok(session_id@),
        ContextIdentifier::CliSession { session_id, .. } => cut8_ok(session_id@),
        ContextIdentifier::Thread { parent, .. } => context_displayable(*parent),
        _ => true,
    }
}

/// How a context is shown.
pub open spec fn context_display(c: ContextIdentifier) -> Seq<char>
    decreases c,
{
    match c {
        ContextIdentifier::DirectMessage { participant_ids } => "dm:"@ + joined_short_ids(participant_ids@),
        ContextIdentifier::GuildChannel { guild_id, channel_id } => "guild:"@ + guild_id@ + "/channel:"@
            + channel_id@,
        ContextIdentifier::GroupChat { group_id, participant_ids } => "group:"@ + group_id@ + "("@
            + decimal(participant_ids@.len()) + ")"@,
        ContextIdentifier::WebSession { session_id, user_id } => "web:"@ + truncated_to_boundary(
            session_id@,
            8,
        ) + "@"@ + short_id(user_id),
        ContextIdentifier::CliSession { session_id, user_id } => "cli:"@ + truncated_to_boundary(
            session_id@,
            8,
        ) + "@"@ + short_id(user_id),
        ContextIdentifier::Thread { parent, thread_id } => context_display(*parent) + "/thread:"@
            + thread_id@,
        ContextIdentifier::PublicBroadcast { platform, broadcast_id } => "public:"@ + platform@ + ":"@
            + broadcast_id@,
    }
}

fn session_head(s: &String) -> (r: String)
    ensures
        r@ == truncated_to_boundary(s@, 8),
{
    let cs = str_to_chars(s.as_str());
    let head = truncate_to_boundary(&cs, 8);
    crate::text::chars_to_string(&head)
}

impl ContextIdentifier {
    /// A direct-message context with one participant.
    pub fn dm(user_id: u128) -> (r: Self)
        ensures
            r matches ContextIdentifier::DirectMessage { participant_ids } && participant_ids@ == seq![user_id],
    {
        let mut v: Vec<u128> = Vec::new();
        v.push(user_id);
        ContextIdentifier::DirectMessage { participant_ids: v }
    }

    /// A guild channel context.
    pub fn guild_channel<A: IntoText, B: IntoText>(guild_id: A, channel_id: B) -> (r: Self)
        ensures
            r matches ContextIdentifier::GuildChannel { guild_id: g, channel_id: c } && g@ == guild_id.text_view()
                && c@ == channel_id.text_view(),
    {
        ContextIdentifier::GuildChannel { guild_id: guild_id.into_text(), channel_id: channel_id.into_text() }
    }

    /// A CLI session context.
    pub fn cli_session<S: IntoText>(session_id: S, user_id: u128) -> (r: Self)
        ensures
            r matches ContextIdentifier::CliSession { session_id: s, user_id: u } && s@ == session_id.text_view()
                && u == user_id,
    {
        ContextIdentifier::CliSession { session_id: session_id.into_text(), user_id }
    }

    /// Whether the context is private: a direct message, a group chat, a
    /// CLI or a web session.
    pub fn is_private(&self) -> (r: bool)
        ensures
            r == (*self is DirectMessage || *self is GroupChat || *self is CliSession
                || *self is WebSession),
    {
        matches!(
            self,
            ContextIdentifier::DirectMessage { .. } | ContextIdentifier::GroupChat { .. }
                | ContextIdentifier::CliSession { .. } | ContextIdentifier::WebSession { .. }
        )
    }

    /// Whether the context is a public broadcast.
    pub fn is_public(&self) -> (r: bool)
        ensures
            r == (*self is PublicBroadcast),
    {
        matches!(self, ContextIdentifier::PublicBroadcast { .. })
    }

    /// The participants of a direct message or group chat.
    pub fn participants(&self) -> (r: Option<&[u128]>)
        ensures
            match *self {
                ContextIdentifier::DirectMessage { participant_ids } => r matches Some(p) && p@ == participant_ids@,
                ContextIdentifier::GroupChat { participant_ids, .. } => r matches Some(p) && p@ == participant_ids@,
                _ => r is None,
            },
    {
        match self {
            ContextIdentifier::DirectMessage { participant_ids } => Some(participant_ids.as_slice()),
            ContextIdentifier::GroupChat { participant_ids, .. } => Some(participant_ids.as_slice()),
            _ => None,
        }
    }

    /// The single user of a session, or of a direct message with one
    /// participant.
    pub fn session_user(&self) -> (r: Option<u128>)
        ensures
            r == match *self {
                ContextIdentifier::WebSession { user_id, .. } => Some(user_id),
                ContextIdentifier::CliSession { user_id, .. } => Some(user_id),
                ContextIdentifier::DirectMessage { participant_ids } => if participant_ids@.len() == 1 {
                    Some(participant_ids@[0])
                } else {
                    None
                },
                _ => None,
            },
    {
        match self {
            ContextIdentifier::WebSession { user_id, .. } => Some(*user_id),
            ContextIdentifier::CliSession { user_id, .. } => Some(*user_id),
            ContextIdentifier::DirectMessage { participant_ids } => {
                if participant_ids.len() == 1 {
                    Some(participant_ids[0])
                } else {
                    None
                }
            },
            _ => None,
        }
    }

    /// The display form: `dm:{ids}`, `guild:{g}/channel:{c}`,
    /// `group:{g}({n})`, `web:{session}@{user}`, `cli:{session}@{user}`,
    /// `{parent}/thread:{t}` or `public:{platform}:{id}`, where ids are the
    /// first 8 characters of the UUID and sessions their first 8 bytes.
    pub fn to_string(&self) -> (r: String)
        requires
            context_displayable(*self),
        ensures
            r@ == context_display(*self),
        decreases *self,
    {
        proof {
            reveal_strlit("dm:");
            reveal_strlit(",");
            reveal_strlit("guild:");
            reveal_strlit("/channel:");
            reveal_strlit("group:");
            reveal_strlit("(");
            reveal_strlit(")");
            reveal_strlit("web:");
            reveal_strlit("cli:");
            reveal_strlit("@");
            reveal_strlit("/thread:");
            reveal_strlit("public:");
            reveal_strlit(":");
        }
        match self {
            ContextIdentifier::DirectMessage { participant_ids } => {
                let mut s = String::from_str("dm:");
                let mut i: usize = 0;
                assert(participant_ids@.take(0) =~= Seq::<u128>::empty());
                while i < participant_ids.len()
                    invariant
                        i <= participant_ids@.len(),
                        s@ == "dm:"@ + joined_short_ids(participant_ids@.take(i as int)),
                    decreases participant_ids@.len() - i,
                {
                    let short = short_uuid(participant_ids[i]);
                    let ghost before = s@;
                    if i > 0 {
                        s.append(",");
                    }
                    s.append(short.as_str());
                    proof {
                        let t = participant_ids@.take(i + 1);
                        assert(t.drop_last() =~= participant_ids@.take(i as int));
                        assert(t.last() == participant_ids@[i as int]);
                        if i == 0 {
                            assert(t.len() == 1);
                            assert(s@ =~= "dm:"@ + joined_short_ids(t));
                        } else {
                            assert(s@ =~= "dm:"@ + joined_short_ids(t));
                        }
                    }
                    i = i + 1;
                }
                assert(participant_ids@.take(i as int) =~= participant_ids@);
                s
            },
            ContextIdentifier::GuildChannel { guild_id, channel_id } => {
                let mut s = cat("guild:", guild_id.as_str());
                s.append("/channel:");
                s.append(channel_id.as_str());
                s
            },
            ContextIdentifier::GroupChat { group_id, participant_ids } => {
                let n = u64_to_decimal(participant_ids.len() as u64);
                let mut s = cat3("group:", group_id.as_str(), "(");
                s.append(n.as_str());
                s.append(")");
                s
            },
            ContextIdentifier::WebSession { session_id, user_id } => {
                let head = session_head(session_id);
                let short = short_uuid(*user_id);
                let mut s = cat3("web:", head.as_str(), "@");
                s.append(short.as_str());
                s
            },
            ContextIdentifier::CliSession { session_id, user_id } => {
                let head = session_head(session_id);
                let short = short_uuid(*user_id);
                let mut s = cat3("cli:", head.as_str(), "@");
                s.append(short.as_str());
                s
            },
            ContextIdentifier::Thread { parent, thread_id } => {
                let p = (**parent).to_string();
                let mut s = cat(p.as_str(), "/thread:");
                s.append(thread_id.as_str());
                s
            },
            ContextIdentifier::PublicBroadcast { platform, broadcast_id } => {
                let mut s = cat3("public:", platform.as_str(), ":");
                s.append(broadcast_id.as_str());
                s
            },
        }
    }
}

impl Clone for ContextIdentifier {
    fn clone(&self) -> Self
        decreases self,
    {
        match self {
            ContextIdentifier::DirectMessage { participant_ids } => ContextIdentifier::DirectMessage {
                participant_ids: participant_ids.clone(),
            },
            ContextIdentifier::GuildChannel { guild_id, channel_id } => ContextIdentifier::GuildChannel {
                guild_id: guild_id.clone(),
                channel_id: channel_id.clone(),
            },
            ContextIdentifier::GroupChat { group_id, participant_ids } => ContextIdentifier::GroupChat {
                group_id: group_id.clone(),
                participant_ids: participant_ids.clone(),
            },
            ContextIdentifier::WebSession { session_id, user_id } => ContextIdentifier::WebSession {
                session_id: session_id.clone(),
                user_id: *user_id,
            },
            ContextIdentifier::CliSession { session_id, user_id } => ContextIdentifier::CliSession {
                session_id: session_id.clone(),
                user_id: *user_id,
            },
            ContextIdentifier::Thread { parent, thread_id } => ContextIdentifier::Thread {
                parent: Box::new((**parent).clone()),
                thread_id: thread_id.clone(),
            },
            ContextIdentifier::PublicBroadcast { platform, broadcast_id } => ContextIdentifier::PublicBroadcast {
                platform: platform.clone(),
                broadcast_id: broadcast_id.clone(),
            },
        }
    }
}

/// The RFC 3339 text chrono writes for the instant `secs` seconds and
/// `nanos` nanoseconds after the Unix epoch, in UTC.
pub uninterp spec fn rfc3339_text(secs: i64, nanos: u32) -> Seq<char>;

/// Whether chrono represents the instant `secs` seconds and `nanos`
/// nanoseconds after the Unix epoch.
pub uninterp spec fn chrono_instant(secs: i64, nanos: u32) -> bool;

/// The seconds from 0001-01-01T00:00:00Z to 9999-12-31T23:59:59Z, since
/// the Unix epoch.
pub open spec fn in_four_digit_years(secs: i64) -> bool {
    -62_135_596_800 <= secs <= 253_402_300_799
}

/// `chrono::DateTime::<Utc>::from_timestamp(secs, nanos).is_some()`: the
/// contract names the answer [`chrono_instant`] and claims it is yes for
/// every second of the years 1 to 9999 with fewer than 10^9 nanoseconds
/// (chrono represents the years -262143 to 262142, and such a nanosecond
/// count is always valid); where else it holds is not stated.
#[verifier::external_body]
fn instant_exists(secs: i64, nanos: u32) -> (r: bool)
    ensures
        r == chrono_instant(secs, nanos),
        in_four_digit_years(secs) && nanos < 1_000_000_000 ==> r,
{
    chrono::DateTime::<chrono::Utc>::from_timestamp(secs, nanos).is_some()
}

/// `to_rfc3339` of the instant chrono builds with `from_timestamp(secs,
/// nanos)`, which exists by the `requires`; the text is named
/// [`rfc3339_text`].
#[verifier::external_body]
fn rfc3339_of(secs: i64, nanos: u32) -> (r: String)
    requires
        chrono_instant(secs, nanos),
    ensures
        r@ == rfc3339_text(secs, nanos),
{
    match chrono::DateTime::<chrono::Utc>::from_timestamp(secs, nanos) {
        Some(t) => t.to_rfc3339(),
        None => String::new(),
    }
}

/// `chrono::Utc::now()` as its seconds and sub-second nanoseconds since the
/// Unix epoch. The contract claims only that chrono represents that
/// instant, as its documentation shows `from_timestamp(dt.timestamp(),
/// dt.timestamp_subsec_nanos())` giving `dt` back; which instant it is, is
/// the clock's.
#[verifier::external_body]
fn now_instant() -> (r: (i64, u32))
    ensures
        chrono_instant(r.0, r.1),
{
    let t = chrono::Utc::now();
    (t.timestamp(), t.timestamp_subsec_nanos())
}

/// An instant chrono represents, in UTC: seconds and nanoseconds since the
/// Unix epoch.
#[derive(Debug, Clone, Copy, PartialEq, Eq)]
pub struct Timestamp {
    secs: i64,
    nanos: u32,
}

impl Timestamp {
    #[verifier::type_invariant]
    closed spec fn represented(self) -> bool {
        chrono_instant(self.secs, self.nanos)
    }

    /// The seconds and nanoseconds since the Unix epoch.
    pub closed spec fn parts(self) -> (i64, u32) {
        (self.secs, self.nanos)
    }

    /// The current time.
    pub fn now() -> (r: Self)
        ensures
            chrono_instant(r.parts().0, r.parts().1),
    {
        let (secs, nanos) = now_instant();
        Timestamp { secs, nanos }
    }

    /// The instant `secs` seconds and `nanos` nanoseconds after the Unix
    /// epoch, when chrono represents it.
    pub fn from_parts(secs: i64, nanos: u32) -> (r: Option<Self>)
        ensures
            r is Some <==> chrono_instant(secs, nanos),
            r matches Some(t) ==> t.parts() == (secs, nanos),
            in_four_digit_years(secs) && nanos < 1_000_000_000 ==> r is Some,
    {
        if instant_exists(secs, nanos) {
            Some(Timestamp { secs, nanos })
        } else {
            None
        }
    }

    /// Seconds since the Unix epoch.
    pub fn secs(&self) -> (r: i64)
        ensures
            r == self.parts().0,
    {
        self.secs
    }

    /// Nanoseconds past the second.
    pub fn subsec_nanos(&self) -> (r: u32)
        ensures
            r == self.parts().1,
    {
        self.nanos
    }

    /// The instant as chrono's RFC 3339 text.
    pub fn to_rfc3339(&self) -> (r: String)
        ensures
            r@ == rfc3339_text(self.parts().0, self.parts().1),
    {
        proof {
            use_type_invariant(self);
        }
        rfc3339_of(self.secs, self.nanos)
    }
}

/// The 16 bytes of a UUID, most significant first.
pub open spec fn uuid_bytes(id: u128) -> Seq<u8> {
    Seq::new(16, |i: int| ((id >> ((8 * (15 - i)) as u128)) & 0xffu128) as u8)
}

/// A message with its source: who sent it, from which platform and
/// context, when, and the user's signature if any.
pub struct TaggedMessage {
    /// The platform's message id.
    pub message_id: MessageId,
    /// Who sent it.
    pub astrid_user_id: AstridUserId,
    /// The platform's user id.
    pub frontend_user_id: String,
    /// The platform it came from.
    pub frontend: FrontendType,
    /// Where it came from.
    pub context: ContextIdentifier,
    /// When it was sent.
    pub timestamp: Timestamp,
    /// The content.
    pub content: String,
    /// The user's base64 ed25519 signature, if any.
    pub user_signature: Option<String>,
}

/// The display form of a message's content: as is up to 50 bytes, else
/// its first 50 bytes (never splitting a character) and `...`.
pub open spec fn content_preview(c: Seq<char>) -> Seq<char> {
    if byte_len(c) > 50 {
        truncated_to_boundary(c, 50) + "..."@
    } else {
        c
    }
}

impl TaggedMessage {
    /// A message sent now, unsigned.
    pub fn new<U: IntoText, C: IntoText>(
        message_id: MessageId,
        astrid_user_id: AstridUserId,
        frontend_user_id: U,
        frontend: FrontendType,
        context: ContextIdentifier,
        content: C,
    ) -> (r: Self)
        ensures
            r.message_id == message_id,
            r.astrid_user_id == astrid_user_id,
            r.frontend_user_id@ == frontend_user_id.text_view(),
            r.frontend == frontend,
            r.context == context,
            r.content@ == content.text_view(),
            r.user_signature is None,
    {
        TaggedMessage {
            message_id,
            astrid_user_id,
            frontend_user_id: frontend_user_id.into_text(),
            frontend,
            context,
            timestamp: Timestamp::now(),
            content: content.into_text(),
            user_signature: None,
        }
    }

    /// Attach the user's signature.
    pub fn with_signature<S: IntoText>(self, signature: S) -> (r: Self)
        ensures
            r.user_signature matches Some(s) && s@ == signature.text_view(),
            r.message_id == self.message_id,
            r.astrid_user_id == self.astrid_user_id,
            r.frontend_user_id == self.frontend_user_id,
            r.frontend == self.frontend,
            r.context == self.context,
            r.timestamp == self.timestamp,
            r.content == self.content,
    {
        TaggedMessage { user_signature: Some(signature.into_text()), ..self }
    }

    /// Whether the message came from a direct message.
    pub fn is_dm(&self) -> (r: bool)
        ensures
            r == (self.context is DirectMessage),
    {
        matches!(self.context, ContextIdentifier::DirectMessage { .. })
    }

    /// Whether the message carries a signature and its sender has a
    /// signing key.
    pub fn is_signed(&self) -> (r: bool)
        ensures
            r == (self.user_signature is Some && self.astrid_user_id.public_key is Some),
    {
        self.user_signature.is_some() && self.astrid_user_id.has_signing_key()
    }

    /// What is signed: the message id's text, the sender's 16 UUID bytes,
    /// the timestamp as RFC 3339 text, and the content, as UTF-8, in that
    /// order.
    pub fn signable_data(&self) -> (r: Vec<u8>)
        ensures
            r@ == encode_utf8(self.message_id.frontend@ + ":"@ + self.message_id.id@) + uuid_bytes(
                self.astrid_user_id.id,
            ) + encode_utf8(rfc3339_text(self.timestamp.parts().0, self.timestamp.parts().1))
                + encode_utf8(self.content@),
    {
        let stamp = self.timestamp.to_rfc3339();
        let mut data: Vec<u8> = Vec::new();
        let id_text = self.message_id.to_string();
        append_bytes(&mut data, id_text.as_str());
        let id = self.astrid_user_id.id;
        let mut i: usize = 0;
        let ghost start = data@;
        while i < 16
            invariant
                i <= 16,
                data@ == start + uuid_bytes(id).take(i as int),
            decreases 16 - i,
        {
            let shift: u128 = (8 * (15 - i)) as u128;
            let b = ((id >> shift) & 0xff) as u8;
            data.push(b);
            assert(uuid_bytes(id).take(i + 1) =~= uuid_bytes(id).take(i as int).push(b));
            i = i + 1;
        }
        assert(uuid_bytes(id).take(16) =~= uuid_bytes(id));
        append_bytes(&mut data, stamp.as_str());
        append_bytes(&mut data, self.content.as_str());
        proof {
            assert(data@ =~= encode_utf8(self.message_id.frontend@ + ":"@ + self.message_id.id@) + uuid_bytes(
                self.astrid_user_id.id,
            ) + encode_utf8(stamp@) + encode_utf8(self.content@));
        }
        data
    }

    /// The display form `[{message id}] {sender} ({context}): {content}`,
    /// the content cut after 50 bytes with `...`.
    pub fn to_string(&self) -> (r: String)
        requires
            context_displayable(self.context),
        ensures
            r@ == "["@ + self.message_id.frontend@ + ":"@ + self.message_id.id@ + "] "@ + user_display(
                self.astrid_user_id,
            ) + " ("@ + context_display(self.context) + "): "@ + content_preview(self.content@),
    {
        proof {
            reveal_strlit("[");
            reveal_strlit("] ");
            reveal_strlit(" (");
            reveal_strlit("): ");
            reveal_strlit("...");
        }
        let mid = self.message_id.to_string();
        let user = self.astrid_user_id.to_string();
        let ctx = self.context.to_string();
        let chars = str_to_chars(self.content.as_str());
        let long = crate::text::byte_len_exceeds(&chars, 50);
        let body = if long {
            let head = truncate_to_boundary(&chars, 50);
            let h = crate::text::chars_to_string(&head);
            cat(h.as_str(), "...")
        } else {
            self.content.clone()
        };
        let mut s = cat3("[", mid.as_str(), "] ");
        s.append(user.as_str());
        s.append(" (");
        s.append(ctx.as_str());
        s.append("): ");
        s.append(body.as_str());
        s
    }
}

/// Append the UTF-8 bytes of `s` to `data`.
fn append_bytes(data: &mut Vec<u8>, s: &str)
    ensures
        final(data)@ == old(data)@ + encode_utf8(s@),
{
    let b = s.as_bytes();
    let mut i: usize = 0;
    while i < b.len()
        invariant
            i <= b@.len(),
            b@ == encode_utf8(s@),
            data@ == old(data)@ + b@.take(i as int),
        decreases b@.len() - i,
    {
        data.push(b[i]);
        assert(b@.take(i + 1) =~= b@.take(i as int).push(b@[i as int]));
        i = i + 1;
    }
    assert(b@.take(i as int) =~= b@);
}

} // verus!
