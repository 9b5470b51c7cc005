//! Message identifiers and input classification.

use astrid::identity::FrontendType;
use astrid::input::{ContextIdentifier, InputClassification, MessageId, TaggedMessage, Timestamp};
use astrid::user_identity::AstridUserId;

#[test]
fn test_message_id_creation() {
    let msg = MessageId::new("discord", "123456789");
    assert_eq!(msg.frontend, "discord");
    assert_eq!(msg.id, "123456789");
    assert_eq!(msg.to_string(), "discord:123456789");
}

#[test]
fn test_message_id_helpers() {
    let cli = MessageId::cli(42);
    assert_eq!(cli.frontend, "cli");
    assert_eq!(cli.id, "seq_42");

    let discord = MessageId::discord(123456789);
    assert_eq!(discord.frontend, "discord");
    assert_eq!(discord.id, "123456789");
}

#[test]
fn test_input_classification() {
    assert!(InputClassification::SignedUser.is_trusted());
    assert!(InputClassification::Capability.is_trusted());
    assert!(!InputClassification::Untrusted.is_trusted());
    assert!(InputClassification::Untrusted.requires_sanitization());
}

#[test]
fn test_context_identifier_dm() {
    let user_id = uuid::Uuid::new_v4().as_u128();
    let ctx = ContextIdentifier::dm(user_id);
    assert!(ctx.is_private());
    assert!(!ctx.is_public());
    assert_eq!(ctx.session_user(), Some(user_id));
}

#[test]
fn test_context_identifier_guild() {
    let ctx = ContextIdentifier::guild_channel("guild123", "channel456");
    assert!(!ctx.is_private());
    assert!(!ctx.is_public());

    let display = ctx.to_string();
    assert!(display.contains("guild:guild123"));
    assert!(display.contains("channel:channel456"));
}

#[test]
fn test_tagged_message() {
    let user = AstridUserId::new();
    let msg = TaggedMessage::new(
        MessageId::discord(123),
        user.clone(),
        "discord_user_123",
        FrontendType::Discord,
        ContextIdentifier::dm(user.id),
        "Hello, world!",
    );

    assert!(msg.is_dm());
    assert!(!msg.is_signed());
}

const A: u128 = 0x0123_4567_89ab_cdef_0123_4567_89ab_cdef;
const B: u128 = 0xfedc_ba98_7654_3210_fedc_ba98_7654_3210;

#[test]
fn context_display_forms() {
    let dm = ContextIdentifier::DirectMessage { participant_ids: vec![A, B] };
    assert_eq!(dm.to_string(), "dm:01234567,fedcba98");
    assert_eq!(dm.participants(), Some(&[A, B][..]));
    assert_eq!(dm.session_user(), None);
    let group = ContextIdentifier::GroupChat { group_id: "g1".to_string(), participant_ids: vec![A, B, A] };
    assert_eq!(group.to_string(), "group:g1(3)");
    assert!(group.is_private());
    let web = ContextIdentifier::WebSession { session_id: "abcdefghijk".to_string(), user_id: B };
    assert_eq!(web.to_string(), "web:abcdefgh@fedcba98");
    assert_eq!(web.session_user(), Some(B));
    assert_eq!(web.participants(), None);
    let cli = ContextIdentifier::cli_session("s1", A);
    assert_eq!(cli.to_string(), "cli:s1@01234567");
    let thread = ContextIdentifier::Thread {
        parent: Box::new(ContextIdentifier::guild_channel("g", "c")),
        thread_id: "t9".to_string(),
    };
    assert_eq!(thread.to_string(), "guild:g/channel:c/thread:t9");
    assert!(!thread.is_private() && !thread.is_public());
    let public = ContextIdentifier::PublicBroadcast { platform: "x".to_string(), broadcast_id: "42".to_string() };
    assert_eq!(public.to_string(), "public:x:42");
    assert!(public.is_public());
}

#[test]
fn tagged_message_signing_and_display() {
    let user = AstridUserId::from_parts(A, 0).with_public_key([1u8; 32]);
    let msg = TaggedMessage::new(
        MessageId::new("cli", "seq_1"),
        user,
        "local",
        FrontendType::Cli,
        ContextIdentifier::cli_session("sess", A),
        "hi",
    );
    assert!(!msg.is_signed());
    let mut msg = msg.with_signature("c2ln");
    assert!(msg.is_signed());
    msg.timestamp = Timestamp::from_parts(0, 0).unwrap();
    let data = msg.signable_data();
    let mut expected = b"cli:seq_1".to_vec();
    expected.extend_from_slice(&A.to_be_bytes());
    expected.extend_from_slice(b"1970-01-01T00:00:00+00:00");
    expected.extend_from_slice(b"hi");
    assert_eq!(data, expected);
    assert_eq!(msg.to_string(), "[cli:seq_1] user:01234567 (cli:sess@01234567): hi");
    msg.content = "x".repeat(60);
    assert_eq!(msg.to_string(), format!("[cli:seq_1] user:01234567 (cli:sess@01234567): {}...", "x".repeat(50)));
}

#[test]
fn timestamps_exist_across_four_digit_years() {
    assert!(Timestamp::from_parts(253_402_300_799, 999_999_999).is_some());
    assert!(Timestamp::from_parts(-62_135_596_800, 0).is_some());
    assert!(Timestamp::from_parts(i64::MAX, 0).is_none());
    assert!(Timestamp::from_parts(0, 1_000_000_000).is_none());
    let t = Timestamp::from_parts(12, 34).unwrap();
    assert_eq!((t.secs(), t.subsec_nanos()), (12, 34));
}

#[test]
fn signed_timestamps_keep_their_nanoseconds() {
    let user = AstridUserId::from_parts(A, 0);
    let mut msg = TaggedMessage::new(
        MessageId::new("cli", "s"),
        user,
        "local",
        FrontendType::Cli,
        ContextIdentifier::cli_session("sess", A),
        "x",
    );
    msg.timestamp = Timestamp::from_parts(0, 123_456_789).unwrap();
    assert_eq!(msg.timestamp.to_rfc3339(), "1970-01-01T00:00:00.123456789+00:00");
    let data = msg.signable_data();
    let stamp: &[u8] = b"1970-01-01T00:00:00.123456789+00:00";
    assert!(data.windows(stamp.len()).any(|w| w == stamp));
    msg.timestamp = Timestamp::from_parts(1_431_648_000, 500_000_000).unwrap();
    assert_eq!(msg.timestamp.to_rfc3339(), "2015-05-15T00:00:00.500+00:00");
}
