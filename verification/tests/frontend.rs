//! Frontend types: channels, approval options, select options and errors.

use astrid::approval_keys::RiskLevel;
use astrid::error::SecurityError;
use astrid::input::ContextIdentifier;
use astrid::frontend::{
    ApprovalRequest, FrontendContext, FrontendSessionInfo,
    ApprovalDecision, ApprovalOption, Attachment, AttachmentType, ChannelInfo, ChannelType,
    ElicitationAction, ElicitationRequest, ElicitationResponse, ElicitationSchema, FrontendError,
    FrontendUser, IdentityError, SelectOption, UrlElicitationRequest, UrlElicitationResponse,
    UrlElicitationType, UserInput,
};
use astrid::string_map::StringMap;

#[test]
fn test_channel_info() {
    let dm = ChannelInfo::dm("dm_123");
    assert_eq!(dm.channel_type, ChannelType::DirectMessage);
    assert!(dm.guild_id.is_none());

    let guild = ChannelInfo::guild_channel("ch_456", "general", "guild_789");
    assert_eq!(guild.channel_type, ChannelType::GuildText);
    assert_eq!(guild.guild_id, Some("guild_789".to_string()));
}

#[test]
fn channel_type_names() {
    assert_eq!(ChannelType::DirectMessage.to_string(), "dm");
    assert_eq!(ChannelType::GuildText.to_string(), "text");
    assert_eq!(ChannelType::GroupDm.to_string(), "group_dm");
    assert_eq!(ChannelType::Web.to_string(), "web");
}

#[test]
fn approval_option_labels() {
    assert_eq!(ApprovalOption::AllowOnce.to_string(), "Allow Once");
    assert_eq!(ApprovalOption::AllowWorkspace.to_string(), "Allow Workspace");
    assert_eq!(ApprovalOption::Deny.to_string(), "Deny");
}

#[test]
fn select_option_description() {
    let o = SelectOption::new("v", "Label");
    assert!(o.description.is_none());
    let o = o.with_description("explained");
    assert_eq!(o.value, "v");
    assert_eq!(o.label, "Label");
    assert_eq!(o.description.as_deref(), Some("explained"));
}

#[test]
fn frontend_error_messages() {
    let e = FrontendError::ApprovalDenied { reason: "no".to_string() };
    assert_eq!(e.message(), "approval denied: no");
    let e = FrontendError::ApprovalTimeout { timeout_ms: 1500 };
    assert_eq!(e.message(), "approval timeout after 1500ms");
    let e = FrontendError::from(SecurityError::CapabilityExpired { token_id: "t1".to_string() });
    assert_eq!(e.message(), "capability token expired: t1");
}

#[test]
fn identity_error_messages() {
    let e = IdentityError::PlatformAlreadyLinked {
        platform: "discord".to_string(),
        existing_id: "u-1".to_string(),
    };
    assert_eq!(e.message(), "platform already linked: discord -> u-1");
    assert_eq!(IdentityError::VerificationExpired.message(), "verification expired");
}

#[test]
fn approval_decisions_classify_options() {
    let d = ApprovalDecision::new(7, ApprovalOption::AllowAlways).with_reason("trusted tool");
    assert!(d.is_approved() && d.creates_capability() && !d.creates_workspace_allowance());
    assert_eq!(d.reason.as_deref(), Some("trusted tool"));
    let w = ApprovalDecision::new(7, ApprovalOption::AllowWorkspace);
    assert!(w.is_approved() && !w.creates_capability() && w.creates_workspace_allowance());
    let n = ApprovalDecision::new(7, ApprovalOption::Deny);
    assert!(!n.is_approved() && !n.creates_capability() && !n.creates_workspace_allowance());
    assert!(ApprovalDecision::new(7, ApprovalOption::AllowOnce).is_approved());
}

#[test]
fn elicitation_builders() {
    let r = ElicitationRequest::new("srv", "Your name?");
    assert!(r.required);
    assert!(matches!(r.schema, ElicitationSchema::Text { placeholder: None, max_length: None }));
    let r2 = ElicitationRequest::new("srv", "Sure?")
        .with_schema(ElicitationSchema::Confirm { default: true })
        .optional();
    assert!(!r2.required);
    assert!(matches!(r2.schema, ElicitationSchema::Confirm { default: true }));
    assert_ne!(r.request_id, r2.request_id);
    let ok = ElicitationResponse::submit(r.request_id, serde_json::Value::String("Ada".to_string()));
    assert!(matches!(ok.action, ElicitationAction::Submit { value: serde_json::Value::String(ref s) } if s == "Ada"));
    assert!(matches!(ElicitationResponse::cancel(1).action, ElicitationAction::Cancel));
    assert!(matches!(ElicitationResponse::dismiss(1).action, ElicitationAction::Dismiss));
    let u = UrlElicitationRequest::new("srv", "https://example.com/auth", "Log in").with_type(UrlElicitationType::Payment);
    assert_eq!(u.elicitation_type, UrlElicitationType::Payment);
    assert_eq!(u.url, "https://example.com/auth");
    let mut data = StringMap::new();
    data.insert("code".to_string(), "abc".to_string());
    let done = UrlElicitationResponse::completed(3).with_callback_data(data);
    assert!(done.completed);
    assert_eq!(done.callback_data.as_ref().and_then(|m| m.get("code")), Some(&"abc".to_string()));
    assert!(!UrlElicitationResponse::not_completed(3).completed);
}

#[test]
fn users_and_inputs() {
    let u = FrontendUser::new("u1").with_astrid_id(9).with_display_name("Ann").with_admin(true);
    assert_eq!(u.frontend_user_id, "u1");
    assert_eq!(u.astrid_id, Some(9));
    assert_eq!(u.display_name.as_deref(), Some("Ann"));
    assert!(u.is_admin);
    let input = UserInput::new("look").with_attachment(Attachment {
        attachment_type: AttachmentType::Url,
        location: "https://example.com".to_string(),
        filename: None,
        mime_type: None,
    });
    assert_eq!(input.content, "look");
    assert_eq!(input.attachments.len(), 1);
    assert_eq!(input.attachments[0].attachment_type, AttachmentType::Url);
}

#[test]
fn test_frontend_user() {
    let user = FrontendUser::new("123").with_display_name("Alice").with_admin(true);
    assert_eq!(user.frontend_user_id, "123");
    assert_eq!(user.display_name, Some("Alice".to_string()));
    assert!(user.is_admin);
}

#[test]
fn test_elicitation_request() {
    let req = ElicitationRequest::new("test-server", "Enter your API key")
        .with_schema(ElicitationSchema::Secret { placeholder: None })
        .optional();
    assert_eq!(req.server_name, "test-server");
    assert!(!req.required);
}

#[test]
fn test_approval_decision() {
    let decision = ApprovalDecision::new(uuid::Uuid::new_v4().as_u128(), ApprovalOption::AllowOnce);
    assert!(decision.is_approved());
    assert!(!decision.creates_capability());
    let deny = ApprovalDecision::new(uuid::Uuid::new_v4().as_u128(), ApprovalOption::Deny);
    assert!(!deny.is_approved());
    let always = ApprovalDecision::new(uuid::Uuid::new_v4().as_u128(), ApprovalOption::AllowAlways);
    assert!(always.creates_capability());
}

#[test]
fn test_user_input() {
    let input = UserInput::new("Hello, world!");
    assert_eq!(input.content, "Hello, world!");
    assert!(input.attachments.is_empty());
}

#[test]
fn test_approval_request() {
    let req = ApprovalRequest::new("delete_file", "Delete important.txt?")
        .with_risk_level(RiskLevel::High)
        .with_resource("/home/user/important.txt");
    assert_eq!(req.risk_level, RiskLevel::High);
    assert!(req.resource.is_some());
}

#[test]
fn approval_requests_offer_every_option_by_default() {
    let req = ApprovalRequest::new("op", "desc");
    assert_eq!(req.risk_level, RiskLevel::Medium);
    assert_eq!(
        req.options,
        vec![
            ApprovalOption::AllowOnce,
            ApprovalOption::AllowSession,
            ApprovalOption::AllowWorkspace,
            ApprovalOption::AllowAlways,
            ApprovalOption::Deny,
        ]
    );
    assert_eq!(req.request_id >> 76 & 0xf, 4);
    let req = req.with_options(vec![ApprovalOption::Deny]);
    assert_eq!(req.options, vec![ApprovalOption::Deny]);
}

#[test]
fn frontend_context_and_session() {
    let session = FrontendSessionInfo::new().with_metadata("lang", "en").with_metadata("lang", "de");
    assert_eq!(session.metadata.get("lang"), Some(&"de".to_string()));
    assert_eq!(session.metadata.len(), 1);
    assert_eq!(session.session_id >> 76 & 0xf, 4);
    let ctx = FrontendContext::new(
        ContextIdentifier::cli_session("s", 1),
        FrontendUser::new("u"),
        ChannelInfo::dm("d"),
        session,
    );
    assert!(!ctx.is_dm());
    assert!(ctx.is_private());
}
