//! Connectors: capabilities, profiles, sources and errors.

use std::str::FromStr;

use astrid::connector::{
    ConnectorCapabilities, ConnectorDescriptor, ConnectorError, ConnectorId, ConnectorProfile,
    ConnectorSource, InboundMessage, OutboundMessage,
};
use astrid::frontend::{Attachment, AttachmentType};
use astrid::identity::FrontendType;
use astrid::error::SecurityError;

#[test]
fn connector_capabilities_full() {
    let c = ConnectorCapabilities::full();
    assert!(c.can_receive);
    assert!(c.can_send);
    assert!(c.can_approve);
    assert!(c.can_elicit);
    assert!(c.supports_rich_media);
    assert!(c.supports_threads);
    assert!(c.supports_buttons);
}

#[test]
fn connector_capabilities_notify_only() {
    let c = ConnectorCapabilities::notify_only();
    assert!(!c.can_receive);
    assert!(c.can_send);
    assert!(!c.can_approve);
}

#[test]
fn connector_capabilities_receive_only() {
    let c = ConnectorCapabilities::receive_only();
    assert!(c.can_receive);
    assert!(!c.can_send);
    assert!(!c.can_approve);
}

#[test]
fn connector_capabilities_default_all_false() {
    let c = ConnectorCapabilities::default();
    assert!(!c.can_receive);
    assert!(!c.can_send);
    assert!(!c.can_approve);
    assert!(!c.can_elicit);
    assert!(!c.supports_rich_media);
    assert!(!c.supports_threads);
    assert!(!c.supports_buttons);
}

#[test]
fn connector_profile_display() {
    assert_eq!(ConnectorProfile::Chat.to_string(), "chat");
    assert_eq!(ConnectorProfile::Interactive.to_string(), "interactive");
    assert_eq!(ConnectorProfile::Notify.to_string(), "notify");
    assert_eq!(ConnectorProfile::Bridge.to_string(), "bridge");
}

#[test]
fn connector_source_display() {
    assert_eq!(ConnectorSource::Native.to_string(), "native");
    assert_eq!(
        ConnectorSource::Wasm {
            plugin_id: "foo".into()
        }
        .to_string(),
        "wasm(foo)"
    );
    assert_eq!(
        ConnectorSource::OpenClaw {
            plugin_id: "bar".into()
        }
        .to_string(),
        "openclaw(bar)"
    );
}

#[test]
fn source_display_truncates_long_plugin_id() {
    let long_id = "a".repeat(128);
    let src = ConnectorSource::Wasm { plugin_id: long_id };
    let display = src.to_string();
    // 64 chars of 'a' + "wasm(" + ")" = 70
    assert_eq!(display.len(), 70);
}

#[test]
fn connector_source_new_wasm_valid() {
    let src = ConnectorSource::new_wasm("my-plugin-1").unwrap();
    assert_eq!(
        src,
        ConnectorSource::Wasm {
            plugin_id: "my-plugin-1".into()
        }
    );
}

#[test]
fn connector_source_new_openclaw_valid() {
    let src = ConnectorSource::new_openclaw("bridge-42").unwrap();
    assert_eq!(
        src,
        ConnectorSource::OpenClaw {
            plugin_id: "bridge-42".into()
        }
    );
}

#[test]
fn connector_source_new_wasm_rejects_empty() {
    let err = ConnectorSource::new_wasm("").unwrap_err();
    assert!(matches!(err, ConnectorError::InvalidPluginId(_)));
}

#[test]
fn connector_source_new_wasm_rejects_uppercase() {
    let err = ConnectorSource::new_wasm("MyPlugin").unwrap_err();
    assert!(matches!(err, ConnectorError::InvalidPluginId(_)));
}

#[test]
fn connector_source_new_wasm_rejects_leading_hyphen() {
    let err = ConnectorSource::new_wasm("-bad").unwrap_err();
    assert!(matches!(err, ConnectorError::InvalidPluginId(_)));
}

#[test]
fn connector_source_new_wasm_rejects_trailing_hyphen() {
    let err = ConnectorSource::new_wasm("bad-").unwrap_err();
    assert!(matches!(err, ConnectorError::InvalidPluginId(_)));
}

#[test]
fn connector_source_new_wasm_rejects_special_chars() {
    let err = ConnectorSource::new_wasm("path/../traversal").unwrap_err();
    assert!(matches!(err, ConnectorError::InvalidPluginId(_)));
}

#[test]
fn error_from_security_error() {
    let sec = SecurityError::Internal("boom".into());
    let conn: ConnectorError = ConnectorError::from(sec);
    assert!(matches!(conn, ConnectorError::Security(_)));
}

#[test]
fn connector_error_display() {
    let e = ConnectorError::NotConnected;
    assert_eq!(e.to_string(), "connector not connected");

    let e = ConnectorError::SendFailed("timeout".into());
    assert_eq!(e.to_string(), "send failed: timeout");

    let e = ConnectorError::UnsupportedOperation("rich_media".into());
    assert_eq!(e.to_string(), "unsupported operation: rich_media");

    let e = ConnectorError::InvalidPluginId("bad".into());
    assert_eq!(e.to_string(), "invalid plugin id: bad");
}

#[test]
fn mod_capabilities_full() {
    let c = ConnectorCapabilities::full();
    assert!(c.can_receive);
    assert!(c.can_send);
    assert!(c.can_approve);
    assert!(c.can_elicit);
    assert!(c.supports_rich_media);
    assert!(c.supports_threads);
    assert!(c.supports_buttons);
}

#[test]
fn mod_capabilities_notify_only() {
    let c = ConnectorCapabilities::notify_only();
    assert!(!c.can_receive);
    assert!(c.can_send);
    assert!(!c.can_approve);
}

#[test]
fn mod_capabilities_receive_only() {
    let c = ConnectorCapabilities::receive_only();
    assert!(c.can_receive);
    assert!(!c.can_send);
    assert!(!c.can_approve);
}

#[test]
fn mod_capabilities_default_all_false() {
    let c = ConnectorCapabilities::default();
    assert!(!c.can_receive);
    assert!(!c.can_send);
    assert!(!c.can_approve);
    assert!(!c.can_elicit);
    assert!(!c.supports_rich_media);
    assert!(!c.supports_threads);
    assert!(!c.supports_buttons);
}

#[test]
fn mod_profile_display() {
    assert_eq!(ConnectorProfile::Chat.to_string(), "chat");
    assert_eq!(ConnectorProfile::Interactive.to_string(), "interactive");
    assert_eq!(ConnectorProfile::Notify.to_string(), "notify");
    assert_eq!(ConnectorProfile::Bridge.to_string(), "bridge");
}

#[test]
fn mod_source_display() {
    assert_eq!(ConnectorSource::Native.to_string(), "native");
    assert_eq!(
        ConnectorSource::Wasm {
            plugin_id: "foo".into()
        }
        .to_string(),
        "wasm(foo)"
    );
    assert_eq!(
        ConnectorSource::OpenClaw {
            plugin_id: "bar".into()
        }
        .to_string(),
        "openclaw(bar)"
    );
}

#[test]
fn source_display_truncates_long_capsule_id() {
    let long_id = "a".repeat(128);
    let src = ConnectorSource::Wasm {
        plugin_id: long_id,
    };
    let display = src.to_string();
    // 64 chars of 'a' + "wasm(" + ")" = 70
    assert_eq!(display.len(), 70);
}

#[test]
fn mod_source_new_wasm_valid() {
    let src = ConnectorSource::new_wasm("my-plugin-1").unwrap();
    assert_eq!(
        src,
        ConnectorSource::Wasm {
            plugin_id: "my-plugin-1".into()
        }
    );
}

#[test]
fn mod_source_new_openclaw_valid() {
    let src = ConnectorSource::new_openclaw("bridge-42").unwrap();
    assert_eq!(
        src,
        ConnectorSource::OpenClaw {
            plugin_id: "bridge-42".into()
        }
    );
}

#[test]
fn mod_source_new_wasm_rejects_empty() {
    let err = ConnectorSource::new_wasm("").unwrap_err();
    assert!(matches!(err, ConnectorError::InvalidPluginId(_)));
}

#[test]
fn mod_source_new_wasm_rejects_uppercase() {
    let err = ConnectorSource::new_wasm("MyPlugin").unwrap_err();
    assert!(matches!(err, ConnectorError::InvalidPluginId(_)));
}

#[test]
fn mod_source_new_wasm_rejects_leading_hyphen() {
    let err = ConnectorSource::new_wasm("-bad").unwrap_err();
    assert!(matches!(err, ConnectorError::InvalidPluginId(_)));
}

#[test]
fn mod_source_new_wasm_rejects_trailing_hyphen() {
    let err = ConnectorSource::new_wasm("bad-").unwrap_err();
    assert!(matches!(err, ConnectorError::InvalidPluginId(_)));
}

#[test]
fn mod_source_new_wasm_rejects_special_chars() {
    let err = ConnectorSource::new_wasm("path/../traversal").unwrap_err();
    assert!(matches!(err, ConnectorError::InvalidPluginId(_)));
}

#[test]
fn mod_error_display() {
    let e = ConnectorError::NotConnected;
    assert_eq!(e.to_string(), "connector not connected");

    let e = ConnectorError::SendFailed("timeout".into());
    assert_eq!(e.to_string(), "send failed: timeout");

    let e = ConnectorError::UnsupportedOperation("rich_media".into());
    assert_eq!(e.to_string(), "unsupported operation: rich_media");

    let e = ConnectorError::InvalidPluginId("bad".into());
    assert_eq!(e.to_string(), "invalid plugin id: bad");
}

#[test]
fn profile_from_str_all_variants() {
    assert_eq!(
        ConnectorProfile::from_str("chat").unwrap(),
        ConnectorProfile::Chat
    );
    assert_eq!(
        ConnectorProfile::from_str("interactive").unwrap(),
        ConnectorProfile::Interactive
    );
    assert_eq!(
        ConnectorProfile::from_str("notify").unwrap(),
        ConnectorProfile::Notify
    );
    assert_eq!(
        ConnectorProfile::from_str("bridge").unwrap(),
        ConnectorProfile::Bridge
    );
}

#[test]
fn profile_from_str_case_insensitive() {
    assert_eq!(
        ConnectorProfile::from_str("Chat").unwrap(),
        ConnectorProfile::Chat
    );
    assert_eq!(
        ConnectorProfile::from_str("NOTIFY").unwrap(),
        ConnectorProfile::Notify
    );
}

#[test]
fn profile_from_str_unknown_returns_error() {
    let err = ConnectorProfile::from_str("bogus").unwrap_err();
    assert!(err.contains("unknown connector profile"));
}

#[test]
fn connector_connector_id_uniqueness() {
    let a = ConnectorId::new();
    let b = ConnectorId::new();
    assert_ne!(a, b);
}

#[test]
fn connector_connector_id_display_matches_uuid() {
    let uuid = uuid::Uuid::new_v4();
    let id = ConnectorId::from_uuid(uuid.as_u128());
    assert_eq!(id.to_string(), uuid.to_string());
}

#[test]
fn connector_descriptor_builder() {
    let desc = ConnectorDescriptor::builder("discord-bot", FrontendType::Discord)
        .source(ConnectorSource::Native)
        .capabilities(ConnectorCapabilities::full())
        .profile(ConnectorProfile::Chat)
        .metadata("version", "1.0")
        .build();

    assert_eq!(desc.name, "discord-bot");
    assert_eq!(desc.frontend_type, FrontendType::Discord);
    assert_eq!(desc.source, ConnectorSource::Native);
    assert_eq!(desc.capabilities, ConnectorCapabilities::full());
    assert_eq!(desc.profile, ConnectorProfile::Chat);
    assert_eq!(desc.metadata.get("version").unwrap(), "1.0");
}

#[test]
fn connector_descriptor_builder_defaults() {
    let desc = ConnectorDescriptor::builder("minimal", FrontendType::Cli).build();
    assert_eq!(desc.profile, ConnectorProfile::Chat);
    assert_eq!(desc.capabilities, ConnectorCapabilities::default());
    assert_eq!(desc.source, ConnectorSource::Native);
    assert!(desc.metadata.is_empty());
}

#[test]
fn connector_inbound_message_builder() {
    let id = ConnectorId::new();
    let mut context = serde_json::Map::new();
    context.insert("key".to_string(), serde_json::Value::String("value".to_string()));
    let msg = InboundMessage::builder(id, FrontendType::Discord, "user123", "hello")
        .context(serde_json::Value::Object(context))
        .thread_id("thread-1")
        .build();

    assert_eq!(msg.connector_id, id);
    assert_eq!(msg.platform_user_id, "user123");
    assert_eq!(msg.content, "hello");
    assert_eq!(msg.context["key"], "value");
    assert_eq!(msg.thread_id.as_deref(), Some("thread-1"));
}

#[test]
fn connector_inbound_message_empty_content() {
    let id = ConnectorId::new();
    let msg = InboundMessage::builder(id, FrontendType::Cli, "", "").build();
    assert!(msg.platform_user_id.is_empty());
    assert!(msg.content.is_empty());
}

#[test]
fn connector_outbound_message_builder() {
    let cid = ConnectorId::new();
    let msg = OutboundMessage::builder(cid, "target-user", "response")
        .thread_id("thread-1")
        .reply_to("msg-42")
        .build();

    assert_eq!(msg.connector_id, cid);
    assert_eq!(msg.target_user_id, "target-user");
    assert_eq!(msg.content, "response");
    assert_eq!(msg.thread_id.as_deref(), Some("thread-1"));
    assert_eq!(msg.reply_to.as_deref(), Some("msg-42"));
}

#[test]
fn mod_connector_id_uniqueness() {
    let a = ConnectorId::new();
    let b = ConnectorId::new();
    assert_ne!(a, b);
}

#[test]
fn mod_connector_id_display_matches_uuid() {
    let uuid = uuid::Uuid::new_v4();
    let id = ConnectorId::from_uuid(uuid.as_u128());
    assert_eq!(id.to_string(), uuid.to_string());
}

#[test]
fn mod_descriptor_builder() {
    let desc = ConnectorDescriptor::builder("discord-bot", FrontendType::Discord)
        .source(ConnectorSource::Native)
        .capabilities(ConnectorCapabilities::full())
        .profile(ConnectorProfile::Chat)
        .metadata("version", "1.0")
        .build();

    assert_eq!(desc.name, "discord-bot");
    assert_eq!(desc.frontend_type, FrontendType::Discord);
    assert_eq!(desc.source, ConnectorSource::Native);
    assert_eq!(desc.capabilities, ConnectorCapabilities::full());
    assert_eq!(desc.profile, ConnectorProfile::Chat);
    assert_eq!(desc.metadata.get("version").unwrap(), "1.0");
}

#[test]
fn mod_descriptor_builder_defaults() {
    let desc = ConnectorDescriptor::builder("minimal", FrontendType::Cli).build();
    assert_eq!(desc.profile, ConnectorProfile::Chat);
    assert_eq!(desc.capabilities, ConnectorCapabilities::default());
    assert_eq!(desc.source, ConnectorSource::Native);
    assert!(desc.metadata.is_empty());
}

#[test]
fn mod_inbound_message_builder() {
    let id = ConnectorId::new();
    let mut context = serde_json::Map::new();
    context.insert("key".to_string(), serde_json::Value::String("value".to_string()));
    let msg = InboundMessage::builder(id, FrontendType::Discord, "user123", "hello")
        .context(serde_json::Value::Object(context))
        .thread_id("thread-1")
        .build();

    assert_eq!(msg.connector_id, id);
    assert_eq!(msg.platform_user_id, "user123");
    assert_eq!(msg.content, "hello");
    assert_eq!(msg.context["key"], "value");
    assert_eq!(msg.thread_id.as_deref(), Some("thread-1"));
}

#[test]
fn mod_inbound_message_empty_content() {
    let id = ConnectorId::new();
    let msg = InboundMessage::builder(id, FrontendType::Cli, "", "").build();
    assert!(msg.platform_user_id.is_empty());
    assert!(msg.content.is_empty());
}

#[test]
fn mod_outbound_message_builder() {
    let cid = ConnectorId::new();
    let msg = OutboundMessage::builder(cid, "target-user", "response")
        .thread_id("thread-1")
        .reply_to("msg-42")
        .build();

    assert_eq!(msg.connector_id, cid);
    assert_eq!(msg.target_user_id, "target-user");
    assert_eq!(msg.content, "response");
    assert_eq!(msg.thread_id.as_deref(), Some("thread-1"));
    assert_eq!(msg.reply_to.as_deref(), Some("msg-42"));
}

#[test]
fn inbound_message_defaults_and_attachments() {
    let id = ConnectorId::from_uuid(1);
    let msg = InboundMessage::builder(id, FrontendType::Web, "u", "c")
        .attachment(Attachment {
            attachment_type: AttachmentType::Url,
            location: "https://example.com/a.png".to_string(),
            filename: None,
            mime_type: None,
        })
        .timestamp(1_700_000_000_000)
        .build();
    assert!(msg.context.is_null());
    assert_eq!(msg.attachments.len(), 1);
    assert_eq!(msg.attachments[0].location, "https://example.com/a.png");
    assert_eq!(msg.timestamp, 1_700_000_000_000);
    assert!(msg.thread_id.is_none());
    assert_eq!(id.as_uuid(), 1);
    assert_eq!(id.to_string(), "00000000-0000-0000-0000-000000000001");
}

#[test]
fn descriptor_metadata_later_entry_wins() {
    let desc = ConnectorDescriptor::builder("bot", FrontendType::Slack)
        .metadata("k", "1")
        .metadata("k", "2")
        .build();
    assert_eq!(desc.metadata.len(), 1);
    assert_eq!(desc.metadata.get("k").unwrap(), "2");
    assert_ne!(desc.id, ConnectorDescriptor::builder("bot", FrontendType::Slack).build().id);
}

#[test]
fn connector_id_is_version_four_uuid() {
    let bits = ConnectorId::new().as_uuid();
    assert_eq!((bits >> 76) & 0xf, 4);
    assert_eq!((bits >> 62) & 0x3, 2);
}
