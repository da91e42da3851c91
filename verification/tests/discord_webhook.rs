use groupironman::discord_webhook::{
    build_item_request_fields, build_item_request_payload, render_holders,
    send_item_request_webhook, send_item_request_webhook_at, validate_discord_webhook_url,
    validate_webhook_url, webhook_result, DiscordEmbedField, DispatchError, HttpStatus,
    ItemRequestData, MemberQuantities, WebhookDelivery, WebhookStep, DISCORDAPP_WEBHOOK_PREFIX,
    DISCORD_WEBHOOK_PREFIX, ITEM_REQUEST_COLOR,
};
use groupironman::error::ConfigurationError;

fn quantities(entries: &[(&str, i32)]) -> MemberQuantities {
    let mut q = MemberQuantities::new();
    for (member, quantity) in entries {
        q.insert(member.to_string(), *quantity);
    }
    q
}

fn request(note: Option<&str>, entries: &[(&str, i32)]) -> ItemRequestData {
    ItemRequestData {
        item_id: 4151,
        item_name: "Abyssal whip".to_string(),
        quantity: 1,
        note: note.map(|n| n.to_string()),
        member_quantities: quantities(entries),
    }
}

fn field(name: &str, value: &str, inline: bool) -> DiscordEmbedField {
    DiscordEmbedField { name: name.to_string(), value: value.to_string(), inline }
}

fn status(code: u16) -> HttpStatus {
    HttpStatus::new(code).unwrap()
}

#[test]
fn holders_list_leaves_out_zero_quantities_and_the_shared_pool() {
    let q = quantities(&[("Alice", 2), ("Bob", 0), ("@SHARED", 5)]);
    assert_eq!(render_holders(&q), "Alice: 2");
}

#[test]
fn holders_list_without_holders_says_so() {
    assert_eq!(render_holders(&MemberQuantities::new()), "No one has this item");
    assert_eq!(
        render_holders(&quantities(&[("Alice", 0), ("Bob", 0)])),
        "No one has this item"
    );
    assert_eq!(render_holders(&quantities(&[("@SHARED", 9)])), "No one has this item");
}

#[test]
fn holders_list_has_one_line_for_each_holder_in_order() {
    let q = quantities(&[("Carol", 10), ("Bob", 0), ("Alice", 2), ("@SHARED", 1), ("Dave", 1)]);
    assert_eq!(render_holders(&q), "Carol: 10\nAlice: 2\nDave: 1");
}

#[test]
fn holders_list_leaves_out_negative_quantities() {
    let q = quantities(&[("Alice", -3), ("Bob", 2147483647)]);
    assert_eq!(render_holders(&q), "Bob: 2147483647");
}

#[test]
fn member_quantities_keep_one_entry_for_each_name() {
    let mut q = MemberQuantities::new();
    assert_eq!(q.len(), 0);
    assert_eq!(q.get("Alice"), None);
    q.insert("Alice".to_string(), 1);
    q.insert("Bob".to_string(), 2);
    q.insert("Alice".to_string(), 7);
    assert_eq!(q.len(), 2);
    assert_eq!(q.get("Alice"), Some(7));
    assert_eq!(q.get("Bob"), Some(2));
    assert_eq!(q.get("Carol"), None);
    assert_eq!(q.position("Alice"), Some(0));
    assert_eq!(q.position("Bob"), Some(1));
    assert_eq!(q.position("Carol"), None);
    assert_eq!(q.entry(0).member, "Alice");
    assert_eq!(q.entry(0).quantity, 7);
    assert_eq!(q.entry(1).member, "Bob");
    assert_eq!(render_holders(&q), "Alice: 7\nBob: 2");
}

#[test]
fn member_quantities_copy_holds_the_same_entries() {
    let q = quantities(&[("Alice", 2), ("Bob", 0)]);
    let c = q.copy();
    assert_eq!(c, q);
    assert_eq!(c.len(), 2);
    assert_eq!(c.get("Bob"), Some(0));
}

#[test]
fn fields_name_requester_item_and_holders() {
    let data = request(None, &[("Alice", 2), ("Bob", 0), ("@SHARED", 5)]);
    assert_eq!(
        build_item_request_fields("Bob", &data),
        vec![
            field("Requester", "Bob", true),
            field("Item", "Abyssal whip x1", true),
            field("Current Holders", "Alice: 2", false),
        ]
    );
}

#[test]
fn fields_carry_a_note_that_is_not_empty() {
    let data = request(Some("for the boss"), &[]);
    assert_eq!(
        build_item_request_fields("Bob", &data),
        vec![
            field("Requester", "Bob", true),
            field("Item", "Abyssal whip x1", true),
            field("Current Holders", "No one has this item", false),
            field("Note", "for the boss", false),
        ]
    );
}

#[test]
fn fields_leave_out_an_empty_note() {
    let data = request(Some(""), &[]);
    assert_eq!(build_item_request_fields("Bob", &data).len(), 3);
    let data = request(None, &[]);
    assert_eq!(build_item_request_fields("Bob", &data).len(), 3);
}

#[test]
fn item_field_shows_the_quantity_asked_for() {
    let mut data = request(None, &[]);
    data.quantity = 250;
    assert_eq!(build_item_request_fields("Bob", &data)[1].value, "Abyssal whip x250");
    data.quantity = -1;
    assert_eq!(build_item_request_fields("Bob", &data)[1].value, "Abyssal whip x-1");
}

#[test]
fn payload_is_one_orange_embed_with_the_items_picture() {
    let data = request(Some("please"), &[("Alice", 2)]);
    let payload = build_item_request_payload("Bob", &data, "2024-05-01T12:00:00+00:00".to_string());
    assert_eq!(payload.embeds.len(), 1);
    let embed = &payload.embeds[0];
    assert_eq!(embed.title, "Item Request");
    assert_eq!(embed.color, 0xFF7900);
    assert_eq!(ITEM_REQUEST_COLOR, 16742656);
    assert_eq!(embed.fields, build_item_request_fields("Bob", &data));
    assert_eq!(embed.fields.len(), 4);
    assert_eq!(
        embed.thumbnail.as_ref().unwrap().url,
        "https://secure.runescape.com/m=itemdb_oldschool/obj_sprite.gif?id=4151"
    );
    assert_eq!(embed.timestamp, "2024-05-01T12:00:00+00:00");
}

#[test]
fn discord_webhook_url_must_begin_with_a_trusted_prefix() {
    assert_eq!(DISCORD_WEBHOOK_PREFIX, "https://discord.com/api/webhooks/");
    assert_eq!(DISCORDAPP_WEBHOOK_PREFIX, "https://discordapp.com/api/webhooks/");
    assert!(validate_discord_webhook_url("https://discord.com/api/webhooks/123/abc"));
    assert!(validate_discord_webhook_url("https://discordapp.com/api/webhooks/123/abc"));
    assert!(validate_discord_webhook_url("https://discord.com/api/webhooks/"));
    assert!(!validate_discord_webhook_url("https://discord.com/api/webhooks"));
    assert!(!validate_discord_webhook_url("http://discord.com/api/webhooks/123/abc"));
    assert!(!validate_discord_webhook_url("https://example.com/api/webhooks/123"));
    assert!(!validate_discord_webhook_url(" https://discord.com/api/webhooks/123"));
    assert!(!validate_discord_webhook_url("HTTPS://DISCORD.COM/API/WEBHOOKS/1"));
    assert!(!validate_discord_webhook_url(""));
}

#[test]
fn webhook_url_may_be_empty_or_trusted() {
    assert_eq!(validate_webhook_url(""), Ok(()));
    assert_eq!(validate_webhook_url("https://discord.com/api/webhooks/1/t"), Ok(()));
    assert_eq!(validate_webhook_url("https://discordapp.com/api/webhooks/1/t"), Ok(()));
    assert_eq!(
        validate_webhook_url("https://example.com/hook"),
        Err(ConfigurationError::InvalidWebhookUrl)
    );
    assert_eq!(validate_webhook_url(" "), Err(ConfigurationError::InvalidWebhookUrl));
}

#[test]
fn http_status_is_a_number_from_100_to_999() {
    assert!(HttpStatus::new(0).is_none());
    assert!(HttpStatus::new(99).is_none());
    assert_eq!(HttpStatus::new(100).unwrap().code(), 100);
    assert_eq!(HttpStatus::new(999).unwrap().code(), 999);
    assert!(HttpStatus::new(1000).is_none());
    assert!(HttpStatus::new(u16::MAX).is_none());
}

#[test]
fn http_status_success_is_200_to_299() {
    assert!(!status(199).is_success());
    assert!(status(200).is_success());
    assert!(status(204).is_success());
    assert!(status(299).is_success());
    assert!(!status(300).is_success());
    assert!(!status(404).is_success());
    assert!(!status(500).is_success());
}

#[test]
fn delivery_with_success_status_is_sent() {
    let delivery = WebhookDelivery::Answered { status: status(204), body: None };
    assert_eq!(webhook_result(&delivery), Ok(()));
    let delivery =
        WebhookDelivery::Answered { status: status(200), body: Some("ignored".to_string()) };
    assert_eq!(webhook_result(&delivery), Ok(()));
}

#[test]
fn delivery_with_other_status_is_an_error_with_status_and_text() {
    let delivery =
        WebhookDelivery::Answered { status: status(404), body: Some("Unknown Webhook".to_string()) };
    assert_eq!(
        webhook_result(&delivery),
        Err(DispatchError::Rejected { status: status(404), body: "Unknown Webhook".to_string() })
    );
    let delivery = WebhookDelivery::Answered { status: status(500), body: None };
    assert_eq!(
        webhook_result(&delivery),
        Err(DispatchError::Rejected { status: status(500), body: "Unknown error".to_string() })
    );
    let delivery = WebhookDelivery::Answered { status: status(301), body: Some(String::new()) };
    assert_eq!(
        webhook_result(&delivery),
        Err(DispatchError::Rejected { status: status(301), body: String::new() })
    );
}

#[test]
fn delivery_that_failed_is_a_transport_error() {
    let delivery = WebhookDelivery::Failed { reason: "connection refused".to_string() };
    assert_eq!(
        webhook_result(&delivery),
        Err(DispatchError::Transport { reason: "connection refused".to_string() })
    );
}

#[test]
fn dispatch_error_messages() {
    assert_eq!(
        DispatchError::Transport { reason: "connection refused".to_string() }.message(),
        "Failed to send webhook: connection refused"
    );
    assert_eq!(
        DispatchError::Rejected { status: status(404), body: "Unknown Webhook".to_string() }
            .message(),
        "Discord webhook failed with status 404 Not Found: Unknown Webhook"
    );
    assert_eq!(
        DispatchError::Rejected { status: status(429), body: "slow down".to_string() }.message(),
        "Discord webhook failed with status 429 Too Many Requests: slow down"
    );
    assert_eq!(
        DispatchError::Rejected { status: status(799), body: "x".to_string() }.message(),
        "Discord webhook failed with status 799 <unknown status code>: x"
    );
}

#[test]
fn webhook_step_posts_first_then_judges_the_delivery() {
    let data = request(None, &[("Alice", 2)]);
    let url = "https://discord.com/api/webhooks/1/token";
    let step =
        send_item_request_webhook_at(url, "Bob", &data, "2024-05-01T12:00:00Z".to_string(), &None);
    assert_eq!(
        step,
        WebhookStep::Post {
            url: url.to_string(),
            payload: build_item_request_payload("Bob", &data, "2024-05-01T12:00:00Z".to_string()),
        }
    );
    let sent = Some(WebhookDelivery::Answered { status: status(204), body: None });
    assert_eq!(
        send_item_request_webhook_at(url, "Bob", &data, String::new(), &sent),
        WebhookStep::Done(Ok(()))
    );
    let failed = Some(WebhookDelivery::Failed { reason: "timed out".to_string() });
    assert_eq!(
        send_item_request_webhook(url, "Bob", &data, &failed),
        WebhookStep::Done(Err(DispatchError::Transport { reason: "timed out".to_string() }))
    );
}

#[test]
fn webhook_step_stamps_the_message_with_the_current_time() {
    let data = request(Some("now"), &[("Alice", 2)]);
    let url = "https://discord.com/api/webhooks/1/token";
    let before = chrono::Utc::now();
    let step = send_item_request_webhook(url, "Bob", &data, &None);
    let after = chrono::Utc::now();
    match step {
        WebhookStep::Post { url: to, payload } => {
            assert_eq!(to, url);
            assert_eq!(payload.embeds.len(), 1);
            let stamp = payload.embeds[0].timestamp.clone();
            let at = chrono::DateTime::parse_from_rfc3339(&stamp).unwrap();
            assert!(before <= at && at <= after);
            assert_eq!(payload, build_item_request_payload("Bob", &data, stamp));
        }
        other => panic!("unexpected step {:?}", other),
    }
}
