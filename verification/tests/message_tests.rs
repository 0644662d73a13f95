use brobot::message::{after_hook, can_embed, simple_message, simple_message_edit, MessageParams};

#[test]
fn embeds_need_both_permissions() {
    assert!(can_embed(0x4800));
    assert!(can_embed(u64::MAX));
    assert!(!can_embed(0x800));
    assert!(!can_embed(0x4000));
    assert!(!can_embed(0));
}

#[test]
fn embeds_show_the_parts_of_a_message() {
    let params = || MessageParams {
        fields: Some(vec![(String::from("k"), String::from("v"), true)]),
        message: Some(String::from("m")),
        title: Some(String::from("t")),
        color: Some((1, 2, 3)),
    };
    for embed in [simple_message(params(), 0x4800), simple_message_edit(params(), 0x4800)] {
        assert_eq!(embed.title.as_deref(), Some("t"));
        assert_eq!(embed.description.as_deref(), Some("m"));
        assert_eq!(embed.color, Some((1, 2, 3)));
        assert_eq!(embed.fields, Some(vec![(String::from("k"), String::from("v"), true)]));
    }
}

#[test]
fn empty_messages() {
    let embed = simple_message(MessageParams::default(), 0x4800);
    assert!(embed.title.is_none());
    assert!(embed.description.is_none());
    assert!(embed.color.is_none());
    assert!(embed.fields.is_none());
}

#[test]
fn failures_are_told_in_red() {
    let params = after_hook(Err(String::from("why")), true).unwrap();
    assert_eq!(params.title.as_deref(), Some("Error"));
    assert_eq!(params.message.as_deref(), Some("why"));
    assert_eq!(params.color, Some((231, 76, 60)));
    assert_eq!(params.color, Some(serenity::utils::Colour::RED.tuple()));
    assert!(after_hook(Err(String::from("why")), false).is_none());
    assert!(after_hook(Ok(()), true).is_none());
}
