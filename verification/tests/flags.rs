use message_pipeline::flags::MessageFlags;
use message_pipeline::flags::MessageFlagsValue;
use message_pipeline::model::Message;

#[test]
fn set_then_has() {
    let mut value = MessageFlagsValue(0);
    value
        .set(MessageFlags::SuppressNotifications, true)
        .set(MessageFlags::MentionsEveryone, false)
        .set(MessageFlags::MentionsOnline, true);
    assert_eq!(value.0, 5);
    assert!(value.has(MessageFlags::SuppressNotifications));
    assert!(!value.has(MessageFlags::MentionsEveryone));
    assert!(value.has(MessageFlags::MentionsOnline));
}

#[test]
fn bit_positions_of_the_flags() {
    assert_eq!(MessageFlags::SuppressNotifications.bit(), 0);
    assert_eq!(MessageFlags::MentionsEveryone.bit(), 1);
    assert_eq!(MessageFlags::MentionsOnline.bit(), 2);
}

#[test]
fn has_value_reads_single_bits() {
    let value = MessageFlagsValue(0b1010);
    assert!(!value.has_value(0));
    assert!(value.has_value(1));
    assert!(!value.has_value(2));
    assert!(value.has_value(3));
    assert!(!value.has_value(31));
    assert!(MessageFlagsValue(u32::MAX).has_value(31));
}

#[test]
fn set_value_keeps_the_other_bits() {
    let mut value = MessageFlagsValue(0b0110);
    value.set_value(0, true);
    assert_eq!(value.0, 0b0111);
    value.set_value(1, false);
    assert_eq!(value.0, 0b0101);
    value.set_value(1, false);
    assert_eq!(value.0, 0b0101);
    value.set_value(31, true);
    assert_eq!(value.0, 0x8000_0005);
    value.set_value(31, false).set_value(2, false).set_value(0, false);
    assert_eq!(value.0, 0);
}

#[test]
fn every_combination_of_the_three_flags() {
    for raw in 0u32..8 {
        let mut value = MessageFlagsValue(0);
        value
            .set(MessageFlags::SuppressNotifications, raw & 1 == 1)
            .set(MessageFlags::MentionsEveryone, raw & 2 == 2)
            .set(MessageFlags::MentionsOnline, raw & 4 == 4);
        assert_eq!(value.0, raw);
        assert_eq!(value.has(MessageFlags::SuppressNotifications), raw & 1 == 1);
        assert_eq!(value.has(MessageFlags::MentionsEveryone), raw & 2 == 2);
        assert_eq!(value.has(MessageFlags::MentionsOnline), raw & 4 == 4);
    }
}

#[test]
fn suppressed_notifications_follow_bit_zero() {
    let mut message = Message::default();
    assert!(!message.has_suppressed_notifications());
    for raw in 0u32..64 {
        message.flags = Some(raw);
        assert_eq!(message.has_suppressed_notifications(), raw % 2 == 1);
    }
    message.flags = None;
    assert!(!message.has_suppressed_notifications());
}

#[test]
fn mass_push_mention_is_everyone_or_a_role() {
    let mut message = Message::default();
    assert!(!message.contains_mass_push_mention());
    message.flags = Some(2);
    assert!(message.contains_mass_push_mention());
    message.flags = Some(4);
    assert!(!message.contains_mass_push_mention());
    message.flags = Some(1);
    assert!(!message.contains_mass_push_mention());
    message.role_mentions = Some(vec!["01D39ZY06FGSCTVN4T2V9PKHFZ".to_string()]);
    assert!(message.contains_mass_push_mention());
    message.flags = None;
    assert!(message.contains_mass_push_mention());
}
