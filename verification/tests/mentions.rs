use text_to_speech_rs::sanitizer::{
    mention, replace_mentions, MentionError, MentionedChannel, MentionedRole, MentionedUser,
};

fn user(id: u64, name: Option<&str>) -> MentionedUser {
    MentionedUser { id, display_name: name.map(str::to_string) }
}

fn role(id: u64, name: Option<&str>) -> MentionedRole {
    MentionedRole { id, name: name.map(str::to_string) }
}

fn channel(id: u64, name: &str) -> MentionedChannel {
    MentionedChannel { id, name: name.to_string() }
}

#[test]
fn mentions_are_written_with_their_mark_and_decimal_id() {
    assert_eq!(mention("<@", 42), "<@42>");
    assert_eq!(mention("<@&", 0), "<@&0>");
    assert_eq!(mention("<#", u64::MAX), "<#18446744073709551615>");
    assert_eq!(mention("<#", 1000), "<#1000>");
}

#[test]
fn users_roles_and_channels_are_replaced_by_their_names() {
    let replaced = replace_mentions(
        "hi <@1> and <@2>, see <@&7> in <#9> <@1>",
        true,
        &vec![user(1, Some("Ann")), user(2, Some("Bob"))],
        &vec![role(7, Some("mods"))],
        &vec![channel(9, "general")],
    );
    assert_eq!(replaced, Ok("hi Ann and Bob, see mods in general Ann".to_string()));
}

#[test]
fn text_without_mentions_is_kept() {
    assert_eq!(replace_mentions("plain", true, &vec![], &vec![], &vec![]), Ok("plain".to_string()));
    assert_eq!(
        replace_mentions("<@3> stays", true, &vec![user(1, Some("Ann"))], &vec![], &vec![]),
        Ok("<@3> stays".to_string())
    );
}

#[test]
fn a_longer_id_is_not_touched_by_a_shorter_one() {
    assert_eq!(
        replace_mentions("<@12> <@1>", true, &vec![user(1, Some("Ann"))], &vec![], &vec![]),
        Ok("<@12> Ann".to_string())
    );
}

#[test]
fn unknown_guild_is_refused_first() {
    assert_eq!(
        replace_mentions("<@1>", false, &vec![user(1, None)], &vec![], &vec![]),
        Err(MentionError::GuildNotFound)
    );
}

#[test]
fn a_user_outside_the_guild_is_refused() {
    assert_eq!(
        replace_mentions("<@1> <@2>", true, &vec![user(1, Some("Ann")), user(2, None), user(3, None)], &vec![], &vec![]),
        Err(MentionError::UserNotFound(2))
    );
}

#[test]
fn an_unknown_role_is_refused_after_the_users() {
    assert_eq!(
        replace_mentions("<@&7>", true, &vec![user(1, Some("Ann"))], &vec![role(7, None)], &vec![channel(9, "c")]),
        Err(MentionError::RoleNotFound(7))
    );
    assert_eq!(
        replace_mentions("<@&7>", true, &vec![user(1, None)], &vec![role(7, None)], &vec![]),
        Err(MentionError::UserNotFound(1))
    );
}

#[test]
fn names_are_put_in_as_they_are() {
    assert_eq!(
        replace_mentions("<@1>", true, &vec![user(1, Some("<@2>")), user(2, Some("Bob"))], &vec![], &vec![]),
        Ok("Bob".to_string())
    );
}
