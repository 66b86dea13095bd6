use guild_welcome::api::{classify_upload_part, collect_all_some, UploadSlot};
use guild_welcome::cdn::{
    AchievementIconUrl, ApplicationAssetUrl, ApplicationCoverUrl, ApplicationIconUrl,
    DefaultUserAvatarUrl, EmojiUrl, GuildBannerUrl, GuildDiscoverySplashUrl, GuildIconUrl,
    GuildSplashUrl, StickerPackBannerUrl, StickerUrl, SupportsGif, SupportsJpeg,
    SupportsLottie, SupportsPng, SupportsWebp, TeamIconUrl, UrlString, UserAvatarUrl,
    UserBannerUrl,
};
use guild_welcome::context::{RenderContext, ServerSnapshot, UserSnapshot};
use guild_welcome::decimal::{bool_to_string, parse_u64, u64_to_string};
use guild_welcome::embed::css_to_u32;
use guild_welcome::lifecycle::{
    plan_join_event, prepare_join_dm_message, prepare_join_message, prepare_leave_message,
    PreparedDm, PreparedMessage, ValidationError,
};
use guild_welcome::poll::{
    combine_end_time, poll_fields, Poll, PollCommandOption, PollDate, PollMoment, PollTime,
};
use guild_welcome::reaction_roles::{ReactionError, ReactionRolesMsg};
use guild_welcome::slash_commands::{classify_command, CommandKind, SlashCommandError};
use guild_welcome::store::{FaultPlan, WelcomeQueries};
use guild_welcome::welcome::{
    WelcomeJoin, WelcomeJoinDm, WelcomeJoinDmRequestData, WelcomeJoinRequestData,
    WelcomeJoinRoleRequestData, WelcomeLeave, WelcomeRequestData,
};

fn plain_context() -> RenderContext {
    RenderContext {
        server: ServerSnapshot {
            id: 7,
            name: "Test Server".to_string(),
            icon: None,
            joined_at: None,
            member_count: Some(24),
            owner: None,
            owner_id: 9,
            region: "US East".to_string(),
            verification_level: 0,
        },
        user: UserSnapshot {
            id: 3,
            name: "Test User".to_string(),
            avatar: None,
            bot: false,
            discriminator: "1234".to_string(),
        },
        channel: None,
    }
}

#[test]
fn convert_white_to_u32() {
    let result = css_to_u32("rgba(255, 255, 255, 255)");
    println!("{}", result);
    assert!(result == 16777215);
}

#[test]
fn css_to_u32_falls_back_to_black() {
    assert_eq!(css_to_u32("not a color at all"), 0);
}

#[test]
fn css_to_u32_reads_hex() {
    assert_eq!(css_to_u32("#ff0000"), 0xff0000);
    assert_eq!(css_to_u32("#00ff7f"), 0x00ff7f);
}

#[test]
fn guild_icon_url_formats() {
    let u = GuildIconUrl(1, "abc".to_string());
    assert_eq!(u.format(), "https://cdn.discordapp.com/icons/1/abc");
    assert_eq!(u.as_png(), "https://cdn.discordapp.com/icons/1/abc.png");
    assert_eq!(u.as_jpeg(), "https://cdn.discordapp.com/icons/1/abcjpeg");
    assert_eq!(u.as_webp(), "https://cdn.discordapp.com/icons/1/abcwebp");
    assert_eq!(u.as_gif(), "https://cdn.discordapp.com/icons/1/abcgif");
}

#[test]
fn user_avatar_url_formats() {
    let u = UserAvatarUrl(12, "h".to_string());
    assert_eq!(u.as_png(), "https://cdn.discordapp.com/avatars/12/h.png");
}

#[test]
fn remaining_asset_urls_format() {
    assert_eq!(EmojiUrl(5).as_png(), "https://cdn.discordapp.com/emojis/5.png");
    assert_eq!(
        DefaultUserAvatarUrl("3".to_string()).as_png(),
        "https://cdn.discordapp.com/embed/avatars/3.png"
    );
    assert_eq!(
        GuildSplashUrl(1, "s".to_string()).as_png(),
        "https://cdn.discordapp.com/splashes/1/s.png"
    );
    assert_eq!(
        GuildDiscoverySplashUrl(1, "s".to_string()).as_png(),
        "https://cdn.discordapp.com/discovery-splashes/1/s.png"
    );
    assert_eq!(
        GuildBannerUrl(7, "b".to_string()).as_webp(),
        "https://cdn.discordapp.com/banners/7/bwebp"
    );
    assert_eq!(
        UserBannerUrl(1, "u".to_string()).as_gif(),
        "https://cdn.discordapp.com/banners/1/ugif"
    );
    assert_eq!(
        ApplicationIconUrl(1, "i".to_string()).as_png(),
        "https://cdn.discordapp.com/app-icons/1/i.png"
    );
    assert_eq!(
        ApplicationCoverUrl(1, "c".to_string()).as_png(),
        "https://cdn.discordapp.com/app-icons/1/c.png"
    );
    assert_eq!(
        ApplicationAssetUrl(1, "a".to_string()).as_png(),
        "https://cdn.discordapp.com/app-assets/1/a.png"
    );
    assert_eq!(
        AchievementIconUrl(1, "2".to_string(), "h".to_string()).as_png(),
        "https://cdn.discordapp.com/app-assets/1/achievements/2/icons/h.png"
    );
    assert_eq!(
        StickerPackBannerUrl("a".to_string()).as_png(),
        "https://cdn.discordapp.com/app-assets/710982414301790216/store/a.png"
    );
    assert_eq!(
        TeamIconUrl(4, "t".to_string()).as_jpeg(),
        "https://cdn.discordapp.com/team-icons/4/tjpeg"
    );
}

#[test]
fn sticker_url_formats() {
    let u = StickerUrl(99);
    assert_eq!(u.as_png(), "https://cdn.discordapp.com/stickers/99.png");
    assert_eq!(u.as_lottie(), "https://cdn.discordapp.com/stickers/99json");
}

#[test]
fn parse_u64_accepts_digit_runs() {
    assert_eq!(parse_u64("0"), Some(0));
    assert_eq!(parse_u64("123"), Some(123));
    assert_eq!(parse_u64("18446744073709551615"), Some(u64::MAX));
}

#[test]
fn parse_u64_rejects_everything_else() {
    assert_eq!(parse_u64(""), None);
    assert_eq!(parse_u64("12a"), None);
    assert_eq!(parse_u64("-5"), None);
    assert_eq!(parse_u64(" 5"), None);
    assert_eq!(parse_u64("18446744073709551616"), None);
    assert_eq!(parse_u64("99999999999999999999999"), None);
}

#[test]
fn decimal_renderings() {
    assert_eq!(u64_to_string(0), "0");
    assert_eq!(u64_to_string(907), "907");
    assert_eq!(u64_to_string(u64::MAX), "18446744073709551615");
    assert_eq!(bool_to_string(true), "true");
    assert_eq!(bool_to_string(false), "false");
}

#[test]
fn classify_command_knows_its_commands() {
    assert_eq!(classify_command("ping"), Ok(CommandKind::Ping));
    assert_eq!(classify_command("poll"), Ok(CommandKind::Poll));
    assert_eq!(classify_command("poll_emoji"), Ok(CommandKind::PollEmoji));
    assert_eq!(
        classify_command("frobnicate"),
        Err(SlashCommandError::CannotProcessUnknownCommand)
    );
    assert_eq!(
        SlashCommandError::CannotProcessUnknownCommand.message(),
        "Cannot process unknown command"
    );
}

fn text_join(channel: &str, content: &str) -> WelcomeJoin {
    WelcomeJoin {
        id: 1,
        enabled: true,
        message_type: "text".to_string(),
        channel_id: Some(channel.to_string()),
        content: Some(content.to_string()),
        embed: None,
    }
}

#[test]
fn prepare_join_message_renders_text() {
    let ctx = plain_context();
    let join = text_join("42", "hi {user.name}");
    let r = prepare_join_message(Some(&join), &ctx).expect("valid");
    assert_eq!(
        r,
        Some(PreparedMessage::Text { channel_id: 42, content: "hi Test User".to_string() })
    );
}

#[test]
fn prepare_join_message_rejects_bad_channel() {
    let ctx = plain_context();
    let join = text_join("notanumber", "hi");
    assert_eq!(
        prepare_join_message(Some(&join), &ctx),
        Err(ValidationError::MalformedChannelId)
    );
}

#[test]
fn prepare_join_message_rejects_unknown_type() {
    let ctx = plain_context();
    let mut join = text_join("42", "hi");
    join.message_type = "fancy".to_string();
    assert_eq!(
        prepare_join_message(Some(&join), &ctx),
        Err(ValidationError::UnrecognizedMessageType)
    );
}

#[test]
fn prepare_join_message_skips_incomplete_sections() {
    let ctx = plain_context();
    assert_eq!(prepare_join_message(None, &ctx), Ok(None));
    let mut disabled = text_join("42", "hi");
    disabled.enabled = false;
    assert_eq!(prepare_join_message(Some(&disabled), &ctx), Ok(None));
    let mut no_channel = text_join("42", "hi");
    no_channel.channel_id = None;
    assert_eq!(prepare_join_message(Some(&no_channel), &ctx), Ok(None));
    let mut empty_content = text_join("42", "");
    empty_content.content = Some(String::new());
    assert_eq!(prepare_join_message(Some(&empty_content), &ctx), Ok(None));
    let mut no_embed = text_join("42", "hi");
    no_embed.message_type = "embed".to_string();
    no_embed.embed = None;
    assert_eq!(prepare_join_message(Some(&no_embed), &ctx), Ok(None));
}

#[test]
fn prepare_join_dm_message_renders_text() {
    let ctx = plain_context();
    let dm = WelcomeJoinDm {
        id: 1,
        enabled: true,
        message_type: "text".to_string(),
        content: Some("dm for {user.name}".to_string()),
        embed: None,
    };
    assert_eq!(
        prepare_join_dm_message(Some(&dm), &ctx),
        Ok(Some(PreparedDm::Text { content: "dm for Test User".to_string() }))
    );
}

#[test]
fn prepare_leave_message_renders_text() {
    let ctx = plain_context();
    let leave = WelcomeLeave {
        id: 1,
        enabled: true,
        channel_id: Some("77".to_string()),
        content: Some("bye {user.name}".to_string()),
    };
    assert_eq!(
        prepare_leave_message(Some(&leave), &ctx),
        Ok(Some(PreparedMessage::Text { channel_id: 77, content: "bye Test User".to_string() }))
    );
    assert_eq!(prepare_leave_message(None, &ctx), Ok(None));
}

#[test]
fn join_plan_decides_sub_actions_independently() {
    let mut store = WelcomeQueries::new();
    let update = WelcomeRequestData {
        enabled: Some(true),
        join: Some(WelcomeJoinRequestData {
            enabled: Some(true),
            message_type: Some("text".to_string()),
            channel_id: Some("badchannel".to_string()),
            content: Some("hello".to_string()),
            embed: None,
        }),
        join_dm: Some(WelcomeJoinDmRequestData {
            enabled: Some(true),
            message_type: Some("text".to_string()),
            content: Some("dm hello".to_string()),
            embed: None,
        }),
        join_roles: Some(WelcomeJoinRoleRequestData { enabled: Some(true) }),
        leave: None,
    };
    store.apply_partial_update(30, &update, &FaultPlan::none()).expect("seed");
    let ctx = plain_context();
    let plan = plan_join_event(&store, 30, &ctx);
    // the malformed channel fails only its own sub-action
    assert_eq!(plan.channel_message, Err(ValidationError::MalformedChannelId));
    assert_eq!(
        plan.dm_message,
        Ok(Some(PreparedDm::Text { content: "dm hello".to_string() }))
    );
    let grant = plan.role_grant.expect("roles enabled");
    assert_eq!(grant.roles, Vec::<u64>::new());
    assert!(!grant.delay);
}

#[test]
fn poll_fields_take_the_last_value() {
    let opts = vec![
        PollCommandOption { name: "question".to_string(), value: Some("first?".to_string()) },
        PollCommandOption { name: "other".to_string(), value: Some("x".to_string()) },
        PollCommandOption { name: "question".to_string(), value: Some("second?".to_string()) },
    ];
    let (question, ends) = poll_fields(&opts);
    assert_eq!(question, "second?");
    assert_eq!(ends, None);
}

#[test]
fn poll_fields_default_question() {
    let opts: Vec<PollCommandOption> = vec![];
    let (question, ends) = poll_fields(&opts);
    assert_eq!(question, "<Unknown Question>");
    assert_eq!(ends, None);
}

#[test]
fn combine_end_time_cases() {
    let today = PollDate { year: 2021, month: 5, day: 1 };
    let d = PollDate { year: 2022, month: 1, day: 2 };
    let t = PollTime { hour: 10, minute: 30, second: 0 };
    assert_eq!(combine_end_time(None, None, today), None);
    assert_eq!(
        combine_end_time(None, Some(t), today),
        Some(PollMoment { date: today, time: t })
    );
    assert_eq!(
        combine_end_time(Some(d), None, today),
        Some(PollMoment { date: d, time: PollTime { hour: 0, minute: 0, second: 0 } })
    );
    assert_eq!(combine_end_time(Some(d), Some(t), today), Some(PollMoment { date: d, time: t }));
}

#[test]
fn poll_from_command_without_end_values() {
    let opts = vec![PollCommandOption {
        name: "question".to_string(),
        value: Some("cake?".to_string()),
    }];
    let poll = Poll::from_command(77, "Author".to_string(), &opts, None, None);
    assert_eq!(poll.id, 0);
    assert_eq!(poll.author_id, 77);
    assert_eq!(poll.author_name, "Author");
    assert_eq!(poll.question, "cake?");
    assert!(poll.ends.is_none());
    assert!(poll.start.is_none());
    assert!(poll.options.is_none());
}

#[test]
fn poll_from_command_with_end_values() {
    let opts = vec![PollCommandOption {
        name: "question".to_string(),
        value: Some("cake?".to_string()),
    }];
    let d = PollDate { year: 2022, month: 1, day: 2 };
    let t = PollTime { hour: 10, minute: 30, second: 0 };
    let date_only = Poll::from_command(77, "Author".to_string(), &opts, Some(d), None);
    assert_eq!(
        date_only.ends,
        Some(PollMoment { date: d, time: PollTime { hour: 0, minute: 0, second: 0 } })
    );
    assert!(date_only.start.is_some());
    let both = Poll::from_command(77, "Author".to_string(), &opts, Some(d), Some(t));
    assert_eq!(both.ends, Some(PollMoment { date: d, time: t }));
    let time_only = Poll::from_command(77, "Author".to_string(), &opts, None, Some(t));
    assert_eq!(time_only.ends.map(|m| m.time), Some(t));
}

#[test]
fn poll_end_phrase_round_trip() {
    // the natural-language parse runs outside the library; its results
    // feed the verified builder
    let opts = vec![
        PollCommandOption { name: "question".to_string(), value: Some("cake?".to_string()) },
        PollCommandOption { name: "ends".to_string(), value: Some("tomorrow".to_string()) },
    ];
    let (_, ends_text) = guild_welcome::poll::poll_fields(&opts);
    let text = ends_text.expect("ends phrase extracted");
    let end_date = date_time_parser::DateParser::parse(&text).map(|d| PollDate {
        year: chrono::Datelike::year(&d),
        month: chrono::Datelike::month(&d),
        day: chrono::Datelike::day(&d),
    });
    let poll = Poll::from_command(77, "Author".to_string(), &opts, end_date, None);
    assert_eq!(poll.start.is_some(), poll.ends.is_some());
}

fn sample_msg() -> ReactionRolesMsg {
    ReactionRolesMsg {
        message_id: None,
        channel_id: 10,
        guild_id: 20,
        content: "pick a role".to_string(),
        embeds: vec![],
        role_map: vec![(100, 1000), (200, 2000)],
    }
}

#[test]
fn reaction_lookup_maps_custom_emoji() {
    let msg = sample_msg();
    assert_eq!(msg.role_for_reaction(Some(200)), Ok(2000));
    assert_eq!(msg.role_for_reaction(Some(300)), Err(ReactionError::UnmappedEmoji));
    assert_eq!(msg.role_for_reaction(None), Err(ReactionError::InvalidEmojiReaction));
}

#[test]
fn posting_marks_the_message() {
    let mut msg = sample_msg();
    assert!(msg.can_post());
    msg.mark_posted(555);
    assert!(!msg.can_post());
    assert_eq!(msg.message_id, Some(555));
    assert_eq!(msg.content, "pick a role");
}

#[test]
fn collect_all_some_keeps_order() {
    assert_eq!(collect_all_some(vec![Some(1), Some(2), Some(3)]), Some(vec![1, 2, 3]));
    let empty: Vec<Option<u8>> = vec![];
    assert_eq!(collect_all_some(empty), Some(vec![]));
}

#[test]
fn collect_all_some_fails_on_gap() {
    assert_eq!(collect_all_some(vec![Some(1), None, Some(3)]), None);
}

#[test]
fn classify_upload_part_names() {
    assert_eq!(classify_upload_part("join.author.image"), Some(UploadSlot::JoinAuthorImage));
    assert_eq!(classify_upload_part("join.image"), Some(UploadSlot::JoinImage));
    assert_eq!(classify_upload_part("join.thumbnail"), Some(UploadSlot::JoinThumbnail));
    assert_eq!(classify_upload_part("join.footer.image"), Some(UploadSlot::JoinFooterImage));
    assert_eq!(classify_upload_part("evil.name"), None);
}

#[test]
fn prepare_join_message_renders_embed() {
    let ctx = plain_context();
    let join = WelcomeJoin {
        id: 1,
        enabled: true,
        message_type: "embed".to_string(),
        channel_id: Some("42".to_string()),
        content: None,
        embed: Some(guild_welcome::embed::Embed {
            author: None,
            color: Some("#123456".to_string()),
            description: Some("welcome {user.name}".to_string()),
            fields: vec![],
            footer: None,
            image: None,
            provider: None,
            thumbnail: None,
            timestamp: None,
            title: None,
            url: None,
        }),
    };
    match prepare_join_message(Some(&join), &ctx) {
        Ok(Some(PreparedMessage::Embed { channel_id, embed })) => {
            assert_eq!(channel_id, 42);
            assert_eq!(embed.description, Some("welcome Test User".to_string()));
            assert_eq!(embed.color, Some("#123456".to_string()));
        }
        other => panic!("unexpected decision: {other:?}"),
    }
}
