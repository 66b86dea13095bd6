use guild_welcome::context::{ChannelSnapshot, RenderContext, ServerSnapshot, UserSnapshot};
use guild_welcome::embed::{Embed, EmbedAuthor, EmbedField, EmbedFooter};
use guild_welcome::render::{render_embed, render_text};

fn test_context() -> RenderContext {
    RenderContext {
        server: ServerSnapshot {
            id: 7,
            name: "Test Server".to_string(),
            icon: Some("iconhash".to_string()),
            joined_at: Some("2021-05-01T00:00:00".to_string()),
            member_count: Some(24),
            owner: Some("Owner".to_string()),
            owner_id: 9,
            region: "US East".to_string(),
            verification_level: 2,
        },
        user: UserSnapshot {
            id: 3,
            name: "Test User".to_string(),
            avatar: Some("avhash".to_string()),
            bot: false,
            discriminator: "1234".to_string(),
        },
        channel: Some(ChannelSnapshot {
            id: 5,
            name: "general".to_string(),
            kind: "text".to_string(),
        }),
    }
}

#[test]
fn test_parse_message() {
    let message = "Welcome to {server.name}, {member.name}! You are member #{server.member_count}.";
    let mut ctx = test_context();
    ctx.server.name = "The Test Server".to_string();
    let parsed = render_text(message, &ctx);
    assert_eq!(parsed, "Welcome to The Test Server, Test User! You are member #24.");
}

#[test]
fn unknown_token_passthrough() {
    let ctx = test_context();
    assert_eq!(render_text("Hi {nope.here}!", &ctx), "Hi {nope.here}!");
}

#[test]
fn known_token_substitution() {
    let ctx = test_context();
    let out = render_text(
        "Welcome to {server.name}, {user.name}! You are member #{server.member_count}.",
        &ctx,
    );
    assert_eq!(out, "Welcome to Test Server, Test User! You are member #24.");
}

#[test]
fn unterminated_brace() {
    let ctx = test_context();
    assert_eq!(render_text("a {bcd", &ctx), "a {bcd");
}

#[test]
fn empty_token_renders_literally() {
    let ctx = test_context();
    assert_eq!(render_text("x{}y", &ctx), "x{}y");
}

#[test]
fn second_brace_is_token_content() {
    let ctx = test_context();
    assert_eq!(render_text("{a{b}", &ctx), "{a{b}");
    assert_eq!(render_text("{a{server.name}", &ctx), "{a{server.name}");
}

#[test]
fn empty_template_renders_empty() {
    let ctx = test_context();
    assert_eq!(render_text("", &ctx), "");
}

#[test]
fn absent_member_count_renders_empty() {
    let mut ctx = test_context();
    ctx.server.member_count = None;
    assert_eq!(render_text("#{server.member_count}#", &ctx), "##");
}

#[test]
fn channel_tokens_resolve() {
    let ctx = test_context();
    assert_eq!(render_text("{channel}", &ctx), "<#5>");
    assert_eq!(render_text("{channel.id}", &ctx), "5");
    assert_eq!(render_text("{channel.name}", &ctx), "general");
    assert_eq!(render_text("{channel.type}", &ctx), "text");
}

#[test]
fn channel_tokens_without_channel_render_empty() {
    let mut ctx = test_context();
    ctx.channel = None;
    assert_eq!(render_text("[{channel}][{channel.id}][{channel.name}]", &ctx), "[][][]");
}

#[test]
fn server_tokens_resolve() {
    let ctx = test_context();
    assert_eq!(render_text("{server}", &ctx), "Test Server");
    assert_eq!(render_text("{server.id}", &ctx), "7");
    assert_eq!(render_text("{server.icon}", &ctx), "iconhash");
    assert_eq!(render_text("{server.owner}", &ctx), "Owner");
    assert_eq!(render_text("{server.owner_id}", &ctx), "9");
    assert_eq!(render_text("{server.region}", &ctx), "US East");
    assert_eq!(render_text("{server.verification_level}", &ctx), "2");
    assert_eq!(render_text("{server.joined_at}", &ctx), "2021-05-01T00:00:00");
}

#[test]
fn user_tokens_resolve() {
    let ctx = test_context();
    assert_eq!(render_text("{user}", &ctx), "Test User");
    assert_eq!(render_text("{user.name}", &ctx), "Test User");
    assert_eq!(render_text("{user.id}", &ctx), "3");
    assert_eq!(render_text("{user.bot}", &ctx), "false");
    assert_eq!(render_text("{user.discriminator}", &ctx), "1234");
    assert_eq!(render_text("{user.idname}", &ctx), "Test User#1234");
    assert_eq!(render_text("{user.mention}", &ctx), "<@3>");
    assert_eq!(render_text("{user.avatar}", &ctx), "avhash");
}

#[test]
fn icon_url_token_builds_asset_url() {
    let ctx = test_context();
    assert_eq!(
        render_text("{server.icon_url}", &ctx),
        "https://cdn.discordapp.com/icons/7/iconhash.png"
    );
    let mut bare = test_context();
    bare.server.icon = None;
    assert_eq!(render_text("{server.icon_url}", &bare), "");
}

#[test]
fn avatar_url_token_builds_asset_url() {
    let ctx = test_context();
    assert_eq!(
        render_text("{user.avatar_url}", &ctx),
        "https://cdn.discordapp.com/avatars/3/avhash.png"
    );
    let mut bare = test_context();
    bare.user.avatar = None;
    assert_eq!(render_text("{user.avatar_url}", &bare), "");
}

fn skeleton() -> Embed {
    Embed {
        author: Some(EmbedAuthor {
            image: Some("author.png".to_string()),
            name: Some("by {user.name}".to_string()),
            url: None,
        }),
        color: Some("#ff0000".to_string()),
        description: Some("{server.name} greets you".to_string()),
        fields: vec![EmbedField {
            name: "{server.name}".to_string(),
            value: "{server.member_count}".to_string(),
            inline: false,
        }],
        footer: Some(EmbedFooter {
            image: None,
            text: Some("bye {user.name}".to_string()),
        }),
        image: Some("https://example.invalid/pic.png".to_string()),
        provider: None,
        thumbnail: None,
        timestamp: Some("2021-05-01T00:00:00".to_string()),
        title: Some("{user.name} in title".to_string()),
        url: None,
    }
}

#[test]
fn embed_render_preserves_structure() {
    let ctx = test_context();
    let out = render_embed(&skeleton(), &ctx);
    assert_eq!(out.title, Some("Test User in title".to_string()));
    assert_eq!(out.fields.len(), 1);
    assert_eq!(out.fields[0].name, "Test Server");
    assert_eq!(out.fields[0].value, "24");
    assert!(!out.fields[0].inline);
    assert_eq!(out.color, Some("#ff0000".to_string()));
    assert_eq!(out.image, Some("https://example.invalid/pic.png".to_string()));
    assert_eq!(out.timestamp, Some("2021-05-01T00:00:00".to_string()));
}

#[test]
fn embed_render_touches_every_text_leaf() {
    let ctx = test_context();
    let out = render_embed(&skeleton(), &ctx);
    assert_eq!(out.description, Some("Test Server greets you".to_string()));
    let author = out.author.expect("author kept");
    assert_eq!(author.name, Some("by Test User".to_string()));
    assert_eq!(author.image, Some("author.png".to_string()));
    let footer = out.footer.expect("footer kept");
    assert_eq!(footer.text, Some("bye Test User".to_string()));
    assert_eq!(footer.image, None);
}
