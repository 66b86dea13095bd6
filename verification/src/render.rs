//! The template renderer: pure substitution of `{token}` placeholders.
//!
//! A template is scanned left to right; `{` opens a placeholder and the
//! run of characters up to the next `}` is the token. Tokens never nest:
//! a second `{` before the closing brace is ordinary token content. A
//! token that matches a known key is replaced by its value from the
//! context snapshot; an unknown token is passed through verbatim with
//! its braces, and an unterminated `{` renders as its literal source.

use vstd::prelude::*;
use vstd::string::StringExecFns;
use crate::cdn::{GuildIconUrl, SupportsPng, UrlString, BASE_URL};
use crate::cdn::UserAvatarUrl;
use crate::context::{RenderContext, RenderContextView, ServerSnapshotView};
use crate::context::ChannelSnapshotView;
use crate::decimal::{spec_bool_chars, spec_udigits, bool_to_string, u64_to_string};
use crate::embed::{Embed, EmbedAuthor, EmbedAuthorView, EmbedField, EmbedFieldView};
use crate::embed::{EmbedFooter, EmbedFooterView, EmbedView};
use crate::text::{chars_eq_str, clone_opt_string, opt_str_view, push_char, str_to_chars};

verus! {

broadcast use vstd::string::group_string_axioms;

/// The contents of an optional context value: absent renders empty.
pub open spec fn spec_opt_chars(o: Option<Seq<char>>) -> Seq<char> {
    match o {
        Some(s) => s,
        None => Seq::empty(),
    }
}

/// The rendering of an optional count: absent renders empty.
pub open spec fn spec_opt_count(o: Option<u64>) -> Seq<char> {
    match o {
        Some(n) => spec_udigits(n as nat),
        None => Seq::empty(),
    }
}

/// The mention form of the context channel: absent renders empty.
pub open spec fn spec_channel_mention(c: Option<ChannelSnapshotView>) -> Seq<char> {
    match c {
        Some(c) => "<#"@ + spec_udigits(c.id as nat) + ">"@,
        None => Seq::empty(),
    }
}

/// The context channel's id digits: absent renders empty.
pub open spec fn spec_channel_id(c: Option<ChannelSnapshotView>) -> Seq<char> {
    match c {
        Some(c) => spec_udigits(c.id as nat),
        None => Seq::empty(),
    }
}

/// The context channel's name: absent renders empty.
pub open spec fn spec_channel_name(c: Option<ChannelSnapshotView>) -> Seq<char> {
    match c {
        Some(c) => c.name,
        None => Seq::empty(),
    }
}

/// The context channel's type: absent renders empty.
pub open spec fn spec_channel_kind(c: Option<ChannelSnapshotView>) -> Seq<char> {
    match c {
        Some(c) => c.kind,
        None => Seq::empty(),
    }
}

/// The server icon URL derived from id and hash: no hash renders empty.
pub open spec fn spec_icon_url(s: ServerSnapshotView) -> Seq<char> {
    match s.icon {
        Some(h) => BASE_URL@ + "icons/"@ + spec_udigits(s.id as nat) + "/"@ + h + ".png"@,
        None => Seq::empty(),
    }
}

/// The user avatar URL derived from id and hash: no hash renders empty.
pub open spec fn spec_avatar_url(id: u64, avatar: Option<Seq<char>>) -> Seq<char> {
    match avatar {
        Some(h) => BASE_URL@ + "avatars/"@ + spec_udigits(id as nat) + "/"@ + h + ".png"@,
        None => Seq::empty(),
    }
}

/// The replacement for one token: a known key resolves to its context
/// value, and any other token passes through verbatim with its braces.
/// `member.name` stands beside `user.name` as a legacy alias.
pub open spec fn spec_resolve(token: Seq<char>, ctx: RenderContextView) -> Seq<char> {
    if token == "channel"@ {
        spec_channel_mention(ctx.channel)
    } else if token == "channel.id"@ {
        spec_channel_id(ctx.channel)
    } else if token == "channel.name"@ {
        spec_channel_name(ctx.channel)
    } else if token == "channel.type"@ {
        spec_channel_kind(ctx.channel)
    } else if token == "server"@ {
        ctx.server.name
    } else if token == "server.name"@ {
        ctx.server.name
    } else if token == "server.icon"@ {
        spec_opt_chars(ctx.server.icon)
    } else if token == "server.icon_url"@ {
        spec_icon_url(ctx.server)
    } else if token == "server.id"@ {
        spec_udigits(ctx.server.id as nat)
    } else if token == "server.joined_at"@ {
        spec_opt_chars(ctx.server.joined_at)
    } else if token == "server.member_count"@ {
        spec_opt_count(ctx.server.member_count)
    } else if token == "server.owner"@ {
        spec_opt_chars(ctx.server.owner)
    } else if token == "server.owner_id"@ {
        spec_udigits(ctx.server.owner_id as nat)
    } else if token == "server.region"@ {
        ctx.server.region
    } else if token == "server.verification_level"@ {
        spec_udigits(ctx.server.verification_level as nat)
    } else if token == "user"@ {
        ctx.user.name
    } else if token == "user.name"@ {
        ctx.user.name
    } else if token == "member.name"@ {
        ctx.user.name
    } else if token == "user.avatar"@ {
        spec_opt_chars(ctx.user.avatar)
    } else if token == "user.avatar_url"@ {
        spec_avatar_url(ctx.user.id, ctx.user.avatar)
    } else if token == "user.bot"@ {
        spec_bool_chars(ctx.user.bot)
    } else if token == "user.discriminator"@ {
        ctx.user.discriminator
    } else if token == "user.id"@ {
        spec_udigits(ctx.user.id as nat)
    } else if token == "user.idname"@ {
        ctx.user.name + "#"@ + ctx.user.discriminator
    } else if token == "user.mention"@ {
        "<@"@ + spec_udigits(ctx.user.id as nat) + ">"@
    } else {
        "{"@ + token + "}"@
    }
}

/// The index of the first `}` in `t`, or a negative value if none.
pub open spec fn spec_find_close(t: Seq<char>) -> int
    decreases t.len(),
{
    if t.len() == 0 {
        -1
    } else if t[0] == '}' {
        0
    } else {
        let r = spec_find_close(t.drop_first());
        if r < 0 {
            -1
        } else {
            r + 1
        }
    }
}

proof fn lemma_find_close_none(t: Seq<char>)
    requires
        forall|k: int| 0 <= k < t.len() ==> t[k] != '}',
    ensures
        spec_find_close(t) == -1,
    decreases t.len(),
{
    if t.len() > 0 {
        assert forall|k: int| 0 <= k < t.drop_first().len() implies t.drop_first()[k]
            != '}' by {
            assert(t.drop_first()[k] == t[k + 1]);
        }
        lemma_find_close_none(t.drop_first());
    }
}

proof fn lemma_find_close_at(t: Seq<char>, j: int)
    requires
        0 <= j < t.len(),
        t[j] == '}',
        forall|k: int| 0 <= k < j ==> t[k] != '}',
    ensures
        spec_find_close(t) == j,
    decreases j,
{
    if j > 0 {
        assert forall|k: int| 0 <= k < j - 1 implies t.drop_first()[k] != '}' by {
            assert(t.drop_first()[k] == t[k + 1]);
        }
        assert(t.drop_first()[j - 1] == t[j]);
        lemma_find_close_at(t.drop_first(), j - 1);
    }
}

/// The rendering of a whole template against a context snapshot.
pub open spec fn spec_render(t: Seq<char>, ctx: RenderContextView) -> Seq<char>
    decreases t.len(),
{
    if t.len() == 0 {
        Seq::empty()
    } else if t[0] == '{' {
        let r = spec_find_close(t.drop_first());
        if r < 0 {
            t
        } else if r + 2 <= t.len() {
            spec_resolve(t.subrange(1, r + 1), ctx) + spec_render(
                t.subrange(r + 2, t.len() as int),
                ctx,
            )
        } else {
            // a found close always lies within the remainder; this arm
            // only keeps the recursion's measure self-evident
            t
        }
    } else {
        seq![t[0]] + spec_render(t.drop_first(), ctx)
    }
}

fn mention_channel(id: u64) -> (s: String)
    ensures
        s@ == "<#"@ + spec_udigits(id as nat) + ">"@,
{
    let mut s = String::from_str("<#");
    let d = u64_to_string(id);
    s.append(d.as_str());
    s.append(">");
    s
}

fn mention_user(id: u64) -> (s: String)
    ensures
        s@ == "<@"@ + spec_udigits(id as nat) + ">"@,
{
    let mut s = String::from_str("<@");
    let d = u64_to_string(id);
    s.append(d.as_str());
    s.append(">");
    s
}

fn opt_string_or_empty(o: &Option<String>) -> (s: String)
    ensures
        s@ == spec_opt_chars(opt_str_view(*o)),
{
    match o {
        Some(v) => v.clone(),
        None => String::new(),
    }
}

/// The replacement text for one scanned token.
fn resolve_token(token: &Vec<char>, ctx: &RenderContext) -> (r: String)
    ensures
        r@ == spec_resolve(token@, ctx@),
{
    if chars_eq_str(token, "channel") {
        match &ctx.channel {
            Some(c) => mention_channel(c.id),
            None => String::new(),
        }
    } else if chars_eq_str(token, "channel.id") {
        match &ctx.channel {
            Some(c) => u64_to_string(c.id),
            None => String::new(),
        }
    } else if chars_eq_str(token, "channel.name") {
        match &ctx.channel {
            Some(c) => c.name.clone(),
            None => String::new(),
        }
    } else if chars_eq_str(token, "channel.type") {
        match &ctx.channel {
            Some(c) => c.kind.clone(),
            None => String::new(),
        }
    } else if chars_eq_str(token, "server") {
        ctx.server.name.clone()
    } else if chars_eq_str(token, "server.name") {
        ctx.server.name.clone()
    } else if chars_eq_str(token, "server.icon") {
        opt_string_or_empty(&ctx.server.icon)
    } else if chars_eq_str(token, "server.icon_url") {
        match &ctx.server.icon {
            Some(h) => GuildIconUrl(ctx.server.id, h.clone()).as_png(),
            None => String::new(),
        }
    } else if chars_eq_str(token, "server.id") {
        u64_to_string(ctx.server.id)
    } else if chars_eq_str(token, "server.joined_at") {
        opt_string_or_empty(&ctx.server.joined_at)
    } else if chars_eq_str(token, "server.member_count") {
        match ctx.server.member_count {
            Some(n) => u64_to_string(n),
            None => String::new(),
        }
    } else if chars_eq_str(token, "server.owner") {
        opt_string_or_empty(&ctx.server.owner)
    } else if chars_eq_str(token, "server.owner_id") {
        u64_to_string(ctx.server.owner_id)
    } else if chars_eq_str(token, "server.region") {
        ctx.server.region.clone()
    } else if chars_eq_str(token, "server.verification_level") {
        u64_to_string(ctx.server.verification_level)
    } else if chars_eq_str(token, "user") {
        ctx.user.name.clone()
    } else if chars_eq_str(token, "user.name") {
        ctx.user.name.clone()
    } else if chars_eq_str(token, "member.name") {
        ctx.user.name.clone()
    } else if chars_eq_str(token, "user.avatar") {
        opt_string_or_empty(&ctx.user.avatar)
    } else if chars_eq_str(token, "user.avatar_url") {
        match &ctx.user.avatar {
            Some(h) => UserAvatarUrl(ctx.user.id, h.clone()).as_png(),
            None => String::new(),
        }
    } else if chars_eq_str(token, "user.bot") {
        bool_to_string(ctx.user.bot)
    } else if chars_eq_str(token, "user.discriminator") {
        ctx.user.discriminator.clone()
    } else if chars_eq_str(token, "user.id") {
        u64_to_string(ctx.user.id)
    } else if chars_eq_str(token, "user.idname") {
        let mut s = ctx.user.name.clone();
        s.append("#");
        s.append(ctx.user.discriminator.as_str());
        s
    } else if chars_eq_str(token, "user.mention") {
        mention_user(ctx.user.id)
    } else {
        let mut s = String::from_str("{");
        let mut k: usize = 0;
        while k < token.len()
            invariant
                k <= token.len(),
                s@ == "{"@ + token@.subrange(0, k as int),
            decreases token.len() - k,
        {
            let ghost pre = s@;
            push_char(&mut s, token[k]);
            proof {
                assert(s@ =~= "{"@ + token@.subrange(0, k as int + 1));
            }
            k += 1;
        }
        proof {
            assert(token@.subrange(0, token@.len() as int) =~= token@);
        }
        s.append("}");
        s
    }
}

/// Renders a template string against the context snapshot. Plain text
/// is copied unchanged, known tokens are substituted, unknown tokens
/// and unterminated braces pass through as their literal source text.
pub fn render_text(template: &str, ctx: &RenderContext) -> (r: String)
    ensures
        r@ == spec_render(template@, ctx@),
{
    let tv = str_to_chars(template);
    let n = tv.len();
    let mut out = String::new();
    let mut i: usize = 0;
    proof {
        assert(out@ + spec_render(tv@.subrange(0, n as int), ctx@) =~= spec_render(
            tv@,
            ctx@,
        )) by {
            assert(tv@.subrange(0, n as int) =~= tv@);
        }
    }
    while i < n
        invariant
            n == tv.len(),
            tv@ == template@,
            i <= n,
            out@ + spec_render(tv@.subrange(i as int, n as int), ctx@) == spec_render(tv@, ctx@),
        decreases n - i,
    {
        let ghost rest = tv@.subrange(i as int, n as int);
        let c = tv[i];
        if c == '{' {
            let mut j = i + 1;
            while j < n && tv[j] != '}'
                invariant
                    n == tv.len(),
                    i + 1 <= j <= n,
                    forall|k: int| i + 1 <= k < j ==> tv@[k] != '}',
                decreases n - j,
            {
                j += 1;
            }
            proof {
                assert(rest.drop_first() =~= tv@.subrange(i as int + 1, n as int));
            }
            if j == n {
                // no closing brace: the rest of the template is literal
                proof {
                    assert forall|k: int| 0 <= k < rest.drop_first().len() implies rest.drop_first()[k]
                        != '}' by {
                        assert(rest.drop_first()[k] == tv@[i + 1 + k]);
                    }
                    lemma_find_close_none(rest.drop_first());
                    assert(spec_render(rest, ctx@) == rest);
                }
                while i < n
                    invariant
                        n == tv.len(),
                        i <= n,
                        out@ + tv@.subrange(i as int, n as int) == spec_render(tv@, ctx@),
                    decreases n - i,
                {
                    let ghost pre = out@;
                    let ghost sub = tv@.subrange(i as int, n as int);
                    push_char(&mut out, tv[i]);
                    proof {
                        assert(sub =~= seq![tv@[i as int]] + tv@.subrange(i as int + 1, n as int));
                        assert(out@ + tv@.subrange(i as int + 1, n as int) =~= pre + sub);
                    }
                    i += 1;
                }
                proof {
                    assert(tv@.subrange(i as int, n as int) =~= Seq::<char>::empty());
                    assert(out@ =~= out@ + tv@.subrange(i as int, n as int));
                    assert(out@ + spec_render(tv@.subrange(i as int, n as int), ctx@) =~= out@);
                }
            } else {
                let ghost r = j - i - 1;
                proof {
                    assert forall|k: int| 0 <= k < r implies rest.drop_first()[k] != '}' by {
                        assert(rest.drop_first()[k] == tv@[i + 1 + k]);
                    }
                    assert(rest.drop_first()[r] == tv@[j as int]);
                    lemma_find_close_at(rest.drop_first(), r);
                }
                let mut token: Vec<char> = Vec::new();
                let mut k = i + 1;
                while k < j
                    invariant
                        n == tv.len(),
                        j < n,
                        i + 1 <= k <= j,
                        token@ == tv@.subrange(i as int + 1, k as int),
                    decreases j - k,
                {
                    token.push(tv[k]);
                    proof {
                        assert(token@ =~= tv@.subrange(i as int + 1, k as int + 1));
                    }
                    k += 1;
                }
                let repl = resolve_token(&token, ctx);
                let ghost pre_out = out@;
                out.append(repl.as_str());
                proof {
                    assert(token@ =~= rest.subrange(1, r + 1));
                    assert(rest.subrange(r + 2, rest.len() as int) =~= tv@.subrange(
                        j as int + 1,
                        n as int,
                    ));
                    assert(spec_render(rest, ctx@) == spec_resolve(token@, ctx@) + spec_render(
                        tv@.subrange(j as int + 1, n as int),
                        ctx@,
                    ));
                    assert(out@ + spec_render(tv@.subrange(j as int + 1, n as int), ctx@)
                        =~= pre_out + spec_render(rest, ctx@));
                }
                i = j + 1;
            }
        } else {
            let ghost pre = out@;
            push_char(&mut out, c);
            proof {
                assert(rest =~= seq![tv@[i as int]] + rest.drop_first());
                assert(rest.drop_first() =~= tv@.subrange(i as int + 1, n as int));
                assert(spec_render(rest, ctx@) == seq![tv@[i as int]] + spec_render(
                    rest.drop_first(),
                    ctx@,
                ));
                assert(out@ + spec_render(tv@.subrange(i as int + 1, n as int), ctx@) =~= pre
                    + spec_render(rest, ctx@));
            }
            i += 1;
        }
    }
    proof {
        assert(tv@.subrange(i as int, n as int) =~= Seq::<char>::empty());
        assert(out@ =~= out@ + spec_render(tv@.subrange(i as int, n as int), ctx@));
    }
    out
}

/// The rendering of an optional text leaf.
pub open spec fn spec_render_opt(o: Option<Seq<char>>, ctx: RenderContextView) -> Option<
    Seq<char>,
> {
    match o {
        Some(s) => Some(spec_render(s, ctx)),
        None => None,
    }
}

/// The rendering of one embed field: name and value independently.
pub open spec fn spec_render_field(f: EmbedFieldView, ctx: RenderContextView) -> EmbedFieldView {
    EmbedFieldView { name: spec_render(f.name, ctx), value: spec_render(f.value, ctx), inline: f.inline }
}

/// The rendering of an author block: only the name leaf is text-bearing.
pub open spec fn spec_render_author(a: EmbedAuthorView, ctx: RenderContextView) -> EmbedAuthorView {
    EmbedAuthorView { image: a.image, name: spec_render_opt(a.name, ctx), url: a.url }
}

/// The rendering of a footer block: only the text leaf is text-bearing.
pub open spec fn spec_render_footer(f: EmbedFooterView, ctx: RenderContextView) -> EmbedFooterView {
    EmbedFooterView { image: f.image, text: spec_render_opt(f.text, ctx) }
}

/// The rendering of a whole embed: every text-bearing leaf (title,
/// description, author name, footer text, each field's name and value)
/// is rendered; color, images, provider, timestamp and URLs pass
/// through unmodified, and fields keep their order.
pub open spec fn spec_render_embed(e: EmbedView, ctx: RenderContextView) -> EmbedView {
    EmbedView {
        author: match e.author {
            Some(a) => Some(spec_render_author(a, ctx)),
            None => None,
        },
        color: e.color,
        description: spec_render_opt(e.description, ctx),
        fields: e.fields.map_values(|f: EmbedFieldView| spec_render_field(f, ctx)),
        footer: match e.footer {
            Some(f) => Some(spec_render_footer(f, ctx)),
            None => None,
        },
        image: e.image,
        provider: e.provider,
        thumbnail: e.thumbnail,
        timestamp: e.timestamp,
        title: spec_render_opt(e.title, ctx),
        url: e.url,
    }
}

fn render_opt_text(o: &Option<String>, ctx: &RenderContext) -> (r: Option<String>)
    ensures
        opt_str_view(r) == spec_render_opt(opt_str_view(*o), ctx@),
{
    match o {
        Some(s) => Some(render_text(s.as_str(), ctx)),
        None => None,
    }
}

/// Renders every text-bearing leaf of the embed skeleton against the
/// context; non-text fields pass through unmodified, and the field
/// pairs are rendered independently, in order.
pub fn render_embed(skeleton: &Embed, ctx: &RenderContext) -> (r: Embed)
    ensures
        r@ == spec_render_embed(skeleton@, ctx@),
{
    let mut fields: Vec<EmbedField> = Vec::new();
    let mut i: usize = 0;
    while i < skeleton.fields.len()
        invariant
            i <= skeleton.fields.len(),
            fields@.len() == i,
            forall|k: int| 0 <= k < i ==> fields@[k]@ == spec_render_field(
                skeleton.fields@[k]@,
                ctx@,
            ),
        decreases skeleton.fields.len() - i,
    {
        let f = &skeleton.fields[i];
        fields.push(
            EmbedField {
                name: render_text(f.name.as_str(), ctx),
                value: render_text(f.value.as_str(), ctx),
                inline: f.inline,
            },
        );
        i += 1;
    }
    let r = Embed {
        author: match &skeleton.author {
            Some(a) => Some(
                EmbedAuthor {
                    image: clone_opt_string(&a.image),
                    name: render_opt_text(&a.name, ctx),
                    url: clone_opt_string(&a.url),
                },
            ),
            None => None,
        },
        color: clone_opt_string(&skeleton.color),
        description: render_opt_text(&skeleton.description, ctx),
        fields,
        footer: match &skeleton.footer {
            Some(f) => Some(
                EmbedFooter {
                    image: clone_opt_string(&f.image),
                    text: render_opt_text(&f.text, ctx),
                },
            ),
            None => None,
        },
        image: clone_opt_string(&skeleton.image),
        provider: match &skeleton.provider {
            Some(p) => Some(p.clone()),
            None => None,
        },
        thumbnail: clone_opt_string(&skeleton.thumbnail),
        timestamp: clone_opt_string(&skeleton.timestamp),
        title: render_opt_text(&skeleton.title, ctx),
        url: clone_opt_string(&skeleton.url),
    };
    proof {
        assert(r@.fields =~= spec_render_embed(skeleton@, ctx@).fields);
    }
    r
}

} // verus!
