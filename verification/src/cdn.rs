//! Asset URL builders: pure string construction from an entity id and,
//! where the asset is keyed by one, a hash fragment.

use vstd::prelude::*;
use vstd::string::StringExecFns;
use crate::decimal::{spec_udigits, u64_to_string};

verus! {

broadcast use vstd::string::group_string_axioms;

/// Base of every asset URL.
pub const BASE_URL: &'static str = "https://cdn.discordapp.com/";

/// An asset address that renders as a URL string.
pub trait UrlString {
    /// The URL without a format suffix.
    spec fn spec_format(&self) -> Seq<char>;

    fn format(&self) -> (s: String)
        ensures
            s@ == self.spec_format(),
    ;
}

pub trait SupportsPng: UrlString {
    fn as_png(&self) -> (s: String)
        ensures
            s@ == self.spec_format() + ".png"@,
    {
        self.format().concat(".png")
    }
}

pub trait SupportsJpeg: UrlString {
    fn as_jpeg(&self) -> (s: String)
        ensures
            s@ == self.spec_format() + "jpeg"@,
    {
        self.format().concat("jpeg")
    }
}

pub trait SupportsWebp: UrlString {
    fn as_webp(&self) -> (s: String)
        ensures
            s@ == self.spec_format() + "webp"@,
    {
        self.format().concat("webp")
    }
}

pub trait SupportsGif: UrlString {
    fn as_gif(&self) -> (s: String)
        ensures
            s@ == self.spec_format() + "gif"@,
    {
        self.format().concat("gif")
    }
}

pub trait SupportsLottie: UrlString {
    fn as_lottie(&self) -> (s: String)
        ensures
            s@ == self.spec_format() + "json"@,
    {
        self.format().concat("json")
    }
}

/// A guild's icon, keyed by guild id and icon hash.
pub struct GuildIconUrl(pub u64, pub String);

impl UrlString for GuildIconUrl {
    open spec fn spec_format(&self) -> Seq<char> {
        BASE_URL@ + "icons/"@ + spec_udigits(self.0 as nat) + "/"@ + self.1@
    }

    fn format(&self) -> (s: String) {
        let mut s = String::from_str(BASE_URL);
        s.append("icons/");
        let id = u64_to_string(self.0);
        s.append(id.as_str());
        s.append("/");
        s.append(self.1.as_str());
        s
    }
}

impl SupportsPng for GuildIconUrl {

}

impl SupportsJpeg for GuildIconUrl {

}

impl SupportsWebp for GuildIconUrl {

}

impl SupportsGif for GuildIconUrl {

}

/// A user's avatar, keyed by user id and avatar hash.
pub struct UserAvatarUrl(pub u64, pub String);

impl UrlString for UserAvatarUrl {
    open spec fn spec_format(&self) -> Seq<char> {
        BASE_URL@ + "avatars/"@ + spec_udigits(self.0 as nat) + "/"@ + self.1@
    }

    fn format(&self) -> (s: String) {
        let mut s = String::from_str(BASE_URL);
        s.append("avatars/");
        let id = u64_to_string(self.0);
        s.append(id.as_str());
        s.append("/");
        s.append(self.1.as_str());
        s
    }
}

impl SupportsPng for UserAvatarUrl {

}

impl SupportsJpeg for UserAvatarUrl {

}

impl SupportsWebp for UserAvatarUrl {

}

impl SupportsGif for UserAvatarUrl {

}

/// A sticker asset, keyed by sticker id.
pub struct StickerUrl(pub u64);

impl UrlString for StickerUrl {
    open spec fn spec_format(&self) -> Seq<char> {
        BASE_URL@ + "stickers/"@ + spec_udigits(self.0 as nat)
    }

    fn format(&self) -> (s: String) {
        let mut s = String::from_str(BASE_URL);
        s.append("stickers/");
        let id = u64_to_string(self.0);
        s.append(id.as_str());
        s
    }
}

impl SupportsPng for StickerUrl {

}

impl SupportsLottie for StickerUrl {

}


/// A custom emoji, keyed by emoji id.
pub struct EmojiUrl(pub u64);

impl UrlString for EmojiUrl {
    open spec fn spec_format(&self) -> Seq<char> {
        BASE_URL@ + "emojis/"@ + spec_udigits(self.0 as nat)
    }

    fn format(&self) -> (s: String) {
        let mut s = String::from_str(BASE_URL);
        s.append("emojis/");
        let id = u64_to_string(self.0);
        s.append(id.as_str());
        s
    }
}

impl SupportsPng for EmojiUrl {

}

impl SupportsJpeg for EmojiUrl {

}

impl SupportsWebp for EmojiUrl {

}

impl SupportsGif for EmojiUrl {

}


/// A guild's invite splash, keyed by guild id and splash hash.
pub struct GuildSplashUrl(pub u64, pub String);

impl UrlString for GuildSplashUrl {
    open spec fn spec_format(&self) -> Seq<char> {
        BASE_URL@ + "splashes/"@ + spec_udigits(self.0 as nat) + "/"@ + self.1@
    }

    fn format(&self) -> (s: String) {
        let mut s = String::from_str(BASE_URL);
        s.append("splashes/");
        let id = u64_to_string(self.0);
        s.append(id.as_str());
        s.append("/");
        s.append(self.1.as_str());
        s
    }
}

impl SupportsPng for GuildSplashUrl {

}

impl SupportsJpeg for GuildSplashUrl {

}

impl SupportsWebp for GuildSplashUrl {

}


/// A guild's discovery splash, keyed by guild id and splash hash.
pub struct GuildDiscoverySplashUrl(pub u64, pub String);

impl UrlString for GuildDiscoverySplashUrl {
    open spec fn spec_format(&self) -> Seq<char> {
        BASE_URL@ + "discovery-splashes/"@ + spec_udigits(self.0 as nat) + "/"@ + self.1@
    }

    fn format(&self) -> (s: String) {
        let mut s = String::from_str(BASE_URL);
        s.append("discovery-splashes/");
        let id = u64_to_string(self.0);
        s.append(id.as_str());
        s.append("/");
        s.append(self.1.as_str());
        s
    }
}

impl SupportsPng for GuildDiscoverySplashUrl {

}

impl SupportsJpeg for GuildDiscoverySplashUrl {

}

impl SupportsWebp for GuildDiscoverySplashUrl {

}


/// A guild's banner, keyed by guild id and banner hash.
pub struct GuildBannerUrl(pub u64, pub String);

impl UrlString for GuildBannerUrl {
    open spec fn spec_format(&self) -> Seq<char> {
        BASE_URL@ + "banners/"@ + spec_udigits(self.0 as nat) + "/"@ + self.1@
    }

    fn format(&self) -> (s: String) {
        let mut s = String::from_str(BASE_URL);
        s.append("banners/");
        let id = u64_to_string(self.0);
        s.append(id.as_str());
        s.append("/");
        s.append(self.1.as_str());
        s
    }
}

impl SupportsPng for GuildBannerUrl {

}

impl SupportsJpeg for GuildBannerUrl {

}

impl SupportsWebp for GuildBannerUrl {

}


/// A user's banner, keyed by user id and banner hash.
pub struct UserBannerUrl(pub u64, pub String);

impl UrlString for UserBannerUrl {
    open spec fn spec_format(&self) -> Seq<char> {
        BASE_URL@ + "banners/"@ + spec_udigits(self.0 as nat) + "/"@ + self.1@
    }

    fn format(&self) -> (s: String) {
        let mut s = String::from_str(BASE_URL);
        s.append("banners/");
        let id = u64_to_string(self.0);
        s.append(id.as_str());
        s.append("/");
        s.append(self.1.as_str());
        s
    }
}

impl SupportsPng for UserBannerUrl {

}

impl SupportsJpeg for UserBannerUrl {

}

impl SupportsWebp for UserBannerUrl {

}

impl SupportsGif for UserBannerUrl {

}


/// A default avatar, keyed by its selector.
pub struct DefaultUserAvatarUrl(pub String);

impl UrlString for DefaultUserAvatarUrl {
    open spec fn spec_format(&self) -> Seq<char> {
        BASE_URL@ + "embed/avatars/"@ + self.0@
    }

    fn format(&self) -> (s: String) {
        let mut s = String::from_str(BASE_URL);
        s.append("embed/avatars/");
        s.append(self.0.as_str());
        s
    }
}

impl SupportsPng for DefaultUserAvatarUrl {

}


/// An application's icon, keyed by application id and icon hash.
pub struct ApplicationIconUrl(pub u64, pub String);

impl UrlString for ApplicationIconUrl {
    open spec fn spec_format(&self) -> Seq<char> {
        BASE_URL@ + "app-icons/"@ + spec_udigits(self.0 as nat) + "/"@ + self.1@
    }

    fn format(&self) -> (s: String) {
        let mut s = String::from_str(BASE_URL);
        s.append("app-icons/");
        let id = u64_to_string(self.0);
        s.append(id.as_str());
        s.append("/");
        s.append(self.1.as_str());
        s
    }
}

impl SupportsPng for ApplicationIconUrl {

}

impl SupportsJpeg for ApplicationIconUrl {

}

impl SupportsWebp for ApplicationIconUrl {

}


/// An application's store cover, keyed by application id and cover hash.
pub struct ApplicationCoverUrl(pub u64, pub String);

impl UrlString for ApplicationCoverUrl {
    open spec fn spec_format(&self) -> Seq<char> {
        BASE_URL@ + "app-icons/"@ + spec_udigits(self.0 as nat) + "/"@ + self.1@
    }

    fn format(&self) -> (s: String) {
        let mut s = String::from_str(BASE_URL);
        s.append("app-icons/");
        let id = u64_to_string(self.0);
        s.append(id.as_str());
        s.append("/");
        s.append(self.1.as_str());
        s
    }
}

impl SupportsPng for ApplicationCoverUrl {

}

impl SupportsJpeg for ApplicationCoverUrl {

}

impl SupportsWebp for ApplicationCoverUrl {

}


/// An application asset, keyed by application id and asset id.
pub struct ApplicationAssetUrl(pub u64, pub String);

impl UrlString for ApplicationAssetUrl {
    open spec fn spec_format(&self) -> Seq<char> {
        BASE_URL@ + "app-assets/"@ + spec_udigits(self.0 as nat) + "/"@ + self.1@
    }

    fn format(&self) -> (s: String) {
        let mut s = String::from_str(BASE_URL);
        s.append("app-assets/");
        let id = u64_to_string(self.0);
        s.append(id.as_str());
        s.append("/");
        s.append(self.1.as_str());
        s
    }
}

impl SupportsPng for ApplicationAssetUrl {

}

impl SupportsJpeg for ApplicationAssetUrl {

}

impl SupportsWebp for ApplicationAssetUrl {

}


/// An achievement's icon, keyed by application id, achievement id and
/// icon hash.
pub struct AchievementIconUrl(pub u64, pub String, pub String);

impl UrlString for AchievementIconUrl {
    open spec fn spec_format(&self) -> Seq<char> {
        BASE_URL@ + "app-assets/"@ + spec_udigits(self.0 as nat) + "/achievements/"@ + self.1@
            + "/icons/"@ + self.2@
    }

    fn format(&self) -> (s: String) {
        let mut s = String::from_str(BASE_URL);
        s.append("app-assets/");
        let id = u64_to_string(self.0);
        s.append(id.as_str());
        s.append("/achievements/");
        s.append(self.1.as_str());
        s.append("/icons/");
        s.append(self.2.as_str());
        s
    }
}

impl SupportsPng for AchievementIconUrl {

}

impl SupportsJpeg for AchievementIconUrl {

}

impl SupportsWebp for AchievementIconUrl {

}


/// A sticker pack's banner, keyed by its asset id under the packs'
/// own application.
pub struct StickerPackBannerUrl(pub String);

impl UrlString for StickerPackBannerUrl {
    open spec fn spec_format(&self) -> Seq<char> {
        BASE_URL@ + "app-assets/710982414301790216/store/"@ + self.0@
    }

    fn format(&self) -> (s: String) {
        let mut s = String::from_str(BASE_URL);
        s.append("app-assets/710982414301790216/store/");
        s.append(self.0.as_str());
        s
    }
}

impl SupportsPng for StickerPackBannerUrl {

}

impl SupportsJpeg for StickerPackBannerUrl {

}

impl SupportsWebp for StickerPackBannerUrl {

}


/// A team's icon, keyed by team id and icon hash.
pub struct TeamIconUrl(pub u64, pub String);

impl UrlString for TeamIconUrl {
    open spec fn spec_format(&self) -> Seq<char> {
        BASE_URL@ + "team-icons/"@ + spec_udigits(self.0 as nat) + "/"@ + self.1@
    }

    fn format(&self) -> (s: String) {
        let mut s = String::from_str(BASE_URL);
        s.append("team-icons/");
        let id = u64_to_string(self.0);
        s.append(id.as_str());
        s.append("/");
        s.append(self.1.as_str());
        s
    }
}

impl SupportsPng for TeamIconUrl {

}

impl SupportsJpeg for TeamIconUrl {

}

impl SupportsWebp for TeamIconUrl {

}

} // verus!
