//! Configuration of a Genkan site: profile, theme, metadata, links and the
//! settings of the generated page, with their default values, the
//! typography cascade and validation.
use vstd::prelude::*;
use crate::text::{chars_of, same_chars};

verus! {

/// Root configuration of a site.
#[derive(Debug, Clone)]
pub struct Config {
    pub profile: Profile,
    pub theme: Theme,
    pub meta: Meta,
    pub links: Vec<Link>,
    pub dark_mode: DarkMode,
    pub image: ImageSettings,
}

/// The person or project that the page presents.
#[derive(Debug, Clone)]
pub struct Profile {
    pub name: String,
    pub bio: String,
    pub social_links: Vec<SocialLink>,
    pub light: ProfileAssets,
    pub dark: ProfileAssets,
}

/// Images and background of the profile in one color scheme.
#[derive(Debug, Clone, Default)]
pub struct ProfileAssets {
    pub avatar: String,
    pub background: Option<String>,
    pub background_image: Option<String>,
}

/// A link to a social profile, shown as an icon.
#[derive(Debug, Clone)]
pub struct SocialLink {
    pub icon: String,
    pub url: String,
    pub title: Option<String>,
}

/// The theme of the page and its settings.
#[derive(Debug, Clone)]
pub struct Theme {
    pub name: String,
    pub button_style: String,
    pub font_family: String,
    pub link_spacing: String,
    pub typography: Typography,
    pub light: ThemeColors,
    pub dark: ThemeColors,
}

/// The colors of one color scheme.
#[derive(Debug, Clone)]
pub struct ThemeColors {
    pub primary_color: String,
    pub secondary_color: String,
    pub background_color: String,
    pub header_color: String,
    pub bio_color: String,
    pub link_title_color: String,
    pub link_description_color: String,
}

/// How the page follows dark mode: `auto`, `light`, `dark` or `disable`.
#[derive(Debug, Clone)]
pub struct DarkMode {
    pub mode: String,
}

/// The largest edge, in pixels, of each kind of embedded image.
#[derive(Debug, Clone, Copy)]
pub struct ImageSettings {
    pub avatar_size: u32,
    pub social_icon_size: u32,
    pub link_icon_size: u32,
    pub favicon_size: u32,
}

/// Metadata of the page.
#[derive(Debug, Clone)]
pub struct Meta {
    pub title: String,
    pub description: String,
    pub page_url: Option<String>,
    pub favicon: Option<String>,
    pub custom_css: Option<String>,
    pub analytics: Option<String>,
    pub show_footer: bool,
    pub share_title: Option<String>,
}

/// One entry of the page: a link block, or a blank space.
#[derive(Debug, Clone)]
pub struct Link {
    pub title: Option<String>,
    pub url: Option<String>,
    pub icon: Option<String>,
    pub description: Option<String>,
    pub link_type: String,
    pub height: Option<String>,
}

impl Default for ThemeColors {
    fn default() -> (r: Self)
        ensures
            r.primary_color@ == "#000000"@,
            r.secondary_color@ == "#000000"@,
            r.background_color@ == "#ffffff"@,
            r.header_color@ == "#000000"@,
            r.bio_color@ == "rgba(0, 0, 0, 0.7)"@,
            r.link_title_color@ == "#000000"@,
            r.link_description_color@ == "rgba(0, 0, 0, 0.6)"@,
    {
        ThemeColors {
            primary_color: default_primary_color(),
            secondary_color: default_secondary_color(),
            background_color: default_background_color(),
            header_color: default_header_color(),
            bio_color: default_bio_color(),
            link_title_color: default_link_title_color(),
            link_description_color: default_link_description_color(),
        }
    }
}

impl Default for DarkMode {
    fn default() -> (r: Self)
        ensures
            r.mode@ == "disable"@,
    {
        DarkMode { mode: default_dark_mode_mode() }
    }
}

impl Default for ImageSettings {
    fn default() -> (r: Self)
        ensures
            r.avatar_size == 512,
            r.social_icon_size == 128,
            r.link_icon_size == 128,
            r.favicon_size == 64,
    {
        ImageSettings {
            avatar_size: default_avatar_size(),
            social_icon_size: default_social_icon_size(),
            link_icon_size: default_link_icon_size(),
            favicon_size: default_favicon_size(),
        }
    }
}

/// Whether a style holds exactly the given values.
pub open spec fn style_is(
    s: TypographyStyle,
    size: Option<Seq<char>>,
    font: Option<Seq<char>>,
    weight: Option<Seq<char>>,
    style: Option<Seq<char>>,
    color: Option<Seq<char>>,
    color_dark: Option<Seq<char>>,
) -> bool {
    &&& opt_chars(s.size) == size
    &&& opt_chars(s.font) == font
    &&& opt_chars(s.weight) == weight
    &&& opt_chars(s.style) == style
    &&& opt_chars(s.color) == color
    &&& opt_chars(s.color_dark) == color_dark
}

/// A style of the default typography; the font is given for the global
/// default only.
fn builtin_style(size: &str, font: Option<&str>, weight: &str, color: &str) -> (r:
    TypographyStyle)
    ensures
        style_is(
            r,
            Some(size@),
            opt_str_chars(font),
            Some(weight@),
            Some("normal"@),
            Some(color@),
            None,
        ),
{
    TypographyStyle {
        size: Some(size.to_string()),
        font: match font {
            Some(f) => Some(f.to_string()),
            None => None,
        },
        weight: Some(weight.to_string()),
        style: Some("normal".to_string()),
        color: Some(color.to_string()),
        color_dark: None,
    }
}

impl Default for Typography {
    fn default() -> (r: Self)
        ensures
            style_is(
                r.default,
                Some("16px"@),
                Some("system-ui, -apple-system, sans-serif"@),
                Some("normal"@),
                Some("normal"@),
                Some("#000000"@),
                None,
            ),
            style_is(
                r.header,
                Some("2rem"@),
                None,
                Some("700"@),
                Some("normal"@),
                Some("#000000"@),
                None,
            ),
            style_is(
                r.bio,
                Some("1.1rem"@),
                None,
                Some("normal"@),
                Some("normal"@),
                Some("rgba(0, 0, 0, 0.7)"@),
                None,
            ),
            style_is(
                r.link_title,
                Some("1.1rem"@),
                None,
                Some("600"@),
                Some("normal"@),
                Some("#000000"@),
                None,
            ),
            style_is(
                r.link_description,
                Some("0.9rem"@),
                None,
                Some("normal"@),
                Some("normal"@),
                Some("rgba(0, 0, 0, 0.6)"@),
                None,
            ),
    {
        Typography {
            default: builtin_style(
                "16px",
                Some("system-ui, -apple-system, sans-serif"),
                "normal",
                "#000000",
            ),
            header: builtin_style("2rem", None, "700", "#000000"),
            bio: builtin_style("1.1rem", None, "normal", "rgba(0, 0, 0, 0.7)"),
            link_title: builtin_style("1.1rem", None, "600", "#000000"),
            link_description: builtin_style("0.9rem", None, "normal", "rgba(0, 0, 0, 0.6)"),
        }
    }
}

pub fn default_dark_mode_mode() -> (r: String)
    ensures
        r@ == "disable"@,
{
    "disable".to_string()
}

pub fn default_avatar_size() -> (r: u32)
    ensures
        r == 512,
{
    512
}

pub fn default_social_icon_size() -> (r: u32)
    ensures
        r == 128,
{
    128
}

pub fn default_link_icon_size() -> (r: u32)
    ensures
        r == 128,
{
    128
}

pub fn default_favicon_size() -> (r: u32)
    ensures
        r == 64,
{
    64
}

/// The type of a link when none is given.
pub fn default_link_type() -> (r: String)
    ensures
        r@ == "block"@,
{
    "block".to_string()
}

pub fn default_primary_color() -> (r: String)
    ensures
        r@ == "#000000"@,
{
    "#000000".to_string()
}

pub fn default_secondary_color() -> (r: String)
    ensures
        r@ == "#000000"@,
{
    "#000000".to_string()
}

pub fn default_background_color() -> (r: String)
    ensures
        r@ == "#ffffff"@,
{
    "#ffffff".to_string()
}

/// The button style when none is given.
pub fn default_button_style() -> (r: String)
    ensures
        r@ == "rounded"@,
{
    "rounded".to_string()
}

/// The font family when none is given.
pub fn default_font_family() -> (r: String)
    ensures
        r@ == "system-ui, -apple-system, sans-serif"@,
{
    "system-ui, -apple-system, sans-serif".to_string()
}

/// Whether the footer is shown when nothing is said.
pub fn default_show_footer() -> (r: bool)
    ensures
        r,
{
    true
}

/// The space between links when none is given.
pub fn default_link_spacing() -> (r: String)
    ensures
        r@ == "24px"@,
{
    "24px".to_string()
}

pub fn default_header_color() -> (r: String)
    ensures
        r@ == "#000000"@,
{
    "#000000".to_string()
}

pub fn default_bio_color() -> (r: String)
    ensures
        r@ == "rgba(0, 0, 0, 0.7)"@,
{
    "rgba(0, 0, 0, 0.7)".to_string()
}

pub fn default_link_title_color() -> (r: String)
    ensures
        r@ == "#000000"@,
{
    "#000000".to_string()
}

pub fn default_link_description_color() -> (r: String)
    ensures
        r@ == "rgba(0, 0, 0, 0.6)"@,
{
    "rgba(0, 0, 0, 0.6)".to_string()
}

/// Per-role typography overrides; every field may be left out.
#[derive(Debug, Clone, Default)]
pub struct TypographyStyle {
    pub size: Option<String>,
    pub font: Option<String>,
    pub weight: Option<String>,
    pub style: Option<String>,
    pub color: Option<String>,
    pub color_dark: Option<String>,
}

/// Typography of the page: a global default and one override per text role.
#[derive(Debug, Clone)]
pub struct Typography {
    pub default: TypographyStyle,
    pub header: TypographyStyle,
    pub bio: TypographyStyle,
    pub link_title: TypographyStyle,
    pub link_description: TypographyStyle,
}

/// A text style after the cascade: every field is set, but for the dark-mode
/// color, whose absence means that dark mode keeps the light color.
#[derive(Debug, Clone)]
pub struct ResolvedTypography {
    pub size: String,
    pub font: String,
    pub weight: String,
    pub style: String,
    pub color: String,
    pub color_dark: Option<String>,
}

/// The characters of an optional string.
pub open spec fn opt_chars(o: Option<String>) -> Option<Seq<char>> {
    match o {
        Some(s) => Some(s@),
        None => None,
    }
}

/// The characters of an optional string slice.
pub open spec fn opt_str_chars(o: Option<&str>) -> Option<Seq<char>> {
    match o {
        Some(s) => Some(s@),
        None => None,
    }
}

/// The first of two candidates that is present.
pub open spec fn first_present(a: Option<Seq<char>>, b: Option<Seq<char>>) -> Option<Seq<char>> {
    if a is Some {
        a
    } else {
        b
    }
}

/// The candidate if present, else the fallback.
pub open spec fn present_or(a: Option<Seq<char>>, fallback: Seq<char>) -> Seq<char> {
    match a {
        Some(v) => v,
        None => fallback,
    }
}

/// Copies an optional string.
fn copy_opt(o: &Option<String>) -> (r: Option<String>)
    ensures
        opt_chars(r) == opt_chars(*o),
{
    match o {
        Some(s) => Some(s.clone()),
        None => None,
    }
}

/// The first present of a role override and a global override, as a string.
fn cascade(role: &Option<String>, global: &Option<String>) -> (r: Option<String>)
    ensures
        opt_chars(r) == first_present(opt_chars(*role), opt_chars(*global)),
{
    match role {
        Some(s) => Some(s.clone()),
        None => copy_opt(global),
    }
}

/// The first present of a role override, a legacy value and a global override.
fn cascade_legacy(role: &Option<String>, legacy: Option<&str>, global: &Option<String>) -> (r:
    Option<String>)
    ensures
        opt_chars(r) == first_present(
            opt_chars(*role),
            first_present(opt_str_chars(legacy), opt_chars(*global)),
        ),
{
    match role {
        Some(s) => Some(s.clone()),
        None => match legacy {
            Some(l) => Some(l.to_string()),
            None => copy_opt(global),
        },
    }
}

/// A present value, or the given fallback text.
fn or_fallback(o: Option<String>, fallback: &str) -> (r: String)
    ensures
        r@ == present_or(opt_chars(o), fallback@),
{
    match o {
        Some(s) => s,
        None => fallback.to_string(),
    }
}

/// Whether `r` is the style of a role with overrides `element`, under the
/// typography `t` and the legacy colors of the role.
pub open spec fn resolved_as(
    r: ResolvedTypography,
    t: Typography,
    element: TypographyStyle,
    legacy_color: Option<Seq<char>>,
    legacy_color_dark: Option<Seq<char>>,
) -> bool {
    &&& r.size@ == present_or(
        first_present(opt_chars(element.size), opt_chars(t.default.size)),
        "16px"@,
    )
    &&& r.font@ == present_or(
        first_present(opt_chars(element.font), opt_chars(t.default.font)),
        "system-ui, -apple-system, sans-serif"@,
    )
    &&& r.weight@ == present_or(
        first_present(opt_chars(element.weight), opt_chars(t.default.weight)),
        "normal"@,
    )
    &&& r.style@ == present_or(
        first_present(opt_chars(element.style), opt_chars(t.default.style)),
        "normal"@,
    )
    &&& r.color@ == present_or(
        first_present(
            opt_chars(element.color),
            first_present(legacy_color, opt_chars(t.default.color)),
        ),
        "#000000"@,
    )
    &&& opt_chars(r.color_dark) == first_present(
        opt_chars(element.color_dark),
        first_present(legacy_color_dark, opt_chars(t.default.color_dark)),
    )
}

/// Without a role override of the light color, a legacy color comes before
/// the global default.
pub proof fn lemma_legacy_color_first(
    r: ResolvedTypography,
    t: Typography,
    element: TypographyStyle,
    legacy_color: Seq<char>,
    legacy_color_dark: Option<Seq<char>>,
)
    requires
        element.color is None,
        resolved_as(r, t, element, Some(legacy_color), legacy_color_dark),
    ensures
        r.color@ == legacy_color,
{
}

/// With no role override, no legacy color and no global default for the
/// dark color, the resolved dark color stays absent.
pub proof fn lemma_dark_color_absent(
    r: ResolvedTypography,
    t: Typography,
    element: TypographyStyle,
    legacy_color: Option<Seq<char>>,
)
    requires
        element.color_dark is None,
        t.default.color_dark is None,
        resolved_as(r, t, element, legacy_color, None),
    ensures
        r.color_dark is None,
{
}

impl Typography {
    /// Resolves the style of one text role. Size, font, weight and style
    /// take the role override, then the global default, then a built-in
    /// value; the light color takes the role override, the legacy color, the
    /// global default, then black; the dark color takes the role override,
    /// the legacy dark color, the global default, and else stays absent.
    pub fn resolve(
        &self,
        element: &TypographyStyle,
        legacy_color: Option<&str>,
        legacy_color_dark: Option<&str>,
    ) -> (r: ResolvedTypography)
        ensures
            resolved_as(
                r,
                *self,
                *element,
                opt_str_chars(legacy_color),
                opt_str_chars(legacy_color_dark),
            ),
    {
        ResolvedTypography {
            size: or_fallback(cascade(&element.size, &self.default.size), "16px"),
            font: or_fallback(
                cascade(&element.font, &self.default.font),
                "system-ui, -apple-system, sans-serif",
            ),
            weight: or_fallback(cascade(&element.weight, &self.default.weight), "normal"),
            style: or_fallback(cascade(&element.style, &self.default.style), "normal"),
            color: or_fallback(
                cascade_legacy(&element.color, legacy_color, &self.default.color),
                "#000000",
            ),
            color_dark: cascade_legacy(
                &element.color_dark,
                legacy_color_dark,
                &self.default.color_dark,
            ),
        }
    }
}

/// Why a configuration is refused.
#[derive(Debug, Clone)]
pub enum ConfigError {
    /// The profile has no name.
    EmptyProfileName,
    /// No link is defined.
    NoLinks,
    /// The dark mode is none of `auto`, `light`, `dark` and `disable`.
    InvalidDarkMode { mode: String },
    /// A link's type is neither `block` nor `space`; the link is named by
    /// its title, or by its position when it has none.
    InvalidLinkType { index: usize, link_type: String, title: Option<String> },
    /// A link of type `block` has no title, or an empty one.
    MissingLinkTitle { index: usize },
}

/// The lower-case form of a text.
pub uninterp spec fn lower_of(s: Seq<char>) -> Seq<char>;

/// Relies on `str::to_lowercase`: the result depends on the text alone.
#[verifier::external_body]
fn lowercase(s: &str) -> (r: String)
    ensures
        r@ == lower_of(s@),
{
    s.to_lowercase()
}

/// Whether a lower-case dark mode is one of the known ones.
pub open spec fn known_mode(m: Seq<char>) -> bool {
    m == "auto"@ || m == "light"@ || m == "dark"@ || m == "disable"@
}

/// Whether a link of the given lower-case type is valid: the type is
/// `block` or `space`, and a block has a title that is not empty.
pub open spec fn link_fits(lowered: Seq<char>, link: Link) -> bool {
    (lowered == "block"@ || lowered == "space"@) && (lowered == "block"@ ==> (
    link.title is Some && link.title->Some_0@.len() > 0))
}

/// Whether `e` is the error of the link at `index`, of the given
/// lower-case type.
pub open spec fn is_link_error(e: ConfigError, lowered: Seq<char>, link: Link, index: int) -> bool {
    if !(lowered == "block"@ || lowered == "space"@) {
        (e matches ConfigError::InvalidLinkType { index: i, link_type, title } && i == index
            && link_type@ == link.link_type@ && opt_chars(title) == opt_chars(link.title))
    } else {
        (e matches ConfigError::MissingLinkTitle { index: i } && i == index)
    }
}

/// The position of the first invalid link at or after `i`, if any.
pub open spec fn first_invalid_link(links: Seq<Link>, i: int) -> Option<int>
    decreases links.len() - i,
{
    if i < 0 || i >= links.len() {
        None
    } else if !link_fits(lower_of(links[i].link_type@), links[i]) {
        Some(i)
    } else {
        first_invalid_link(links, i + 1)
    }
}

/// Whether a lower-case dark mode is one of the known ones.
pub fn is_known_dark_mode(lowered: &str) -> (r: bool)
    ensures
        r == known_mode(lowered@),
{
    let m = chars_of(lowered);
    same_chars(&m, &chars_of("auto")) || same_chars(&m, &chars_of("light")) || same_chars(
        &m,
        &chars_of("dark"),
    ) || same_chars(&m, &chars_of("disable"))
}

/// Checks the link at `index`, whose type in lower case is `lowered`.
pub fn check_link(lowered: &str, link: &Link, index: usize) -> (r: Result<(), ConfigError>)
    ensures
        r is Ok <==> link_fits(lowered@, *link),
        r matches Err(e) ==> is_link_error(e, lowered@, *link, index as int),
{
    let t = chars_of(lowered);
    let block = same_chars(&t, &chars_of("block"));
    let space = same_chars(&t, &chars_of("space"));
    if !block && !space {
        return Err(
            ConfigError::InvalidLinkType {
                index,
                link_type: link.link_type.clone(),
                title: copy_opt(&link.title),
            },
        );
    }
    if block {
        let titled = match &link.title {
            Some(title) => title.unicode_len() > 0,
            None => false,
        };
        if !titled {
            return Err(ConfigError::MissingLinkTitle { index });
        }
    }
    Ok(())
}

impl Config {
    /// Validates the configuration: the profile has a name, there is a
    /// link, the dark mode is known, and every link is valid, checked in
    /// this order; the error is that of the first check that fails.
    pub fn validate(&self) -> (r: Result<(), ConfigError>)
        ensures
            self.profile.name@.len() == 0 ==> r matches Err(ConfigError::EmptyProfileName),
            self.profile.name@.len() > 0 && self.links@.len() == 0 ==> r matches Err(
                ConfigError::NoLinks,
            ),
            self.profile.name@.len() > 0 && self.links@.len() > 0 && !known_mode(
                lower_of(self.dark_mode.mode@),
            ) ==> (r matches Err(ConfigError::InvalidDarkMode { mode }) && mode@
                == self.dark_mode.mode@),
            self.profile.name@.len() > 0 && self.links@.len() > 0 && known_mode(
                lower_of(self.dark_mode.mode@),
            ) ==> match first_invalid_link(self.links@, 0) {
                None => r is Ok,
                Some(i) => (r matches Err(e) && is_link_error(
                    e,
                    lower_of(self.links@[i].link_type@),
                    self.links@[i],
                    i,
                )),
            },
    {
        if self.profile.name.unicode_len() == 0 {
            return Err(ConfigError::EmptyProfileName);
        }
        if self.links.len() == 0 {
            return Err(ConfigError::NoLinks);
        }
        let mode = lowercase(self.dark_mode.mode.as_str());
        if !is_known_dark_mode(mode.as_str()) {
            return Err(ConfigError::InvalidDarkMode { mode: self.dark_mode.mode.clone() });
        }
        let mut i: usize = 0;
        while i < self.links.len()
            invariant
                i <= self.links@.len(),
                self.profile.name@.len() > 0,
                self.links@.len() > 0,
                known_mode(lower_of(self.dark_mode.mode@)),
                first_invalid_link(self.links@, i as int) == first_invalid_link(self.links@, 0),
            decreases self.links.len() - i,
        {
            let link = &self.links[i];
            let lowered = lowercase(link.link_type.as_str());
            match check_link(lowered.as_str(), link, i) {
                Ok(()) => {},
                Err(e) => return Err(e),
            }
            i = i + 1;
        }
        Ok(())
    }
}

} // verus!
