use genkan::config::{
    default_link_type, ConfigError, Config, DarkMode, ImageSettings, Link, Meta, Profile,
    ProfileAssets, ResolvedTypography, Theme, ThemeColors, Typography, TypographyStyle,
};

fn config_with(name: &str, mode: &str, links: Vec<Link>) -> Config {
    Config {
        profile: Profile {
            name: name.to_string(),
            bio: String::new(),
            social_links: vec![],
            light: ProfileAssets::default(),
            dark: ProfileAssets::default(),
        },
        theme: Theme {
            name: "simple".to_string(),
            button_style: "rounded".to_string(),
            font_family: "sans-serif".to_string(),
            link_spacing: "24px".to_string(),
            typography: Typography::default(),
            light: ThemeColors::default(),
            dark: ThemeColors::default(),
        },
        meta: Meta {
            title: "T".to_string(),
            description: "D".to_string(),
            page_url: None,
            favicon: None,
            custom_css: None,
            analytics: None,
            show_footer: true,
            share_title: None,
        },
        links,
        dark_mode: DarkMode { mode: mode.to_string() },
        image: ImageSettings::default(),
    }
}

fn link(title: Option<&str>, link_type: &str) -> Link {
    Link {
        title: title.map(|t| t.to_string()),
        url: Some("https://example.com".to_string()),
        icon: None,
        description: None,
        link_type: link_type.to_string(),
        height: None,
    }
}

fn empty_typography() -> Typography {
    Typography {
        default: TypographyStyle::default(),
        header: TypographyStyle::default(),
        bio: TypographyStyle::default(),
        link_title: TypographyStyle::default(),
        link_description: TypographyStyle::default(),
    }
}

#[test]
fn image_settings_defaults() {
    let s = ImageSettings::default();
    assert_eq!(s.avatar_size, 512);
    assert_eq!(s.social_icon_size, 128);
    assert_eq!(s.link_icon_size, 128);
    assert_eq!(s.favicon_size, 64);
    assert_eq!(DarkMode::default().mode, "disable");
    assert_eq!(default_link_type(), "block");
    let c = ThemeColors::default();
    assert_eq!(c.background_color, "#ffffff");
    assert_eq!(c.link_description_color, "rgba(0, 0, 0, 0.6)");
}

#[test]
fn legacy_color_precedes_global_default() {
    let mut t = empty_typography();
    t.default.color = Some("#000000".to_string());
    let r: ResolvedTypography = t.resolve(&TypographyStyle::default(), Some("#abc"), None);
    assert_eq!(r.color, "#abc");
}

#[test]
fn dark_color_stays_absent() {
    let t = empty_typography();
    let r = t.resolve(&TypographyStyle::default(), Some("#abc"), None);
    assert_eq!(r.color_dark, None);
}

#[test]
fn builtin_values_close_the_cascade() {
    let t = empty_typography();
    let r = t.resolve(&TypographyStyle::default(), None, None);
    assert_eq!(r.size, "16px");
    assert_eq!(r.font, "system-ui, -apple-system, sans-serif");
    assert_eq!(r.weight, "normal");
    assert_eq!(r.style, "normal");
    assert_eq!(r.color, "#000000");
    assert_eq!(r.color_dark, None);
}

#[test]
fn role_override_comes_first() {
    let mut t = Typography::default();
    t.default.color_dark = Some("#111".to_string());
    let element = TypographyStyle {
        size: Some("3rem".to_string()),
        font: None,
        weight: None,
        style: Some("italic".to_string()),
        color: Some("red".to_string()),
        color_dark: None,
    };
    let r = t.resolve(&element, Some("#abc"), Some("#def"));
    assert_eq!(r.size, "3rem");
    assert_eq!(r.font, "system-ui, -apple-system, sans-serif");
    assert_eq!(r.weight, "normal");
    assert_eq!(r.style, "italic");
    assert_eq!(r.color, "red");
    assert_eq!(r.color_dark.as_deref(), Some("#def"));
    let r2 = t.resolve(&TypographyStyle::default(), None, None);
    assert_eq!(r2.color_dark.as_deref(), Some("#111"));
}

#[test]
fn valid_config_passes() {
    let c = config_with("Me", "AUTO", vec![link(Some("A"), "Block"), link(None, "space")]);
    assert!(c.validate().is_ok());
}

#[test]
fn empty_profile_name_is_refused() {
    let c = config_with("", "auto", vec![link(Some("A"), "block")]);
    assert!(matches!(c.validate(), Err(ConfigError::EmptyProfileName)));
}

#[test]
fn missing_links_are_refused() {
    let c = config_with("Me", "auto", vec![]);
    assert!(matches!(c.validate(), Err(ConfigError::NoLinks)));
}

#[test]
fn unknown_dark_mode_is_refused() {
    let c = config_with("Me", "sepia", vec![link(Some("A"), "block")]);
    match c.validate() {
        Err(ConfigError::InvalidDarkMode { mode }) => assert_eq!(mode, "sepia"),
        other => panic!("unexpected {:?}", other),
    }
}

#[test]
fn unknown_link_type_is_refused() {
    let c = config_with("Me", "dark", vec![link(Some("A"), "block"), link(None, "banner")]);
    match c.validate() {
        Err(ConfigError::InvalidLinkType { index, link_type, title }) => {
            assert_eq!(index, 1);
            assert_eq!(link_type, "banner");
            assert_eq!(title, None);
        }
        other => panic!("unexpected {:?}", other),
    }
}

#[test]
fn block_without_title_is_refused() {
    let c = config_with("Me", "light", vec![link(Some("A"), "block"), link(Some(""), "block")]);
    assert!(matches!(c.validate(), Err(ConfigError::MissingLinkTitle { index: 1 })));
}
