use genkan::config::{
    Config, DarkMode, ImageSettings, Link, Meta, Profile, ProfileAssets, SocialLink, Theme,
    ThemeColors, Typography,
};
use genkan::generator::{find_theme_path, theme_path_candidates, AssetSlot, Generator};
use std::path::PathBuf;

fn sample_config(links: Vec<Link>, page_url: Option<String>) -> Config {
    Config {
        profile: Profile {
            name: "Test".to_string(),
            bio: "Bio".to_string(),
            social_links: vec![],
            light: ProfileAssets {
                avatar: "avatar.png".to_string(),
                background: None,
                background_image: None,
            },
            dark: ProfileAssets::default(),
        },
        theme: Theme {
            name: "simple".to_string(),
            button_style: "rounded".to_string(),
            font_family: "sans-serif".to_string(),
            link_spacing: "24px".to_string(),
            typography: Typography::default(),
            light: ThemeColors::default(),
            dark: ThemeColors::default(),
        },
        meta: Meta {
            title: "Test".to_string(),
            description: "Test".to_string(),
            page_url,
            favicon: None,
            custom_css: None,
            analytics: None,
            show_footer: true,
            share_title: None,
        },
        links,
        dark_mode: DarkMode::default(),
        image: ImageSettings::default(),
    }
}

fn block_link(title: &str, url: &str, icon: Option<&str>) -> Link {
    Link {
        title: Some(title.to_string()),
        url: Some(url.to_string()),
        icon: icon.map(|i| i.to_string()),
        description: None,
        link_type: "block".to_string(),
        height: None,
    }
}

#[test]
fn test_generator_creation() {
    let config = Config {
        profile: Profile {
            name: "Test".to_string(),
            bio: "Bio".to_string(),
            social_links: vec![],
            light: ProfileAssets {
                avatar: "avatar.png".to_string(),
                background: None,
                background_image: None,
            },
            dark: ProfileAssets::default(),
        },
        theme: Theme {
            name: "simple".to_string(),
            button_style: "rounded".to_string(),
            font_family: "sans-serif".to_string(),
            link_spacing: "24px".to_string(),
            typography: Typography::default(),
            light: ThemeColors::default(),
            dark: ThemeColors::default(),
        },
        meta: Meta {
            title: "Test".to_string(),
            description: "Test".to_string(),
            page_url: None,
            favicon: None,
            custom_css: None,
            analytics: None,
            show_footer: true,
            share_title: None,
        },
        links: vec![Link {
            title: Some("Test".to_string()),
            url: Some("https://example.com".to_string()),
            icon: None,
            description: None,
            link_type: "block".to_string(),
            height: None,
        }],
        dark_mode: DarkMode::default(),
        image: ImageSettings::default(),
    };

    let generator = Generator::new(
        config,
        PathBuf::from("themes/simple"),
        PathBuf::from("output/index.html"),
    );

    assert_eq!(generator.theme_path, PathBuf::from("themes/simple"));
}

#[test]
fn generator_keeps_config_and_output_path() {
    let generator = Generator::new(
        sample_config(vec![block_link("A", "https://a.example", None)], None),
        PathBuf::from("themes/simple"),
        PathBuf::from("output/index.html"),
    );
    assert_eq!(generator.output_path(), &PathBuf::from("output/index.html"));
    assert_eq!(generator.config().profile.name, "Test");
}

#[test]
fn link_without_icon_needs_no_embedding() {
    let config = sample_config(
        vec![block_link("My Website", "https://example.com", None)],
        None,
    );
    let generator = Generator::new(config, PathBuf::from("t"), PathBuf::from("o"));
    let requests = generator.asset_requests();
    assert!(requests
        .iter()
        .all(|q| !matches!(q.slot, AssetSlot::LinkIcon { .. })));
    let links = &generator.config().links;
    assert_eq!(links.len(), 1);
    assert_eq!(links[0].title.as_deref(), Some("My Website"));
    assert_eq!(links[0].url.as_deref(), Some("https://example.com"));
    assert_eq!(links[0].icon, None);
}

#[test]
fn asset_requests_list_every_nonempty_reference_in_order() {
    let mut config = sample_config(
        vec![
            block_link("A", "https://a.example", Some("🌐")),
            block_link("B", "https://b.example", Some("")),
            block_link("C", "https://c.example", Some("icons/c.png")),
        ],
        None,
    );
    config.profile.dark.avatar = "dark.png".to_string();
    config.profile.social_links = vec![
        SocialLink { icon: "".to_string(), url: "https://x.example".to_string(), title: None },
        SocialLink { icon: "gh.svg".to_string(), url: "https://gh.example".to_string(), title: None },
    ];
    let generator = Generator::new(config, PathBuf::from("t"), PathBuf::from("o"));
    let requests = generator.asset_requests();
    let got: Vec<(AssetSlot, String, u32)> = requests
        .into_iter()
        .map(|q| (q.slot, q.reference, q.target))
        .collect();
    assert_eq!(
        got,
        vec![
            (AssetSlot::LightAvatar, "avatar.png".to_string(), 512),
            (AssetSlot::DarkAvatar, "dark.png".to_string(), 512),
            (AssetSlot::SocialIcon { index: 1 }, "gh.svg".to_string(), 128),
            (AssetSlot::LinkIcon { index: 0 }, "🌐".to_string(), 128),
            (AssetSlot::LinkIcon { index: 2 }, "icons/c.png".to_string(), 128),
        ]
    );
}

#[test]
fn qr_page_url_only_when_configured_and_not_empty() {
    let links = || vec![block_link("A", "https://a.example", None)];
    let none = Generator::new(sample_config(links(), None), PathBuf::from("t"), PathBuf::from("o"));
    assert_eq!(none.qr_page_url(), None);
    let empty = Generator::new(
        sample_config(links(), Some(String::new())),
        PathBuf::from("t"),
        PathBuf::from("o"),
    );
    assert_eq!(empty.qr_page_url(), None);
    let set = Generator::new(
        sample_config(links(), Some("https://me.example".to_string())),
        PathBuf::from("t"),
        PathBuf::from("o"),
    );
    assert_eq!(set.qr_page_url(), Some("https://me.example".to_string()));
}

#[test]
fn page_typography_uses_theme_colors_as_legacy_colors() {
    let mut config = sample_config(vec![block_link("A", "https://a.example", None)], None);
    config.theme.typography.header.color = None;
    config.theme.light.header_color = "#123456".to_string();
    config.theme.dark.header_color = "#fedcba".to_string();
    let generator = Generator::new(config, PathBuf::from("t"), PathBuf::from("o"));
    let t = generator.page_typography();
    assert_eq!(t.header.color, "#123456");
    assert_eq!(t.header.color_dark.as_deref(), Some("#fedcba"));
    assert_eq!(t.header.size, "2rem");
    assert_eq!(t.header.font, "system-ui, -apple-system, sans-serif");
    assert_eq!(t.link_title.weight, "600");
    assert_eq!(t.bio.color, "rgba(0, 0, 0, 0.7)");
}

#[test]
fn theme_candidates_and_lookup() {
    let c = theme_path_candidates("simple");
    assert_eq!(c, vec!["themes/simple", "./themes/simple", "../themes/simple"]);
    assert_eq!(find_theme_path("simple", &vec![false, true, true]), Some("./themes/simple".to_string()));
    assert_eq!(find_theme_path("simple", &vec![true, false, false]), Some("themes/simple".to_string()));
    assert_eq!(find_theme_path("simple", &vec![false, false, false]), None);
}
