//! The site generator: it holds the configuration and the paths of the
//! theme and of the output, finds the theme directory, lists the asset
//! references to embed with the size each is bounded to, and resolves the
//! typography of every text role.
use vstd::prelude::*;
use std::path::PathBuf;
use crate::config::{
    opt_chars, resolved_as, Config, Link, ResolvedTypography, SocialLink, ThemeColors,
};
use crate::text::{chars_of, text_of};

verus! {

#[verifier::external_type_specification]
#[verifier::external_body]
pub struct ExPathBuf(std::path::PathBuf);

/// Generates a site from a configuration into an output file.
pub struct Generator {
    pub config: Config,
    pub theme_path: PathBuf,
    pub output_path: PathBuf,
}

impl Generator {
    /// A generator for `config`, with the theme at `theme_path`, writing the
    /// page to `output_path`.
    pub fn new(config: Config, theme_path: PathBuf, output_path: PathBuf) -> (r: Self)
        ensures
            r.config == config,
            r.theme_path == theme_path,
            r.output_path == output_path,
    {
        Generator { config, theme_path, output_path }
    }

    /// The configuration of the site.
    pub fn config(&self) -> (r: &Config)
        ensures
            *r == self.config,
    {
        &self.config
    }

    /// Where the page is written.
    pub fn output_path(&self) -> (r: &PathBuf)
        ensures
            *r == self.output_path,
    {
        &self.output_path
    }
}

/// The places searched for a theme, in order: `themes/<name>`,
/// `./themes/<name>` and `../themes/<name>`.
pub open spec fn theme_candidate(name: Seq<char>, i: int) -> Seq<char> {
    if i == 0 {
        "themes/"@ + name
    } else if i == 1 {
        "./themes/"@ + name
    } else {
        "../themes/"@ + name
    }
}

/// A prefix followed by a name.
fn joined(prefix: &str, name: &str) -> (r: String)
    ensures
        r@ == prefix@ + name@,
{
    let mut v = chars_of(prefix);
    let mut n = chars_of(name);
    v.append(&mut n);
    text_of(&v)
}

/// The places searched for the theme named `theme_name`, in order.
pub fn theme_path_candidates(theme_name: &str) -> (r: Vec<String>)
    ensures
        r@.len() == 3,
        forall|i: int| 0 <= i < 3 ==> r@[i]@ == theme_candidate(theme_name@, i),
{
    let mut r: Vec<String> = Vec::new();
    r.push(joined("themes/", theme_name));
    r.push(joined("./themes/", theme_name));
    r.push(joined("../themes/", theme_name));
    r
}

/// The first place, among those of `theme_path_candidates`, that is a
/// directory; `is_dir[i]` tells whether the `i`th place is one. `None` when
/// the theme is in none of them.
pub fn find_theme_path(theme_name: &str, is_dir: &Vec<bool>) -> (r: Option<String>)
    ensures
        match r {
            Some(p) => exists|i: int|
                0 <= i < 3 && i < is_dir@.len() && is_dir@[i] && (forall|j: int|
                    0 <= j < i ==> !is_dir@[j]) && p@ == theme_candidate(theme_name@, i),
            None => forall|i: int| 0 <= i < 3 && i < is_dir@.len() ==> !is_dir@[i],
        },
{
    let candidates = theme_path_candidates(theme_name);
    let mut i: usize = 0;
    while i < 3 && i < is_dir.len()
        invariant
            i <= 3,
            candidates@.len() == 3,
            forall|k: int| 0 <= k < 3 ==> candidates@[k]@ == theme_candidate(theme_name@, k),
            forall|j: int| 0 <= j < i && j < is_dir@.len() ==> !is_dir@[j],
        decreases 3 - i,
    {
        if is_dir[i] {
            let p = candidates[i].clone();
            assert(p@ == theme_candidate(theme_name@, i as int));
            return Some(p);
        }
        i = i + 1;
    }
    None
}

/// Where an embedded asset goes in the page.
#[derive(Clone, Copy, Debug, PartialEq, Eq, Structural)]
pub enum AssetSlot {
    LightAvatar,
    DarkAvatar,
    SocialIcon { index: usize },
    LinkIcon { index: usize },
}

/// An asset reference to resolve, with the slot it fills and the size its
/// longer edge is bounded to.
#[derive(Debug, Clone)]
pub struct AssetRequest {
    pub slot: AssetSlot,
    pub reference: String,
    pub target: u32,
}

/// A request as plain values.
pub open spec fn request_view(q: AssetRequest) -> (AssetSlot, Seq<char>, u32) {
    (q.slot, q.reference@, q.target)
}

/// The requests for the icons of the first `n` social links.
pub open spec fn social_requests(s: Seq<SocialLink>, n: int, size: u32) -> Seq<
    (AssetSlot, Seq<char>, u32),
>
    decreases n,
{
    if n <= 0 {
        Seq::empty()
    } else {
        social_requests(s, n - 1, size) + if s[n - 1].icon@.len() > 0 {
            seq![(AssetSlot::SocialIcon { index: (n - 1) as usize }, s[n - 1].icon@, size)]
        } else {
            Seq::empty()
        }
    }
}

/// The requests for the icons of the first `n` links.
pub open spec fn link_requests(l: Seq<Link>, n: int, size: u32) -> Seq<
    (AssetSlot, Seq<char>, u32),
>
    decreases n,
{
    if n <= 0 {
        Seq::empty()
    } else {
        link_requests(l, n - 1, size) + match l[n - 1].icon {
            Some(icon) => if icon@.len() > 0 {
                seq![(AssetSlot::LinkIcon { index: (n - 1) as usize }, icon@, size)]
            } else {
                Seq::empty()
            },
            None => Seq::empty(),
        }
    }
}

/// The request for an avatar, when it is not empty.
pub open spec fn avatar_request(slot: AssetSlot, avatar: Seq<char>, size: u32) -> Seq<
    (AssetSlot, Seq<char>, u32),
> {
    if avatar.len() > 0 {
        seq![(slot, avatar, size)]
    } else {
        Seq::empty()
    }
}

/// Every asset reference of a configuration to resolve, in order: the light
/// and the dark avatar, the social icons and the link icons, each when it is
/// not empty.
pub open spec fn requests_of(c: Config) -> Seq<(AssetSlot, Seq<char>, u32)> {
    avatar_request(AssetSlot::LightAvatar, c.profile.light.avatar@, c.image.avatar_size)
        + avatar_request(AssetSlot::DarkAvatar, c.profile.dark.avatar@, c.image.avatar_size)
        + social_requests(
        c.profile.social_links@,
        c.profile.social_links@.len() as int,
        c.image.social_icon_size,
    ) + link_requests(c.links@, c.links@.len() as int, c.image.link_icon_size)
}

/// Links without an icon add no request.
proof fn lemma_iconless_link_requests(l: Seq<Link>, n: int, size: u32)
    requires
        n <= l.len(),
        forall|i: int| 0 <= i < l.len() ==> l[i].icon is None,
    ensures
        link_requests(l, n, size) == Seq::<(AssetSlot, Seq<char>, u32)>::empty(),
    decreases n,
{
    if n > 0 {
        lemma_iconless_link_requests(l, n - 1, size);
        assert(link_requests(l, n, size) =~= Seq::<(AssetSlot, Seq<char>, u32)>::empty());
    }
}

/// Every request for social links is for a social icon.
proof fn lemma_social_requests_are_social(s: Seq<SocialLink>, n: int, size: u32)
    ensures
        forall|k: int|
            0 <= k < social_requests(s, n, size).len() ==> (#[trigger] social_requests(
                s,
                n,
                size,
            )[k]).0 is SocialIcon,
    decreases n,
{
    if n > 0 {
        lemma_social_requests_are_social(s, n - 1, size);
    }
}

/// A configuration whose links have no icon asks for no link to be
/// embedded: each of its requests is for an avatar or a social icon, and
/// none names a link.
pub proof fn lemma_iconless_links_need_no_embedding(c: Config)
    requires
        forall|i: int| 0 <= i < c.links@.len() ==> c.links@[i].icon is None,
    ensures
        forall|k: int|
            0 <= k < requests_of(c).len() ==> !((#[trigger] requests_of(c)[k]).0 is LinkIcon),
{
    let avatars = avatar_request(AssetSlot::LightAvatar, c.profile.light.avatar@, c.image.avatar_size)
        + avatar_request(AssetSlot::DarkAvatar, c.profile.dark.avatar@, c.image.avatar_size);
    let social = social_requests(
        c.profile.social_links@,
        c.profile.social_links@.len() as int,
        c.image.social_icon_size,
    );
    lemma_iconless_link_requests(c.links@, c.links@.len() as int, c.image.link_icon_size);
    lemma_social_requests_are_social(
        c.profile.social_links@,
        c.profile.social_links@.len() as int,
        c.image.social_icon_size,
    );
    assert(requests_of(c) =~= avatars + social);
    assert forall|k: int| 0 <= k < requests_of(c).len() implies !((#[trigger] requests_of(
        c,
    )[k]).0 is LinkIcon) by {
        if k >= avatars.len() {
            assert(requests_of(c)[k] == social[k - avatars.len()]);
        }
    }
}

/// The resolved typography of the four text roles.
#[derive(Debug, Clone)]
pub struct PageTypography {
    pub header: ResolvedTypography,
    pub bio: ResolvedTypography,
    pub link_title: ResolvedTypography,
    pub link_description: ResolvedTypography,
}

impl Generator {
    /// Adds the request for an avatar, when it is not empty.
    fn push_avatar(out: &mut Vec<AssetRequest>, slot: AssetSlot, avatar: &String, size: u32)
        ensures
            final(out)@.map_values(|q: AssetRequest| request_view(q)) == old(out)@.map_values(
                |q: AssetRequest| request_view(q),
            ) + avatar_request(slot, avatar@, size),
    {
        let ghost before = out@.map_values(|q: AssetRequest| request_view(q));
        if avatar.unicode_len() > 0 {
            out.push(AssetRequest { slot, reference: avatar.clone(), target: size });
            assert(out@.map_values(|q: AssetRequest| request_view(q)) =~= before
                + avatar_request(slot, avatar@, size));
        } else {
            assert(before + avatar_request(slot, avatar@, size) =~= before);
        }
    }

    /// Every asset reference of the configuration to resolve, with its slot
    /// and the size it is bounded to.
    pub fn asset_requests(&self) -> (r: Vec<AssetRequest>)
        ensures
            r@.map_values(|q: AssetRequest| request_view(q)) == requests_of(self.config),
    {
        let c = &self.config;
        let mut out: Vec<AssetRequest> = Vec::new();
        assert(out@.map_values(|q: AssetRequest| request_view(q)) =~= Seq::empty());
        Self::push_avatar(&mut out, AssetSlot::LightAvatar, &c.profile.light.avatar, c.image.avatar_size);
        Self::push_avatar(&mut out, AssetSlot::DarkAvatar, &c.profile.dark.avatar, c.image.avatar_size);
        let ghost avatars = out@.map_values(|q: AssetRequest| request_view(q));
        let social = &c.profile.social_links;
        let size = c.image.social_icon_size;
        let mut i: usize = 0;
        while i < social.len()
            invariant
                i <= social@.len(),
                out@.map_values(|q: AssetRequest| request_view(q)) == avatars + social_requests(
                    social@,
                    i as int,
                    size,
                ),
            decreases social.len() - i,
        {
            let ghost before = out@.map_values(|q: AssetRequest| request_view(q));
            let icon = &social[i].icon;
            let ghost step = if social@[i as int].icon@.len() > 0 {
                seq![(AssetSlot::SocialIcon { index: i }, social@[i as int].icon@, size)]
            } else {
                Seq::empty()
            };
            assert(social_requests(social@, i + 1, size) == social_requests(social@, i as int, size)
                + step);
            if icon.unicode_len() > 0 {
                out.push(
                    AssetRequest {
                        slot: AssetSlot::SocialIcon { index: i },
                        reference: icon.clone(),
                        target: size,
                    },
                );
                assert(out@.map_values(|q: AssetRequest| request_view(q)) =~= before + step);
            } else {
                assert(out@.map_values(|q: AssetRequest| request_view(q)) =~= before + step);
            }
            assert(out@.map_values(|q: AssetRequest| request_view(q)) =~= avatars
                + social_requests(social@, i + 1, size));
            i = i + 1;
        }
        let ghost socials = out@.map_values(|q: AssetRequest| request_view(q));
        let links = &c.links;
        let lsize = c.image.link_icon_size;
        let mut k: usize = 0;
        while k < links.len()
            invariant
                k <= links@.len(),
                out@.map_values(|q: AssetRequest| request_view(q)) == socials + link_requests(
                    links@,
                    k as int,
                    lsize,
                ),
            decreases links.len() - k,
        {
            let ghost before = out@.map_values(|q: AssetRequest| request_view(q));
            let ghost step = match links@[k as int].icon {
                Some(icon) => if icon@.len() > 0 {
                    seq![(AssetSlot::LinkIcon { index: k }, icon@, lsize)]
                } else {
                    Seq::empty()
                },
                None => Seq::empty(),
            };
            assert(link_requests(links@, k + 1, lsize) == link_requests(links@, k as int, lsize)
                + step);
            match &links[k].icon {
                Some(icon) => {
                    if icon.unicode_len() > 0 {
                        out.push(
                            AssetRequest {
                                slot: AssetSlot::LinkIcon { index: k },
                                reference: icon.clone(),
                                target: lsize,
                            },
                        );
                    }
                },
                None => {},
            }
            assert(out@.map_values(|q: AssetRequest| request_view(q)) =~= before + step);
            assert(out@.map_values(|q: AssetRequest| request_view(q)) =~= socials
                + link_requests(links@, k + 1, lsize));
            k = k + 1;
        }
        out
    }

    /// The typography of the four text roles, each with the colors of the
    /// light and the dark theme for that role as legacy colors.
    pub fn page_typography(&self) -> (r: PageTypography)
        ensures
            ({
                let t = self.config.theme;
                &&& resolved_as(
                    r.header,
                    t.typography,
                    t.typography.header,
                    Some(t.light.header_color@),
                    Some(t.dark.header_color@),
                )
                &&& resolved_as(
                    r.bio,
                    t.typography,
                    t.typography.bio,
                    Some(t.light.bio_color@),
                    Some(t.dark.bio_color@),
                )
                &&& resolved_as(
                    r.link_title,
                    t.typography,
                    t.typography.link_title,
                    Some(t.light.link_title_color@),
                    Some(t.dark.link_title_color@),
                )
                &&& resolved_as(
                    r.link_description,
                    t.typography,
                    t.typography.link_description,
                    Some(t.light.link_description_color@),
                    Some(t.dark.link_description_color@),
                )
            }),
    {
        let t = &self.config.theme;
        let light: &ThemeColors = &t.light;
        let dark: &ThemeColors = &t.dark;
        PageTypography {
            header: t.typography.resolve(
                &t.typography.header,
                Some(light.header_color.as_str()),
                Some(dark.header_color.as_str()),
            ),
            bio: t.typography.resolve(
                &t.typography.bio,
                Some(light.bio_color.as_str()),
                Some(dark.bio_color.as_str()),
            ),
            link_title: t.typography.resolve(
                &t.typography.link_title,
                Some(light.link_title_color.as_str()),
                Some(dark.link_title_color.as_str()),
            ),
            link_description: t.typography.resolve(
                &t.typography.link_description,
                Some(light.link_description_color.as_str()),
                Some(dark.link_description_color.as_str()),
            ),
        }
    }

    /// The address to render a QR code for: the page address, when one is
    /// configured and not empty.
    pub fn qr_page_url(&self) -> (r: Option<String>)
        ensures
            opt_chars(r) == match self.config.meta.page_url {
                Some(u) => if u@.len() > 0 {
                    Some(u@)
                } else {
                    None
                },
                None => None,
            },
    {
        match &self.config.meta.page_url {
            Some(u) => if u.unicode_len() > 0 {
                Some(u.clone())
            } else {
                None
            },
            None => None,
        }
    }
}

} // verus!
