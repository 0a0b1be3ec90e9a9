use core_providers::mod_providers::modworkshop::api::ModWorkShopProvider;
use core_providers::mod_providers::modworkshop::types::{
    saturate, Banner, DiscoverResponse, DiscoveryError, ExtendedResponse, HttpError, Image, Meta,
    Mod, ModDownloadResult, Tag, Thumbnail, User,
};
use core_providers::paths::FsPath;

fn some(text: &str) -> Option<String> {
    Some(text.to_string())
}

fn empty_mod() -> Mod {
    Mod {
        id: None,
        name: None,
        desc: None,
        short_desc: None,
        downloads: None,
        views: None,
        likes: None,
        thumbnail: None,
        user: None,
        tags: None,
    }
}

fn full_mod() -> Mod {
    Mod {
        id: Some(53461),
        name: some("Rich Presence Musical"),
        desc: some("long text"),
        short_desc: some("short text"),
        downloads: Some(1200),
        views: Some(34000),
        likes: Some(56),
        thumbnail: Some(Thumbnail { file: some("thumb.png") }),
        user: Some(User { name: some("ghoul"), avatar: some("avatar.png") }),
        tags: Some(vec![
            Tag { name: some("audio") },
            Tag { name: None },
            Tag { name: some("hud") },
        ]),
    }
}

#[test]
fn register_gives_the_identity() {
    assert_eq!(ModWorkShopProvider::new().register(), "core:modworkshop");
}

#[test]
fn page_zero_is_asked_as_the_first_page() {
    assert_eq!(ModWorkShopProvider::page_to_ask(0), 1);
    assert_eq!(ModWorkShopProvider::page_to_ask(1), 1);
    assert_eq!(ModWorkShopProvider::page_to_ask(7), 7);
    assert_eq!(ModWorkShopProvider::page_to_ask(u32::MAX), u32::MAX);
}

#[test]
fn games_address_names_the_game() {
    assert_eq!(
        ModWorkShopProvider::games_address("1"),
        "https://api.modworkshop.net/games/1/mods"
    );
}

#[test]
fn build_url_without_a_page() {
    let url = ModWorkShopProvider::new().build_url("core:payday_2", Some("1"), None);
    assert_eq!(url.ok(), some("https://api.modworkshop.net/games/1/mods"));
}

#[test]
fn build_url_adds_the_page_to_the_query() {
    let provider = ModWorkShopProvider::new();
    assert_eq!(
        provider.build_url("core:payday_2", Some("1"), Some(3)).ok(),
        some("https://api.modworkshop.net/games/1/mods?page=3")
    );
    assert_eq!(
        provider.build_url("core:payday_2", Some("1"), Some(0)).ok(),
        some("https://api.modworkshop.net/games/1/mods?page=1")
    );
}

#[test]
fn build_url_goes_through_the_url_parser() {
    let provider = ModWorkShopProvider::new();
    assert_eq!(
        provider.build_url("g", Some("a b"), Some(2)).ok(),
        some("https://api.modworkshop.net/games/a%20b/mods?page=2")
    );
    assert_eq!(
        provider.build_url("g", Some("1?sort=new"), Some(2)).ok(),
        some("https://api.modworkshop.net/games/1?sort=new/mods&page=2")
    );
}

#[test]
fn build_url_refuses_a_game_that_is_not_loaded() {
    match ModWorkShopProvider::new().build_url("core:payday_3", None, Some(1)) {
        Err(DiscoveryError::InvalidQuery(text)) => assert_eq!(text, "ID core:payday_3 not loaded"),
        _ => panic!("a game that is not loaded is an invalid query"),
    }
}

#[test]
fn http_errors_are_mapped() {
    let provider = ModWorkShopProvider::new();
    assert!(matches!(
        provider.map_http_error(HttpError::Network("down".to_string())),
        DiscoveryError::Network(text) if text == "down"
    ));
    assert!(matches!(
        provider.map_http_error(HttpError::Parse("bad json".to_string())),
        DiscoveryError::Internal(text) if text == "parse: bad json"
    ));
    assert!(matches!(
        provider.map_http_error(HttpError::Schema("no field".to_string())),
        DiscoveryError::Internal(text) if text == "schema: no field"
    ));
    assert!(matches!(
        provider.map_http_error(HttpError::Internal("oops".to_string())),
        DiscoveryError::Internal(text) if text == "oops"
    ));
}

#[test]
fn summarize_fills_what_is_missing() {
    let summary = ModWorkShopProvider::summarize(empty_mod());
    assert_eq!(summary.id, "0");
    assert_eq!(summary.name, "error");
    assert_eq!(summary.description, "error");
    assert_eq!(summary.short_description, "error");
    assert_eq!(summary.downloads, 0);
    assert_eq!(summary.views, 0);
    assert_eq!(summary.likes, 0);
    assert_eq!(summary.thumbnail_image, "https://modworkshop.net/assets/no-preview.webp");
    assert_eq!(summary.user_name, "error");
    assert_eq!(summary.user_avatar, "error");
    assert!(summary.tags.is_empty());
}

#[test]
fn summarize_takes_what_is_given() {
    let summary = ModWorkShopProvider::summarize(full_mod());
    assert_eq!(summary.id, "53461");
    assert_eq!(summary.name, "Rich Presence Musical");
    assert_eq!(summary.description, "long text");
    assert_eq!(summary.short_description, "short text");
    assert_eq!(summary.downloads, 1200);
    assert_eq!(summary.views, 34000);
    assert_eq!(summary.likes, 56);
    assert_eq!(summary.thumbnail_image, "https://storage.modworkshop.net/mods/images/thumb.png");
    assert_eq!(summary.user_name, "ghoul");
    assert_eq!(summary.user_avatar, "https://storage.modworkshop.net/users/images/avatar.png");
    assert_eq!(summary.tags, vec!["audio".to_string(), "hud".to_string()]);
}

#[test]
fn an_avatar_that_is_an_address_is_kept() {
    let mut item = empty_mod();
    item.user = Some(User { name: None, avatar: some("https://cdn.example/a.png") });
    let summary = ModWorkShopProvider::summarize(item);
    assert_eq!(summary.user_avatar, "https://cdn.example/a.png");
    assert_eq!(summary.user_name, "error");

    let mut item = empty_mod();
    item.user = Some(User { name: some("x"), avatar: some("http://cdn.example/a.png") });
    assert_eq!(ModWorkShopProvider::summarize(item).user_avatar, "http://cdn.example/a.png");
}

#[test]
fn an_empty_thumbnail_file_counts_as_none() {
    let mut item = empty_mod();
    item.thumbnail = Some(Thumbnail { file: some("") });
    assert_eq!(
        ModWorkShopProvider::summarize(item).thumbnail_image,
        "https://modworkshop.net/assets/no-preview.webp"
    );
    let mut item = empty_mod();
    item.thumbnail = Some(Thumbnail { file: None });
    assert_eq!(
        ModWorkShopProvider::summarize(item).thumbnail_image,
        "https://modworkshop.net/assets/no-preview.webp"
    );
}

#[test]
fn a_negative_id_keeps_its_sign() {
    let mut item = empty_mod();
    item.id = Some(-12);
    assert_eq!(ModWorkShopProvider::summarize(item).id, "-12");
}

#[test]
fn discover_reports_a_failed_request() {
    let page = ModWorkShopProvider::new()
        .discover("core:payday_2", Err(HttpError::Parse("bad json".to_string())));
    assert!(matches!(page, Err(DiscoveryError::Internal(text)) if text == "parse: bad json"));
}

#[test]
fn discover_refuses_an_answer_without_data() {
    let answer = DiscoverResponse {
        data: None,
        meta: Some(Meta { current_page: None, per_page: None, last_page: None, total: None }),
    };
    let page = ModWorkShopProvider::new().discover("core:payday_2", Ok(answer));
    assert!(matches!(page, Err(DiscoveryError::Internal(text)) if text == "Missing data[]"));
    let answer = DiscoverResponse { data: None, meta: None };
    let page = ModWorkShopProvider::new().discover("core:payday_2", Ok(answer));
    assert!(matches!(page, Err(DiscoveryError::Internal(text)) if text == "Missing data[]"));
}

#[test]
fn discover_refuses_an_answer_without_meta() {
    let answer = DiscoverResponse { data: Some(vec![]), meta: None };
    let page = ModWorkShopProvider::new().discover("core:payday_2", Ok(answer));
    assert!(matches!(
        page,
        Err(DiscoveryError::Internal(text)) if text == "malformed response: Missing meta{}"
    ));
}

#[test]
fn discover_lists_the_mods_in_order() {
    let mut second = empty_mod();
    second.id = Some(2);
    second.name = some("second");
    let mut third = empty_mod();
    third.id = Some(3);
    let answer = DiscoverResponse {
        data: Some(vec![full_mod(), second, third]),
        meta: Some(Meta {
            current_page: Some(2),
            per_page: Some(25),
            last_page: Some(9),
            total: Some(211),
        }),
    };
    let page = match ModWorkShopProvider::new().discover("core:payday_2", Ok(answer)) {
        Ok(page) => page,
        Err(_) => panic!("a full answer gives a page"),
    };
    assert_eq!(page.meta.provider_id, "core:modworkshop");
    assert_eq!(page.meta.game_id, "core:payday_2");
    assert_eq!(page.meta.pagination.current, 2);
    assert_eq!(page.meta.pagination.page_size, 25);
    assert_eq!(page.meta.pagination.total_pages, Some(9));
    assert_eq!(page.meta.pagination.total_items, Some(211));
    assert!(page.meta.applied_tags.is_empty());
    assert_eq!(page.meta.available_tags, Some(vec![]));
    let ids: Vec<&str> = page.mods.iter().map(|summary| summary.id.as_str()).collect();
    assert_eq!(ids, vec!["53461", "2", "3"]);
    assert_eq!(page.mods[1].name, "second");
    assert_eq!(page.mods[2].name, "error");
}

#[test]
fn discover_fills_missing_pagination() {
    let answer = DiscoverResponse {
        data: Some(vec![]),
        meta: Some(Meta { current_page: None, per_page: None, last_page: None, total: None }),
    };
    let page = match ModWorkShopProvider::new().discover("g", Ok(answer)) {
        Ok(page) => page,
        Err(_) => panic!("an empty page is a page"),
    };
    assert_eq!(page.meta.pagination.current, 1);
    assert_eq!(page.meta.pagination.page_size, 50);
    assert_eq!(page.meta.pagination.total_pages, Some(1));
    assert_eq!(page.meta.pagination.total_items, Some(0));
    assert!(page.mods.is_empty());
}

#[test]
fn extended_url_names_the_mod() {
    assert_eq!(
        ModWorkShopProvider::extended_url("53461"),
        "https://api.modworkshop.net/mods/53461"
    );
}

#[test]
fn extended_mod_of_a_failed_request() {
    let shown = ModWorkShopProvider::new().get_extended_mod(Err("network: down".to_string()));
    assert_eq!(shown.header_image, "https://modworkshop.net/assets/default-banner.webp");
    assert!(shown.carousel_images.is_empty());
    assert_eq!(shown.version, "");
    assert!(!shown.installed);
    assert_eq!(shown.description, "Failed to fetch: network: down");
}

#[test]
fn extended_mod_of_a_full_answer() {
    let answer = ExtendedResponse {
        banner: Some(Banner { file: some("banner.png") }),
        images: Some(vec![
            Image { file: some("one.png") },
            Image { file: None },
            Image { file: some("") },
            Image { file: some("two.png") },
        ]),
        version: some("1.4"),
        description: some("what it does"),
    };
    let shown = ModWorkShopProvider::new().get_extended_mod(Ok(answer));
    assert_eq!(shown.header_image, "https://storage.modworkshop.net/mods/images/banner.png");
    assert_eq!(
        shown.carousel_images,
        vec![
            "https://storage.modworkshop.net/mods/images/one.png".to_string(),
            "https://storage.modworkshop.net/mods/images/two.png".to_string(),
        ]
    );
    assert_eq!(shown.version, "1.4");
    assert!(!shown.installed);
    assert_eq!(shown.description, "what it does");
}

#[test]
fn extended_mod_of_an_empty_answer() {
    let answer = ExtendedResponse { banner: None, images: None, version: None, description: None };
    let shown = ModWorkShopProvider::new().get_extended_mod(Ok(answer));
    assert_eq!(shown.header_image, "https://modworkshop.net/assets/default-banner.webp");
    assert!(shown.carousel_images.is_empty());
    assert_eq!(shown.version, "");
    assert_eq!(shown.description, "");
    let answer = ExtendedResponse {
        banner: Some(Banner { file: some("") }),
        images: Some(vec![]),
        version: None,
        description: None,
    };
    let shown = ModWorkShopProvider::new().get_extended_mod(Ok(answer));
    assert_eq!(shown.header_image, "https://modworkshop.net/assets/default-banner.webp");
}

#[test]
fn download_target_is_the_fixed_file() {
    assert_eq!(
        ModWorkShopProvider::new().download_target(),
        "https://storage.modworkshop.net/mods/files/53461_71246_ERjHBd1mwDsnSW70RlJ2meqkucPO3JtAsXfpyDU5.zip?filename=Rich%20Presence%20Musical.zip"
    );
}

#[test]
fn download_updates_are_told_or_waited_out() {
    let provider = ModWorkShopProvider::new();
    assert!(matches!(
        provider.download_mod(None),
        Some(ModDownloadResult::Failed(text)) if text == "Download task ended unexpectedly"
    ));
    assert!(matches!(
        provider.download_mod(Some(ModDownloadResult::InProgress(40))),
        Some(ModDownloadResult::InProgress(40))
    ));
    assert!(matches!(
        provider.download_mod(Some(ModDownloadResult::Failed("no space".to_string()))),
        Some(ModDownloadResult::Failed(text)) if text == "no space"
    ));
    assert!(matches!(
        provider.download_mod(Some(ModDownloadResult::Cancelled)),
        Some(ModDownloadResult::Cancelled)
    ));
    assert!(provider
        .download_mod(Some(ModDownloadResult::CannotComplete("later".to_string())))
        .is_none());
    let file = FsPath::from_parts(vec!["tmp".to_string(), "mod.zip".to_string()]);
    match provider.download_mod(Some(ModDownloadResult::Completed(file))) {
        Some(ModDownloadResult::Completed(path)) => {
            assert_eq!(path.parts(), &vec!["tmp".to_string(), "mod.zip".to_string()])
        }
        _ => panic!("a completed download is told"),
    }
}

#[test]
fn saturate_caps_at_the_largest_u32() {
    assert_eq!(saturate(0), 0);
    assert_eq!(saturate(1200), 1200);
    assert_eq!(saturate(4294967295), u32::MAX);
    assert_eq!(saturate(4294967296), u32::MAX);
    assert_eq!(saturate(u64::MAX), u32::MAX);
}
