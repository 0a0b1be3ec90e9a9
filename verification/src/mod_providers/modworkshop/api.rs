//! The ModWorkshop provider: which address is asked, and what is made of the
//! answer. Asking is the caller's part.

use vstd::prelude::*;
use vstd::string::{StrSliceExecFns, StringExecFns};
use crate::helper::text::{
    decimal,
    i64_text,
    lemma_decimal_is_short,
    pow10,
    signed_decimal,
    starts_with,
    u64_text,
};
use crate::mod_providers::modworkshop::types::{
    Banner,
    DiscoverResponse,
    DiscoveryError,
    DiscoveryErrorView,
    DiscoveryMeta,
    DiscoveryResult,
    ExtendedResponse,
    HttpError,
    Image,
    Meta,
    Mod,
    ModDownloadResult,
    ModDownloadResultView,
    ModExtendedMetadata,
    ModSummary,
    PaginationMeta,
    Tag,
    Thumbnail,
    User,
};

verus! {

/// `reqwest::Url`, a parsed URL. Nothing is known of what is inside one but
/// its text, [`url_text`].
#[verifier::external_type_specification]
#[verifier::external_body]
pub struct ExUrl(reqwest::Url);

/// The text of a URL, as `Url::as_str` gives it.
pub uninterp spec fn url_text(url: reqwest::Url) -> Seq<char>;

/// The text of the URL that `Url::parse` makes of `text`; none where it makes
/// none.
pub uninterp spec fn parsed_url(text: Seq<char>) -> Option<Seq<char>>;

/// The words of the error with which `Url::parse` refuses `text`.
pub uninterp spec fn url_parse_error(text: Seq<char>) -> Seq<char>;

/// The text of the URL `url` after `append_pair` has added `key` and `value`
/// to its query.
pub uninterp spec fn url_with_pair(url: Seq<char>, key: Seq<char>, value: Seq<char>) -> Seq<
    char,
>;

/// `reqwest::Url::parse`. The contract names what it returns: the URL, or the
/// words of its error (through `to_string`).
#[verifier::external_body]
fn parse_url(text: &str) -> (parsed: Result<reqwest::Url, String>)
    ensures
        match parsed {
            Ok(url) => parsed_url(text@) == Some(url_text(url)),
            Err(reason) => parsed_url(text@) is None && reason@ == url_parse_error(text@),
        },
{
    reqwest::Url::parse(text).map_err(|error| error.to_string())
}

/// `Url::query_pairs_mut` and `append_pair` on what it returns. The contract
/// names the URL's text afterwards. The URL keeps its positions in 32 bits and
/// gives up where they do not fit: the call is made only where the text, with
/// every character of the pair escaped at its longest, stays below that.
#[verifier::external_body]
fn append_query_pair(url: &mut reqwest::Url, key: &str, value: &str)
    requires
        4 * url_text(*old(url)).len() + 12 * (key@.len() + value@.len()) + 4 <= 0xFFFF_FFFF,
    ensures
        url_text(*final(url)) == url_with_pair(url_text(*old(url)), key@, value@),
{
    url.query_pairs_mut().append_pair(key, value);
}

/// `Url::as_str`.
#[verifier::external_body]
fn url_to_text(url: &reqwest::Url) -> (text: String)
    ensures
        text@ == url_text(*url),
{
    url.as_str().to_owned()
}

/// The text of `value`, and `error` where there is none.
pub open spec fn text_or_error(value: Option<String>) -> Seq<char> {
    match value {
        Some(text) => text@,
        None => "error"@,
    }
}

/// The text of `value`, and the empty text where there is none.
pub open spec fn text_or_empty(value: Option<String>) -> Seq<char> {
    match value {
        Some(text) => text@,
        None => Seq::empty(),
    }
}

/// The address of the image `file` of a mod.
pub open spec fn mod_image_url(file: Seq<char>) -> Seq<char> {
    "https://storage.modworkshop.net/mods/images/"@ + file
}

/// The address of a mod's thumbnail: that of its file where it names one,
/// else that of the picture for mods without a preview.
pub open spec fn thumbnail_url(thumbnail: Option<Thumbnail>) -> Seq<char> {
    match thumbnail {
        Some(Thumbnail { file: Some(file) }) => if file@.len() > 0 {
            mod_image_url(file@)
        } else {
            "https://modworkshop.net/assets/no-preview.webp"@
        },
        _ => "https://modworkshop.net/assets/no-preview.webp"@,
    }
}

/// The address of a mod's banner: that of its file where it names one, else
/// that of the default banner.
pub open spec fn banner_url(banner: Option<Banner>) -> Seq<char> {
    match banner {
        Some(Banner { file: Some(file) }) => if file@.len() > 0 {
            mod_image_url(file@)
        } else {
            "https://modworkshop.net/assets/default-banner.webp"@
        },
        _ => "https://modworkshop.net/assets/default-banner.webp"@,
    }
}

/// The name of the uploader, and `error` where none is given.
pub open spec fn user_name_of(user: Option<User>) -> Seq<char> {
    match user {
        Some(User { name: Some(name), .. }) => name@,
        _ => "error"@,
    }
}

/// The address of the uploader's picture: the avatar itself where it is an
/// address already, the address of that file among the users' images where it
/// is not, and `error` where no avatar is given.
pub open spec fn user_avatar_of(user: Option<User>) -> Seq<char> {
    match user {
        Some(User { avatar: Some(avatar), .. }) => if "http://"@.is_prefix_of(avatar@)
            || "https://"@.is_prefix_of(avatar@) {
            avatar@
        } else {
            "https://storage.modworkshop.net/users/images/"@ + avatar@
        },
        _ => "error"@,
    }
}

/// The names of the tags that have one, in their order.
pub open spec fn tag_names(tags: Seq<Tag>) -> Seq<Seq<char>>
    decreases tags.len(),
{
    if tags.len() == 0 {
        Seq::empty()
    } else {
        match tags.last().name {
            Some(name) => tag_names(tags.drop_last()).push(name@),
            None => tag_names(tags.drop_last()),
        }
    }
}

/// The addresses of the images that name a file, in their order.
pub open spec fn carousel_urls(images: Seq<Image>) -> Seq<Seq<char>>
    decreases images.len(),
{
    if images.len() == 0 {
        Seq::empty()
    } else {
        match images.last().file {
            Some(file) => if file@.len() > 0 {
                carousel_urls(images.drop_last()).push(mod_image_url(file@))
            } else {
                carousel_urls(images.drop_last())
            },
            None => carousel_urls(images.drop_last()),
        }
    }
}

/// `value`, and `fallback` where there is none.
pub open spec fn number_or(value: Option<u64>, fallback: u64) -> u64 {
    match value {
        Some(number) => number,
        None => fallback,
    }
}

/// Whether `summary` is what the manager lists of the mod `item`: every
/// missing text reads `error`, every missing number is 0.
pub open spec fn summarizes(summary: ModSummary, item: Mod) -> bool {
    &&& summary.name@ == text_or_error(item.name)
    &&& summary.id@ == signed_decimal(
        match item.id {
            Some(id) => id as int,
            None => 0,
        },
    )
    &&& summary.description@ == text_or_error(item.desc)
    &&& summary.short_description@ == text_or_error(item.short_desc)
    &&& summary.downloads == number_or(item.downloads, 0)
    &&& summary.views == number_or(item.views, 0)
    &&& summary.likes == number_or(item.likes, 0)
    &&& summary.thumbnail_image@ == thumbnail_url(item.thumbnail)
    &&& summary.user_name@ == user_name_of(item.user)
    &&& summary.user_avatar@ == user_avatar_of(item.user)
    &&& summary.tags.deep_view() == tag_names(
        match item.tags {
            Some(tags) => tags@,
            None => Seq::empty(),
        },
    )
}

/// Whether `pagination` is what the answer's `meta` says, with the first page,
/// 50 mods a page, one page and no mod where it says nothing.
pub open spec fn paginates(pagination: PaginationMeta, meta: Meta) -> bool {
    &&& pagination.current == number_or(meta.current_page, 1)
    &&& pagination.page_size == number_or(meta.per_page, 50)
    &&& pagination.total_pages == Some(number_or(meta.last_page, 1))
    &&& pagination.total_items == Some(number_or(meta.total, 0))
}

/// What a failed request is reported as.
pub open spec fn http_error_as_discovery(error: HttpError) -> DiscoveryErrorView {
    match error {
        HttpError::Network(text) => DiscoveryErrorView::Network(text@),
        HttpError::Parse(text) => DiscoveryErrorView::Internal("parse: "@ + text@),
        HttpError::Schema(text) => DiscoveryErrorView::Internal("schema: "@ + text@),
        HttpError::Internal(text) => DiscoveryErrorView::Internal(text@),
    }
}

/// The address that lists the mods of the game with the number `external_id`.
pub open spec fn games_url(external_id: Seq<char>) -> Seq<char> {
    "https://api.modworkshop.net/games/"@ + external_id + "/mods"@
}

/// The page that is asked for: the first one in place of page 0.
pub open spec fn page_asked(page: u32) -> u32 {
    if page == 0 {
        1
    } else {
        page
    }
}

/// The longest address, in characters, to which a page is added.
pub open spec fn longest_address() -> nat {
    1_000_000_000
}

/// The address to ask for a page of the catalogue. `external_id` is the
/// game's number in the catalogue, none where the game is not loaded. The
/// address is what the URL parser makes of [`games_url`], with the pair
/// `page` added to its query where a page is asked for; an address longer
/// than [`longest_address`] takes no page and is an internal error.
pub open spec fn discover_url(
    game_id: Seq<char>,
    external_id: Option<Seq<char>>,
    page: Option<u32>,
) -> Result<Seq<char>, DiscoveryErrorView> {
    match external_id {
        None => Err(DiscoveryErrorView::InvalidQuery("ID "@ + game_id + " not loaded"@)),
        Some(number) => match parsed_url(games_url(number)) {
            None => Err(DiscoveryErrorView::Internal(url_parse_error(games_url(number)))),
            Some(url) => match page {
                None => Ok(url),
                Some(page) => if url.len() > longest_address() {
                    Err(DiscoveryErrorView::Internal("address too long"@))
                } else {
                    Ok(url_with_pair(url, "page"@, decimal(page_asked(page) as nat)))
                },
            },
        },
    }
}

/// The address that describes the mod `id`.
pub open spec fn mod_url(id: Seq<char>) -> Seq<char> {
    "https://api.modworkshop.net/mods/"@ + id
}

/// What the caller of a download is told on an update: the update itself
/// where it settles the matter or reports progress, a failure where the
/// download's task has ended without a word (`update` is none), and nothing
/// yet where the update is of another kind.
pub open spec fn download_outcome(update: Option<ModDownloadResultView>) -> Option<
    ModDownloadResultView,
> {
    match update {
        None => Some(ModDownloadResultView::Failed("Download task ended unexpectedly"@)),
        Some(ModDownloadResultView::CannotComplete(_)) => None,
        Some(settled) => Some(settled),
    }
}

/// The provider for ModWorkshop.
pub struct ModWorkShopProvider;

fn text_or(value: Option<String>, fallback: &str) -> (text: String)
    ensures
        text@ == match value {
            Some(given) => given@,
            None => fallback@,
        },
{
    match value {
        Some(given) => given,
        None => fallback.to_owned(),
    }
}

fn number_or_default(value: Option<u64>, fallback: u64) -> (number: u64)
    ensures
        number == number_or(value, fallback),
{
    match value {
        Some(given) => given,
        None => fallback,
    }
}

fn image_url(file: &str) -> (url: String)
    ensures
        url@ == mod_image_url(file@),
{
    String::from_str("https://storage.modworkshop.net/mods/images/").concat(file)
}

fn thumbnail_image(thumbnail: &Option<Thumbnail>) -> (url: String)
    ensures
        url@ == thumbnail_url(*thumbnail),
{
    if let Some(thumbnail) = thumbnail {
        if let Some(file) = &thumbnail.file {
            if !file.as_str().is_empty() {
                return image_url(file.as_str());
            }
        }
    }
    "https://modworkshop.net/assets/no-preview.webp".to_owned()
}

fn header_image(banner: &Option<Banner>) -> (url: String)
    ensures
        url@ == banner_url(*banner),
{
    if let Some(banner) = banner {
        if let Some(file) = &banner.file {
            if !file.as_str().is_empty() {
                return image_url(file.as_str());
            }
        }
    }
    "https://modworkshop.net/assets/default-banner.webp".to_owned()
}

fn user_name(user: &Option<User>) -> (name: String)
    ensures
        name@ == user_name_of(*user),
{
    if let Some(user) = user {
        if let Some(name) = &user.name {
            return name.clone();
        }
    }
    "error".to_owned()
}

fn user_avatar(user: &Option<User>) -> (url: String)
    ensures
        url@ == user_avatar_of(*user),
{
    if let Some(user) = user {
        if let Some(avatar) = &user.avatar {
            if starts_with(avatar.as_str(), "http://") || starts_with(
                avatar.as_str(),
                "https://",
            ) {
                return avatar.clone();
            } else {
                return String::from_str("https://storage.modworkshop.net/users/images/").concat(
                    avatar.as_str(),
                );
            }
        }
    }
    "error".to_owned()
}

fn names_of(tags: &Vec<Tag>) -> (names: Vec<String>)
    ensures
        names.deep_view() == tag_names(tags@),
{
    let mut names: Vec<String> = Vec::new();
    let mut i: usize = 0;
    assert(tags@.take(0) =~= Seq::<Tag>::empty());
    assert(names.deep_view() =~= Seq::<Seq<char>>::empty());
    while i < tags.len()
        invariant
            i <= tags.len(),
            names.deep_view() == tag_names(tags@.take(i as int)),
        decreases tags.len() - i,
    {
        let ghost before = names.deep_view();
        assert(tags@.take(i + 1).drop_last() =~= tags@.take(i as int));
        assert(tags@.take(i + 1).last() == tags@[i as int]);
        if let Some(name) = &tags[i].name {
            names.push(name.clone());
            assert(names.deep_view() =~= before.push(name@));
        }
        i += 1;
    }
    assert(tags@.take(tags.len() as int) =~= tags@);
    names
}

fn carousel_of(images: &Vec<Image>) -> (urls: Vec<String>)
    ensures
        urls.deep_view() == carousel_urls(images@),
{
    let mut urls: Vec<String> = Vec::new();
    let mut i: usize = 0;
    assert(images@.take(0) =~= Seq::<Image>::empty());
    assert(urls.deep_view() =~= Seq::<Seq<char>>::empty());
    while i < images.len()
        invariant
            i <= images.len(),
            urls.deep_view() == carousel_urls(images@.take(i as int)),
        decreases images.len() - i,
    {
        let ghost before = urls.deep_view();
        assert(images@.take(i + 1).drop_last() =~= images@.take(i as int));
        assert(images@.take(i + 1).last() == images@[i as int]);
        if let Some(file) = &images[i].file {
            if !file.as_str().is_empty() {
                urls.push(image_url(file.as_str()));
                assert(urls.deep_view() =~= before.push(mod_image_url(file@)));
            }
        }
        i += 1;
    }
    assert(images@.take(images.len() as int) =~= images@);
    urls
}

fn no_texts() -> (texts: Vec<String>)
    ensures
        texts.deep_view() == Seq::<Seq<char>>::empty(),
{
    let texts: Vec<String> = Vec::new();
    assert(texts.deep_view() =~= Seq::<Seq<char>>::empty());
    texts
}

impl ModWorkShopProvider {
    pub fn new() -> (provider: Self) {
        ModWorkShopProvider
    }

    /// The identity under which this provider is registered.
    pub fn register(&self) -> (id: String)
        ensures
            id@ == "core:modworkshop"@,
    {
        "core:modworkshop".to_owned()
    }

    /// The page that is asked for: the first one in place of page 0.
    pub fn page_to_ask(page: u32) -> (asked: u32)
        ensures
            asked == page_asked(page),
    {
        if page == 0 {
            1
        } else {
            page
        }
    }

    /// The address that lists the mods of the game with the number
    /// `external_id`, before the URL parser has seen it.
    pub fn games_address(external_id: &str) -> (address: String)
        ensures
            address@ == games_url(external_id@),
    {
        String::from_str("https://api.modworkshop.net/games/").concat(external_id).concat("/mods")
    }

    /// The error for a game that is not loaded.
    pub fn not_loaded(game_id: &str) -> (error: DiscoveryError)
        ensures
            error@ == DiscoveryErrorView::InvalidQuery("ID "@ + game_id@ + " not loaded"@),
    {
        DiscoveryError::InvalidQuery(
            String::from_str("ID ").concat(game_id).concat(" not loaded"),
        )
    }

    /// The address to ask for a page of the catalogue of the game `game_id`;
    /// `external_id` is the game's number in the catalogue, none where the
    /// game is not loaded.
    pub fn build_url(&self, game_id: &str, external_id: Option<&str>, page: Option<u32>) -> (url:
        Result<String, DiscoveryError>)
        ensures
            match discover_url(game_id@, external_id.deep_view(), page) {
                Ok(text) => url matches Ok(given) && given@ == text,
                Err(reason) => url matches Err(error) && error@ == reason,
            },
    {
        let number = match external_id {
            Some(number) => number,
            None => {
                return Err(Self::not_loaded(game_id));
            },
        };
        let address = Self::games_address(number);
        let mut url = match parse_url(address.as_str()) {
            Ok(url) => url,
            Err(reason) => {
                return Err(DiscoveryError::Internal(reason));
            },
        };
        if let Some(page) = page {
            if url_to_text(&url).as_str().unicode_len() > 1_000_000_000 {
                return Err(DiscoveryError::Internal("address too long".to_owned()));
            }
            let asked = Self::page_to_ask(page);
            let number = u64_text(asked as u64);
            proof {
                reveal_strlit("page");
                reveal_with_fuel(pow10, 11);
                lemma_decimal_is_short(asked as nat, 10);
            }
            append_query_pair(&mut url, "page", number.as_str());
        }
        Ok(url_to_text(&url))
    }

    /// What a failed request is reported as.
    pub fn map_http_error(&self, error: HttpError) -> (reported: DiscoveryError)
        ensures
            reported@ == http_error_as_discovery(error),
    {
        match error {
            HttpError::Network(text) => DiscoveryError::Network(text),
            HttpError::Parse(text) => DiscoveryError::Internal(
                String::from_str("parse: ").concat(text.as_str()),
            ),
            HttpError::Schema(text) => DiscoveryError::Internal(
                String::from_str("schema: ").concat(text.as_str()),
            ),
            HttpError::Internal(text) => DiscoveryError::Internal(text),
        }
    }

    /// What the manager lists of one mod of the catalogue.
    pub fn summarize(item: Mod) -> (summary: ModSummary)
        ensures
            summarizes(summary, item),
    {
        let thumbnail_image = thumbnail_image(&item.thumbnail);
        let user_name = user_name(&item.user);
        let user_avatar = user_avatar(&item.user);
        let tags = match &item.tags {
            Some(tags) => names_of(tags),
            None => {
                assert(tag_names(Seq::<Tag>::empty()) =~= Seq::<Seq<char>>::empty());
                no_texts()
            },
        };
        let id = match item.id {
            Some(id) => i64_text(id),
            None => i64_text(0),
        };
        ModSummary {
            name: text_or(item.name, "error"),
            id,
            description: text_or(item.desc, "error"),
            short_description: text_or(item.short_desc, "error"),
            downloads: number_or_default(item.downloads, 0),
            views: number_or_default(item.views, 0),
            likes: number_or_default(item.likes, 0),
            thumbnail_image,
            user_name,
            user_avatar,
            tags,
        }
    }

    /// What the manager shows of a page of the catalogue of the game
    /// `game_id`, given what came of the request for it. A failed request is
    /// reported as [`Self::map_http_error`] says; an answer without its list
    /// of mods, or else without its `meta`, is an internal error; every other
    /// answer gives a page with one summary for each mod, in the answer's
    /// order.
    pub fn discover(&self, game_id: &str, response: Result<DiscoverResponse, HttpError>) -> (page:
        Result<DiscoveryResult, DiscoveryError>)
        ensures
            match response {
                Err(error) => page matches Err(reported) && reported@ == http_error_as_discovery(
                    error,
                ),
                Ok(DiscoverResponse { data: None, .. }) => page matches Err(reported) && reported@
                    == DiscoveryErrorView::Internal("Missing data[]"@),
                Ok(DiscoverResponse { data: Some(_), meta: None }) => page matches Err(reported)
                    && reported@ == DiscoveryErrorView::Internal(
                    "malformed response: Missing meta{}"@,
                ),
                Ok(DiscoverResponse { data: Some(items), meta: Some(meta) }) => page matches Ok(
                    shown,
                ) && {
                    &&& shown.meta.provider_id@ == "core:modworkshop"@
                    &&& shown.meta.game_id@ == game_id@
                    &&& paginates(shown.meta.pagination, meta)
                    &&& shown.meta.applied_tags.deep_view() == Seq::<Seq<char>>::empty()
                    &&& shown.meta.available_tags.deep_view() == Some(Seq::<Seq<char>>::empty())
                    &&& shown.mods.len() == items.len()
                    &&& forall|i: int|
                        0 <= i < items.len() ==> summarizes(#[trigger] shown.mods[i], items[i])
                },
            },
    {
        let answer = match response {
            Ok(answer) => answer,
            Err(error) => {
                return Err(self.map_http_error(error));
            },
        };
        let items = match answer.data {
            Some(items) => items,
            None => {
                return Err(DiscoveryError::Internal("Missing data[]".to_owned()));
            },
        };
        let meta = match answer.meta {
            Some(meta) => meta,
            None => {
                return Err(
                    DiscoveryError::Internal("malformed response: Missing meta{}".to_owned()),
                );
            },
        };
        let ghost all = items@;
        let mut summaries: Vec<ModSummary> = Vec::new();
        let mut rest = items;
        // Taken from the end and put back in order afterwards.
        let mut reversed: Vec<ModSummary> = Vec::new();
        while rest.len() > 0
            invariant
                rest@.len() + reversed@.len() == all.len(),
                rest@ == all.take(rest@.len() as int),
                forall|k: int|
                    0 <= k < reversed@.len() ==> summarizes(
                        #[trigger] reversed@[k],
                        all[all.len() - 1 - k],
                    ),
            decreases rest.len(),
        {
            let ghost n = rest@.len();
            let item = rest.pop().unwrap();
            assert(item == all[n - 1]);
            reversed.push(Self::summarize(item));
            assert(rest@ =~= all.take(n - 1));
        }
        while reversed.len() > 0
            invariant
                summaries@.len() + reversed@.len() == all.len(),
                forall|k: int|
                    0 <= k < reversed@.len() ==> summarizes(
                        #[trigger] reversed@[k],
                        all[all.len() - 1 - k],
                    ),
                forall|k: int| 0 <= k < summaries@.len() ==> summarizes(#[trigger] summaries@[k], all[k]),
            decreases reversed.len(),
        {
            let ghost n = reversed@.len();
            let summary = reversed.pop().unwrap();
            assert(summarizes(summary, all[all.len() - n]));
            summaries.push(summary);
        }
        Ok(
            DiscoveryResult {
                meta: DiscoveryMeta {
                    provider_id: self.register(),
                    game_id: game_id.to_owned(),
                    pagination: PaginationMeta {
                        current: number_or_default(meta.current_page, 1),
                        page_size: number_or_default(meta.per_page, 50),
                        total_pages: Some(number_or_default(meta.last_page, 1)),
                        total_items: Some(number_or_default(meta.total, 0)),
                    },
                    applied_tags: no_texts(),
                    available_tags: Some(no_texts()),
                },
                mods: summaries,
            },
        )
    }

    /// The address that describes the mod `id`.
    pub fn extended_url(id: &str) -> (address: String)
        ensures
            address@ == mod_url(id@),
    {
        String::from_str("https://api.modworkshop.net/mods/").concat(id)
    }

    /// What the manager shows of one mod in full, given what came of the
    /// request for it; a failed request comes as the words of its error. A
    /// failure shows the default banner and the error in place of the
    /// description. A mod is never shown as installed.
    pub fn get_extended_mod(&self, response: Result<ExtendedResponse, String>) -> (shown:
        ModExtendedMetadata)
        ensures
            !shown.installed,
            match response {
                Err(reason) => {
                    &&& shown.header_image@
                        == "https://modworkshop.net/assets/default-banner.webp"@
                    &&& shown.carousel_images.deep_view() == Seq::<Seq<char>>::empty()
                    &&& shown.version@ == Seq::<char>::empty()
                    &&& shown.description@ == "Failed to fetch: "@ + reason@
                },
                Ok(answer) => {
                    &&& shown.header_image@ == banner_url(answer.banner)
                    &&& shown.carousel_images.deep_view() == carousel_urls(
                        match answer.images {
                            Some(images) => images@,
                            None => Seq::empty(),
                        },
                    )
                    &&& shown.version@ == text_or_empty(answer.version)
                    &&& shown.description@ == text_or_empty(answer.description)
                },
            },
    {
        match response {
            Err(reason) => ModExtendedMetadata {
                header_image: "https://modworkshop.net/assets/default-banner.webp".to_owned(),
                carousel_images: no_texts(),
                version: String::new(),
                installed: false,
                description: String::from_str("Failed to fetch: ").concat(reason.as_str()),
            },
            Ok(answer) => {
                let header_image = header_image(&answer.banner);
                let carousel_images = match &answer.images {
                    Some(images) => carousel_of(images),
                    None => {
                        assert(carousel_urls(Seq::<Image>::empty()) =~= Seq::<Seq<char>>::empty());
                        no_texts()
                    },
                };
                ModExtendedMetadata {
                    header_image,
                    carousel_images,
                    version: match answer.version {
                        Some(version) => version,
                        None => String::new(),
                    },
                    installed: false,
                    description: match answer.description {
                        Some(description) => description,
                        None => String::new(),
                    },
                }
            },
        }
    }

    /// The address from which a mod is downloaded. It does not depend on the
    /// mod yet: every download fetches the same file.
    pub fn download_target(&self) -> (address: String)
        ensures
            address@
                == "https://storage.modworkshop.net/mods/files/53461_71246_ERjHBd1mwDsnSW70RlJ2meqkucPO3JtAsXfpyDU5.zip?filename=Rich%20Presence%20Musical.zip"@,
    {
        "https://storage.modworkshop.net/mods/files/53461_71246_ERjHBd1mwDsnSW70RlJ2meqkucPO3JtAsXfpyDU5.zip?filename=Rich%20Presence%20Musical.zip".to_owned()
    }

    /// What the caller of a download is told on an update of the download;
    /// `update` is none where the download's task has ended without one.
    /// Nothing is told yet where the result is none: the caller waits for the
    /// next update.
    pub fn download_mod(&self, update: Option<ModDownloadResult>) -> (told: Option<
        ModDownloadResult,
    >)
        ensures
            told.is_some() == download_outcome(
                match update {
                    Some(given) => Some(given@),
                    None => None,
                },
            ).is_some(),
            told matches Some(result) ==> Some(result@) == download_outcome(
                match update {
                    Some(given) => Some(given@),
                    None => None,
                },
            ),
    {
        match update {
            None => Some(ModDownloadResult::Failed("Download task ended unexpectedly".to_owned())),
            Some(ModDownloadResult::CannotComplete(_)) => None,
            Some(settled) => Some(settled),
        }
    }
}

} // verus!
