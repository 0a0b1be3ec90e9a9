//! The shapes of ModWorkshop's answers, and of what is made of them.
//!
//! In an answer every field may be missing.

use vstd::prelude::*;
use crate::paths::FsPath;

verus! {

/// Who uploaded a mod.
pub struct User {
    pub name: Option<String>,
    pub avatar: Option<String>,
}

pub struct Thumbnail {
    pub file: Option<String>,
}

pub struct Tag {
    pub name: Option<String>,
}

/// One mod in a page of the catalogue.
pub struct Mod {
    pub id: Option<i64>,
    pub name: Option<String>,
    pub desc: Option<String>,
    pub short_desc: Option<String>,
    pub downloads: Option<u64>,
    pub views: Option<u64>,
    pub likes: Option<u64>,
    pub thumbnail: Option<Thumbnail>,
    pub user: Option<User>,
    pub tags: Option<Vec<Tag>>,
}

/// Where a page stands in the catalogue.
pub struct Meta {
    pub current_page: Option<u64>,
    pub per_page: Option<u64>,
    pub last_page: Option<u64>,
    pub total: Option<u64>,
}

/// The answer to the request for one page.
pub struct DiscoverResponse {
    pub data: Option<Vec<Mod>>,
    pub meta: Option<Meta>,
}

pub struct Banner {
    pub file: Option<String>,
}

pub struct Image {
    pub file: Option<String>,
}

/// The answer to the request for one mod.
pub struct ExtendedResponse {
    pub banner: Option<Banner>,
    pub images: Option<Vec<Image>>,
    pub version: Option<String>,
    pub description: Option<String>,
}

/// Why a request to the catalogue failed.
pub enum HttpError {
    Network(String),
    Parse(String),
    Schema(String),
    Internal(String),
}

/// What a [`DiscoveryError`] stands for.
pub enum DiscoveryErrorView {
    Network(Seq<char>),
    InvalidQuery(Seq<char>),
    ProviderUnavailable,
    Internal(Seq<char>),
}

/// Why a page of the catalogue could not be shown.
pub enum DiscoveryError {
    Network(String),
    InvalidQuery(String),
    ProviderUnavailable,
    Internal(String),
}

impl View for DiscoveryError {
    type V = DiscoveryErrorView;

    open spec fn view(&self) -> DiscoveryErrorView {
        match self {
            DiscoveryError::Network(text) => DiscoveryErrorView::Network(text@),
            DiscoveryError::InvalidQuery(text) => DiscoveryErrorView::InvalidQuery(text@),
            DiscoveryError::ProviderUnavailable => DiscoveryErrorView::ProviderUnavailable,
            DiscoveryError::Internal(text) => DiscoveryErrorView::Internal(text@),
        }
    }
}

/// One mod as the manager lists it.
pub struct ModSummary {
    pub id: String,
    pub name: String,
    pub description: String,
    pub short_description: String,
    pub downloads: u64,
    pub views: u64,
    pub likes: u64,
    pub thumbnail_image: String,
    pub tags: Vec<String>,
    pub user_name: String,
    pub user_avatar: String,
}

pub struct PaginationMeta {
    pub current: u64,
    pub page_size: u64,
    pub total_pages: Option<u64>,
    pub total_items: Option<u64>,
}

pub struct DiscoveryMeta {
    pub provider_id: String,
    pub game_id: String,
    pub pagination: PaginationMeta,
    pub applied_tags: Vec<String>,
    pub available_tags: Option<Vec<String>>,
}

/// One page of the catalogue as the manager shows it.
pub struct DiscoveryResult {
    pub meta: DiscoveryMeta,
    pub mods: Vec<ModSummary>,
}

/// One mod as the manager shows it in full.
pub struct ModExtendedMetadata {
    pub header_image: String,
    pub carousel_images: Vec<String>,
    pub version: String,
    pub installed: bool,
    pub description: String,
}

/// `count` as a 32-bit number: itself where it fits, the largest such number
/// where it does not.
pub fn saturate(count: u64) -> (shown: u32)
    ensures
        shown == if count <= u32::MAX {
            count
        } else {
            u32::MAX as u64
        },
{
    if count <= 4294967295 {
        count as u32
    } else {
        4294967295
    }
}

/// What a [`ModDownloadResult`] stands for.
pub enum ModDownloadResultView {
    Failed(Seq<char>),
    InProgress(u8),
    Completed(Seq<Seq<char>>),
    Cancelled,
    CannotComplete(Seq<char>),
}

/// How a download stands.
pub enum ModDownloadResult {
    Failed(String),
    InProgress(u8),
    Completed(FsPath),
    Cancelled,
    CannotComplete(String),
}

impl View for ModDownloadResult {
    type V = ModDownloadResultView;

    open spec fn view(&self) -> ModDownloadResultView {
        match self {
            ModDownloadResult::Failed(text) => ModDownloadResultView::Failed(text@),
            ModDownloadResult::InProgress(percent) => ModDownloadResultView::InProgress(*percent),
            ModDownloadResult::Completed(path) => ModDownloadResultView::Completed(path@),
            ModDownloadResult::Cancelled => ModDownloadResultView::Cancelled,
            ModDownloadResult::CannotComplete(text) => ModDownloadResultView::CannotComplete(
                text@,
            ),
        }
    }
}

} // verus!
