//! Decisions that shape a catalogue page: which page a request asks for, how
//! the request arrived, and the classes of the navigation items.
use vstd::prelude::*;

use crate::catalog::{
    Category, Product, find_category, find_product, spec_find_category,
    spec_find_product,
};
use crate::mode::{RenderMode, mode_from_query};
use crate::text::opt_view;

verus! {

/// What the catalogue route shows.
pub enum CatalogPage {
    /// The detail page of one product.
    ProductDetail(Product),
    /// The category listing, rendered in the given mode.
    Listing(RenderMode),
}

/// The outcome of reading a catalogue request: its mode, its category, and
/// the page to show.
pub struct CatalogRoute {
    pub mode: RenderMode,
    pub category: Category,
    pub page: CatalogPage,
}

/// The page that a request shows: the detail page of the product it names,
/// where the catalogue has that product, and the listing in `mode` otherwise.
pub open spec fn spec_catalog_page(mode: RenderMode, product: Option<Seq<char>>) -> CatalogPage {
    match product {
        Some(sku) => match spec_find_product(sku) {
            Some(p) => CatalogPage::ProductDetail(p),
            None => CatalogPage::Listing(mode),
        },
        None => CatalogPage::Listing(mode),
    }
}

/// How a request reached the server: as a hover preload, as an htmx-boosted
/// navigation, or as a full navigation; a preload counts as such even when
/// it is boosted too.
pub open spec fn spec_request_kind(preloaded: bool, boosted: bool) -> Seq<char> {
    if preloaded {
        "hover preload"@
    } else if boosted {
        "htmx boosted"@
    } else {
        "full navigation"@
    }
}

/// The class of an entry of the render-mode menu.
pub open spec fn spec_mode_item_class(active: bool) -> Seq<char> {
    if active {
        "block rounded-lg bg-slate-950 px-3 py-3 text-white"@
    } else {
        "block rounded-lg px-3 py-3 text-slate-700 hover:bg-slate-100"@
    }
}

/// The class of a link in the category sidebar.
pub open spec fn spec_category_link_class(active: bool) -> Seq<char> {
    if active {
        "flex items-center justify-between rounded-md bg-amber-100 px-3 py-2.5 text-sm text-slate-950 ring-1 ring-amber-300"@
    } else {
        "flex items-center justify-between rounded-md px-3 py-2.5 text-sm text-slate-700 hover:bg-slate-100"@
    }
}

/// Reads the `mode`, `category` and `product` query parameters of a
/// catalogue request.
pub fn route_catalog(mode: Option<&str>, category: Option<&str>, product: Option<&str>) -> (r:
    CatalogRoute)
    ensures
        r.mode == mode_from_query(opt_view(mode)),
        r.category == spec_find_category(opt_view(category)),
        r.page == spec_catalog_page(r.mode, opt_view(product)),
{
    let mode = RenderMode::from_query(mode);
    let category = find_category(category);
    let page = match product {
        Some(sku) => match find_product(sku) {
            Some(p) => CatalogPage::ProductDetail(p),
            None => CatalogPage::Listing(mode),
        },
        None => CatalogPage::Listing(mode),
    };
    CatalogRoute { mode, category, page }
}

/// How a request reached the server, from whether it carries the
/// `hx-preloaded` header and whether htmx boosted it.
pub fn request_kind(preloaded: bool, boosted: bool) -> (r: &'static str)
    ensures
        r@ == spec_request_kind(preloaded, boosted),
{
    if preloaded {
        "hover preload"
    } else if boosted {
        "htmx boosted"
    } else {
        "full navigation"
    }
}

/// The class of an entry of the render-mode menu.
pub fn mode_item_class(active: bool) -> (r: &'static str)
    ensures
        r@ == spec_mode_item_class(active),
{
    if active {
        "block rounded-lg bg-slate-950 px-3 py-3 text-white"
    } else {
        "block rounded-lg px-3 py-3 text-slate-700 hover:bg-slate-100"
    }
}

/// The class of a link in the category sidebar.
pub fn category_link_class(active: bool) -> (r: &'static str)
    ensures
        r@ == spec_category_link_class(active),
{
    if active {
        "flex items-center justify-between rounded-md bg-amber-100 px-3 py-2.5 text-sm text-slate-950 ring-1 ring-amber-300"
    } else {
        "flex items-center justify-between rounded-md px-3 py-2.5 text-sm text-slate-700 hover:bg-slate-100"
    }
}

} // verus!
