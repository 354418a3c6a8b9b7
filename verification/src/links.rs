//! The links of the catalogue: catalogue pages, product pages, the suggestion
//! endpoint, and the typeahead suggestions built from them.
use vstd::prelude::*;
use vstd::string::*;

use crate::catalog::{
    Category, Product, catalog_products, find_category, products, spec_find_category,
};
use crate::mode::{RenderMode, mode_slug};

verus! {

/// The link to the catalogue page of `category` in mode `mode`.
pub open spec fn spec_mode_href(mode: RenderMode, category: Category) -> Seq<char> {
    "/?mode="@ + mode_slug(mode) + "&category="@ + category.slug@
}

/// The link to the page of `product`, reached from `category` in mode `mode`.
pub open spec fn spec_product_href(mode: RenderMode, category: Category, product: Product) -> Seq<
    char,
> {
    "/?mode="@ + mode_slug(mode) + "&category="@ + category.slug@ + "&product="@ + product.sku@
}

/// The address from which the typeahead loads its suggestions in mode `mode`.
pub open spec fn spec_suggestions_url(mode: RenderMode) -> Seq<char> {
    "/api/suggestions?mode="@ + mode_slug(mode)
}

/// One entry of the typeahead: a product and the link to its page.
pub struct ProductSuggestion {
    pub name: &'static str,
    pub sku: &'static str,
    pub specification: &'static str,
    pub href: String,
}

/// What the suggestion for `product` in mode `mode` holds: the product's name,
/// SKU and specification, and a link to its page within its own category.
pub open spec fn is_suggestion_for(s: ProductSuggestion, mode: RenderMode, product: Product) -> bool {
    &&& s.name == product.name
    &&& s.sku == product.sku
    &&& s.specification == product.specification
    &&& s.href@ == spec_product_href(
        mode,
        spec_find_category(Some(product.category@)),
        product,
    )
}

/// The link to the catalogue page of `category` in mode `mode`.
pub fn mode_href(mode: RenderMode, category: Category) -> (r: String)
    ensures
        r@ == spec_mode_href(mode, category),
{
    let mut s = String::from_str("/?mode=");
    s.append(mode.slug());
    s.append("&category=");
    s.append(category.slug);
    s
}

/// The link to the catalogue page of `category` in mode `mode`.
pub fn catalog_href(mode: RenderMode, category: Category) -> (r: String)
    ensures
        r@ == spec_mode_href(mode, category),
{
    mode_href(mode, category)
}

/// The link to the page of `product`, reached from `category` in mode `mode`.
pub fn product_href(mode: RenderMode, category: Category, product: Product) -> (r: String)
    ensures
        r@ == spec_product_href(mode, category, product),
{
    let mut s = String::from_str("/?mode=");
    s.append(mode.slug());
    s.append("&category=");
    s.append(category.slug);
    s.append("&product=");
    s.append(product.sku);
    s
}

/// The address from which the typeahead loads its suggestions in mode `mode`.
pub fn suggestions_url(mode: RenderMode) -> (r: String)
    ensures
        r@ == spec_suggestions_url(mode),
{
    let mut s = String::from_str("/api/suggestions?mode=");
    s.append(mode.slug());
    s
}

/// What the search typeahead starts from: the text already searched for and
/// the address of its suggestions.
pub struct TypeaheadProps {
    pub initial_value: String,
    pub suggestions_url: String,
}

/// The typeahead of the page in mode `mode`, showing `initial_value`.
pub fn typeahead_props(mode: RenderMode, initial_value: &str) -> (r: TypeaheadProps)
    ensures
        r.initial_value@ == initial_value@,
        r.suggestions_url@ == spec_suggestions_url(mode),
{
    TypeaheadProps { initial_value: initial_value.to_owned(), suggestions_url: suggestions_url(mode) }
}

/// One suggestion per product of the catalogue, in catalogue order.
pub fn product_suggestions(mode: RenderMode) -> (r: Vec<ProductSuggestion>)
    ensures
        r.len() == catalog_products().len(),
        forall|i: int|
            0 <= i < r.len() ==> is_suggestion_for(#[trigger] r[i], mode, catalog_products()[i]),
{
    let ps = products();
    let mut out: Vec<ProductSuggestion> = Vec::new();
    let mut i: usize = 0;
    while i < 12
        invariant
            ps@ == catalog_products(),
            i <= 12,
            out.len() == i,
            forall|j: int|
                0 <= j < i ==> is_suggestion_for(#[trigger] out[j], mode, catalog_products()[j]),
        decreases 12 - i,
    {
        let product = ps[i];
        let category = find_category(Some(product.category));
        let href = product_href(mode, category, product);
        out.push(
            ProductSuggestion {
                name: product.name,
                sku: product.sku,
                specification: product.specification,
                href,
            },
        );
        i = i + 1;
    }
    out
}

} // verus!
