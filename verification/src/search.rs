//! Searching the catalogue: the products of a category whose name,
//! specification or SKU contains a query, ignoring ASCII case.
use vstd::prelude::*;

use crate::catalog::{Category, Product, catalog_products, products};
use crate::text::{
    ascii_lowercase_chars, contains_ignoring_ascii_case, contains_seq, lower_seq, opt_view,
    str_equal,
};

verus! {

/// `product` is listed under `category`: the category standing for the whole
/// catalogue (slug `all`) lists every product, any other lists its own.
pub open spec fn in_category(category: Category, product: Product) -> bool {
    category.slug@ == "all"@ || product.category@ == category.slug@
}

/// `product` answers `query`: there is no query, or the query occurs, ASCII
/// case ignored, in the product's name, specification or SKU.
pub open spec fn answers_query(product: Product, query: Option<Seq<char>>) -> bool {
    match query {
        None => true,
        Some(q) => {
            let lq = lower_seq(q);
            ||| contains_seq(lower_seq(product.name@), lq)
            ||| contains_seq(lower_seq(product.specification@), lq)
            ||| contains_seq(lower_seq(product.sku@), lq)
        },
    }
}

/// Which products a search for `query` in `category` keeps.
pub open spec fn match_pred(category: Category, query: Option<Seq<char>>) -> spec_fn(Product) -> bool {
    |p: Product| in_category(category, p) && answers_query(p, query)
}

/// The products, in catalogue order, that a search for `query` in `category`
/// finds.
pub open spec fn spec_matching_products(category: Category, query: Option<Seq<char>>) -> Seq<
    Product,
> {
    catalog_products().filter(match_pred(category, query))
}

/// The products of `category` that answer `query`, in catalogue order.
pub fn matching_products(category: Category, query: Option<&str>) -> (r: Vec<Product>)
    ensures
        r@ == spec_matching_products(category, opt_view(query)),
{
    let ghost q = opt_view(query);
    let lowered: Option<Vec<char>> = match query {
        Some(text) => Some(ascii_lowercase_chars(text)),
        None => None,
    };
    let whole_catalog = str_equal(category.slug, "all");
    let ps = products();
    let mut out: Vec<Product> = Vec::new();
    let mut i: usize = 0;
    while i < 12
        invariant
            ps@ == catalog_products(),
            i <= 12,
            q == opt_view(query),
            whole_catalog == (category.slug@ == "all"@),
            match q {
                None => lowered is None,
                Some(t) => lowered matches Some(l) && l@ == lower_seq(t),
            },
            out@ == ps@.take(i as int).filter(match_pred(category, q)),
        decreases 12 - i,
    {
        let product = ps[i];
        let listed = whole_catalog || str_equal(product.category, category.slug);
        let answers = match &lowered {
            None => true,
            Some(l) => {
                contains_ignoring_ascii_case(product.name, l) || contains_ignoring_ascii_case(
                    product.specification,
                    l,
                ) || contains_ignoring_ascii_case(product.sku, l)
            },
        };
        proof {
            assert(ps@.take(i + 1) =~= ps@.take(i as int).push(product));
            ps@.take(i as int).lemma_filter_push(product, match_pred(category, q));
            assert((listed && answers) == match_pred(category, q)(product));
        }
        if listed && answers {
            out.push(product);
        }
        i = i + 1;
    }
    assert(ps@.take(12) =~= ps@);
    out
}

} // verus!
