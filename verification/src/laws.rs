//! Properties of the catalogue as a whole: what its links lead back to, what
//! its lookups find, and how its search behaves.
use vstd::prelude::*;

use crate::catalog::{
    Category, Product, catalog_categories, catalog_products, category_with_slug_from,
    product_with_sku_from, spec_all_category, spec_find_category, spec_find_product,
};
use crate::mode::{RenderMode, mode_expected, mode_from_query, mode_label, mode_slug};
use crate::links::{
    ProductSuggestion, is_suggestion_for, spec_mode_href, spec_product_href, spec_suggestions_url,
};
use crate::page::{
    CatalogPage, spec_catalog_page, spec_category_link_class, spec_mode_item_class,
    spec_request_kind,
};
use crate::search::{answers_query, in_category, match_pred, spec_matching_products};
use crate::text::{contains_seq, lemma_lower_idempotent, lower_seq, occurs_at};

verus! {

/// Reading back the slug of a mode gives that mode.
pub proof fn lemma_mode_slug_round_trip(m: RenderMode)
    ensures
        mode_from_query(Some(mode_slug(m))) == m,
{
    reveal_strlit("sequential");
    reveal_strlit("concurrent");
    reveal_strlit("streaming");
    assert("concurrent"@[0] != "sequential"@[0]);
    assert("streaming"@.len() != "sequential"@.len());
    assert("streaming"@.len() != "concurrent"@.len());
}

/// Looking up the slug of a listed category gives that category.
pub proof fn lemma_find_listed_category(k: int)
    requires
        0 <= k < catalog_categories().len(),
    ensures
        spec_find_category(Some(catalog_categories()[k].slug@)) == catalog_categories()[k],
{
    reveal_strlit("all");
    reveal_strlit("fasteners");
    reveal_strlit("electrical");
    reveal_strlit("material-handling");
    reveal_strlit("safety");
    let cats = catalog_categories();
    let slug = cats[k].slug@;
    assert(cats[0].slug@.len() == 3);
    assert(cats[1].slug@.len() == 9);
    assert(cats[2].slug@.len() == 10);
    assert(cats[3].slug@.len() == 17);
    assert(cats[4].slug@.len() == 6);
    assert forall|j: int| 0 <= j < k implies cats[j].slug@ != slug by {}
    lemma_first_category_from(cats, slug, 0, k);
}

proof fn lemma_first_category_from(cats: Seq<Category>, slug: Seq<char>, i: int, k: int)
    requires
        0 <= i <= k < cats.len(),
        cats[k].slug@ == slug,
        forall|j: int| i <= j < k ==> cats[j].slug@ != slug,
    ensures
        category_with_slug_from(cats, slug, i) == Some(cats[k]),
    decreases k - i,
{
    if i < k {
        lemma_first_category_from(cats, slug, i + 1, k);
    }
}

/// Looking up the SKU of a listed product gives that product.
pub proof fn lemma_find_listed_product(k: int)
    requires
        0 <= k < catalog_products().len(),
    ensures
        spec_find_product(catalog_products()[k].sku@) == Some(catalog_products()[k]),
{
    let ps = catalog_products();
    reveal_strlit("91257A540");
    reveal_strlit("90322A194");
    reveal_strlit("92141A029");
    reveal_strlit("92383A824");
    reveal_strlit("7566K42");
    reveal_strlit("7304K114");
    reveal_strlit("7727K18");
    reveal_strlit("2415T38");
    reveal_strlit("2492T17");
    reveal_strlit("3031T22");
    reveal_strlit("5450T14");
    reveal_strlit("5924T31");
    assert(ps[0].sku@.len() == 9);
    assert(ps[0].sku@[0] == '9');
    assert(ps[0].sku@[1] == '1');
    assert(ps[0].sku@[2] == '2');
    assert(ps[1].sku@.len() == 9);
    assert(ps[1].sku@[0] == '9');
    assert(ps[1].sku@[1] == '0');
    assert(ps[1].sku@[2] == '3');
    assert(ps[2].sku@.len() == 9);
    assert(ps[2].sku@[0] == '9');
    assert(ps[2].sku@[1] == '2');
    assert(ps[2].sku@[2] == '1');
    assert(ps[3].sku@.len() == 9);
    assert(ps[3].sku@[0] == '9');
    assert(ps[3].sku@[1] == '2');
    assert(ps[3].sku@[2] == '3');
    assert(ps[4].sku@.len() == 7);
    assert(ps[4].sku@[0] == '7');
    assert(ps[4].sku@[1] == '5');
    assert(ps[4].sku@[2] == '6');
    assert(ps[5].sku@.len() == 8);
    assert(ps[5].sku@[0] == '7');
    assert(ps[5].sku@[1] == '3');
    assert(ps[5].sku@[2] == '0');
    assert(ps[6].sku@.len() == 7);
    assert(ps[6].sku@[0] == '7');
    assert(ps[6].sku@[1] == '7');
    assert(ps[6].sku@[2] == '2');
    assert(ps[7].sku@.len() == 7);
    assert(ps[7].sku@[0] == '2');
    assert(ps[7].sku@[1] == '4');
    assert(ps[7].sku@[2] == '1');
    assert(ps[8].sku@.len() == 7);
    assert(ps[8].sku@[0] == '2');
    assert(ps[8].sku@[1] == '4');
    assert(ps[8].sku@[2] == '9');
    assert(ps[9].sku@.len() == 7);
    assert(ps[9].sku@[0] == '3');
    assert(ps[9].sku@[1] == '0');
    assert(ps[9].sku@[2] == '3');
    assert(ps[10].sku@.len() == 7);
    assert(ps[10].sku@[0] == '5');
    assert(ps[10].sku@[1] == '4');
    assert(ps[10].sku@[2] == '5');
    assert(ps[11].sku@.len() == 7);
    assert(ps[11].sku@[0] == '5');
    assert(ps[11].sku@[1] == '9');
    assert(ps[11].sku@[2] == '2');
    assert forall|j: int| 0 <= j < k implies ps[j].sku@ != ps[k].sku@ by {}
    lemma_first_product_from(ps, ps[k].sku@, 0, k);
}

proof fn lemma_first_product_from(ps: Seq<Product>, sku: Seq<char>, i: int, k: int)
    requires
        0 <= i <= k < ps.len(),
        ps[k].sku@ == sku,
        forall|j: int| i <= j < k ==> ps[j].sku@ != sku,
    ensures
        product_with_sku_from(ps, sku, i) == Some(ps[k]),
    decreases k - i,
{
    if i < k {
        lemma_first_product_from(ps, sku, i + 1, k);
    }
}

/// Every product's own category is listed, so looking it up gives the
/// category of that slug rather than the default one.
pub proof fn lemma_product_category_listed(k: int)
    requires
        0 <= k < catalog_products().len(),
    ensures
        spec_find_category(Some(catalog_products()[k].category@)).slug@
            == catalog_products()[k].category@,
{
    let ps = catalog_products();
    let cats = catalog_categories();
    let j: int = if k < 4 {
        1
    } else if k < 7 {
        2
    } else if k < 10 {
        3
    } else {
        4
    };
    assert(ps[k].category@ == cats[j].slug@);
    lemma_find_listed_category(j);
}

/// The count that each category announces is the number of products that
/// its listing shows when no query is given.
pub proof fn lemma_category_counts(k: int)
    requires
        0 <= k < catalog_categories().len(),
    ensures
        spec_matching_products(catalog_categories()[k], None).len()
            == catalog_categories()[k].count,
{
    let cats = catalog_categories();
    reveal_strlit("all");
    reveal_strlit("fasteners");
    reveal_strlit("electrical");
    reveal_strlit("material-handling");
    reveal_strlit("safety");
    assert(cats[0].slug@.len() == 3);
    assert(cats[1].slug@.len() == 9);
    assert(cats[2].slug@.len() == 10);
    assert(cats[3].slug@.len() == 17);
    assert(cats[4].slug@.len() == 6);
    reveal_with_fuel(Seq::filter, 13);
}

/// The category standing for the whole catalogue lists every product, in
/// catalogue order, when no query is given.
pub proof fn lemma_all_category_lists_everything()
    ensures
        spec_matching_products(spec_all_category(), None) == catalog_products(),
{
    reveal_with_fuel(Seq::filter, 13);
    assert(spec_matching_products(spec_all_category(), None) =~= catalog_products());
}

/// A search does not depend on the ASCII case of its query: two queries that
/// agree once lower-cased find the same products.
pub proof fn lemma_search_ignores_query_case(category: Category, q1: Seq<char>, q2: Seq<char>)
    requires
        lower_seq(q1) == lower_seq(q2),
    ensures
        spec_matching_products(category, Some(q1)) == spec_matching_products(category, Some(q2)),
{
    assert(match_pred(category, Some(q1)) =~= match_pred(category, Some(q2)));
}

/// Searching for the lower-case form of a query finds what the query finds.
pub proof fn lemma_search_lowercased_query(category: Category, q: Seq<char>)
    ensures
        spec_matching_products(category, Some(lower_seq(q))) == spec_matching_products(
            category,
            Some(q),
        ),
{
    lemma_lower_idempotent(q);
    lemma_search_ignores_query_case(category, lower_seq(q), q);
}

/// An empty query finds what no query finds: the whole listing.
pub proof fn lemma_empty_query_keeps_listing(category: Category)
    ensures
        spec_matching_products(category, Some(Seq::<char>::empty())) == spec_matching_products(
            category,
            None,
        ),
{
    let empty = Seq::<char>::empty();
    assert forall|p: Product|
        #[trigger] match_pred(category, Some(empty))(p) == match_pred(category, None)(p) by {
        assert(lower_seq(empty) =~= empty);
        assert(occurs_at(lower_seq(p.name@), lower_seq(empty), 0));
    }
    assert(match_pred(category, Some(empty)) =~= match_pred(category, None));
}

/// A query only narrows a listing: every product found with it belongs to the
/// category, answers the query, and is found without the query as well.
pub proof fn lemma_query_narrows_listing(category: Category, q: Seq<char>)
    ensures
        forall|i: int|
            0 <= i < spec_matching_products(category, Some(q)).len() ==> {
                let p = #[trigger] spec_matching_products(category, Some(q))[i];
                &&& in_category(category, p)
                &&& answers_query(p, Some(q))
                &&& spec_matching_products(category, None).contains(p)
            },
{
    let ps = catalog_products();
    let with_q = match_pred(category, Some(q));
    let without = match_pred(category, None);
    assert forall|i: int| 0 <= i < spec_matching_products(category, Some(q)).len() implies {
        let p = #[trigger] spec_matching_products(category, Some(q))[i];
        &&& in_category(category, p)
        &&& answers_query(p, Some(q))
        &&& spec_matching_products(category, None).contains(p)
    } by {
        let p = ps.filter(with_q)[i];
        ps.lemma_filter_pred(with_q, i);
        assert(ps.filter(with_q).contains(p));
        ps.lemma_filter_contains_rev(with_q, p);
        let j = choose|j: int| 0 <= j < ps.len() && ps[j] == p;
        ps.lemma_filter_contains(without, j);
    }
}

/// The link to a product page is the link to its catalogue page with the
/// product's SKU added.
pub proof fn lemma_product_href_extends_catalog_href(
    mode: RenderMode,
    category: Category,
    product: Product,
)
    ensures
        spec_product_href(mode, category, product) == spec_mode_href(mode, category)
            + "&product="@ + product.sku@,
{
}

/// A product link leads back to what it was built from: its query parameters
/// read back as the mode, a listed category, and the page of the product.
pub proof fn lemma_product_link_round_trip(mode: RenderMode, j: int, k: int)
    requires
        0 <= j < catalog_categories().len(),
        0 <= k < catalog_products().len(),
    ensures
        mode_from_query(Some(mode_slug(mode))) == mode,
        spec_find_category(Some(catalog_categories()[j].slug@)) == catalog_categories()[j],
        spec_catalog_page(mode, Some(catalog_products()[k].sku@)) == CatalogPage::ProductDetail(
            catalog_products()[k],
        ),
{
    lemma_mode_slug_round_trip(mode);
    lemma_find_listed_category(j);
    lemma_find_listed_product(k);
}

/// Without a product, or with one the catalogue does not have, the page is
/// the listing in the requested mode, whatever that mode is.
pub proof fn lemma_listing_keeps_requested_mode(m: RenderMode, product: Option<Seq<char>>)
    requires
        product matches Some(sku) ==> spec_find_product(sku) is None,
    ensures
        spec_catalog_page(m, product) == CatalogPage::Listing(m),
{
}

/// A product the catalogue has is shown on its own page, whatever the mode.
pub proof fn lemma_known_product_gets_its_page(m: RenderMode, sku: Seq<char>)
    requires
        spec_find_product(sku) is Some,
    ensures
        spec_catalog_page(m, Some(sku)) == CatalogPage::ProductDetail(
            spec_find_product(sku)->0,
        ),
{
}

/// A link that starts with `/?mode=` carries, up to the next `&`, a mode
/// value that reads back as `mode`.
pub open spec fn link_names_mode(url: Seq<char>, mode: RenderMode) -> bool {
    &&& url.len() >= 7
    &&& url.take(7) == "/?mode="@
    &&& exists|k: int|
        #![trigger url.subrange(7, k)]
        7 <= k < url.len() && url[k] == '&' && (forall|j: int| 7 <= j < k ==> url[j] != '&')
            && mode_from_query(Some(url.subrange(7, k))) == mode
}

/// The slug of every mode is free of `&`.
proof fn lemma_slug_has_no_ampersand(m: RenderMode)
    ensures
        forall|j: int| 0 <= j < mode_slug(m).len() ==> mode_slug(m)[j] != '&',
{
    reveal_strlit("sequential");
    reveal_strlit("concurrent");
    reveal_strlit("streaming");
}

/// A link made of `/?mode=`, a mode's slug and a text starting with `&`
/// names that mode.
proof fn lemma_mode_param_reads_back(m: RenderMode, rest: Seq<char>)
    requires
        rest.len() > 0,
        rest[0] == '&',
    ensures
        link_names_mode("/?mode="@ + mode_slug(m) + rest, m),
{
    reveal_strlit("/?mode=");
    let url = "/?mode="@ + mode_slug(m) + rest;
    let k: int = 7 + mode_slug(m).len() as int;
    lemma_slug_has_no_ampersand(m);
    lemma_mode_slug_round_trip(m);
    assert(url.take(7) =~= "/?mode="@);
    assert(url.subrange(7, k) =~= mode_slug(m));
    assert(url[k] == rest[0]);
    assert forall|j: int| 7 <= j < k implies url[j] != '&' by {
        assert(url[j] == mode_slug(m)[j - 7]);
    }
}

/// Every product link names, as its mode, the mode it was built for.
pub proof fn lemma_product_link_names_its_mode(
    mode: RenderMode,
    category: Category,
    product: Product,
)
    ensures
        link_names_mode(spec_product_href(mode, category, product), mode),
{
    reveal_strlit("&category=");
    let rest = "&category="@ + category.slug@ + "&product="@ + product.sku@;
    assert(rest[0] == '&');
    assert(spec_product_href(mode, category, product) =~= "/?mode="@ + mode_slug(mode) + rest);
    lemma_mode_param_reads_back(mode, rest);
}

/// Every catalogue link names, as its mode, the mode it was built for.
pub proof fn lemma_catalog_link_names_its_mode(mode: RenderMode, category: Category)
    ensures
        link_names_mode(spec_mode_href(mode, category), mode),
{
    reveal_strlit("&category=");
    let rest = "&category="@ + category.slug@;
    assert(rest[0] == '&');
    assert(spec_mode_href(mode, category) =~= "/?mode="@ + mode_slug(mode) + rest);
    lemma_mode_param_reads_back(mode, rest);
}

/// Every suggestion links to its product in the mode the suggestions were
/// asked for, and ends with that product's SKU.
pub proof fn lemma_suggestion_links_keep_mode(s: ProductSuggestion, mode: RenderMode, product: Product)
    requires
        is_suggestion_for(s, mode, product),
    ensures
        link_names_mode(s.href@, mode),
        s.href@.len() >= product.sku@.len(),
        s.href@.skip(s.href@.len() - product.sku@.len()) == product.sku@,
{
    lemma_product_link_names_its_mode(mode, spec_find_category(Some(product.category@)), product);
    let h = s.href@;
    assert(h.skip(h.len() - product.sku@.len()) =~= product.sku@);
}

/// The address of the suggestions is `/api/suggestions?mode=` followed by a
/// value that reads back as the page's own mode.
pub proof fn lemma_suggestions_url_keeps_mode(m: RenderMode)
    ensures
        spec_suggestions_url(m).len() >= 22,
        spec_suggestions_url(m).take(22) == "/api/suggestions?mode="@,
        mode_from_query(Some(spec_suggestions_url(m).skip(22))) == m,
{
    reveal_strlit("/api/suggestions?mode=");
    let u = spec_suggestions_url(m);
    assert(u.take(22) =~= "/api/suggestions?mode="@);
    assert(u.skip(22) =~= mode_slug(m));
    lemma_mode_slug_round_trip(m);
}

/// Any run of consecutive characters of a text is found in it.
pub proof fn lemma_every_run_is_found(hay: Seq<char>, needle: Seq<char>, i: int)
    requires
        0 <= i,
        i + needle.len() <= hay.len(),
        hay.subrange(i, i + needle.len()) == needle,
    ensures
        contains_seq(hay, needle),
{
    assert forall|j: int| 0 <= j < needle.len() implies #[trigger] hay[i + j] == needle[j] by {
        assert(hay.subrange(i, i + needle.len())[j] == hay[i + j]);
    }
    assert(occurs_at(hay, needle, i));
}

/// What is found in a text is a run of its consecutive characters.
pub proof fn lemma_found_is_a_run(hay: Seq<char>, needle: Seq<char>)
    requires
        contains_seq(hay, needle),
    ensures
        exists|i: int|
            0 <= i && i + needle.len() <= hay.len() && #[trigger] hay.subrange(
                i,
                i + needle.len(),
            ) == needle,
{
    let i = choose|i: int| occurs_at(hay, needle, i);
    assert(occurs_at(hay, needle, i));
    assert forall|j: int| 0 <= j < needle.len() implies hay.subrange(i, i + needle.len())[j]
        == needle[j] by {
        assert(hay[i + j] == needle[j]);
    }
    assert(hay.subrange(i, i + needle.len()) =~= needle);
}

/// A product answers a query whose lower-case form is a run of consecutive
/// characters of its lower-cased name, specification or SKU.
pub proof fn lemma_query_found_in_field(product: Product, q: Seq<char>, i: int)
    requires
        0 <= i,
        ({
            let lq = lower_seq(q);
            ||| i + lq.len() <= product.name@.len() && lower_seq(product.name@).subrange(
                i,
                i + lq.len(),
            ) == lq
            ||| i + lq.len() <= product.specification@.len() && lower_seq(
                product.specification@,
            ).subrange(i, i + lq.len()) == lq
            ||| i + lq.len() <= product.sku@.len() && lower_seq(product.sku@).subrange(
                i,
                i + lq.len(),
            ) == lq
        }),
    ensures
        answers_query(product, Some(q)),
{
    let lq = lower_seq(q);
    if i + lq.len() <= product.name@.len() && lower_seq(product.name@).subrange(i, i + lq.len())
        == lq {
        lemma_every_run_is_found(lower_seq(product.name@), lq, i);
    } else if i + lq.len() <= product.specification@.len() && lower_seq(
        product.specification@,
    ).subrange(i, i + lq.len()) == lq {
        lemma_every_run_is_found(lower_seq(product.specification@), lq, i);
    } else {
        lemma_every_run_is_found(lower_seq(product.sku@), lq, i);
    }
}

/// What a product of the catalogue shows: its category, name,
/// specification, price, unit, stock and render delay.
pub open spec fn product_shows(
    p: Product,
    category: Seq<char>,
    name: Seq<char>,
    specification: Seq<char>,
    price: Seq<char>,
    unit: Seq<char>,
    stock: nat,
    delay_ms: nat,
) -> bool {
    &&& p.category@ == category
    &&& p.name@ == name
    &&& p.specification@ == specification
    &&& p.price@ == price
    &&& p.unit@ == unit
    &&& p.stock == stock
    &&& p.delay_ms == delay_ms
}

/// The catalogue lists these twelve SKUs in this order, and looking each one
/// up gives a product with these fields.
pub proof fn lemma_product_table()
    ensures
        catalog_products().len() == 12,
        catalog_products()[0].sku@ == "91257A540"@,
        catalog_products()[1].sku@ == "90322A194"@,
        catalog_products()[2].sku@ == "92141A029"@,
        catalog_products()[3].sku@ == "92383A824"@,
        catalog_products()[4].sku@ == "7566K42"@,
        catalog_products()[5].sku@ == "7304K114"@,
        catalog_products()[6].sku@ == "7727K18"@,
        catalog_products()[7].sku@ == "2415T38"@,
        catalog_products()[8].sku@ == "2492T17"@,
        catalog_products()[9].sku@ == "3031T22"@,
        catalog_products()[10].sku@ == "5450T14"@,
        catalog_products()[11].sku@ == "5924T31"@,
        spec_find_product("91257A540"@) matches Some(p) && product_shows(
            p,
            "fasteners"@,
            "Grade 8 Hex Head Screw"@,
            "Zinc-plated steel, 3/8\"-16 thread, 2\" long"@,
            "$12.80"@,
            "pack"@,
            184,
            160,
        ),
        spec_find_product("90322A194"@) matches Some(p) && product_shows(
            p,
            "fasteners"@,
            "Nylon-Insert Locknut"@,
            "Zinc-plated steel, 3/8\"-16 thread size"@,
            "$8.45"@,
            "pack"@,
            326,
            220,
        ),
        spec_find_product("92141A029"@) matches Some(p) && product_shows(
            p,
            "fasteners"@,
            "Oversized Flat Washer"@,
            "18-8 stainless steel, 3/8\" screw size"@,
            "$6.18"@,
            "pack"@,
            91,
            280,
        ),
        spec_find_product("92383A824"@) matches Some(p) && product_shows(
            p,
            "fasteners"@,
            "Thread-Locking Socket Screw"@,
            "Alloy steel, 1/4\"-20 thread, 1-1/4\" long"@,
            "$15.62"@,
            "pack"@,
            74,
            190,
        ),
        spec_find_product("7566K42"@) matches Some(p) && product_shows(
            p,
            "electrical"@,
            "Watertight Cord Grip"@,
            "Nylon body, 1/2 NPT, 0.24\"-0.47\" cable"@,
            "$7.92"@,
            "each"@,
            208,
            170,
        ),
        spec_find_product("7304K114"@) matches Some(p) && product_shows(
            p,
            "electrical"@,
            "DIN-Rail Terminal Block"@,
            "600 V AC/DC, 30 A, 10 AWG maximum wire"@,
            "$24.10"@,
            "pack"@,
            147,
            240,
        ),
        spec_find_product("7727K18"@) matches Some(p) && product_shows(
            p,
            "electrical"@,
            "Polycarbonate Enclosure"@,
            "NEMA 4X, 8\" x 6\" x 4\", clear cover"@,
            "$38.75"@,
            "each"@,
            63,
            210,
        ),
        spec_find_product("2415T38"@) matches Some(p) && product_shows(
            p,
            "material-handling"@,
            "Swivel Plate Caster"@,
            "Polyurethane wheel, 5\" diameter, 700 lb capacity"@,
            "$42.60"@,
            "each"@,
            118,
            180,
        ),
        spec_find_product("2492T17"@) matches Some(p) && product_shows(
            p,
            "material-handling"@,
            "Low-Profile Platform Truck"@,
            "Steel deck, 2,000 lb capacity, 48\" x 24\""@,
            "$486.00"@,
            "each"@,
            12,
            260,
        ),
        spec_find_product("3031T22"@) matches Some(p) && product_shows(
            p,
            "material-handling"@,
            "Web Sling"@,
            "Eye-and-eye, 2\" wide, 6 ft long, 3,200 lb capacity"@,
            "$31.40"@,
            "each"@,
            86,
            200,
        ),
        spec_find_product("5450T14"@) matches Some(p) && product_shows(
            p,
            "safety"@,
            "Anti-Fog Safety Glasses"@,
            "Clear polycarbonate lens, ANSI Z87.1+"@,
            "$9.85"@,
            "pair"@,
            412,
            150,
        ),
        spec_find_product("5924T31"@) matches Some(p) && product_shows(
            p,
            "safety"@,
            "Lockout Station"@,
            "Wall mount, stocked for 10 workers"@,
            "$214.00"@,
            "each"@,
            28,
            230,
        ),
{
    lemma_find_listed_product(0);
    lemma_find_listed_product(1);
    lemma_find_listed_product(2);
    lemma_find_listed_product(3);
    lemma_find_listed_product(4);
    lemma_find_listed_product(5);
    lemma_find_listed_product(6);
    lemma_find_listed_product(7);
    lemma_find_listed_product(8);
    lemma_find_listed_product(9);
    lemma_find_listed_product(10);
    lemma_find_listed_product(11);
}

/// The catalogue lists these five category slugs in this order, and looking
/// each one up gives a category with this name, description and count.
pub proof fn lemma_category_table()
    ensures
        catalog_categories().len() == 5,
        catalog_categories()[0].slug@ == "all"@,
        catalog_categories()[1].slug@ == "fasteners"@,
        catalog_categories()[2].slug@ == "electrical"@,
        catalog_categories()[3].slug@ == "material-handling"@,
        catalog_categories()[4].slug@ == "safety"@,
        spec_find_category(Some("all"@)).name@ == "All Products"@,
        spec_find_category(Some("all"@)).description@ == "Search the complete stocked catalog across mechanical, electrical, material handling, and safety supplies."@,
        spec_find_category(Some("all"@)).count == 12,
        spec_find_category(Some("fasteners"@)).name@ == "Fasteners"@,
        spec_find_category(Some("fasteners"@)).description@ == "Bolts, screws, nuts, washers, and threaded hardware for production and maintenance work."@,
        spec_find_category(Some("fasteners"@)).count == 4,
        spec_find_category(Some("electrical"@)).name@ == "Electrical"@,
        spec_find_category(Some("electrical"@)).description@ == "Industrial connectors, enclosures, cable management, and control components."@,
        spec_find_category(Some("electrical"@)).count == 3,
        spec_find_category(Some("material-handling"@)).name@ == "Material Handling"@,
        spec_find_category(Some("material-handling"@)).description@ == "Casters, carts, lifting hardware, and warehouse equipment for moving heavy loads."@,
        spec_find_category(Some("material-handling"@)).count == 3,
        spec_find_category(Some("safety"@)).name@ == "Safety"@,
        spec_find_category(Some("safety"@)).description@ == "Protective equipment and facility controls for safer industrial operations."@,
        spec_find_category(Some("safety"@)).count == 2,
{
    lemma_find_listed_category(0);
    lemma_find_listed_category(1);
    lemma_find_listed_category(2);
    lemma_find_listed_category(3);
    lemma_find_listed_category(4);
}

/// The slug, label and expected time that each mode shows.
pub proof fn lemma_mode_texts()
    ensures
        mode_slug(RenderMode::Sequential) == "sequential"@,
        mode_slug(RenderMode::Concurrent) == "concurrent"@,
        mode_slug(RenderMode::Streaming) == "streaming"@,
        mode_label(RenderMode::Sequential) == "Sequential"@,
        mode_label(RenderMode::Concurrent) == "Concurrent SSR"@,
        mode_label(RenderMode::Streaming) == "ShellView"@,
        mode_expected(RenderMode::Sequential) == "about 1.8 s"@,
        mode_expected(RenderMode::Concurrent) == "about 550 ms"@,
        mode_expected(RenderMode::Streaming) == "shell immediately"@,
        mode_from_query(None) == RenderMode::Streaming,
{
}

/// A slug that names no listed category, or no slug at all, gives the
/// fasteners category.
pub proof fn lemma_unknown_slug_gives_fasteners(slug: Option<Seq<char>>)
    requires
        slug matches Some(s) ==> forall|k: int|
            0 <= k < catalog_categories().len() ==> #[trigger] catalog_categories()[k].slug@ != s,
    ensures
        spec_find_category(slug).slug@ == "fasteners"@,
{
    if let Some(s) = slug {
        lemma_no_category_from(catalog_categories(), s, 0);
    }
}

proof fn lemma_no_category_from(cats: Seq<Category>, slug: Seq<char>, i: int)
    requires
        0 <= i,
        forall|k: int| 0 <= k < cats.len() ==> #[trigger] cats[k].slug@ != slug,
    ensures
        category_with_slug_from(cats, slug, i) is None,
    decreases cats.len() - i,
{
    if i < cats.len() {
        lemma_no_category_from(cats, slug, i + 1);
    }
}

/// A preloaded request counts as a hover preload whether or not htmx boosted
/// it; otherwise a boosted one counts as htmx boosted, any other as a full
/// navigation.
pub proof fn lemma_request_kinds(boosted: bool)
    ensures
        spec_request_kind(true, boosted) == "hover preload"@,
        spec_request_kind(false, true) == "htmx boosted"@,
        spec_request_kind(false, false) == "full navigation"@,
{
}

/// The menu and sidebar entries of the active item differ from the others:
/// the active one is highlighted.
pub proof fn lemma_active_classes()
    ensures
        spec_mode_item_class(true) == "block rounded-lg bg-slate-950 px-3 py-3 text-white"@,
        spec_mode_item_class(false)
            == "block rounded-lg px-3 py-3 text-slate-700 hover:bg-slate-100"@,
        spec_category_link_class(true)
            == "flex items-center justify-between rounded-md bg-amber-100 px-3 py-2.5 text-sm text-slate-950 ring-1 ring-amber-300"@,
        spec_category_link_class(false)
            == "flex items-center justify-between rounded-md px-3 py-2.5 text-sm text-slate-700 hover:bg-slate-100"@,
{
}

/// Lower-casing keeps the length, turns each ASCII capital into the matching
/// small letter, leaves every other character as it is, and leaves no ASCII
/// capital behind.
pub proof fn lemma_lowercasing(s: Seq<char>)
    ensures
        lower_seq(s).len() == s.len(),
        forall|i: int|
            0 <= i < s.len() && 'A' <= s[i] && s[i] <= 'Z' ==> (#[trigger] lower_seq(s)[i]) as u32
                == (s[i] as u32) + 32,
        forall|i: int|
            0 <= i < s.len() && !('A' <= s[i] && s[i] <= 'Z') ==> #[trigger] lower_seq(s)[i]
                == s[i],
        forall|i: int|
            0 <= i < s.len() ==> !('A' <= #[trigger] lower_seq(s)[i] && lower_seq(s)[i] <= 'Z'),
{
}

/// After its mode value, a product link carries the category's slug and
/// then the product's SKU, each under its own parameter.
pub proof fn lemma_product_link_parameters(mode: RenderMode, category: Category, product: Product)
    ensures
        ({
            let url = spec_product_href(mode, category, product);
            exists|k: int|
                #![trigger url.skip(k)]
                7 <= k < url.len() && url[k] == '&' && (forall|j: int|
                    7 <= j < k ==> url[j] != '&') && url.skip(k) == "&category="@ + category.slug@
                    + "&product="@ + product.sku@
        }),
{
    reveal_strlit("&category=");
    reveal_strlit("/?mode=");
    let url = spec_product_href(mode, category, product);
    let rest = "&category="@ + category.slug@ + "&product="@ + product.sku@;
    let k: int = 7 + mode_slug(mode).len() as int;
    lemma_slug_has_no_ampersand(mode);
    assert(url =~= "/?mode="@ + mode_slug(mode) + rest);
    assert(url.skip(k) =~= rest);
    assert(url[k] == rest[0]);
    assert forall|j: int| 7 <= j < k implies url[j] != '&' by {
        assert(url[j] == mode_slug(mode)[j - 7]);
    }
}

} // verus!
