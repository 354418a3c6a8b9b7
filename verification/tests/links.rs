use kitchen_sink_demo::catalog::{categories, find_category, find_product, products};
use kitchen_sink_demo::links::{catalog_href, mode_href, product_href, product_suggestions, suggestions_url};
use kitchen_sink_demo::mode::RenderMode;
use kitchen_sink_demo::page::{category_link_class, mode_item_class, request_kind, route_catalog, CatalogPage};

#[test]
fn mode_from_query_values() {
    assert_eq!(RenderMode::from_query(Some("sequential")), RenderMode::Sequential);
    assert_eq!(RenderMode::from_query(Some("concurrent")), RenderMode::Concurrent);
    assert_eq!(RenderMode::from_query(Some("streaming")), RenderMode::Streaming);
    assert_eq!(RenderMode::from_query(Some("Sequential")), RenderMode::Streaming);
    assert_eq!(RenderMode::from_query(Some("")), RenderMode::Streaming);
    assert_eq!(RenderMode::from_query(None), RenderMode::Streaming);
}

#[test]
fn mode_texts() {
    assert_eq!(RenderMode::Sequential.slug(), "sequential");
    assert_eq!(RenderMode::Concurrent.slug(), "concurrent");
    assert_eq!(RenderMode::Streaming.slug(), "streaming");
    assert_eq!(RenderMode::Sequential.label(), "Sequential");
    assert_eq!(RenderMode::Concurrent.label(), "Concurrent SSR");
    assert_eq!(RenderMode::Streaming.label(), "ShellView");
    assert_eq!(RenderMode::Sequential.expected(), "about 1.8 s");
    assert_eq!(RenderMode::Concurrent.expected(), "about 550 ms");
    assert_eq!(RenderMode::Streaming.expected(), "shell immediately");
}

#[test]
fn mode_slug_round_trip() {
    for m in [RenderMode::Sequential, RenderMode::Concurrent, RenderMode::Streaming] {
        assert_eq!(RenderMode::from_query(Some(m.slug())), m);
    }
}

#[test]
fn catalog_links() {
    let electrical = find_category(Some("electrical"));
    assert_eq!(mode_href(RenderMode::Concurrent, electrical), "/?mode=concurrent&category=electrical");
    assert_eq!(catalog_href(RenderMode::Sequential, categories()[0]), "/?mode=sequential&category=all");
}

#[test]
fn product_links() {
    let p = find_product("2415T38").unwrap();
    let c = find_category(Some(p.category));
    let href = product_href(RenderMode::Streaming, c, p);
    assert_eq!(href, "/?mode=streaming&category=material-handling&product=2415T38");
    assert_eq!(href, format!("{}&product={}", catalog_href(RenderMode::Streaming, c), p.sku));
}

#[test]
fn suggestions_endpoint() {
    assert_eq!(suggestions_url(RenderMode::Streaming), "/api/suggestions?mode=streaming");
    assert_eq!(suggestions_url(RenderMode::Sequential), "/api/suggestions?mode=sequential");
}

#[test]
fn suggestions_cover_every_product() {
    let s = product_suggestions(RenderMode::Concurrent);
    let ps = products();
    assert_eq!(s.len(), 12);
    for (i, sug) in s.iter().enumerate() {
        assert_eq!(sug.name, ps[i].name);
        assert_eq!(sug.sku, ps[i].sku);
        assert_eq!(sug.specification, ps[i].specification);
        assert_eq!(
            sug.href,
            format!("/?mode=concurrent&category={}&product={}", ps[i].category, ps[i].sku)
        );
    }
    assert_eq!(s[0].href, "/?mode=concurrent&category=fasteners&product=91257A540");
}

#[test]
fn menu_and_sidebar_classes() {
    assert_eq!(mode_item_class(true), "block rounded-lg bg-slate-950 px-3 py-3 text-white");
    assert_eq!(mode_item_class(false), "block rounded-lg px-3 py-3 text-slate-700 hover:bg-slate-100");
    assert!(category_link_class(true).contains("bg-amber-100"));
    assert_eq!(
        category_link_class(false),
        "flex items-center justify-between rounded-md px-3 py-2.5 text-sm text-slate-700 hover:bg-slate-100"
    );
}

#[test]
fn request_kinds() {
    assert_eq!(request_kind(true, true), "hover preload");
    assert_eq!(request_kind(true, false), "hover preload");
    assert_eq!(request_kind(false, true), "htmx boosted");
    assert_eq!(request_kind(false, false), "full navigation");
}

#[test]
fn route_to_product_page() {
    let r = route_catalog(Some("sequential"), Some("safety"), Some("5924T31"));
    assert_eq!(r.mode, RenderMode::Sequential);
    assert_eq!(r.category.slug, "safety");
    match r.page {
        CatalogPage::ProductDetail(p) => assert_eq!(p.name, "Lockout Station"),
        CatalogPage::Listing(_) => panic!("expected the product page"),
    }
}

#[test]
fn route_to_listing() {
    let r = route_catalog(Some("concurrent"), None, Some("unknown"));
    assert_eq!(r.category.slug, "fasteners");
    assert!(matches!(r.page, CatalogPage::Listing(RenderMode::Concurrent)));
    let r = route_catalog(None, Some("all"), None);
    assert_eq!(r.mode, RenderMode::Streaming);
    assert!(matches!(r.page, CatalogPage::Listing(RenderMode::Streaming)));
}

#[test]
fn product_link_round_trip() {
    for m in [RenderMode::Sequential, RenderMode::Concurrent, RenderMode::Streaming] {
        for p in products() {
            let c = find_category(Some(p.category));
            let r = route_catalog(Some(m.slug()), Some(c.slug), Some(p.sku));
            assert_eq!(r.mode, m);
            assert!(r.category == c);
            match r.page {
                CatalogPage::ProductDetail(found) => assert_eq!(found.sku, p.sku),
                CatalogPage::Listing(_) => panic!("expected the product page"),
            }
        }
    }
}

#[test]
fn typeahead_starts_from_the_search() {
    let props = kitchen_sink_demo::links::typeahead_props(RenderMode::Streaming, "valve");
    assert_eq!(props.initial_value, "valve");
    assert_eq!(props.suggestions_url, "/api/suggestions?mode=streaming");
}
