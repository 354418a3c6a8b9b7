use kitchen_sink_demo::catalog::{all_category, categories, find_category, find_product, products};
use kitchen_sink_demo::mode::RenderMode;
use kitchen_sink_demo::search::matching_products;

fn skus(found: &[kitchen_sink_demo::catalog::Product]) -> Vec<&'static str> {
    found.iter().map(|p| p.sku).collect()
}

#[test]
fn categories_are_listed_in_order() {
    let cats = categories();
    let slugs: Vec<&str> = cats.iter().map(|c| c.slug).collect();
    assert_eq!(slugs, vec!["all", "fasteners", "electrical", "material-handling", "safety"]);
    assert_eq!(cats[0].name, "All Products");
    assert_eq!(cats[0].count, 12);
    assert_eq!(cats[3].name, "Material Handling");
}

#[test]
fn products_are_listed_in_order() {
    let ps = products();
    assert_eq!(ps.len(), 12);
    assert_eq!(ps[0].sku, "91257A540");
    assert_eq!(ps[0].name, "Grade 8 Hex Head Screw");
    assert_eq!(ps[0].specification, "Zinc-plated steel, 3/8\"-16 thread, 2\" long");
    assert_eq!(ps[0].price, "$12.80");
    assert_eq!(ps[0].stock, 184);
    assert_eq!(ps[0].delay_ms, 160);
    assert_eq!(ps[11].sku, "5924T31");
    assert_eq!(ps[11].unit, "each");
}

#[test]
fn all_category_is_the_first() {
    let all = all_category();
    assert_eq!(all.slug, "all");
    assert!(all == categories()[0]);
}

#[test]
fn find_category_by_slug() {
    assert!(find_category(Some("electrical")) == categories()[2]);
    assert!(find_category(Some("all")) == categories()[0]);
    assert!(find_category(Some("safety")) == categories()[4]);
}

#[test]
fn find_category_defaults_to_fasteners() {
    assert_eq!(find_category(None).slug, "fasteners");
    assert_eq!(find_category(Some("garden")).slug, "fasteners");
    assert_eq!(find_category(Some("Electrical")).slug, "fasteners");
    assert_eq!(find_category(Some("")).slug, "fasteners");
}

#[test]
fn every_listed_slug_finds_its_category() {
    for c in categories() {
        assert!(find_category(Some(c.slug)) == c);
    }
}

#[test]
fn find_product_by_sku() {
    let p = find_product("7566K42").unwrap();
    assert_eq!(p.name, "Watertight Cord Grip");
    assert_eq!(p.category, "electrical");
    assert!(find_product("7566k42").is_none());
    assert!(find_product("").is_none());
    assert!(find_product("91257A54").is_none());
}

#[test]
fn every_listed_sku_finds_its_product() {
    for p in products() {
        assert_eq!(find_product(p.sku).unwrap().sku, p.sku);
    }
}

#[test]
fn every_product_category_is_listed() {
    for p in products() {
        assert_eq!(find_category(Some(p.category)).slug, p.category);
    }
}

#[test]
fn category_counts_match_listings() {
    for c in categories() {
        assert_eq!(matching_products(c, None).len(), c.count);
    }
}

#[test]
fn all_category_lists_every_product() {
    let found = matching_products(all_category(), None);
    assert_eq!(skus(&found), skus(&products()));
}

#[test]
fn listing_of_a_category() {
    let found = matching_products(find_category(Some("safety")), None);
    assert_eq!(skus(&found), vec!["5450T14", "5924T31"]);
}

#[test]
fn search_ignores_ascii_case() {
    let all = all_category();
    let upper = matching_products(all, Some("SCREW"));
    let lower = matching_products(all, Some("screw"));
    let mixed = matching_products(all, Some("sCrEw"));
    assert_eq!(skus(&upper), vec!["91257A540", "92141A029", "92383A824"]);
    assert_eq!(skus(&upper), skus(&lower));
    assert_eq!(skus(&upper), skus(&mixed));
}

#[test]
fn search_matches_name_specification_and_sku() {
    let all = all_category();
    assert_eq!(skus(&matching_products(all, Some("web sling"))), vec!["3031T22"]);
    assert_eq!(skus(&matching_products(all, Some("ansi z87"))), vec!["5450T14"]);
    assert_eq!(skus(&matching_products(all, Some("a540"))), vec!["91257A540"]);
    assert_eq!(skus(&matching_products(all, Some("t1"))), vec!["2492T17", "5450T14"]);
}

#[test]
fn search_within_a_category() {
    let electrical = find_category(Some("electrical"));
    assert!(matching_products(electrical, Some("zinc")).is_empty());
    let fasteners = find_category(Some("fasteners"));
    assert_eq!(matching_products(fasteners, Some("zinc")).len(), 2);
    assert!(matching_products(fasteners, Some("no such thing")).is_empty());
}

#[test]
fn empty_query_keeps_the_listing() {
    for c in categories() {
        assert_eq!(skus(&matching_products(c, Some(""))), skus(&matching_products(c, None)));
    }
}

#[test]
fn query_only_narrows_the_listing() {
    let c = find_category(Some("material-handling"));
    let without = skus(&matching_products(c, None));
    for sku in skus(&matching_products(c, Some("capacity"))) {
        assert!(without.contains(&sku));
    }
    assert_eq!(skus(&matching_products(c, Some("capacity"))), vec!["2415T38", "2492T17", "3031T22"]);
}

#[test]
fn non_ascii_query_is_matched_exactly() {
    assert!(matching_products(all_category(), Some("ÉACH")).is_empty());
    assert_eq!(RenderMode::from_query(Some("stréaming")), RenderMode::Streaming);
}
