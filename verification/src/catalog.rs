//! The catalogue: its categories and products, and lookup by slug and SKU.
use vstd::prelude::*;

use crate::text::{opt_view, str_equal};

verus! {

/// A browsable section of the catalogue.
#[derive(Clone, Copy, PartialEq, Eq)]
pub struct Category {
    pub slug: &'static str,
    pub name: &'static str,
    pub description: &'static str,
    pub count: usize,
}

/// A stocked item of the catalogue.
#[derive(Clone, Copy)]
pub struct Product {
    pub category: &'static str,
    pub sku: &'static str,
    pub name: &'static str,
    pub specification: &'static str,
    pub price: &'static str,
    pub unit: &'static str,
    pub stock: usize,
    pub delay_ms: u64,
}

/// The categories of the catalogue, in display order; the first one stands
/// for the whole catalogue.
pub open spec fn catalog_categories() -> Seq<Category> {
    seq![
        Category {
            slug: "all",
            name: "All Products",
            description: "Search the complete stocked catalog across mechanical, electrical, material handling, and safety supplies.",
            count: 12,
        },
        Category {
            slug: "fasteners",
            name: "Fasteners",
            description: "Bolts, screws, nuts, washers, and threaded hardware for production and maintenance work.",
            count: 4,
        },
        Category {
            slug: "electrical",
            name: "Electrical",
            description: "Industrial connectors, enclosures, cable management, and control components.",
            count: 3,
        },
        Category {
            slug: "material-handling",
            name: "Material Handling",
            description: "Casters, carts, lifting hardware, and warehouse equipment for moving heavy loads.",
            count: 3,
        },
        Category {
            slug: "safety",
            name: "Safety",
            description: "Protective equipment and facility controls for safer industrial operations.",
            count: 2,
        },
    ]
}

/// The products of the catalogue, in display order.
pub open spec fn catalog_products() -> Seq<Product> {
    seq![
        Product {
            category: "fasteners",
            sku: "91257A540",
            name: "Grade 8 Hex Head Screw",
            specification: "Zinc-plated steel, 3/8\"-16 thread, 2\" long",
            price: "$12.80",
            unit: "pack",
            stock: 184,
            delay_ms: 160,
        },
        Product {
            category: "fasteners",
            sku: "90322A194",
            name: "Nylon-Insert Locknut",
            specification: "Zinc-plated steel, 3/8\"-16 thread size",
            price: "$8.45",
            unit: "pack",
            stock: 326,
            delay_ms: 220,
        },
        Product {
            category: "fasteners",
            sku: "92141A029",
            name: "Oversized Flat Washer",
            specification: "18-8 stainless steel, 3/8\" screw size",
            price: "$6.18",
            unit: "pack",
            stock: 91,
            delay_ms: 280,
        },
        Product {
            category: "fasteners",
            sku: "92383A824",
            name: "Thread-Locking Socket Screw",
            specification: "Alloy steel, 1/4\"-20 thread, 1-1/4\" long",
            price: "$15.62",
            unit: "pack",
            stock: 74,
            delay_ms: 190,
        },
        Product {
            category: "electrical",
            sku: "7566K42",
            name: "Watertight Cord Grip",
            specification: "Nylon body, 1/2 NPT, 0.24\"-0.47\" cable",
            price: "$7.92",
            unit: "each",
            stock: 208,
            delay_ms: 170,
        },
        Product {
            category: "electrical",
            sku: "7304K114",
            name: "DIN-Rail Terminal Block",
            specification: "600 V AC/DC, 30 A, 10 AWG maximum wire",
            price: "$24.10",
            unit: "pack",
            stock: 147,
            delay_ms: 240,
        },
        Product {
            category: "electrical",
            sku: "7727K18",
            name: "Polycarbonate Enclosure",
            specification: "NEMA 4X, 8\" x 6\" x 4\", clear cover",
            price: "$38.75",
            unit: "each",
            stock: 63,
            delay_ms: 210,
        },
        Product {
            category: "material-handling",
            sku: "2415T38",
            name: "Swivel Plate Caster",
            specification: "Polyurethane wheel, 5\" diameter, 700 lb capacity",
            price: "$42.60",
            unit: "each",
            stock: 118,
            delay_ms: 180,
        },
        Product {
            category: "material-handling",
            sku: "2492T17",
            name: "Low-Profile Platform Truck",
            specification: "Steel deck, 2,000 lb capacity, 48\" x 24\"",
            price: "$486.00",
            unit: "each",
            stock: 12,
            delay_ms: 260,
        },
        Product {
            category: "material-handling",
            sku: "3031T22",
            name: "Web Sling",
            specification: "Eye-and-eye, 2\" wide, 6 ft long, 3,200 lb capacity",
            price: "$31.40",
            unit: "each",
            stock: 86,
            delay_ms: 200,
        },
        Product {
            category: "safety",
            sku: "5450T14",
            name: "Anti-Fog Safety Glasses",
            specification: "Clear polycarbonate lens, ANSI Z87.1+",
            price: "$9.85",
            unit: "pair",
            stock: 412,
            delay_ms: 150,
        },
        Product {
            category: "safety",
            sku: "5924T31",
            name: "Lockout Station",
            specification: "Wall mount, stocked for 10 workers",
            price: "$214.00",
            unit: "each",
            stock: 28,
            delay_ms: 230,
        },
    ]
}

/// The categories of the catalogue, in display order.
pub fn categories() -> (r: [Category; 5])
    ensures
        r@ == catalog_categories(),
{
    [
        Category {
            slug: "all",
            name: "All Products",
            description: "Search the complete stocked catalog across mechanical, electrical, material handling, and safety supplies.",
            count: 12,
        },
        Category {
            slug: "fasteners",
            name: "Fasteners",
            description: "Bolts, screws, nuts, washers, and threaded hardware for production and maintenance work.",
            count: 4,
        },
        Category {
            slug: "electrical",
            name: "Electrical",
            description: "Industrial connectors, enclosures, cable management, and control components.",
            count: 3,
        },
        Category {
            slug: "material-handling",
            name: "Material Handling",
            description: "Casters, carts, lifting hardware, and warehouse equipment for moving heavy loads.",
            count: 3,
        },
        Category {
            slug: "safety",
            name: "Safety",
            description: "Protective equipment and facility controls for safer industrial operations.",
            count: 2,
        },
    ]
}

/// The products of the catalogue, in display order.
pub fn products() -> (r: [Product; 12])
    ensures
        r@ == catalog_products(),
{
    [
        Product {
            category: "fasteners",
            sku: "91257A540",
            name: "Grade 8 Hex Head Screw",
            specification: "Zinc-plated steel, 3/8\"-16 thread, 2\" long",
            price: "$12.80",
            unit: "pack",
            stock: 184,
            delay_ms: 160,
        },
        Product {
            category: "fasteners",
            sku: "90322A194",
            name: "Nylon-Insert Locknut",
            specification: "Zinc-plated steel, 3/8\"-16 thread size",
            price: "$8.45",
            unit: "pack",
            stock: 326,
            delay_ms: 220,
        },
        Product {
            category: "fasteners",
            sku: "92141A029",
            name: "Oversized Flat Washer",
            specification: "18-8 stainless steel, 3/8\" screw size",
            price: "$6.18",
            unit: "pack",
            stock: 91,
            delay_ms: 280,
        },
        Product {
            category: "fasteners",
            sku: "92383A824",
            name: "Thread-Locking Socket Screw",
            specification: "Alloy steel, 1/4\"-20 thread, 1-1/4\" long",
            price: "$15.62",
            unit: "pack",
            stock: 74,
            delay_ms: 190,
        },
        Product {
            category: "electrical",
            sku: "7566K42",
            name: "Watertight Cord Grip",
            specification: "Nylon body, 1/2 NPT, 0.24\"-0.47\" cable",
            price: "$7.92",
            unit: "each",
            stock: 208,
            delay_ms: 170,
        },
        Product {
            category: "electrical",
            sku: "7304K114",
            name: "DIN-Rail Terminal Block",
            specification: "600 V AC/DC, 30 A, 10 AWG maximum wire",
            price: "$24.10",
            unit: "pack",
            stock: 147,
            delay_ms: 240,
        },
        Product {
            category: "electrical",
            sku: "7727K18",
            name: "Polycarbonate Enclosure",
            specification: "NEMA 4X, 8\" x 6\" x 4\", clear cover",
            price: "$38.75",
            unit: "each",
            stock: 63,
            delay_ms: 210,
        },
        Product {
            category: "material-handling",
            sku: "2415T38",
            name: "Swivel Plate Caster",
            specification: "Polyurethane wheel, 5\" diameter, 700 lb capacity",
            price: "$42.60",
            unit: "each",
            stock: 118,
            delay_ms: 180,
        },
        Product {
            category: "material-handling",
            sku: "2492T17",
            name: "Low-Profile Platform Truck",
            specification: "Steel deck, 2,000 lb capacity, 48\" x 24\"",
            price: "$486.00",
            unit: "each",
            stock: 12,
            delay_ms: 260,
        },
        Product {
            category: "material-handling",
            sku: "3031T22",
            name: "Web Sling",
            specification: "Eye-and-eye, 2\" wide, 6 ft long, 3,200 lb capacity",
            price: "$31.40",
            unit: "each",
            stock: 86,
            delay_ms: 200,
        },
        Product {
            category: "safety",
            sku: "5450T14",
            name: "Anti-Fog Safety Glasses",
            specification: "Clear polycarbonate lens, ANSI Z87.1+",
            price: "$9.85",
            unit: "pair",
            stock: 412,
            delay_ms: 150,
        },
        Product {
            category: "safety",
            sku: "5924T31",
            name: "Lockout Station",
            specification: "Wall mount, stocked for 10 workers",
            price: "$214.00",
            unit: "each",
            stock: 28,
            delay_ms: 230,
        },
    ]
}

/// The first category at position `i` or later whose slug is `slug`.
pub open spec fn category_with_slug_from(cats: Seq<Category>, slug: Seq<char>, i: int) -> Option<
    Category,
>
    decreases cats.len() - i,
{
    if i < 0 || i >= cats.len() {
        None
    } else if cats[i].slug@ == slug {
        Some(cats[i])
    } else {
        category_with_slug_from(cats, slug, i + 1)
    }
}

/// The category that stands for the whole catalogue.
pub open spec fn spec_all_category() -> Category {
    catalog_categories()[0]
}

/// The category shown when none, or an unknown one, is asked for.
pub open spec fn default_category() -> Category {
    catalog_categories()[1]
}

/// The category that a request names by its slug: the first listed category
/// with that slug, or the default category when there is none or no slug.
pub open spec fn spec_find_category(slug: Option<Seq<char>>) -> Category {
    match slug {
        Some(s) => match category_with_slug_from(catalog_categories(), s, 0) {
            Some(c) => c,
            None => default_category(),
        },
        None => default_category(),
    }
}

/// The first product at position `i` or later whose SKU is `sku`.
pub open spec fn product_with_sku_from(ps: Seq<Product>, sku: Seq<char>, i: int) -> Option<Product>
    decreases ps.len() - i,
{
    if i < 0 || i >= ps.len() {
        None
    } else if ps[i].sku@ == sku {
        Some(ps[i])
    } else {
        product_with_sku_from(ps, sku, i + 1)
    }
}

/// The product that a request names by its SKU, if the catalogue has one.
pub open spec fn spec_find_product(sku: Seq<char>) -> Option<Product> {
    product_with_sku_from(catalog_products(), sku, 0)
}

/// The category that stands for the whole catalogue.
pub fn all_category() -> (r: Category)
    ensures
        r == spec_all_category(),
{
    categories()[0]
}

/// Looks up a category by slug; an absent or unknown slug gives the default
/// category.
pub fn find_category(slug: Option<&str>) -> (r: Category)
    ensures
        r == spec_find_category(opt_view(slug)),
{
    let cats = categories();
    match slug {
        None => cats[1],
        Some(s) => {
            let mut i: usize = 0;
            while i < 5
                invariant
                    cats@ == catalog_categories(),
                    opt_view(slug) == Some(s@),
                    i <= 5,
                    category_with_slug_from(cats@, s@, 0) == category_with_slug_from(
                        cats@,
                        s@,
                        i as int,
                    ),
                decreases 5 - i,
            {
                if str_equal(cats[i].slug, s) {
                    return cats[i];
                }
                i = i + 1;
            }
            cats[1]
        },
    }
}

/// Looks up a product by SKU.
pub fn find_product(sku: &str) -> (r: Option<Product>)
    ensures
        r == spec_find_product(sku@),
{
    let ps = products();
    let mut i: usize = 0;
    while i < 12
        invariant
            ps@ == catalog_products(),
            i <= 12,
            product_with_sku_from(ps@, sku@, 0) == product_with_sku_from(ps@, sku@, i as int),
        decreases 12 - i,
    {
        if str_equal(ps[i].sku, sku) {
            return Some(ps[i]);
        }
        i = i + 1;
    }
    None
}

} // verus!
