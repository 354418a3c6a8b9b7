# kitchen_sink_demo

A product catalogue served in three rendering modes (sequential, concurrent,
streaming), written as a verified library with an unverified web front end.

- `src/` is the library, checked by Verus:
  - `text.rs`: ASCII case folding, text equality and substring search;
  - `catalog.rs`: the categories and products, and lookup by slug and SKU;
  - `mode.rs`: the rendering modes and how a query names them;
  - `search.rs`: the products of a category that answer a query;
  - `links.rs`: catalogue, product and suggestion links, typeahead data;
  - `page.rs`: request routing, request kind, navigation classes;
  - `laws.rs`: properties of the catalogue as a whole, proved.
- `app/` is the web front end: the page views (rendered with topcoat) and the
  serverless entry point.
- `tests/` runs the library on concrete values.
