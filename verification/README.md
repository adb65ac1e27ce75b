# stockin_api

A small bookmark service: items with a title, an address and a preview
image, stored in PostgreSQL and served over HTTP, plus a query that reads the
title and the `og:image` of a web page.

- `src/` is the verified library (Verus):
  - `domain/id.rs`: identifiers, their text forms, and the laws that the
    stored text reads back as the identifier and sorts like it;
  - `domain/item.rs`: items and page requests (bound and page size);
  - `handler/item.rs`: the request flows of the item handlers as a state
    machine, with its laws (commit only after read-back, failures answer 500,
    missing items answer 404, every flow ends);
  - `handler/query.rs`: page information from HTML;
  - `handler/response.rs`, `handler/request.rs`: replies and rejections;
  - `repo/`: stored rows, their conversion to items, timestamps;
  - `seed.rs`: the bookmarks a fresh store starts with.
- `app/` is the server around it: routing, authentication, the SQL queries,
  the HTTP fetch and the JSON rendering. `stockin_api seed` fills a store.
- `tests/` runs the library on concrete values.
