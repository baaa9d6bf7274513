# catalog

A bilingual (Arabic and English) catalogue of categories and products, served over HTTP.

- `src/` is the verified library: trimming and the form rules (`domain::*::dto`), the
  two-level category tree (`CategoryTree::build_tree`), avatar filters, the mapping of
  database errors to HTTP answers (`error`), and the decisions of the web pages (`web`).
- `app/` is the server around it: axum routes, sqlx queries, askama templates, logging.
  Its templates are read from `templates/` at build time.
- `tests/` exercises the library on concrete values.
