# manga_epub

Packs manga chapters downloaded from scanlation sites into EPUB or CBZ books.

- `src/` is the library, verified with Verus: the EPUB text files (`files`),
  the assembly of an EPUB package volume by volume (`epub`, and its Kobo
  variant `kobo`), CBZ entry names (`cbz`), zero-padded decimals (`decimal`),
  the page layout and encoding of page images (`pages`, through the `image`
  crate), the reading of catalogue, manga and chapter pages of the supported
  sites (`provider`, through the `scraper` crate), small string operations
  (`text`) and the retry policy of downloads (`retry`).
- `app/` is the program around it: HTTP requests, concurrency, the ZIP
  archive on disk, random identifiers and the clock.
- `tests/` runs the library on concrete inputs.
