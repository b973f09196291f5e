# repeater_atlas

A catalogue of amateur-radio repeaters: their sites, the services each one
offers (FM, DMR, D-STAR, C4FM, APRS, SSB, AM), the links between them, the
organizations behind them, and the users who log in to keep a logbook.

The crate is verified with Verus.

- `src/` is the library, every function with a contract: frequencies and
  their display, the service model and how it is stored and read back, the
  service lists and the CHIRP channel export, the data-file loader's row
  decisions, sign-up and login checks, and the decisions of the web pages.
- `app/` is the program around it: the HTTP server, the PostgreSQL access,
  the page templates, geocoding over HTTP, and everything that computes with
  floating-point coordinates.
- `tests/` runs the library on concrete values.
