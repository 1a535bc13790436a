# trendfollowing

A crypto trend-following tool: it keeps the list of perpetual futures
contracts and their daily candles in PostgreSQL, fetches new candles from
the exchange, serves the contract list over HTTP and shows it in a web page.

- `src/` is the verified library: reading candles out of the exchange's
  answers and choosing which to store, the request addresses, the database
  check and setup procedures (as a session that decides each next step),
  the command line, the error messages and the click counter of the page.
- `app/` holds the programs around it: the maintenance tool, the updater,
  the HTTP server and the web interface, with their database, network and
  terminal input and output.
- `tests/` runs the library on concrete values.
