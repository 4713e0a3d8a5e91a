# arbscan

Verified core of a scanner for triangular arbitrage between a token, BTC and
USDT on one exchange.

- `src/` is the library, verified with Verus:
  - `stream.rs`: routing of book-ticker messages to the three order books,
    the rule for when the arbitrage calculation runs, the decisions of the
    stream loop, and the stream address;
  - `symbols.rs`: the three trading pairs of a token and the trading
    parameters read from their settings;
  - `basic.rs`: clock readings since the Unix epoch and opportunity
    identifiers (MD5 in lower-case hexadecimal);
  - `text.rs`: splitting, suffix tests and upper-casing of strings.
- `app/` is the program around it: reading the settings file, the websocket
  connection, and the floating-point price arithmetic.
- `tests/` exercises the library on concrete inputs.
