# webdriver-cdp

A W3C WebDriver server that drives Chrome through the Chrome DevTools
Protocol (CDP).

- `src/` is the verified library: the JSON model the server works on, the
  WebDriver errors and their responses, the framing and routing of CDP
  messages, the Chrome command line and DevTools addresses, locator
  strategies and their JavaScript, keyboard and pointer input, the actions
  API, sessions and their timeouts, cookies, scripts, window geometry,
  dialogs, the choice of Chrome (internal or external) and the `connect`
  command line. Every function carries a contract proved by Verus, and the
  `*_law` proof functions state the properties that hold across calls.
- `app/` is the server around it: the axum routes and handlers, the
  WebSocket connection to Chrome with its reader and writer tasks, the
  Chrome process, the Chrome for Testing download, and the `connect`
  subcommand. It sends what the library builds and answers what the library
  makes of the replies.
- `tests/` exercises the library on concrete values.

Environment: `PORT` (default 4444), `CHROME_DEBUG_PORT` (default 9222),
`HEADLESS` (`0`, `false` or `no` shows the window), `CHROME_BIN`.
