# streaksaver

A bot that works through a language course in a browser, answering each question from a
store of questions and answers and keeping in the store every question it meets with the
answer it learns.

- `src/` is the verified library: how the page is examined and classified
  (`webdriver::get_state`), how questions are answered and corrections read
  (`webdriver::questions`), how signing in is judged (`webdriver::signin`), what the bot
  does for each state of the page and what it writes to the store (`run`), and the text
  operations these rest on (`text`).
- `app/` drives the browser (thirtyfour_sync), the SQLite store (diesel) and the clock,
  handing what it sees to the library and doing what the library decides.

Configuration, read by `app/`: `DATABASE_URL`, `DRIVER_URL` (default
`http://localhost:4444`), `CHROME_PATH`, `HEADLESS`, `DUOLINGO_USERNAME`,
`DUOLINGO_PASSWORD`, `RUST_LOG`.
