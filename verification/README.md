# simulador

Verified core of the front ends of a hydrographic survey simulator: a web
client in which students plan survey paths and run simulations, teachers
manage projects and students, and an administration command line that creates
teacher accounts.

- `src/` is the library, verified with Verus: text and numeral handling
  (`text`, `numeral`), JSON request bodies (`json`), the command line's
  commands and requests (`cli`), the client's requests, response handling and
  session storage (`api`), page access rules (`access`), delivery of attempts
  (`delivery`), attempt limits (`attempts`), form checks (`forms`), record
  lists (`records`), presentation choices (`views`) and survey settings
  (`survey`).
- `app/` is the command line program (arguments, prompt, HTTP through
  reqwest) and the browser glue of the web client (local storage, `fetch`,
  and the parsing of decimal form fields, which the library does not hold).
- `tests/` runs the library on concrete values.
