# bookcli

Track your reading from the terminal: search Google Books (`book search <query>`)
and keep a local reading list (`book add <id> [--status read|reading|to-read]
[--started YYYY-MM-DD]`).

- `src/` is the library, verified with Verus: the model (`model`), the store
  seam with its in-memory and JSON-file repositories and the store location
  (`repository`), the search seam and the Google Books request building
  (`search`), and the command handlers with their output and date rules (`cli`).
- `app/` is the program around it: argument parsing, the HTTP client, reading
  and writing the JSON store file, the clock, and printing.
- `tests/` runs the library on concrete values.
