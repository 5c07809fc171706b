# blog

The logic of a small blog server, written in Verus and verified.

- `src/` is the verified library: timestamps and spans (`time`), cache
  records and their expiry (`cache`), paths of uploads (`resource`) and the
  purge of orphaned uploads (`cleanup`), visitor sessions and permits
  (`visitor`), failed attempts and bans (`failed_attempts`), the page and
  feed view models (`article`), the configuration model (`config`), the
  choices behind Markdown rendering (`markdown`) and the database (`db`),
  and the text helpers they share (`path`, `text`).
- `app/` is the server side around it: configuration loading, the cache
  backend, SQLite, Markdown rendering with comrak and syntect, templates
  with tera, and the scheduled clean-ups.
- `tests/` exercises the library on concrete values.
