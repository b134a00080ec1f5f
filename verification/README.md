# cord

The logic of a Discord Rich Presence bridge for editors, verified with Verus.

- `src/` is the verified library: status codes (`status`), text operations on the
  editor's strings (`text`, `number`), images and filetype entries (`assets`),
  the choice of Discord application (`client`), a session's settings (`config`),
  what a presence shows for a buffer (`presence`), how it is laid out as an
  activity (`activity`), the repository address read from a git configuration
  (`repository`), the session's state and its answer to each request
  (`session`), and properties across them (`laws`).
- `app/` is the C interface the editor plugin loads: it converts C values, keeps
  the session and the IPC connection to Discord, and performs the work the
  session decides on.
- `tests/` runs the library on concrete values.
