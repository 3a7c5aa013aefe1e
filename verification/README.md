# nenechi

Tools that organise a media server's library: Jellyfin series and movie
mounts made of symbolic links, anime downloads through Osaka and
JDownloader, series metadata from MyAnimeList, and a wallpaper index with
Pixiv tags.

## Layout

- `src/` is the library, written in Verus. It holds the rules of the tool:
  configuration checks, the names and places of every link and metadata
  file, episode recognition, link selection, download progress, retry
  decisions, search-query shortening, title matching, and the conversions
  of the records kept in SQLite. Each public function states its result in
  its contract, and the laws that relate several functions are proof
  functions next to them.
- `app/` is the command line around it: argument parsing, configuration
  files, HTTP requests, the file system, SQLite and logging. At every step it
  asks the library what to do and does it.
- `tests/` runs the library on concrete values.

Calls into `glob`, `regex`, `reqwest`'s header checks, `serde_json`, `uuid`,
`image` and a few std path and text functions are made from the library
through small trusted wrappers, each documented with what its contract
claims of the outside code.
