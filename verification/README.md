# yt_playlist_downloader

The verified core of a desktop playlist and comment downloader, written in
Verus. The library decides everything the downloader does that is not I/O,
and states it in `requires`/`ensures` contracts that Verus proves:

- `utils`, `files`: output formats, playlist ids, title metadata, folder
  names, file slugs and the names of downloaded files.
- `args`, `playlist`, `download`, `metadata`, `install`: the command lines
  handed to the downloader, the converter and the package installer, and
  the reading of the downloader's JSON listings.
- `batch`, `failure`: where the videos of a batch come from, which failed
  downloads are tried again, how failures are labelled, and the log lines.
- `install`: the steps that install the downloader (package installer,
  then a fetched release) as a state machine that `app/` drives.
- `escape`, `html`, `templates`, `export`: the comments page of a video, the
  playlist index page, and the JSON/CSV comment export.
- `search_path`: the program search path of the tool processes.
- `text`, `patterns`: character-level helpers and the calls into the
  `regex` crate.

Calls into outside crates (`regex`, `unicode-normalization`, `chrono`) and
two std calls stand behind small `#[verifier::external_body]` wrappers whose
doc comments say what their contracts claim.

`app/` is ordinary Rust around the library: it runs the tool processes,
reads and writes files, and turns JSON into the library's record types.
