# radio

An internet-radio desktop player: search radio-browser.info stations, play and
bookmark them, and show information on the artist being played (MusicBrainz,
Wikipedia, fanart.tv), cached locally.

- `src/` is the verified library: the station search address and bookmark
  marks (`tuner`), the bookmark and cache tables' statements and row handling
  (`bookmarks`), the MusicBrainz, fanart.tv and Wikipedia requests and answers
  (`musicbrainz`, `fanarttv`, `wikipedia`), the artist lookup state machine
  (`artist`), the player's pad-linking decision and the title events it passes on (`player`), and the
  string operations they share (`text`).
- `app/` is the program around it: the window commands, the HTTP, DNS, SQLite
  and gstreamer calls, and serde copies of the library's records.
- `tests/` runs the library on concrete values.
