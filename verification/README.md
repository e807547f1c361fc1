# Retrovert Player

Headless playback coordination for Retrovert hosts, verified with Verus.

- `src/` is the library. It keeps one player's decoder set current against an
  update channel and decides what is decoded: generations are activated all or
  nothing, at the mount/stop boundary, and a refused set falls back to the
  previous one. Every function states what it returns; `src/laws/` states what
  holds over any number of calls, such as that nothing loads while a song is
  mounted, or that a committed payload tree is a complete one.
- `tests/` runs the library against hosts whose disk and plugins are lists.
- `app/` is the desktop player around the library: the disk, the updater, the
  decoder plugins, the audio device and the command loop.

The library computes only. The catalog and the payload store hand their host a
step, such as extracting an archive or loading a set of libraries, and take
back what came of it, so the decisions are proved for every outcome.

Not proved, and stated where it is used: that `String::push` appends a
character, that cloning a `PathBuf` gives the same path, and that what
`zstd::stream::decode_all` decodes depends on the archive alone. Of the system
clock nothing is claimed.

MIT licensed.
