# Warcraft Recorder

Records World of Warcraft sessions: it watches the combat logs, captures the
screen while an activity runs, keeps a library of the recordings and uploads
them to a guild's cloud.

- `src/` decides. It is a Verus library: every function states what it returns
  or changes, and every contract is proved. It does no I/O.
- `app/` performs. It owns the files, threads, child processes, connections and
  widgets, asks the library what comes next and reports what came of it.
- `tests/` runs the library on concrete sessions.

## How the two halves meet

Work outside the library runs as a machine in it: a value with a `start`, a
state that names the next step, and a `next` that takes the event which the
step led to. `config_write::ConfigWrite`, `transfer::Transfer`,
`access::AccessCheck`, `ffmpeg_run::FfmpegRun`, `child_watch::ChildRun`, the
jobs of `media_work` and the steps of `sequence` are such machines. The
coordinator's own operations return the effect to perform, such as a capture to
start or a job to hand over.

## What is proved

Contracts are stated over the views of the data: texts as sequences of
characters, lists as sequences, the coordinator as a record of its parts. What
holds over several operations stands as a public proof function beside them,
under a name that says it: a recording that ended is queued for saving
(`recordings`), only text that reached the disk replaces the settings
(`config_write`), the parts of an upload cover its file (`transfer`), encoded
names and credentials read back as they were (`encoding`), a row shows what was
set in it (`ui::rows`).

## What is trusted

Four items rest on code outside: appending a character to a `String`, sharing
an `Arc`, the debug form of a text, and the shape of a random UUID.
