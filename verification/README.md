# steam_cloud_files

A library for managing a game's Steam Cloud save files, written in Verus: every
function in `src/` carries a `requires`/`ensures` contract that Verus proves.

What it covers:

- the cloud save configuration of a game: its text form (`ufs_text`) and the
  binary form inside `appcache/appinfo.vdf` (`vdf`, `appinfo_writer`), with
  the text read back to what was written;
- where cloud files live on disk: root names and numbers, root overrides,
  path rewrites, file patterns, the local save folders of a game
  (`path_resolver`), and the base folder of each root on each operating
  system, from the environment variables it starts from (`root_paths`);
- the sync state of each file, local against cloud (`conflict`), the folder
  tree of a game's files (`file_tree`), file operations and the upload queue
  (`file_manager`), downloads (`downloader`) and backups (`backup`);
- what the Steam configuration files and the Steam store web pages report of
  games and files (`game_scanner`, `cdp_client`), symbolic links
  (`symlink_manager`), settings (`config`, `logger`) and the message
  catalogue (`i18n`).

Calls into other crates (SHA-1 digests, the clock, random ids, icon glyphs)
go through small trusted wrappers whose contracts say what those crates
document.

`app/` is a command-line program around the library: it reads and writes
files, keeps the settings file and prints results. `tests/` holds the tests.
