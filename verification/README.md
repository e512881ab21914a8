# game_sync

The decisions of a desktop application that keeps game saves in step with Google Drive, written
and proved in Verus.

A command of the application (load the dashboard, change a game, remove one, sign in, start a
game, ...) is a sequence of steps. A step names the one thing to do next; `advance` takes the
reply and gives the next step. The library does nothing to the world outside, so all of it can
be proved: every `advance` against its transition table, and every table against what a whole
run of the command is to come to.

| module      | what it holds                                                                |
|-------------|------------------------------------------------------------------------------|
| `protocol`  | replies, runs and traces, and what holds of every command                    |
| `model`     | games, settings and state, with their mathematical values                    |
| `text`      | the order of text, prefixes                                                  |
| `dashboard` | loading the dashboard, and the newest local change of each game              |
| `refresh`   | the end that most commands share                                             |
| `update`    | changing a game: the watcher, and the Drive folders to clean                 |
| `removal`   | removing a game, clearing Drive                                              |
| `login`     | signing in, and the work after it                                            |
| `launch`    | starting a game, switching its watching and its synchronisation              |
| `logo`      | thumbnails on Drive and their data URLs                                      |
| `task`      | the answers of commands that run in the background                           |
| `shell`     | starting the application, and its window                                     |

One thing is taken on trust: that `Engine::encode` of the `base64` crate, with the `STANDARD`
engine, returns the padded base64 text of its input (`logo::encode_standard`).

`app/` runs the steps and offers the commands to the user interface through Tauri. The disk,
Drive, the cloud and the process watcher stand behind its `Services` trait.
