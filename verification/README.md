# podlet

Generates podman quadlet files from podman commands and compose files.

- `src/` is the library, verified with Verus. It decides which files a command line asks for, what
  they are called, where they go, what they hold, and in which order they are made.
  - `command` and `cli`: the arguments, the command line, and the files that it asks for
  - `podman` and `quadlet`: podman commands, quadlet files and their text
  - `compose`, `yaml` and `convert`: compose files, and the quadlet files that come of them
  - `image`, `path` and `text`: names of images, file paths, and text
  - `output` and `services`: generated files, where they go, and services that are in the way
  - `source` and `run`: where a compose file is read from, and a run of the program step by step
  - `failure`: what can go wrong, and what the user is told
- `app/` does the reading and writing. Which option becomes which setting of a section is up to the
  implementor of its `Settings` trait.
- `tests/` runs the library with the crates that it calls.
