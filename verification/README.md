# hk

A tool for running hooks on files in a git repository, written in Verus.

- `src/` is the verified library:
  - `text`: replacing, searching and comparing strings, decimal numbers;
  - `paths`: joining paths;
  - `level`: log levels and filters, and parsing a filter's name;
  - `env`: settings computed from environment variables;
  - `logger`: which log records are taken, where they go, and how a line is laid out;
  - `settings`: the number of jobs;
  - `step`: which command a step runs, on which files, and its messages;
  - `git`: the stash of unstaged changes and the paths handed to git;
  - `cli`: the configuration written by `init`, the hook scripts written by `install`,
    and the outcome of `run pre-push`.
- `tests/` exercises the library on concrete values.
- `app/` is the program around the library: argument parsing, the environment,
  the `log` backend, git through `git2`, and running commands.
