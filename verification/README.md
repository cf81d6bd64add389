# taurigon

The verified core of a desktop tool that runs a rootless local web
development environment (MariaDB, PostgreSQL, Redis, an nginx proxy and
PHP-FPM containers) through Podman or Docker.

- `src/` is the library, verified with Verus. It decides everything that can
  be decided from plain values: the engine command lines, the container
  specifications of the services and the web layer, the nginx virtual hosts,
  the interpretation of engine output and of the system probes, the
  validation of project and database names, and the workflows (start, stop,
  remove, reload) as plans that a small runner steps through
  (`engine::plan`).
- `app/` is the desktop program around it: it spawns the engine CLI, touches
  the file system, keeps the SQLite records, runs pseudo terminals and
  exposes the commands to the UI shell. It performs the steps that the
  library's runner names and hands the outcomes back.
- `tests/` runs the library on concrete values.
