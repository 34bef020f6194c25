# wordpress_panel

A local WordPress development panel: each project gets its own PHP container
behind a shared nginx, a shared database server per engine and version,
Mailpit, MinIO and Adminer, a `.test` domain, local certificates, snapshots,
clones, git worktrees, GitHub repositories and LocalWP imports.

## Layout

- `src/` is the verified library (Verus). It holds the panel's rules and
  computations, each with a contract proved by Verus: the project
  configuration and its normalisation, container plans and specs, nginx
  virtual hosts, port and loopback selection from `/proc/net/tcp`, group
  ordering, dump rotation and change detection, snapshot metadata and
  exclusions, slot search for clones and worktrees, branch validation,
  LocalWP import, GitHub deploy steps, and the messages the panel prints.
  Laws that span several operations are public proof functions (their names
  start with `law_`).
- `app/` is the program around the library: the command line, the D-Bus
  service, Docker (bollard), files, processes and the network. It asks the
  library what to do and does it.
- `tests/` runs the library on concrete values.
