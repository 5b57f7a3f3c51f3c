# repo_metadata

Bookkeeping of git repository roots for a terminal, verified with Verus.

- `src/path.rs`: absolute paths as component sequences; lexical reading and
  writing of path text; local and remote path keys.
- `src/repositories.rs`: the registry of detected roots (`DetectedRepositories`):
  resolving a path to its nearest registered root, registering and removing
  roots, child-repository scans, and the decisions of repository detection.
- `src/detection.rs`: which directories an upward search probes, bare
  repository names, gitfile reading.
- `src/git_command.rs`: the arguments of a git invocation and how its result
  is judged.
- `src/settings.rs`: the code settings group.
- `src/text.rs`: trimming and prefix/suffix tests on text.
- `app/`: file-system access, running git, and the directory watcher.
