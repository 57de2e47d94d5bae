# Tropical project manager

A terminal dashboard for the git repositories that stand side by side in one directory.
It lists them with their branch, their changes, their state on GitHub and how far they are
set up for signed commits, and it can create a project from a template and set up signing
everywhere at once.

- `src/` is the library, verified with Verus: the application's state and what events do to
  it, what is kept of a repository, how projects are ordered, what the screen holds, which
  request is sent to GitHub, which settings are written. Its public proof functions state
  what holds of the whole (`laws.rs`, and beside the functions they are about).
- `app/` is the program around it: the terminal, the repositories on disk, the network.
- `tests/` runs the library.

Keys: arrows or `j`/`k` to move, `r` to scan again, `c` to create a project, `g` to set the
signing key, `t` to test the remotes, `q` to quit. `TROPICAL_BRAND` picks the colours
(`mango`, `ocean`, `pitahaya`, `papaya`, `balandra`); `GITHUB_TOKEN` signs the requests to
GitHub.
