# ax_cli

`ax` manages a personal development environment from the command line:
custom shell commands, environment variables with tags that can be paused,
proxy variables, shell completion, a git-backed configuration directory that
can be pushed, pulled, exported and imported, and the installation of
packages, zsh, its plugins and a few tools.

The crate is written in Verus. `src/` is the library, verified against its
contracts; the only functions taken on trust are four one-call wrappers of
std (`String::push`, `char::is_whitespace`, `char::is_alphanumeric`,
`str::to_lowercase`) in `text`, whose contracts say what std documents.
The modules:

- `text`, `paths`, `strmap`: characters, byte lengths, `/`-separated paths (the
  program turns them into paths of its platform) and
  ordered string-keyed tables.
- `config`, `yaml`: the configuration, its defaults, the layers it is read
  from and how later layers are merged over earlier ones.
- `commands`, `env`, `ssh`, `listing`: custom commands, environment
  variables, saved SSH hosts, and the tables the listing commands print.
- `proxy`, `completion`, `install`, `setup`, `packages`, `detect`: the scripts,
  commands and decisions of the system-facing commands.
- `sync`, `archive`: pushing and pulling the configuration repository, and
  exporting and importing it as an archive.
- `cli`, `help`: the command line and its help texts in Chinese and English.
- `laws`: properties that span several functions.

`app/` is the program around it: argument parsing with clap, reading and
writing files, running git and the package managers.
