# updater

The compatibility-list updater of the emulator's website, as a verified
library (`src/`) and a thin program around it (`app/`).

The library holds the planning: which pages of the issue tracker to read,
what each issue becomes (status, title code, kind, image path), what to do
about its image, the skip list of failed downloads, the guard that keeps a
short list from replacing the saved one, the signed metadata address of a
game's image, the homebrew store hash check, and the statistics file. Its
contracts are proved by Verus.

The program does the network, disk and database work: HTTP requests, reading
and writing JSON and TOML files, the SQLite lookup of homebrew images, and
image resizing.
