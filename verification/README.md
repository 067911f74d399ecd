# hsharp

Verified parts of the H# toolchain, as a Verus library, and the `h#` program around them.

`src/` holds the library. Every function in it is verified against its contract, but for what is
taken on trust (see below).

| module | what it does |
| --- | --- |
| `ast` | the syntax tree |
| `calls`, `reachability`, `names` | which functions a program can reach from `main` |
| `htype`, `checker`, `infer` | the types of expressions, and what is reported of them |
| `typing_laws` | what holds of inference as a whole |
| `export` | the exported symbols of a module, their signatures and ABI types |
| `hlib` | how the manifest of an `.hlib` archive is shown, and the stub that binds it |
| `hlib_cmd` | the `.hlib` commands, as sessions that say which work is due |
| `session_laws` | what holds of the sessions as a whole |
| `cli`, `console` | the command line, its lines of output and how the docs are opened |
| `runtime` | the C sources of the runtime |
| `text` | joining, searching, decimal numbers, padding and prefixes |

Taken on trust are the contracts of two functions and a declaration. `export::quoted` calls the
`Debug` format of a string; `export::quoted_text` is the name of what that gives. `hlib::join_path`
calls `std::path::Path::join`. `std::path::PathBuf` is declared, and its values are carried unread.

What the type checker does with statements, casts and `match` arms is a parameter of inference, the
trait `infer::Semantics`. It promises nothing: the contracts say what inference does for every
reading that the answers follow.

`tests/` runs the library. `app/` is the program: it parses arguments, reads and writes files, paints
the lines, and performs the work that the sessions ask for. It needs the other crates of the H#
workspace and the handlers of the commands that are not about archives.
