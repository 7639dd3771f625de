# agent_browser

The part of a browser command line tool that decides: where an Open Target leads, and what becomes
of the tool's own files. An Open Target is what a user asks to open: a web address, with or without
a scheme, a `file` URL or a path.

The library in `src/` is written in Verus. It asks nothing of the file system and changes nothing
there itself. Where it needs an answer or an action it hands out a question or an action, and takes
the answer; each step is proved against a description of what it has to be.

| module | what it holds |
| --- | --- |
| `resolution` | resolving an Open Target, step by step |
| `open_target` | the shape of targets, web addresses, `file` URLs, errors |
| `target_laws` | what holds of every target and every file system |
| `config` | the configuration, the tool's paths, errors |
| `config_files`, `token`, `log_file` | loading and saving the configuration, the API token, the log |
| `config_laws` | what holds of the files: what is saved is what is loaded |
| `urls` | the parts of URLs and the calls into the `url` crate |
| `path` | paths of the host, and the calls into `path_clean` and `dirs` |
| `clean` | clean paths: what `.` and `..` lead to |
| `text` | text as a sequence of characters |

The library is for Unix hosts: paths are bytes with `/` between the names, and a path as Windows
writes it is refused as foreign. `HostOs`, the platform that a target is resolved on, cannot be
Windows.

`app/` runs the steps on the machine: it reads the environment, asks the file system, carries out
the actions, and turns configurations into JSON and back. `tests/` runs them on a small file system
held in memory.
