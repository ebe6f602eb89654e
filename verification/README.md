# guitar

The decisions of a terminal git client, as a verified library: what each key
press does, how background requests and their password prompts run, how rebases,
merges, cherry-picks and reverts go on after a conflict, and when a change on disk
asks for a reload.

The library performs no I/O. A handler such as `App::on_checkout` reads what the
host has put into `App` (a snapshot of the repository and of the panes), updates
the rest of `App`, and queues effects. The host takes them with
`App::take_effects`, carries them out, and reports back through functions such as
`App::command_finished`.

    src/app.rs         the state, and the view of it that the contracts use
    src/effect.rs      what the handlers ask the host to do
    src/input/         the handlers, by subject
    src/watcher.rs     when a watched git directory asks for a reload
    src/scan.rs        what is looked at on disk, and the signature of what was seen
    src/open.rs        how a repository is opened
    src/laws.rs        what holds across handlers and over whole runs
    tests/             tests
    app/               the host side: environment, disk, repository, threads

Every handler is specified by a function on the state's view: the contract of
`on_checkout` says that the state afterwards is `after_checkout()` of the state
before. The laws are proved of these functions.
