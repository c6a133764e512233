# isolate_setup

Setting up JavaScript isolates: starting the engine, creating isolates, handing
them the tasks that the engine posts, and giving back memory that only the start
needed.

`src/` is a library verified with Verus. It takes the decisions and works on plain
values:

- `engine.rs`: flags, platform, and the rule that the engine starts once
- `isolate.rs`: how an isolate is built, and which memory is given back then
- `registry.rs`: the registry of isolates and the way of a task into its queue
- `elf.rs`: code and relocation table of the main executable
- `pages.rs`: the whole pages inside a range of memory
- `outside.rs`: types of other crates, and the call that wakes an event loop

`app/` makes the calls into the engine, the kernel and the runtime, and holds the
locks. `tests/` runs the library.
