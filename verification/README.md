# git-vws

Native copy-on-write virtual worktrees for Git. A session has private Git metadata, branch state,
index, working changes and build output, while unchanged file data is shared with a sealed template.

`src/` is the verified library. It holds the encodings, the rules and the state machines of every
command, each with a contract that Verus proves. It opens no file and starts no process: a driver
tells it what was observed, and the library answers with a judgement or with the next thing to do.

- Records and state: `authority`, `inspection`, `state_root`, `opening`, `registration`,
  `record_txn`.
- Git as a child: `git`, `child`, `batch`, `session_git`, `audit`.
- Trees: `storage`, `content`, `walk`, `tree`, `cow`, `probing`, `removal`, `sync`.
- Templates: `manifest`, `passes`, `materialize`, `template`, `template_roots`, `acquire`,
  `template_gc`.
- Sessions: `session`, `session_roots`, `entry`, `creation`, `materializing`, `created`, `publish`,
  `discard`, `remove`, `burial`, `listing`.
- Collection: `objects`, `private_objects`, `loose_gc`, `session_gc`, `maintenance`,
  `findings`.
- Ground: `bytes`, `notation`, `paths`, `order`, `digest`, `cli`, `m4_checkpoint`.

A state machine has a view, a function from the view and an event to the next view, and a function
from the view to what is asked for next. Laws about whole runs stand beside it as public proof
functions whose names begin with `law_`.

`app/` is the program around the library: arguments, system calls, child processes, JSON and output.
`tests/` runs the library on concrete values.
