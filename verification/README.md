# AO3 Reader

An e-reader for an online archive of works, and an emulator of it in a window.

`src/` holds the decisions: what the reader does when a button is released, the
cover closes, a cable is plugged in, the battery runs low, a file is opened or a
list of works answers. Each decision is a function from the state and an event
to the next state and a list of actions, with a contract that Verus proves.
`src/laws` states what holds of the decisions taken together.

`app/` performs the actions: it draws, runs scripts, reads the battery, fetches
pages and turns the screen. When a decision has to know something first, it says
so (`Wait`, `Need`), and goes on with what the program found out (`Answer`).

- `vocabulary`, `action`, `session`: the words of events, actions and states
- `tasks`, `timers`: the timed tasks, and which of them still send their event
- `power`: sleep, cover, cable, battery, network, storage
- `navigation`: views, the way back, the screen
- `pages`, `text`: lists of works, links and messages
- `dispatch`, `answer`: the decision on an event, whatever it is, and how it goes
  on
- `lifecycle`: the start and the end of the program
- `emulator`, `keys`, `canvas`: the window, its keys and its pixels

What the proofs take for granted stands in `text`: how `chrono` writes a time,
how `reqwest` writes a status and reads a header, and how the standard library
reads the bytes that a script prints.
