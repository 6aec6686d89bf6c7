# tauri-runtime-servo

A Tauri webview runtime backed by the Servo engine, in-process.

`src/` is the verified core. It holds the windows and the webviews, decides what
each operation means for them, serves the `ipc://` scheme, and says when and how
the engine and its views are made. What the windowing system, the engine and the
application bring along is carried through the trait `Platform` without being
looked at.

- `table`: a map from names to values
- `window`, `webview`: live windows and webviews, and the operations on them
- `window_dispatch`, `webview_dispatch`: the handles that every thread can use
- `message`, `error`: what travels to the main thread, and what can go wrong
- `builder`, `geometry`, `cursor`: window attributes, places, sizes and icons
- `engine`: building the engine and creating views
- `ipc`, `encoding`, `address`: the IPC bridge and the encodings it reads
- `json`, `jsvalue`: JSON values and the values of page scripts

`app/` connects the core to Tao, Servo and Tauri's traits: it sends the messages,
performs the actions that the core decides on, and converts types.

`tests/` runs the core on concrete values.
