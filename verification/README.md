# my_wry

A desktop WebView host driven from Python: each application instance opens a
native window with a web view on one shared runtime thread, serves its front
end through a `wry://` protocol, and forwards page and Python events to
Python handlers on the main thread.

The decisions of the host are a verified library (Verus):

- `src/instance.rs` — the status of one instance: start, stop, show/hide,
  the end of a run and what a waiter is told.
- `src/runtime.rs` — the shared runtime thread: where a window request goes
  (straight to the event loop, or into the queue, spawning a thread), and
  what happens when the loop comes up or ends.
- `src/windows.rs` — the table of open windows and the answer of the event
  loop to each of its events, including the script that hands a Python
  answer back to the page.
- `src/events.rs` — page and Python events, the per-instance queue with its
  single delivery call, the sorted handler registry, and the answers to the
  page.
- `src/resources.rs` — the `wry://` protocol: routing, percent-decoding,
  keeping paths below the resource root, content types, and the checks on
  the resource root.
- `src/icon.rs`, `src/text.rs` — the window icon, and trimming, ordering and
  JSON quoting of text.

`app/` is the Python extension (pyo3) and the native layer (tao, wry, the
file system, locks and threads) around the library. It embeds
`assets/test.html`, `assets/test-background.png` and `assets/my_wry.png`
from an `assets` directory beside `app/`, which is not part of this tree.
