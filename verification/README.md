# zz-drop-tui

The interactive setup wizard of zz-drop: it walks the operator through
choosing a storage provider (Nextcloud, Google Drive, OneDrive, Dropbox),
signing in, probing an upload, protecting the profile container with a
passphrase and, optionally, pushing it to the account server. It also
opens existing containers to browse, test, extend, shrink or wipe them.

## Layout

- `src/` — the library, verified with Verus. The whole application state
  is a value of `App`; every key press and every answer from the outside
  world is a function from one state to the next, with a contract that
  says exactly which fields change and how.
  - `text`, `input`: strings as character sequences; the line editor.
  - `wizard`, `profile`, `screens`, `widgets`, `theme`: the state of each
    step, the profile container model, titles, key hints, step bands,
    pills and colours.
  - `app`, `app_keys`, `keys_*`: the state machine of key presses.
  - `app_results`, `oauth_results`, `unlock_results`, `outcomes`: what the
    answers of the disk, the network and the OAuth providers do.
  - `save`, `remote`: the container edits, the profile the wizard saves,
    messages for failed server calls, push versions and probe file names.
  - `qr`: QR panel sizes, the text renderings and the inline image pixels.
  - `layout`: how the screen is cut into title, steps, body and key bar.
  - `content`, `setup_panels`, `form`: what each screen says, as lines of
    styled text, radio rows and input fields, for the driver to draw.
  - `alias_gen`: suggested names for new connections.
  - `laws`: properties that span several operations.
- `tests/` — behaviour tests run against the compiled library.
- `app/` — the terminal driver: event loop, drawing, and the calls into
  the zz-drop core crate, the clipboard and the browser.
