# dioxus_codemirror

A CodeMirror 6 editor as a Dioxus web component, with its decision logic
verified in Verus.

* `src/` -- the verified library:
  * `cmd`, `evt`, `language` -- the messages exchanged with the editor's glue
    script and the languages it highlights;
  * `theme`, `theme_color`, `theme_colors`, `editor_features` -- the editor's
    configuration, including the inline style that carries colour overrides;
  * `code_mirror` -- the editor session: mount ids, the `init` command, and
    what to send to the editor and what to do with its events, so that edits
    are never echoed back and external value changes reach the editor once;
  * `lsp` -- LSP messages, the server traits and the push channel;
    `mock_lsp_server`, `mock_lsp_server_async` and `rpc` -- the in-page mock
    servers of the example;
  * `vendor` -- the rules for vendoring CodeMirror from esm.sh (fetch plans,
    import rewriting, path resolution, the generated `index.js`, the crawl);
  * `text` -- character-sequence helpers (decimal digits, search, replace).
* `app/` -- the Dioxus component and LSP bridge, the JSON forms of the
  messages, the glue script, the example page, and the vendoring task's
  downloads and file writes.
* `tests/` -- tests of the library on concrete values.
