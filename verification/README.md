# ratisui

The verified core of a terminal Redis client, written in Verus, with a
small line-mode console around it.

## Layout

- `src/` — the library. Every function has a contract that Verus proves.
  - `text`, `utils`: string helpers, escaping, command-line tokenizing, and
    turning stored bytes into text (UTF-8, protobuf, and the text of a
    Java object, which the application decodes with `jaded`).
  - `resp`, `console`, `cli_tab`, `completable`, `completion`, `redis_cli`:
    the command line: replies as console lines, the bounded console, the
    history, completion items and the completion menu.
  - `explorer`, `explorer_popups`, `explorer_tab`, `value_tables`,
    `raw_paragraph`, `highlight_value`, `ft_search`, `ft_search_panel`:
    the key explorer: scan patterns and filters, the key tree, the tables
    of list, hash and stream values, paging, highlighting of raw values,
    and the full-text search panel.
  - `configuration`, `servers`, `database_editor`, `create_key_editor`,
    `app_configuration_editor`, `context`, `cli`, `field`, `nav`, `footer`:
    settings and saved profiles, the forms and dialogs, the top-level key
    and mouse routing, and the key hints of the footer.
  - `bus`, `redis_opt`, `list_list`, `theme`, `app`: the toast queue,
    server replies about modes and clusters, column widths, themes, and the
    decisions of the terminal run loop, one step at a time.
- `app/` — a line-mode console: it reads the settings files, connects to
  the chosen profile and runs each line read from standard input as a
  command, printing the reply as the library lays it out.
- `tests/` — tests of the library on concrete values.

Outside crates are reached through small trusted wrappers whose doc
comments say what is assumed of them.
