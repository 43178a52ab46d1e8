# dockerwatch

A terminal monitor for Docker containers: a live table of CPU and memory usage that
can be sorted and filtered, a panel for the selected container, and a popup with its
details from which it can be killed.

The library under `src/` holds everything that is decided or laid out, written in
Verus with contracts that are proved. The program under `app/` talks to the daemon and
the terminal, does the floating-point arithmetic, and paints what the library lays out.

| module | what it holds |
| --- | --- |
| `text`, `sizes`, `percent`, `style` | texts, sizes in bytes, percentages by their bit patterns, styled lines |
| `docker` | what the daemon reports, rows, snapshots, the rhythm of polling |
| `rows`, `order` | the table's rows, the filter, the stable sort |
| `detail`, `popup` | what the popup tells of a container |
| `header`, `table`, `panel`, `footer`, `layout`, `scene` | the screen and its parts |
| `ui` | the state of the interface and what each key does to it |
| `laws`, `session` | what holds of all of it, for all inputs and all sessions |

Believed without proof, each with a comment that says what is claimed: the lower case of
a text, searching, comparing, pushing and popping of std's strings; `format_size` of
humansize; `Layout::split` and `Block::inner` of ratatui.

The totals in the header cover all containers, whether or not a filter hides some of
them from the table.
