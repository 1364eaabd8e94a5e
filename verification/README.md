# Fast Diary, verified core

The decisions behind the Fast Diary windows and widgets, written in Verus and proved against
their contracts.

| Module             | What it holds                                                                   |
|--------------------|---------------------------------------------------------------------------------|
| `markdown`         | Markdown rendered into plain text and styled byte ranges; pulldown-cmark parses |
| `markdown::spec`   | The renderer as a state machine over sequences, which the code is proved against |
| `markdown::laws`   | What holds of every rendering: trimmed text, ranges inside it and in order      |
| `preview`          | When the preview renders again, and where it scrolls to follow the caret        |
| `editor`           | The line of the caret and when it is reported                                   |
| `calendar`         | Months, how the calendar moves, how a day cell is filled                        |
| `diary_list`       | How the arrow keys walk through the list of diaries                             |
| `diaries`          | Diary names, days and hours; day clicks, arrow keys, creating, drafts, saving   |
| `folder`           | Opening, encrypting, re-keying and locking a folder, given the vault's outcome  |
| `window`           | Menu items, the folder page, auto lock, saving, and the window's event table    |
| `password`         | Key presses of the password box, pasting, and the masked password              |
| `state`, `keys`    | The application state and the key presses that the functions read               |
| `text`             | Character classes, UTF-8 lengths and the few calls into std and zeroize         |

`app/` holds the floating point geometry (split view, calendar grid, icons, heading sizes and
the preview's scroll target), which stays outside the verified library, and a session that
reads and writes a plain folder of diaries as the library's steps decide.
