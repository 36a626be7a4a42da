# lidarr_backend

The Lidarr backend of a media request bot. A requester searches for artists and
albums, picks one, answers a question or two about it, and the backend has Lidarr
monitor it and search for it.

`src/` is the library, written in Verus and verified. It takes every
decision and leaves the calls to others: a request is a sequence of steps, each of
which names the call to make to Lidarr next and goes on from what that call came to.

| module | what it holds |
| --- | --- |
| `models`, `provider`, `config`, `commands` | the resources of Lidarr and the values the bot shows and hands back |
| `lidarr` | the backend, and how its settings are resolved |
| `search`, `media` | what a search offers |
| `picker`, `selection` | the questions, and what is read from the answers |
| `request` | the steps of a request |
| `display` | what is shown before and after a request |
| `error` | what can go wrong, and what is said about it |
| `laws`, `picker_laws`, `request_laws` | what holds of all of it together |

`app/` makes the calls: it turns steps into HTTP requests and JSON into the
library's types. `tests/` runs the library on concrete values.
