# rhema

The decisions of a live scripture-detection assistant, verified with Verus, and the
desktop application around them.

## The library (`src/`)

| Module | What it holds |
| --- | --- |
| `text` | Decimal numbers and verse references such as `John 3:16` |
| `score` | Confidence and similarity scores, as binary64 bit patterns, and their order |
| `verse` | Verses and places |
| `ranking` | What it means to arrange items by score, stably, the highest first |
| `search` | Semantic search: vector and full-text hits, merged and ranked |
| `detection` | Resolving a detected passage to a verse |
| `status` | What the frontend is told of the pipeline and of reading mode |
| `assets` | Where the files of the application are looked for |
| `loading` | Loading the embedding model, on demand and at startup |
| `http` | HTTP status codes |
| `download`, `download_laws` | Downloading the embedding model |

Functions that a caller cannot get past without outside work (a database lookup, a
file, the network) are decisions: they take what is known so far and say what is to be
done next. Proof functions whose names begin with `law_` state what holds of the
library as a whole.

## The application (`app/`)

Ordinary Rust: it asks the database, reads and writes files, talks to the server and to
the frontend, and leaves it to the library what to ask, load, fetch and show. It
registers the commands of detection alone: those for browsing the Bible, audio,
transcription, broadcasting and remote control, and memory statistics, are not part of
this crate. It builds together with the detection, Bible and broadcast crates of the
same application.
