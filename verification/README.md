# phraser

The core of a dictation application: a shortcut starts a recording, its release
has it transcribed, a language model may rework the text, and the result is
pasted into the application that was in front.

`src/` decides, and is verified with Verus. `app/` records, sends, shows, stores
and pastes.

| module         | subject                                                          |
| -------------- | ---------------------------------------------------------------- |
| `actions`      | the actions behind the shortcuts, press and release              |
| `session`      | one recording from the release of the shortcut to the paste      |
| `pipeline`     | one transcription from the recording to the text that is pasted  |
| `post_process` | the questions to the models, and their answers                   |
| `chinese`      | conversion between the written forms of Chinese                  |
| `llm_client`   | requests to chat services, and their replies                     |
| `history`      | the settings of the history, transcribing an entry anew          |
| `frontmost`    | the application that gets the text                               |
| `settings`     | the settings that all of these read                              |
| `headers`      | HTTP headers and status codes of `reqwest`                       |
| `json`         | JSON documents of `serde_json`                                   |
| `text`         | trimming, searching, replacing, reading numbers                  |

Each function that decides something states its result exactly, over a spec
function of the same module. The proof functions whose names begin with `law_`
state what holds of several of them together.
