# audio_engine

The engine of a two-way live speech translator for calls: it listens to the
user's microphone and to the call, recognises speech (Deepgram, Yandex
SpeechKit or a local Whisper worker), translates it (Groq, LiteLLM, Yandex
Translate) and speaks the translation with a Piper voice.

## Layout

- `src/` — the library, verified with Verus. Each module states its behaviour
  in `requires`/`ensures` over spec functions and views:
  - `engine` — command handling: lifecycle, settings, events, the pipelines a
    start request plans, voice previews;
  - `pipeline` — speech-to-text provider choice, reconnect supervision with
    exponential backoff and automatic fallback, routing of recognised texts;
  - `processor`, `segmenter`, `job_queue` — which texts are translated, job
    numbering and staleness, and the events of one utterance;
  - `translation`, `completion` — provider planning, retries, hedged requests
    and the clean-up of chat-model output;
  - `stt`, `pcm`, `tts`, `audio`, `config`, `tracelog`, `text`, `protocol` —
    request URLs and headers, PCM and base64, phoneme IDs, device choice,
    configuration defaults, trace lines, Unicode-aware string helpers, and the
    command and event types.
  Public proof functions named `law_*` state properties that span calls.
- `app/` — the runtime around the library: audio devices, network sessions,
  model inference, threads and logging. It executes the decisions the library
  makes.
- `tests/` — tests of the library on concrete values.
