# gemma4_assistant

A desktop assistant that chats with a local Gemma model through Ollama, speaks
its replies (VOICEVOX or Irodori-TTS), looks things up on the web, and edits
Word, Excel and PowerPoint documents through PowerShell COM automation.

## Layout

- `src/` is the verified library (Verus). It holds the decisions and the text
  handling: detecting what a message asks to look up, extracting page text and
  search results, the sentence-by-sentence streaming of a reply, tool-call
  extraction from model output, keyword triggers, the Office tool catalogue,
  the PowerShell scripts for each edit, the sandbox whitelist, backup naming
  and the choice of backup to restore, and the speech clients' URLs.
  Calls into `regex`, `scraper`, `serde_json` and `base64` go through small
  trusted wrappers whose contracts are stated in their doc comments.
- `tests/` runs the library on concrete inputs.
- `app/` is the Tauri program around it: the window and tray, the commands
  the front end invokes, HTTP, PowerShell processes and the file system.
