# llm_agent

A terminal agent that talks to an OpenAI-compatible chat completion endpoint
and lets the model call a few tools (list a directory, print the working
directory, read and write files, tell the time).

`src/` is the verified library:

- `conversation_message`: the conversation's messages and tool calls, the
  tool catalogue (`ToolKind`), and the JSON text of tool call requests.
- `api::llm::openai`: the chat completion message, request and response,
  the conversion between API messages and conversation messages, and the
  provider's request building and reply handling.
- `tools`: the tools' names, descriptions and parameter schemas, the JSON
  answers they give, the access check of the file system tools.
- `agent_core::conversation::session`: the session's state machine, with
  the laws it keeps (append-only history, one model call at a time, ...).
- `interface`: the terminal interface's key handling, message printing and
  layout arithmetic.
- `llm`, `message`, `text`: errors of the model call, the earlier message
  form, and the JSON and number text helpers.

`app/` is the program around it: the HTTP exchange, the tokio event loops,
the terminal, the file system and clock access, and the serde forms of the
library's types.
