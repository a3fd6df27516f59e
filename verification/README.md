# browser_use

A Model Context Protocol server that gives MCP clients browser-backed access to web
pages: its tool `browser_get_page_as_markdown` navigates to a URL and returns the page
as Markdown, one page of a chosen size at a time.

The decisions of the server are a Verus-verified library (`src/`):

- `tools::get_page_as_markdown` — the tool's parameters and the pagination of the
  Markdown in pages of a given number of characters (page count, clamping of the
  requested page, title heading, page note), with laws on how pages tile the document
  and join back into it.
- `tools::fetch` — the tool's run as a state machine: navigation, the not-found
  verdicts, the LightPanda and Readability extraction paths and their fallback.
- `tools::html_to_markdown` — the conversion of the extracted HTML, done by `htmd`.
- `browser::*` — launch options, which browser to run, how Chrome and LightPanda are
  launched, the DevTools endpoint URL, request and reply, the active-tab search and the
  deadline-bound waits.
- `mcp` — the answer of a tool call.

`app/` is the executable around it: command line, logging, the rmcp transports, and the
browser I/O that the library's state machines ask for.
