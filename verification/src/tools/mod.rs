//! The tool that reads a web page and hands it back as Markdown.

pub mod get_page_as_markdown;
pub mod fetch;
pub mod html_to_markdown;
