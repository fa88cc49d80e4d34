use vstd::prelude::*;
use vstd::string::*;
use crate::backend::BackendType;
use crate::format::FormatType;

verus! {

/// The editor used when no configuration names one.
pub const DEFAULT_EDITOR: &'static str = "vi";

/// The user's configuration.
#[derive(Debug)]
pub struct Config {
    pub author: String,
    pub blog_name: String,
    pub backend: BackendType,
    pub format: FormatType,
    pub editor: String,
}

impl Config {
    /// A configuration; posts are written in Markdown.
    pub fn new(author: String, blog_name: String, backend: BackendType, editor: String) -> (r: Config)
        ensures
            r.author == author,
            r.blog_name == blog_name,
            r.backend == backend,
            r.format == FormatType::MD,
            r.editor == editor,
    {
        Config { author, blog_name, backend, format: FormatType::MD, editor }
    }
}

/// The editor command to run: the configured one, else the default.
pub fn editor_command(config: Option<&Config>) -> (r: String)
    ensures
        config is Some ==> r@ == config.unwrap().editor@,
        config is None ==> r@ == DEFAULT_EDITOR@,
{
    match config {
        Some(c) => c.editor.clone(),
        None => String::from_str(DEFAULT_EDITOR),
    }
}

} // verus!
