use vstd::prelude::*;
use vstd::string::*;
use crate::conf::Config;
use crate::text::{replace_all, replace_all_str};

verus! {

/// Name of the application's directory under the data and config homes.
pub const APP_DIR: &'static str = "ebb";

/// File name of the HTML wrapper, in the data directory.
pub const WRAPPER_FILE: &'static str = "wrapper.html";

/// File name of the configuration, in the config directory.
pub const CONFIG_FILE: &'static str = "config.json";

/// The tag in the wrapper that the author's name replaces.
pub const AUTHOR_TAG: &'static str = "{{ author }}";

/// The tag in the wrapper that the blog's name replaces.
pub const TITLE_TAG: &'static str = "{{ title }}";

/// The wrapper that new blogs start from.
pub const DEFAULT_WRAPPER: &'static str = "<!DOCTYPE html>
<html>
<head>
<meta charset=\"utf-8\">
<title>{{ title }}</title>
<meta name=\"author\" content=\"{{ author }}\">
</head>
<body>
<header><h1>{{ title }}</h1></header>
<main>{{ content }}</main>
<footer>{{ author }}</footer>
</body>
</html>
";

/// The sub-directories of the application's data directory.
#[derive(Debug, Clone, Copy, PartialEq, Eq, Structural)]
pub enum Dir {
    /// The data directory itself.
    Root,
    /// Where the raw posts go.
    Posts,
    /// Where the built posts go.
    Built,
}

/// The name of each sub-directory; the root has the empty name.
pub open spec fn dir_name(d: Dir) -> Seq<char> {
    match d {
        Dir::Root => Seq::<char>::empty(),
        Dir::Posts => seq!['p', 'o', 's', 't', 's'],
        Dir::Built => seq!['b', 'u', 'i', 'l', 't'],
    }
}

impl Dir {
    /// The name of this sub-directory.
    pub fn to_string(&self) -> (r: String)
        ensures
            r@ == dir_name(*self),
    {
        proof {
            reveal_strlit("");
            reveal_strlit("posts");
            reveal_strlit("built");
        }
        match self {
            Dir::Root => String::from_str(""),
            Dir::Posts => String::from_str("posts"),
            Dir::Built => String::from_str("built"),
        }
    }
}

/// The wrapper for a configuration: the author's name in place of each
/// author tag, then the blog's name in place of each title tag.
pub open spec fn wrapper_for(template: Seq<char>, config: Config) -> Seq<char> {
    replace_all(replace_all(template, AUTHOR_TAG@, config.author@), TITLE_TAG@, config.blog_name@)
}

/// Fills `template` with the values of `config`.
pub fn make_wrapper(template: &str, config: &Config) -> (r: String)
    ensures
        r@ == wrapper_for(template@, *config),
{
    proof {
        reveal_strlit("{{ author }}");
        reveal_strlit("{{ title }}");
    }
    let with_author = replace_all_str(template, AUTHOR_TAG, config.author.as_str());
    replace_all_str(with_author.as_str(), TITLE_TAG, config.blog_name.as_str())
}

} // verus!
