//! Where the server's configuration lives and what it holds.

use vstd::prelude::*;
use vstd::string::*;

verus! {

/// The server's configuration file.
#[derive(Debug, PartialEq)]
pub struct Config {
    pub api_key: String,
}

/// `base` extended by the relative path `part`, with a `/` between them
/// unless `base` is empty or already ends with one (as `PathBuf::push`
/// does on Unix for a relative `part`).
pub open spec fn path_join(base: Seq<char>, part: Seq<char>) -> Seq<char> {
    if base.len() > 0 && base.last() != '/' {
        base + "/"@ + part
    } else {
        base + part
    }
}

/// The configuration file below the home directory `home`.
pub open spec fn config_file_under(home: Seq<char>) -> Seq<char> {
    path_join(path_join(path_join(home, ".config"@), "mcp-server-gpt-chat"@), "config.toml"@)
}

/// The configuration file lies at `.config/mcp-server-gpt-chat/config.toml`
/// below the home directory, with one `/` after the home directory's own
/// text (none added when it already ends with one, and none for an empty
/// home).
pub proof fn lemma_config_file_under(home: Seq<char>)
    ensures
        home.len() > 0 && home.last() != '/' ==> config_file_under(home) == home
            + "/.config/mcp-server-gpt-chat/config.toml"@,
        home.len() == 0 || home.last() == '/' ==> config_file_under(home) == home
            + ".config/mcp-server-gpt-chat/config.toml"@,
{
    reveal_strlit("/");
    reveal_strlit(".config");
    reveal_strlit("mcp-server-gpt-chat");
    reveal_strlit("config.toml");
    reveal_strlit("/.config/mcp-server-gpt-chat/config.toml");
    reveal_strlit(".config/mcp-server-gpt-chat/config.toml");
    let a = path_join(home, ".config"@);
    assert(a.len() > 0 && a.last() == 'g');
    let b = path_join(a, "mcp-server-gpt-chat"@);
    assert(b.len() > 0 && b.last() == 't');
    assert(a =~= home + (if home.len() > 0 && home.last() != '/' { "/"@ } else { Seq::empty() })
        + ".config"@);
    if home.len() > 0 && home.last() != '/' {
        assert(config_file_under(home) =~= home + "/.config/mcp-server-gpt-chat/config.toml"@);
    } else {
        assert(config_file_under(home) =~= home + ".config/mcp-server-gpt-chat/config.toml"@);
    }
}

/// The home directory that the configuration is looked up under: `home`,
/// else `/root`.
pub open spec fn home_or_default(home: Option<String>) -> Seq<char> {
    match home {
        Some(h) => h@,
        None => "/root"@,
    }
}

fn push_path(base: &mut String, part: &str)
    ensures
        final(base)@ == path_join(old(base)@, part@),
{
    let n = base.as_str().unicode_len();
    if n > 0 && base.as_str().get_char(n - 1) != '/' {
        base.append("/");
    }
    base.append(part);
}

/// The path of the configuration file,
/// `<home>/.config/mcp-server-gpt-chat/config.toml`, where `home` is the
/// value of `HOME` (when it is set and valid Unicode), else `/root`.
pub fn config_path(home: Option<String>) -> (p: String)
    ensures
        p@ == config_file_under(home_or_default(home)),
{
    let mut p = match home {
        Some(h) => h,
        None => String::from_str("/root"),
    };
    push_path(&mut p, ".config");
    push_path(&mut p, "mcp-server-gpt-chat");
    push_path(&mut p, "config.toml");
    p
}

/// What a failure to read the configuration file at `path` is reported
/// with.
pub open spec fn read_failure_text(path: Seq<char>) -> Seq<char> {
    "Failed to read config file: "@ + path
        + "\nCreate it with your OpenAI API key.\nExample:\n\napi_key = \"sk-...\""@
}

/// The context given to a failure to read the configuration file at
/// `path`: where it was looked for and how to create it.
pub fn read_failure_context(path: &str) -> (m: String)
    ensures
        m@ == read_failure_text(path@),
{
    let mut m = String::from_str("Failed to read config file: ");
    m.append(path);
    m.append("\nCreate it with your OpenAI API key.\nExample:\n\napi_key = \"sk-...\"");
    m
}

/// The context given to a failure to parse the configuration file at
/// `path`.
pub fn parse_failure_context(path: &str) -> (m: String)
    ensures
        m@ == "Failed to parse "@ + path@,
{
    let mut m = String::from_str("Failed to parse ");
    m.append(path);
    m
}

} // verus!
