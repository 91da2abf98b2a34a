use mcp_server_gpt_chat::config::{config_path, parse_failure_context, read_failure_context, Config};

#[test]
fn config_path_under_home() {
    assert_eq!(
        config_path(Some("/home/ann".to_string())),
        "/home/ann/.config/mcp-server-gpt-chat/config.toml"
    );
    assert_eq!(
        config_path(Some("/home/ann/".to_string())),
        "/home/ann/.config/mcp-server-gpt-chat/config.toml"
    );
    assert_eq!(config_path(None), "/root/.config/mcp-server-gpt-chat/config.toml");
    assert_eq!(config_path(Some(String::new())), ".config/mcp-server-gpt-chat/config.toml");
}

#[test]
fn config_path_matches_pathbuf() {
    for home in ["/home/ann", "/home/ann/", "/", "rel/dir", ""] {
        let expected = std::path::PathBuf::from(home)
            .join(".config")
            .join("mcp-server-gpt-chat")
            .join("config.toml");
        assert_eq!(config_path(Some(home.to_string())), expected.to_str().unwrap());
    }
}

#[test]
fn failure_contexts() {
    assert_eq!(
        read_failure_context("/root/.config/mcp-server-gpt-chat/config.toml"),
        "Failed to read config file: /root/.config/mcp-server-gpt-chat/config.toml\n\
         Create it with your OpenAI API key.\n\
         Example:\n\n\
         api_key = \"sk-...\""
    );
    assert_eq!(parse_failure_context("/x/config.toml"), "Failed to parse /x/config.toml");
}

#[test]
fn config_holds_the_key() {
    let c = Config { api_key: "k".to_string() };
    assert_eq!(c.api_key, "k");
}
