use codex_agents::account_picker::{AppEvent, FooterHint, LineStyle};
use codex_agents::chat_widget::{ChatWidget, McpAuthStatus, McpServerStatus};
use codex_agents::mcp::{
    app_server_auth_status_display, find_server, mcp_status_line, mcp_transport_summary,
    AddMcpOutput, McpInventoryLoaded, McpServerActionsOpen, McpServerConfig, McpServerEntry,
    McpServerStatusDetail, McpServerTransportConfig, ViewMcpServerTools,
};

fn stdio(name: &str, enabled: bool, command: &str, args: &[&str]) -> McpServerEntry {
    McpServerEntry {
        name: name.to_string(),
        config: McpServerConfig {
            enabled,
            transport: McpServerTransportConfig::Stdio {
                command: command.to_string(),
                args: args.iter().map(|a| a.to_string()).collect(),
            },
        },
    }
}

fn http(name: &str, enabled: bool, url: &str) -> McpServerEntry {
    McpServerEntry {
        name: name.to_string(),
        config: McpServerConfig {
            enabled,
            transport: McpServerTransportConfig::StreamableHttp { url: url.to_string() },
        },
    }
}

fn status(name: &str, auth: McpAuthStatus, tools: usize) -> McpServerStatus {
    McpServerStatus {
        name: name.to_string(),
        auth_status: auth,
        tool_count: tools,
        resource_count: 2,
        resource_template_count: 1,
    }
}

#[test]
fn server_descriptions() {
    let s = stdio("docs", true, "npx", &["-y", "docs-server"]);
    assert_eq!(mcp_status_line(&s.config), "Enabled");
    assert_eq!(mcp_transport_summary(&s.config.transport), "stdio · npx -y docs-server");
    let bare = stdio("bare", false, "run", &[]);
    assert_eq!(mcp_status_line(&bare.config), "Disabled");
    assert_eq!(mcp_transport_summary(&bare.config.transport), "stdio · run");
    let h = http("web", true, "https://example.com/mcp");
    assert_eq!(mcp_transport_summary(&h.config.transport), "http · https://example.com/mcp");

    assert_eq!(app_server_auth_status_display(McpAuthStatus::Unsupported), "Unsupported");
    assert_eq!(app_server_auth_status_display(McpAuthStatus::NotLoggedIn), "Not logged in");
    assert_eq!(app_server_auth_status_display(McpAuthStatus::BearerToken), "Bearer token");
    assert_eq!(app_server_auth_status_display(McpAuthStatus::OAuth), "OAuth");

    let mut w = ChatWidget::new(None);
    assert_eq!(
        w.manager_row_description("docs", &s.config),
        "Enabled · Auth: Unsupported · Tools: 0 · stdio · npx -y docs-server"
    );
    w.mcp_status_snapshot.insert("docs".to_string(), status("docs", McpAuthStatus::OAuth, 5));
    assert_eq!(
        w.manager_row_description("docs", &s.config),
        "Enabled · Auth: OAuth · Tools: 5 · stdio · npx -y docs-server"
    );
}

#[test]
fn manager_lists_servers_by_name() {
    let w = ChatWidget::new(None);
    let servers = vec![http("zeta", true, "https://z"), stdio("alpha", false, "a", &[])];
    let p = w.mcp_manager_popup_params(&servers);
    assert_eq!(p.view_id.as_deref(), Some("mcp-manager-selection"));
    assert_eq!(p.header.len(), 2);
    assert_eq!(p.header[0].text, "MCP Servers");
    assert_eq!(p.header[0].style, LineStyle::Bold);
    assert_eq!(p.header[1].text, "Manage globally configured MCP servers from /mcp.");
    assert_eq!(p.footer_hint, Some(FooterHint::Standard));
    assert_eq!(p.search_placeholder.as_deref(), Some("Type to search MCP servers"));
    let names: Vec<&str> = p.items.iter().map(|i| i.name.as_str()).collect();
    assert_eq!(names, vec!["alpha", "zeta"]);
    assert_eq!(p.items[0].search_value.as_deref(), Some("alpha stdio · a"));
    assert_eq!(
        p.items[0].actions,
        vec![AppEvent::OpenMcpServerActions { name: "alpha".to_string() }]
    );
    assert_eq!(
        p.items[1].selected_description.as_deref(),
        Some("Press Enter to manage this MCP server.")
    );
}

#[test]
fn server_actions_for_enabled_and_disabled_servers() {
    let mut w = ChatWidget::new(None);
    w.mcp_status_snapshot.insert("docs".to_string(), status("docs", McpAuthStatus::BearerToken, 4));
    let servers = vec![stdio("docs", true, "npx", &["docs"]), http("off", false, "https://o")];
    let p = w.mcp_server_actions_popup_params(&servers, "docs", Some("/home/u/.codex/config.toml"));
    let header: Vec<&str> = p.header.iter().map(|l| l.text.as_str()).collect();
    assert_eq!(
        header,
        vec![
            "docs",
            "Enabled",
            "Transport: stdio · npx docs",
            "Config: /home/u/.codex/config.toml",
            "Auth: Bearer token",
            "Tools: 4 · Resources: 2 · Resource templates: 1",
        ]
    );
    let names: Vec<&str> = p.items.iter().map(|i| i.name.as_str()).collect();
    assert_eq!(names, vec!["View tools", "Reconnect", "Disable"]);
    assert_eq!(
        p.items[2].actions,
        vec![AppEvent::SetMcpServerEnabled { name: "docs".to_string(), enabled: false }]
    );
    assert!(p.items[0].dismiss_on_select);
    assert!(!p.items[1].dismiss_on_select);

    let off = w.mcp_server_actions_popup_params(&servers, "off", None);
    let names: Vec<&str> = off.items.iter().map(|i| i.name.as_str()).collect();
    assert_eq!(names, vec!["View tools", "Enable"]);
    assert_eq!(off.header.len(), 5);
    assert_eq!(off.header[4].text, "Tools: 0 · Resources: 0 · Resource templates: 0");

    let missing = w.mcp_server_actions_popup_params(&servers, "nope", None);
    assert_eq!(missing.view_id.as_deref(), Some("mcp-manager-selection"));
    assert_eq!(find_server(&servers, "off"), Some(1));
    assert_eq!(find_server(&servers, "nope"), None);
}

#[test]
fn opening_actions_of_a_missing_server_is_an_error() {
    let mut w = ChatWidget::new(None);
    let servers = vec![stdio("docs", true, "npx", &[])];
    match w.open_mcp_server_actions("ghost".to_string(), &servers, None) {
        McpServerActionsOpen::Error { message } => {
            assert_eq!(message, "No global MCP server named `ghost`.")
        }
        other => panic!("unexpected {other:?}"),
    }
    assert_eq!(w.active_mcp_action_server, None);
    assert!(matches!(
        w.open_mcp_server_actions("docs".to_string(), &servers, None),
        McpServerActionsOpen::Show { .. }
    ));
    assert_eq!(w.active_mcp_action_server.as_deref(), Some("docs"));
}

#[test]
fn refresh_drops_a_managed_server_that_is_gone() {
    let mut w = ChatWidget::new(None);
    w.active_mcp_action_server = Some("docs".to_string());
    let with_docs = vec![stdio("docs", true, "npx", &[])];
    let r = w.refresh_mcp_manager_views(&with_docs, None);
    assert!(r.server_actions.is_some());
    assert_eq!(w.active_mcp_action_server.as_deref(), Some("docs"));
    let r = w.refresh_mcp_manager_views(&Vec::new(), None);
    assert!(r.server_actions.is_none());
    assert!(r.manager.items.is_empty());
    assert_eq!(w.active_mcp_action_server, None);
}

#[test]
fn viewing_tools_fetches_the_inventory_when_needed() {
    let mut w = ChatWidget::new(None);
    w.active_mcp_action_server = Some("docs".to_string());
    assert!(matches!(
        w.view_mcp_server_tools("docs".to_string()),
        ViewMcpServerTools::FetchInventory
    ));
    assert_eq!(w.pending_mcp_tools_view.as_deref(), Some("docs"));

    let servers = vec![stdio("docs", true, "npx", &[])];
    match w.on_mcp_inventory_loaded(vec![status("docs", McpAuthStatus::OAuth, 3)], &servers, None) {
        McpInventoryLoaded::ShowServerTools { name } => assert_eq!(name, "docs"),
        other => panic!("unexpected {other:?}"),
    }
    assert_eq!(w.pending_mcp_tools_view, None);
    assert_eq!(w.active_mcp_action_server, None);
    assert!(w.mcp_status_snapshot.contains_key("docs"));

    match w.view_mcp_server_tools("docs".to_string()) {
        ViewMcpServerTools::ShowServerTools { name } => assert_eq!(name, "docs"),
        other => panic!("unexpected {other:?}"),
    }

    w.pending_mcp_tools_view = Some("other".to_string());
    match w.on_mcp_inventory_loaded(vec![status("docs", McpAuthStatus::OAuth, 3)], &servers, None) {
        McpInventoryLoaded::Error { message } => {
            assert_eq!(message, "Failed to load MCP inventory for `other`.")
        }
        other => panic!("unexpected {other:?}"),
    }
    match w.on_mcp_inventory_loaded(Vec::new(), &servers, None) {
        McpInventoryLoaded::Refresh { views } => {
            assert_eq!(views.manager.items.len(), 1);
            assert!(views.server_actions.is_none());
        }
        other => panic!("unexpected {other:?}"),
    }
    assert!(!w.mcp_status_snapshot.contains_key("docs"));
}

#[test]
fn later_statuses_of_a_name_win() {
    let mut w = ChatWidget::new(None);
    let servers = vec![stdio("docs", true, "npx", &[])];
    w.on_mcp_inventory_loaded(
        vec![status("docs", McpAuthStatus::OAuth, 1), status("docs", McpAuthStatus::NotLoggedIn, 9)],
        &servers,
        None,
    );
    assert_eq!(
        w.manager_row_description("docs", &servers[0].config),
        "Enabled · Auth: Not logged in · Tools: 9 · stdio · npx"
    );
}

#[test]
fn mcp_command_outputs() {
    let mut w = ChatWidget::new(None);
    w.pending_mcp_tools_view = Some("x".to_string());
    assert!(matches!(
        w.add_mcp_output(McpServerStatusDetail::Full, &Vec::new()),
        AddMcpOutput::FetchFullInventory
    ));
    assert!(matches!(
        w.add_mcp_output(McpServerStatusDetail::ToolsAndAuthOnly, &Vec::new()),
        AddMcpOutput::EmptyOutput
    ));
    let servers = vec![stdio("docs", true, "npx", &[])];
    match w.add_mcp_output(McpServerStatusDetail::ToolsAndAuthOnly, &servers) {
        AddMcpOutput::ShowManager { params } => assert_eq!(params.items.len(), 1),
        other => panic!("unexpected {other:?}"),
    }
    assert_eq!(w.pending_mcp_tools_view, None);
}
